//! The keys under which stored events are listed and watched.

use crate::models::any::{AnyActerModel, AnyActerModelView};
use vstd::prelude::*;

verus! {

/// A key of the index: all events of one room, or all events about one object.
#[derive(Debug)]
pub enum IndexKey {
    RoomHistory(String),
    ObjectHistory(String),
}

/// Mathematical model of an [`IndexKey`].
pub enum IndexKeyView {
    RoomHistory(Seq<char>),
    ObjectHistory(Seq<char>),
}

impl View for IndexKey {
    type V = IndexKeyView;

    open spec fn view(&self) -> IndexKeyView {
        match self {
            IndexKey::RoomHistory(id) => IndexKeyView::RoomHistory(id@),
            IndexKey::ObjectHistory(id) => IndexKeyView::ObjectHistory(id@),
        }
    }
}

impl DeepView for IndexKey {
    type V = IndexKeyView;

    open spec fn deep_view(&self) -> IndexKeyView {
        self@
    }
}

impl Clone for IndexKey {
    fn clone(&self) -> (res: Self)
        ensures
            res@ == self@,
    {
        match self {
            IndexKey::RoomHistory(id) => IndexKey::RoomHistory(id.clone()),
            IndexKey::ObjectHistory(id) => IndexKey::ObjectHistory(id.clone()),
        }
    }
}

impl IndexKey {
    /// Whether two keys are the same key.
    pub fn same(&self, other: &IndexKey) -> (res: bool)
        ensures
            res == (self@ == other@),
    {
        match (self, other) {
            (IndexKey::RoomHistory(a), IndexKey::RoomHistory(b)) => *a == *b,
            (IndexKey::ObjectHistory(a), IndexKey::ObjectHistory(b)) => *a == *b,
            _ => false,
        }
    }
}

impl AnyActerModelView {
    /// Whether the event is listed under `key`: under the history of its room, and under
    /// the history of the object it is or hangs on.
    pub open spec fn is_under(self, key: IndexKeyView) -> bool {
        match key {
            IndexKeyView::RoomHistory(room) => self.meta().room_id == room,
            IndexKeyView::ObjectHistory(object) => self.history_id() == object,
        }
    }

    /// The keys the event is listed under, the room first.
    pub open spec fn index_keys(self) -> Seq<IndexKeyView> {
        seq![
            IndexKeyView::RoomHistory(self.meta().room_id),
            IndexKeyView::ObjectHistory(self.history_id()),
        ]
    }
}

impl AnyActerModel {
    /// Whether the event is listed under `key`.
    pub fn is_under(&self, key: &IndexKey) -> (res: bool)
        ensures
            res == self@.is_under(key@),
    {
        match key {
            IndexKey::RoomHistory(room) => self.event_meta().room_id == *room,
            IndexKey::ObjectHistory(object) => *self.history_id() == *object,
        }
    }

    /// The keys the event is listed under, the room first.
    pub fn indizes(&self) -> (res: Vec<IndexKey>)
        ensures
            res.deep_view() == self@.index_keys(),
    {
        let mut keys = Vec::new();
        keys.push(IndexKey::RoomHistory(self.event_meta().room_id.clone()));
        keys.push(IndexKey::ObjectHistory(self.history_id().clone()));
        assert(keys.deep_view() =~= self@.index_keys());
        keys
    }
}

/// An event is listed under a key exactly when the key is one of its keys.
pub proof fn lemma_is_under_iff_own_key(m: AnyActerModelView, key: IndexKeyView)
    ensures
        m.is_under(key) <==> m.index_keys().contains(key),
{
    let keys = m.index_keys();
    if m.is_under(key) {
        match key {
            IndexKeyView::RoomHistory(_) => {
                assert(keys[0] == key);
            },
            IndexKeyView::ObjectHistory(_) => {
                assert(keys[1] == key);
            },
        }
    }
}

} // verus!
