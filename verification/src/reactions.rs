//! Reactions to one object, folded into one entry per sender.

use crate::error::CoreError;
use crate::foreign::is_event_id;
use crate::models::any::{AnyActerModel, AnyActerModelView};
use crate::models::relations::{Reaction, ReactionView};
use crate::referencing::{IndexKey, IndexKeyView};
use crate::store::{lookup, Store};
use vstd::prelude::*;

verus! {

/// Who reacted, when, and whether it was the local user.
#[derive(Debug)]
pub struct ReactionRecord {
    pub sender_id: String,
    pub timestamp: u64,
    pub sent_by_me: bool,
}

/// Mathematical model of a [`ReactionRecord`].
pub struct ReactionRecordView {
    pub sender_id: Seq<char>,
    pub timestamp: u64,
    pub sent_by_me: bool,
}

impl View for ReactionRecord {
    type V = ReactionRecordView;

    open spec fn view(&self) -> ReactionRecordView {
        ReactionRecordView {
            sender_id: self.sender_id@,
            timestamp: self.timestamp,
            sent_by_me: self.sent_by_me,
        }
    }
}

impl DeepView for ReactionRecord {
    type V = ReactionRecordView;

    open spec fn deep_view(&self) -> ReactionRecordView {
        self@
    }
}

impl Clone for ReactionRecord {
    fn clone(&self) -> (res: Self)
        ensures
            res@ == self@,
    {
        ReactionRecord {
            sender_id: self.sender_id.clone(),
            timestamp: self.timestamp,
            sent_by_me: self.sent_by_me,
        }
    }
}

impl ReactionRecord {
    pub fn new(sender_id: String, timestamp: u64, sent_by_me: bool) -> (res: Self)
        ensures
            res@ == (ReactionRecordView { sender_id: sender_id@, timestamp, sent_by_me }),
    {
        ReactionRecord { sender_id, timestamp, sent_by_me }
    }

    pub fn sender_id(&self) -> (res: String)
        ensures
            res@ == self@.sender_id,
    {
        self.sender_id.clone()
    }

    pub fn sent_by_me(&self) -> (res: bool)
        ensures
            res == self@.sent_by_me,
    {
        self.sent_by_me
    }

    pub fn timestamp(&self) -> (res: u64)
        ensures
            res == self@.timestamp,
    {
        self.timestamp
    }
}

/// The reaction that currently stands for one sender.
#[derive(Debug)]
pub struct ReactionEntry {
    /// Id of the reaction event.
    pub event_id: String,
    pub sender: String,
    pub key: String,
    pub timestamp: u64,
    pub sent_by_me: bool,
}

/// Mathematical model of a [`ReactionEntry`].
pub struct ReactionEntryView {
    pub event_id: Seq<char>,
    pub sender: Seq<char>,
    pub key: Seq<char>,
    pub timestamp: u64,
    pub sent_by_me: bool,
}

impl View for ReactionEntry {
    type V = ReactionEntryView;

    open spec fn view(&self) -> ReactionEntryView {
        ReactionEntryView {
            event_id: self.event_id@,
            sender: self.sender@,
            key: self.key@,
            timestamp: self.timestamp,
            sent_by_me: self.sent_by_me,
        }
    }
}

impl DeepView for ReactionEntry {
    type V = ReactionEntryView;

    open spec fn deep_view(&self) -> ReactionEntryView {
        self@
    }
}

impl Clone for ReactionEntry {
    fn clone(&self) -> (res: Self)
        ensures
            res@ == self@,
    {
        ReactionEntry {
            event_id: self.event_id.clone(),
            sender: self.sender.clone(),
            key: self.key.clone(),
            timestamp: self.timestamp,
            sent_by_me: self.sent_by_me,
        }
    }
}

impl ReactionEntryView {
    /// The entry that a reaction event makes, seen by the user `my_id`.
    pub open spec fn of_reaction(r: ReactionView, my_id: Seq<char>) -> ReactionEntryView {
        ReactionEntryView {
            event_id: r.meta.event_id,
            sender: r.meta.sender,
            key: r.key,
            timestamp: r.meta.origin_server_ts,
            sent_by_me: r.meta.sender == my_id,
        }
    }

    /// The record of who reacted and when.
    pub open spec fn record(self) -> ReactionRecordView {
        ReactionRecordView {
            sender_id: self.sender,
            timestamp: self.timestamp,
            sent_by_me: self.sent_by_me,
        }
    }
}

impl ReactionEntry {
    /// The entry that a reaction event makes, seen by the user `my_id`.
    pub fn of_reaction(reaction: &Reaction, my_id: &str) -> (res: ReactionEntry)
        ensures
            res@ == ReactionEntryView::of_reaction(reaction@, my_id@),
    {
        ReactionEntry {
            event_id: reaction.meta.event_id.clone(),
            sender: reaction.meta.sender.clone(),
            key: reaction.key.clone(),
            timestamp: reaction.meta.origin_server_ts,
            sent_by_me: *reaction.meta.sender.as_str() == *my_id,
        }
    }

    /// The record of who reacted and when.
    pub fn record(&self) -> (res: ReactionRecord)
        ensures
            res@ == self@.record(),
    {
        ReactionRecord::new(self.sender.clone(), self.timestamp, self.sent_by_me)
    }
}

/// No two entries are of the same sender.
pub open spec fn unique_senders(entries: Seq<ReactionEntryView>) -> bool {
    forall|i: int, j: int| 0 <= i < j < entries.len() ==> entries[i].sender != entries[j].sender
}

/// Where the entry of `sender` stands, if there is one.
pub open spec fn sender_index(entries: Seq<ReactionEntryView>, sender: Seq<char>) -> Option<int>
    decreases entries.len(),
{
    if entries.len() == 0 {
        None
    } else if entries.last().sender == sender {
        Some(entries.len() - 1)
    } else {
        sender_index(entries.drop_last(), sender)
    }
}

/// The entries once `entry` has come in: it takes the place of the entry its sender had, or
/// the place at the end where its sender had none.
pub open spec fn upserted(entries: Seq<ReactionEntryView>, entry: ReactionEntryView) -> Seq<
    ReactionEntryView,
> {
    match sender_index(entries, entry.sender) {
        Some(i) => entries.update(i, entry),
        None => entries.push(entry),
    }
}

/// The entries that the events of `s` leave for the object `target`, taken in the order of
/// `s` and seen by the user `my_id`.
pub open spec fn reactions_to(
    s: Seq<AnyActerModelView>,
    target: Seq<char>,
    my_id: Seq<char>,
) -> Seq<ReactionEntryView>
    decreases s.len(),
{
    if s.len() == 0 {
        Seq::empty()
    } else {
        let earlier = reactions_to(s.drop_last(), target, my_id);
        match s.last() {
            AnyActerModelView::Reaction(r) => if r.relates_to == target {
                upserted(earlier, ReactionEntryView::of_reaction(r, my_id))
            } else {
                earlier
            },
            _ => earlier,
        }
    }
}

/// What `sender_index` finds is an entry of the sender asked for, and where it finds none
/// there is none.
pub proof fn lemma_sender_index(entries: Seq<ReactionEntryView>, sender: Seq<char>)
    ensures
        match sender_index(entries, sender) {
            Some(i) => 0 <= i < entries.len() && entries[i].sender == sender,
            None => forall|i: int| 0 <= i < entries.len() ==> entries[i].sender != sender,
        },
    decreases entries.len(),
{
    if entries.len() > 0 && entries.last().sender != sender {
        let rest = entries.drop_last();
        lemma_sender_index(rest, sender);
        if sender_index(entries, sender) is None {
            assert forall|i: int| 0 <= i < entries.len() implies entries[i].sender != sender by {
                if i < rest.len() {
                    assert(rest[i] == entries[i]);
                }
            }
        }
    }
}

/// Where senders are unique, an entry is found under its own sender, wherever it stands.
pub proof fn lemma_sender_index_unique(entries: Seq<ReactionEntryView>, i: int)
    requires
        unique_senders(entries),
        0 <= i < entries.len(),
    ensures
        sender_index(entries, entries[i].sender) == Some(i),
    decreases entries.len(),
{
    if i < entries.len() - 1 {
        assert(entries.last() == entries[entries.len() - 1]);
        lemma_sender_index_unique(entries.drop_last(), i);
    }
}

/// A reaction that comes in leaves its sender with exactly one entry, and that entry is the
/// reaction that came in; nobody else's entry changes.
pub proof fn lemma_upserted(entries: Seq<ReactionEntryView>, entry: ReactionEntryView)
    requires
        unique_senders(entries),
    ensures
        unique_senders(upserted(entries, entry)),
        sender_index(upserted(entries, entry), entry.sender) is Some,
        upserted(entries, entry)[sender_index(upserted(entries, entry), entry.sender)->Some_0]
            == entry,
        upserted(entries, entry).len() == if sender_index(entries, entry.sender) is Some {
            entries.len()
        } else {
            entries.len() + 1
        },
{
    lemma_sender_index(entries, entry.sender);
    let after = upserted(entries, entry);
    match sender_index(entries, entry.sender) {
        Some(i) => {
            assert(after[i] == entry);
            lemma_sender_index_unique(after, i);
        },
        None => {
            assert(after[entries.len() as int] == entry);
            lemma_sender_index_unique(after, entries.len() as int);
        },
    }
}

/// A sender who reacts twice is left with one entry, holding the second reaction: the
/// second replaces the first and is not added to it.
pub proof fn lemma_second_reaction_replaces(
    entries: Seq<ReactionEntryView>,
    first: ReactionEntryView,
    second: ReactionEntryView,
)
    requires
        unique_senders(entries),
        first.sender == second.sender,
    ensures
        upserted(upserted(entries, first), second).len() == upserted(entries, first).len(),
        unique_senders(upserted(upserted(entries, first), second)),
        sender_index(upserted(upserted(entries, first), second), second.sender) is Some,
        upserted(upserted(entries, first), second)[sender_index(
            upserted(upserted(entries, first), second),
            second.sender,
        )->Some_0] == second,
{
    lemma_upserted(entries, first);
    lemma_upserted(upserted(entries, first), second);
}

/// However many reactions have come in, no sender has more than one entry.
pub proof fn lemma_reactions_to_unique(
    s: Seq<AnyActerModelView>,
    target: Seq<char>,
    my_id: Seq<char>,
)
    ensures
        unique_senders(reactions_to(s, target, my_id)),
    decreases s.len(),
{
    if s.len() > 0 {
        lemma_reactions_to_unique(s.drop_last(), target, my_id);
        let earlier = reactions_to(s.drop_last(), target, my_id);
        match s.last() {
            AnyActerModelView::Reaction(r) => {
                lemma_upserted(earlier, ReactionEntryView::of_reaction(r, my_id));
            },
            _ => {},
        }
    }
}

/// The counters of reactions to one object.
#[derive(Clone, Copy, Debug, PartialEq, Eq, Structural)]
pub struct ReactionStats {
    /// Whether anybody has reacted.
    pub has_reaction_entries: bool,
    /// How many senders have reacted; it stops counting at the largest `u32`.
    pub total_reaction_count: u32,
}

impl ReactionStats {
    /// The counters for a given number of entries.
    pub open spec fn of_count(count: nat) -> ReactionStats {
        ReactionStats {
            has_reaction_entries: count > 0,
            total_reaction_count: if count <= u32::MAX {
                count as u32
            } else {
                u32::MAX
            },
        }
    }

    pub fn has_reaction_entries(&self) -> (res: bool)
        ensures
            res == self.has_reaction_entries,
    {
        self.has_reaction_entries
    }

    pub fn total_reaction_count(&self) -> (res: u32)
        ensures
            res == self.total_reaction_count,
    {
        self.total_reaction_count
    }
}

/// A reaction that is ready to be sent to the room.
#[derive(Debug)]
pub struct ReactionDraft {
    /// Event id of the object reacted to.
    pub relates_to: String,
    pub key: String,
}

/// The reaction events that `entries` name and that the store `s` still holds, in the order
/// of `entries`.
pub open spec fn resolved_reactions(
    s: Seq<AnyActerModelView>,
    entries: Seq<ReactionEntryView>,
) -> Seq<ReactionView>
    decreases entries.len(),
{
    if entries.len() == 0 {
        Seq::empty()
    } else {
        let earlier = resolved_reactions(s, entries.drop_last());
        match lookup(s, entries.last().event_id) {
            Some(AnyActerModelView::Reaction(r)) => earlier.push(r),
            _ => earlier,
        }
    }
}

/// The reactions to one object as they stand: one entry per sender.
pub struct ReactionManager {
    event_id: String,
    my_id: String,
    entries: Vec<ReactionEntry>,
}

/// Mathematical model of a [`ReactionManager`].
pub struct ReactionManagerView {
    /// The object reacted to.
    pub event_id: Seq<char>,
    /// The local user.
    pub my_id: Seq<char>,
    /// The entries, in the order in which their senders first reacted.
    pub entries: Seq<ReactionEntryView>,
}

impl View for ReactionManager {
    type V = ReactionManagerView;

    closed spec fn view(&self) -> ReactionManagerView {
        ReactionManagerView {
            event_id: self.event_id@,
            my_id: self.my_id@,
            entries: self.entries.deep_view(),
        }
    }
}

impl ReactionManagerView {
    /// The manager once the event `m` has been seen: a reaction to the manager's object
    /// replaces or adds its sender's entry, and any other event changes nothing.
    pub open spec fn with_event(self, m: AnyActerModelView) -> ReactionManagerView {
        match m {
            AnyActerModelView::Reaction(r) => if r.relates_to == self.event_id {
                ReactionManagerView {
                    entries: upserted(
                        self.entries,
                        ReactionEntryView::of_reaction(r, self.my_id),
                    ),
                    ..self
                }
            } else {
                self
            },
            _ => self,
        }
    }

    /// The counters of the manager.
    pub open spec fn stats(self) -> ReactionStats {
        ReactionStats::of_count(self.entries.len())
    }
}

impl ReactionManager {
    #[verifier::type_invariant]
    spec fn senders_are_unique(&self) -> bool {
        unique_senders(self.entries.deep_view())
    }

    /// Does nothing, and lets the caller know that no sender has two entries.
    pub fn senders_are_distinct(&self)
        ensures
            unique_senders(self@.entries),
    {
        proof {
            use_type_invariant(self);
        }
    }

    /// A manager for the object `event_id`, seen by the user `my_id`, before any reaction.
    pub fn new(event_id: String, my_id: String) -> (res: ReactionManager)
        ensures
            res@ == (ReactionManagerView {
                event_id: event_id@,
                my_id: my_id@,
                entries: Seq::empty(),
            }),
    {
        let entries: Vec<ReactionEntry> = Vec::new();
        assert(entries.deep_view() =~= Seq::<ReactionEntryView>::empty());
        ReactionManager { event_id, my_id, entries }
    }

    /// The manager for the object `event_id` as the events in `store` leave it.
    pub fn from_store_and_event_id(store: &Store, event_id: &str, my_id: &str) -> (res:
        ReactionManager)
        ensures
            res@ == (ReactionManagerView {
                event_id: event_id@,
                my_id: my_id@,
                entries: reactions_to(store@, event_id@, my_id@),
            }),
    {
        let mut manager = ReactionManager::new(event_id.to_owned(), my_id.to_owned());
        let key = IndexKey::ObjectHistory(event_id.to_owned());
        let all = store.all();
        let ghost s = store@;
        let n = all.len();
        let mut i: usize = 0;
        assert(s.take(0) =~= Seq::<AnyActerModelView>::empty());
        while i < n
            invariant
                i <= n,
                n == s.len(),
                all.deep_view() == s,
                manager@ == (ReactionManagerView {
                    event_id: event_id@,
                    my_id: my_id@,
                    entries: reactions_to(s.take(i as int), event_id@, my_id@),
                }),
            decreases n - i,
        {
            proof {
                assert(s.take(i + 1).drop_last() =~= s.take(i as int));
                assert(s.take(i + 1).last() == s[i as int]);
            }
            manager.add_event(&all[i]);
            i += 1;
        }
        assert(s.take(n as int) =~= s);
        manager
    }

    /// Takes in one event: a reaction to the manager's object replaces or adds its sender's
    /// entry, and any other event changes nothing. Says whether anything changed.
    pub fn add_event(&mut self, model: &AnyActerModel) -> (changed: bool)
        ensures
            final(self)@ == old(self)@.with_event(model@),
            changed == (model@ matches AnyActerModelView::Reaction(r) && r.relates_to == old(
                self,
            )@.event_id),
    {
        match model {
            AnyActerModel::Reaction(r) => self.add_reaction_entry(r),
            _ => false,
        }
    }

    /// Takes in one reaction: if it is to the manager's object, it replaces the entry of
    /// its sender, or is added where its sender had none. Says whether anything changed.
    pub fn add_reaction_entry(&mut self, reaction: &Reaction) -> (changed: bool)
        ensures
            final(self)@ == old(self)@.with_event(AnyActerModelView::Reaction(reaction@)),
            changed == (reaction@.relates_to == old(self)@.event_id),
    {
        proof {
            use_type_invariant(&*self);
        }
        if reaction.relates_to != self.event_id {
            return false;
        }
        let entry = ReactionEntry::of_reaction(reaction, self.my_id.as_str());
        let ghost before = self.entries.deep_view();
        proof {
            lemma_upserted(before, entry@);
        }
        let place = self.sender_place(entry.sender.as_str());
        let mut entries: Vec<ReactionEntry> = Vec::new();
        core::mem::swap(&mut self.entries, &mut entries);
        match place {
            Some(i) => {
                entries.set(i, entry);
            },
            None => {
                entries.push(entry);
            },
        }
        assert(entries.deep_view() =~= upserted(before, entry@));
        self.entries = entries;
        true
    }

    /// Where the entry of `sender` stands, if there is one.
    fn sender_place(&self, sender: &str) -> (res: Option<usize>)
        ensures
            res matches Some(i) ==> sender_index(self@.entries, sender@) == Some(i as int) && i
                < self.entries.len(),
            res is None ==> sender_index(self@.entries, sender@) is None,
    {
        let ghost s = self.entries.deep_view();
        let mut i = self.entries.len();
        assert(s.take(i as int) =~= s);
        while i > 0
            invariant
                i <= self.entries.len(),
                s == self.entries.deep_view(),
                sender_index(s, sender@) == sender_index(s.take(i as int), sender@),
            decreases i,
        {
            assert(s.take(i as int).drop_last() =~= s.take(i - 1));
            i -= 1;
            if *self.entries[i].sender.as_str() == *sender {
                return Some(i);
            }
        }
        None
    }

    /// The id of the object reacted to.
    pub fn event_id(&self) -> (res: &String)
        ensures
            res@ == self@.event_id,
    {
        &self.event_id
    }

    /// The counters as they stand.
    pub fn stats(&self) -> (res: ReactionStats)
        ensures
            res == self@.stats(),
    {
        let n = self.entries.len();
        ReactionStats {
            has_reaction_entries: n > 0,
            total_reaction_count: if n <= u32::MAX as usize {
                n as u32
            } else {
                u32::MAX
            },
        }
    }

    /// Whether anybody has reacted.
    pub fn has_reaction_entries(&self) -> (res: bool)
        ensures
            res == (self@.entries.len() > 0),
    {
        self.stats().has_reaction_entries
    }

    /// How many senders have reacted.
    pub fn total_reaction_count(&self) -> (res: u32)
        ensures
            res == self@.stats().total_reaction_count,
    {
        self.stats().total_reaction_count
    }

    /// The entries as they stand, one per sender, in the order in which the senders first
    /// reacted.
    pub fn entries(&self) -> (res: Vec<ReactionEntry>)
        ensures
            res.deep_view() == self@.entries,
    {
        let res = self.entries.clone();
        assert(res.deep_view() =~= self.entries.deep_view());
        res
    }

    /// Who has reacted and when: one record per sender, in the order of the entries.
    pub fn records(&self) -> (res: Vec<ReactionRecord>)
        ensures
            res.deep_view() == self@.entries.map_values(|e: ReactionEntryView| e.record()),
    {
        let ghost entries = self.entries.deep_view();
        let mut res: Vec<ReactionRecord> = Vec::new();
        let n = self.entries.len();
        let mut i: usize = 0;
        while i < n
            invariant
                i <= n,
                n == self.entries.len(),
                entries == self.entries.deep_view(),
                res.deep_view() =~= entries.take(i as int).map_values(
                    |e: ReactionEntryView| e.record(),
                ),
            decreases n - i,
        {
            let ghost before = res.deep_view();
            res.push(self.entries[i].record());
            assert(res.deep_view() =~= before.push(entries[i as int].record()));
            i += 1;
        }
        assert(entries.take(n as int) =~= entries);
        res
    }

    /// The reaction events behind the entries, one per sender, as `store` holds them now.
    /// An entry whose event the store no longer holds as a reaction is left out.
    pub fn reaction_entries(&self, store: &Store) -> (res: Vec<Reaction>)
        ensures
            res.deep_view() == resolved_reactions(store@, self@.entries),
    {
        let ghost entries = self.entries.deep_view();
        let mut res: Vec<Reaction> = Vec::new();
        let n = self.entries.len();
        let mut i: usize = 0;
        assert(entries.take(0) =~= Seq::<ReactionEntryView>::empty());
        assert(res.deep_view() =~= resolved_reactions(store@, entries.take(0)));
        while i < n
            invariant
                i <= n,
                n == self.entries.len(),
                entries == self.entries.deep_view(),
                res.deep_view() == resolved_reactions(store@, entries.take(i as int)),
            decreases n - i,
        {
            let ghost collected = res.deep_view();
            proof {
                assert(entries.take(i + 1).drop_last() =~= entries.take(i as int));
                assert(entries.take(i + 1).last() == entries[i as int]);
            }
            match store.get(self.entries[i].event_id.as_str()) {
                Ok(AnyActerModel::Reaction(r)) => {
                    res.push(r.clone());
                    assert(res.deep_view() =~= collected.push(r@));
                },
                _ => {},
            }
            i += 1;
        }
        assert(entries.take(n as int) =~= entries);
        res
    }

    /// The reaction with `key` to the event `event_id`, ready to be sent, for a caller who
    /// may send into the room. `can_send` is `None` where the caller is not among the
    /// members of the room, and else says whether the caller may send messages. The string
    /// `event_id` must be an event id.
    pub fn send_reaction(&self, can_send: Option<bool>, event_id: String, key: String) -> (res:
        Result<ReactionDraft, CoreError>)
        requires
            is_event_id(event_id@),
        ensures
            match can_send {
                None => res is Err && res->Err_0 == CoreError::NotAMember,
                Some(false) => res is Err && res->Err_0 == CoreError::PermissionDenied,
                Some(true) => res is Ok && res->Ok_0.relates_to@ == event_id@ && res->Ok_0.key@
                    == key@,
            },
    {
        match can_send {
            None => Err(CoreError::NotAMember),
            Some(false) => Err(CoreError::PermissionDenied),
            Some(true) => Ok(ReactionDraft { relates_to: event_id, key }),
        }
    }

    /// As [`ReactionManager::send_reaction`], for any string: one that is no event id is
    /// refused with `CoreError::InvalidId` before anything else is looked at.
    pub fn try_send_reaction(&self, can_send: Option<bool>, event_id: String, key: String) -> (res:
        Result<ReactionDraft, CoreError>)
        ensures
            !is_event_id(event_id@) ==> res is Err && res->Err_0 == CoreError::InvalidId,
            is_event_id(event_id@) ==> match can_send {
                None => res is Err && res->Err_0 == CoreError::NotAMember,
                Some(false) => res is Err && res->Err_0 == CoreError::PermissionDenied,
                Some(true) => res is Ok && res->Ok_0.relates_to@ == event_id@ && res->Ok_0.key@
                    == key@,
            },
    {
        match crate::ids::event_id(event_id.as_str()) {
            Ok(id) => self.send_reaction(can_send, id, key),
            Err(e) => Err(e),
        }
    }

    /// The key to listen on for changes of these reactions.
    pub fn subscribe(&self) -> (res: IndexKey)
        ensures
            res@ == IndexKeyView::ObjectHistory(self@.event_id),
    {
        IndexKey::ObjectHistory(self.event_id.clone())
    }
}

} // verus!
