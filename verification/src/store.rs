//! An in-memory store of events: each event once, in the order of arrival, with every update
//! folded into the object it is for.

use crate::error::CoreError;
use crate::models::any::{AnyActerModel, AnyActerModelView};
use crate::referencing::{IndexKey, IndexKeyView};
use vstd::prelude::*;

verus! {

/// No two events of `s` have the same id.
pub open spec fn unique_ids(s: Seq<AnyActerModelView>) -> bool {
    forall|i: int, j: int| 0 <= i < j < s.len() ==> s[i].event_id() != s[j].event_id()
}

/// Where in `s` the event of id `id` stands, if it is there.
pub open spec fn index_of(s: Seq<AnyActerModelView>, id: Seq<char>) -> Option<int>
    decreases s.len(),
{
    if s.len() == 0 {
        None
    } else if s.last().event_id() == id {
        Some(s.len() - 1)
    } else {
        index_of(s.drop_last(), id)
    }
}

/// The event of id `id` in `s`, if it is there.
pub open spec fn lookup(s: Seq<AnyActerModelView>, id: Seq<char>) -> Option<AnyActerModelView> {
    match index_of(s, id) {
        Some(i) => Some(s[i]),
        None => None,
    }
}

/// `s` with `update` folded into every object it is for.
pub open spec fn folded_all(s: Seq<AnyActerModelView>, update: AnyActerModelView) -> Seq<
    AnyActerModelView,
> {
    s.map_values(|o: AnyActerModelView| o.transitioned(update))
}

/// What the store holds once `m` has been put into `s`. An event whose id the store has
/// seen changes nothing. A new event is folded into the object it updates, if it updates
/// one that is there, and then takes its place at the end.
pub open spec fn stored(s: Seq<AnyActerModelView>, m: AnyActerModelView) -> Seq<
    AnyActerModelView,
> {
    if index_of(s, m.event_id()) is Some {
        s
    } else {
        folded_all(s, m).push(m)
    }
}

/// The events of `s` that are listed under `key`, in the order of `s`.
pub open spec fn listed(s: Seq<AnyActerModelView>, key: IndexKeyView) -> Seq<AnyActerModelView> {
    s.filter(|m: AnyActerModelView| m.is_under(key))
}

/// `s` without the event of id `id`.
pub open spec fn without(s: Seq<AnyActerModelView>, id: Seq<char>) -> Seq<AnyActerModelView> {
    match index_of(s, id) {
        Some(i) => s.remove(i),
        None => s,
    }
}

/// What `index_of` finds is an event of the id asked for, and where it finds nothing there
/// is none.
pub proof fn lemma_index_of(s: Seq<AnyActerModelView>, id: Seq<char>)
    ensures
        match index_of(s, id) {
            Some(i) => 0 <= i < s.len() && s[i].event_id() == id,
            None => forall|i: int| 0 <= i < s.len() ==> s[i].event_id() != id,
        },
    decreases s.len(),
{
    if s.len() > 0 && s.last().event_id() != id {
        let rest = s.drop_last();
        lemma_index_of(rest, id);
        if index_of(s, id) is None {
            assert forall|i: int| 0 <= i < s.len() implies s[i].event_id() != id by {
                if i < rest.len() {
                    assert(rest[i] == s[i]);
                }
            }
        }
    }
}

/// Where ids are unique, an event is found under its own id, wherever it stands.
pub proof fn lemma_index_of_unique(s: Seq<AnyActerModelView>, i: int)
    requires
        unique_ids(s),
        0 <= i < s.len(),
    ensures
        index_of(s, s[i].event_id()) == Some(i),
    decreases s.len(),
{
    if i < s.len() - 1 {
        assert(s.last() == s[s.len() - 1]);
        lemma_index_of_unique(s.drop_last(), i);
    }
}

/// Folding an update in leaves every id where it was found before.
pub proof fn lemma_folded_all_index_of(
    s: Seq<AnyActerModelView>,
    update: AnyActerModelView,
    id: Seq<char>,
)
    ensures
        index_of(folded_all(s, update), id) == index_of(s, id),
    decreases s.len(),
{
    let f = folded_all(s, update);
    if s.len() > 0 {
        lemma_folded_all_index_of(s.drop_last(), update, id);
        assert(f.drop_last() =~= folded_all(s.drop_last(), update));
        assert(f.last().event_id() == s.last().event_id());
    }
}

/// Folding an update in keeps every event where it is and under the id it had.
pub proof fn lemma_folded_all_keeps_ids(s: Seq<AnyActerModelView>, update: AnyActerModelView)
    ensures
        folded_all(s, update).len() == s.len(),
        forall|i: int|
            0 <= i < s.len() ==> (#[trigger] folded_all(s, update)[i]).meta() == s[i].meta(),
        unique_ids(s) ==> unique_ids(folded_all(s, update)),
        forall|id: Seq<char>| #[trigger]
            index_of(folded_all(s, update), id) == index_of(s, id),
{
    assert forall|id: Seq<char>| #[trigger]
        index_of(folded_all(s, update), id) == index_of(s, id) by {
        lemma_folded_all_index_of(s, update, id);
    }
}

/// Putting an event keeps ids unique.
pub proof fn lemma_stored_unique(s: Seq<AnyActerModelView>, m: AnyActerModelView)
    requires
        unique_ids(s),
    ensures
        unique_ids(stored(s, m)),
{
    lemma_index_of(s, m.event_id());
    lemma_folded_all_keeps_ids(s, m);
}

/// Putting the same event a second time changes nothing.
pub proof fn lemma_stored_idempotent(s: Seq<AnyActerModelView>, m: AnyActerModelView)
    ensures
        stored(stored(s, m), m) == stored(s, m),
{
}

/// An event that has been put is found under its id: as it was put if it is new, and else
/// as the store had it.
pub proof fn lemma_stored_then_found(s: Seq<AnyActerModelView>, m: AnyActerModelView)
    ensures
        lookup(stored(s, m), m.event_id()) == if lookup(s, m.event_id()) is Some {
            lookup(s, m.event_id())
        } else {
            Some(m)
        },
{
}

/// Putting a new event leaves every other event findable, with the new event folded into
/// it: an object that the event updates is found in its updated form, all else unchanged.
pub proof fn lemma_stored_folds_target(
    s: Seq<AnyActerModelView>,
    m: AnyActerModelView,
    id: Seq<char>,
)
    requires
        index_of(s, m.event_id()) is None,
        id != m.event_id(),
    ensures
        lookup(stored(s, m), id) == match lookup(s, id) {
            Some(o) => Some(o.transitioned(m)),
            None => None,
        },
{
    let f = folded_all(s, m);
    let after = stored(s, m);
    lemma_folded_all_index_of(s, m, id);
    lemma_index_of(s, id);
    assert(after.drop_last() =~= f);
    assert(after.last() == m);
    assert(index_of(after, id) == index_of(f, id));
    match index_of(s, id) {
        Some(i) => {
            assert(after[i] == f[i]);
        },
        None => {},
    }
}

/// Once an event has been taken out, it is no longer found, and every other event still is.
pub proof fn lemma_without(s: Seq<AnyActerModelView>, id: Seq<char>, other: Seq<char>)
    requires
        unique_ids(s),
    ensures
        unique_ids(without(s, id)),
        lookup(without(s, id), id) is None,
        other != id ==> lookup(without(s, id), other) == lookup(s, other),
{
    lemma_index_of(s, id);
    lemma_index_of(s, other);
    let t = without(s, id);
    lemma_index_of(t, id);
    lemma_index_of(t, other);
    match index_of(s, id) {
        Some(i) => {
            assert forall|j: int| 0 <= j < t.len() implies #[trigger] t[j] == s[if j < i {
                j
            } else {
                j + 1
            }] by {}
            assert(unique_ids(t));
            match index_of(s, other) {
                Some(k) => {
                    if other != id {
                        let k2 = if k < i {
                            k
                        } else {
                            k - 1
                        };
                        assert(t[k2] == s[k]);
                        lemma_index_of_unique(t, k2);
                    }
                },
                None => {},
            }
        },
        None => {},
    }
}

/// Folds `update` into the event at place `i` of `models`.
fn fold_at(models: &mut Vec<AnyActerModel>, i: usize, update: &AnyActerModel)
    requires
        i < old(models).len(),
    ensures
        final(models).len() == old(models).len(),
        final(models).deep_view() == old(models).deep_view().update(
            i as int,
            old(models).deep_view()[i as int].transitioned(update@),
        ),
{
    models[i].transition(update);
    assert(models.deep_view() =~= old(models).deep_view().update(
        i as int,
        old(models).deep_view()[i as int].transitioned(update@),
    ));
}

/// The store: every event it has been given, once, in the order of arrival.
pub struct Store {
    models: Vec<AnyActerModel>,
}

impl View for Store {
    type V = Seq<AnyActerModelView>;

    closed spec fn view(&self) -> Seq<AnyActerModelView> {
        self.models.deep_view()
    }
}

impl Store {
    #[verifier::type_invariant]
    spec fn ids_are_unique(&self) -> bool {
        unique_ids(self.models.deep_view())
    }

    /// Does nothing, and lets the caller know that no two events of the store share an id.
    pub fn ids_are_distinct(&self)
        ensures
            unique_ids(self@),
    {
        proof {
            use_type_invariant(self);
        }
    }

    /// A store that holds nothing.
    pub fn new() -> (res: Store)
        ensures
            res@ == Seq::<AnyActerModelView>::empty(),
    {
        let models: Vec<AnyActerModel> = Vec::new();
        assert(models.deep_view() =~= Seq::<AnyActerModelView>::empty());
        Store { models }
    }

    /// How many events the store holds.
    pub fn len(&self) -> (res: usize)
        ensures
            res == self@.len(),
    {
        self.models.len()
    }

    /// All events, in the order in which they arrived.
    pub fn all(&self) -> (res: &Vec<AnyActerModel>)
        ensures
            res.deep_view() == self@,
    {
        &self.models
    }

    /// Where the event of id `id` stands, if the store holds it.
    fn position(&self, id: &str) -> (res: Option<usize>)
        ensures
            res matches Some(i) ==> index_of(self@, id@) == Some(i as int) && i < self.models.len(),
            res is None ==> index_of(self@, id@) is None,
    {
        let ghost s = self@;
        let mut i = self.models.len();
        assert(s.take(i as int) =~= s);
        while i > 0
            invariant
                i <= self.models.len(),
                s == self.models.deep_view(),
                index_of(s, id@) == index_of(s.take(i as int), id@),
            decreases i,
        {
            assert(s.take(i as int).drop_last() =~= s.take(i - 1));
            i -= 1;
            if *self.models[i].event_id().as_str() == *id {
                return Some(i);
            }
        }
        None
    }

    /// Whether the store holds an event of id `id`.
    pub fn contains(&self, id: &str) -> (res: bool)
        ensures
            res == lookup(self@, id@).is_some(),
    {
        self.position(id).is_some()
    }

    /// The event of id `id`, or `CoreError::NotFound` where the store holds none.
    pub fn get(&self, id: &str) -> (res: Result<&AnyActerModel, CoreError>)
        ensures
            match lookup(self@, id@) {
                Some(m) => res is Ok && res->Ok_0@ == m,
                None => res == Err::<&AnyActerModel, CoreError>(CoreError::NotFound),
            },
    {
        match self.position(id) {
            Some(i) => Ok(&self.models[i]),
            None => Err(CoreError::NotFound),
        }
    }

    /// The events listed under `key`, in the order in which they arrived. Each call gives a
    /// fresh list of what the store holds at that time.
    pub fn get_list(&self, key: &IndexKey) -> (res: Vec<&AnyActerModel>)
        ensures
            res.deep_view() == listed(self@, key@),
    {
        let ghost s = self@;
        let ghost under = |m: AnyActerModelView| m.is_under(key@);
        let mut res: Vec<&AnyActerModel> = Vec::new();
        let n = self.models.len();
        let mut i: usize = 0;
        proof {
            reveal(Seq::filter);
            assert(s.take(0) =~= Seq::<AnyActerModelView>::empty());
            assert(res.deep_view() =~= s.take(0).filter(under));
        }
        while i < n
            invariant
                i <= n,
                n == self.models.len(),
                s == self.models.deep_view(),
                under == |m: AnyActerModelView| m.is_under(key@),
                res.deep_view() == s.take(i as int).filter(under),
            decreases n - i,
        {
            let ghost before = res.deep_view();
            let model = &self.models[i];
            if model.is_under(key) {
                res.push(model);
            }
            proof {
                reveal(Seq::filter);
                assert(s.take(i + 1).drop_last() =~= s.take(i as int));
                assert(s.take(i + 1).last() == model@);
                if model@.is_under(key@) {
                    assert(res.deep_view() =~= before.push(model@));
                }
            }
            i += 1;
        }
        assert(s.take(n as int) =~= s);
        res
    }

    /// Takes the event of id `id` out of the store, as a redaction asks, and says whether
    /// it was there. A later `get` of that id finds nothing.
    pub fn redact(&mut self, id: &str) -> (removed: bool)
        ensures
            removed == lookup(old(self)@, id@).is_some(),
            final(self)@ == without(old(self)@, id@),
    {
        proof {
            use_type_invariant(&*self);
            lemma_without(self@, id@, id@);
        }
        let ghost before = self@;
        match self.position(id) {
            Some(i) => {
                let mut models: Vec<AnyActerModel> = Vec::new();
                core::mem::swap(&mut self.models, &mut models);
                let _ = models.remove(i);
                assert(models.deep_view() =~= before.remove(i as int));
                self.models = models;
                true
            },
            None => false,
        }
    }

    /// Puts an event into the store and says which keys have changed by it.
    ///
    /// An event whose id the store has seen is dropped and nothing changes. A new event is
    /// folded into the object it updates, if that object is there, and is then kept at the
    /// end. The keys returned are those the new event is listed under.
    pub fn put(&mut self, model: AnyActerModel) -> (changed: Vec<IndexKey>)
        ensures
            final(self)@ == stored(old(self)@, model@),
            changed.deep_view() == if lookup(old(self)@, model@.event_id()) is Some {
                Seq::<IndexKeyView>::empty()
            } else {
                model@.index_keys()
            },
    {
        proof {
            use_type_invariant(&*self);
        }
        let ghost before = self@;
        if self.position(model.event_id().as_str()).is_some() {
            let none: Vec<IndexKey> = Vec::new();
            assert(none.deep_view() =~= Seq::<IndexKeyView>::empty());
            return none;
        }
        let changed = model.indizes();
        let mut models: Vec<AnyActerModel> = Vec::new();
        core::mem::swap(&mut self.models, &mut models);
        let n = models.len();
        let mut i: usize = 0;
        while i < n
            invariant
                i <= n,
                n == before.len(),
                models.len() == n,
                models.deep_view().len() == n,
                forall|j: int|
                    0 <= j < i ==> #[trigger] models.deep_view()[j] == before[j].transitioned(
                        model@,
                    ),
                forall|j: int| i <= j < n ==> #[trigger] models.deep_view()[j] == before[j],
            decreases n - i,
        {
            fold_at(&mut models, i, &model);
            i += 1;
        }
        proof {
            lemma_stored_unique(before, model@);
            assert(models.deep_view() =~= folded_all(before, model@));
        }
        models.push(model);
        assert(models.deep_view() =~= stored(before, model@));
        self.models = models;
        changed
    }
}

/// The events of `s` from place `from` on that are listed under `key`, in the order of `s`.
pub open spec fn listed_from(s: Seq<AnyActerModelView>, key: IndexKeyView, from: int) -> Seq<
    AnyActerModelView,
> {
    if 0 <= from <= s.len() {
        listed(s.skip(from), key)
    } else {
        Seq::empty()
    }
}

/// What is listed from a place on is the event at that place, if it is listed, and then
/// what is listed from the next place on.
pub proof fn lemma_listed_from_step(s: Seq<AnyActerModelView>, key: IndexKeyView, from: int)
    requires
        0 <= from < s.len(),
    ensures
        listed_from(s, key, from) == if s[from].is_under(key) {
            seq![s[from]] + listed_from(s, key, from + 1)
        } else {
            listed_from(s, key, from + 1)
        },
        listed_from(s, key, s.len() as int) == Seq::<AnyActerModelView>::empty(),
{
    let under = |m: AnyActerModelView| m.is_under(key);
    let rest = s.skip(from + 1);
    assert(s.skip(from) =~= seq![s[from]] + rest);
    rest.lemma_filter_prepend(s[from], under);
    assert(Seq::<AnyActerModelView>::empty() + rest.filter(under) =~= rest.filter(under));
    reveal(Seq::filter);
    assert(s.skip(s.len() as int) =~= Seq::<AnyActerModelView>::empty());
}

/// A walk through the events listed under one key, one event at a time and forward only.
/// It reads the store anew at every step; to start over, a new walk is begun.
pub struct ListCursor {
    pub key: IndexKey,
    /// How many events of the store the walk has behind it.
    pub position: usize,
}

impl ListCursor {
    /// What the walk still has before it in the store `s`.
    pub open spec fn remaining(&self, s: Seq<AnyActerModelView>) -> Seq<AnyActerModelView> {
        listed_from(s, self.key@, self.position as int)
    }

    /// A walk through what is listed under `key`, from the beginning.
    pub fn new(key: IndexKey) -> (res: ListCursor)
        ensures
            res.key@ == key@,
            res.position == 0,
    {
        ListCursor { key, position: 0 }
    }

    /// The next event of the walk, or `None` where the walk has reached the end of the
    /// store.
    pub fn next<'a>(&mut self, store: &'a Store) -> (res: Option<&'a AnyActerModel>)
        ensures
            final(self).key@ == old(self).key@,
            match res {
                Some(m) => old(self).remaining(store@).len() > 0 && m@ == old(self).remaining(
                    store@,
                )[0] && final(self).remaining(store@) == old(self).remaining(store@).drop_first(),
                None => old(self).remaining(store@).len() == 0 && final(self).remaining(
                    store@,
                ).len() == 0,
            },
    {
        let ghost s = store@;
        let ghost key = self.key@;
        let ghost before = self.remaining(s);
        let all = store.all();
        let n = all.len();
        if self.position > n {
            return None;
        }
        let mut i: usize = self.position;
        while i < n
            invariant
                i <= n,
                n == s.len(),
                all.deep_view() == s,
                key == self.key@,
                self.key@ == old(self).key@,
                s == store@,
                before == old(self).remaining(s),
                before == listed_from(s, key, i as int),
            decreases n - i,
        {
            proof {
                lemma_listed_from_step(s, key, i as int);
            }
            let model = &all[i];
            if model.is_under(&self.key) {
                self.position = i + 1;
                proof {
                    let rest = listed_from(s, key, i + 1);
                    assert(model@ == s[i as int]);
                    assert(before =~= seq![s[i as int]] + rest);
                    assert(before[0] == s[i as int]);
                    assert(before.drop_first() =~= rest);
                    assert(self.remaining(s) == rest);
                }
                return Some(model);
            }
            i += 1;
        }
        proof {
            reveal(Seq::filter);
            assert(s.skip(n as int) =~= Seq::<AnyActerModelView>::empty());
        }
        self.position = n;
        None
    }
}

impl Store {
    /// A walk through the events listed under `key`, from the beginning. What it yields,
    /// taken together, is what [`Store::get_list`] gives at once.
    pub fn cursor(&self, key: IndexKey) -> (res: ListCursor)
        ensures
            res.key@ == key@,
            res.remaining(self@) == listed(self@, key@),
    {
        assert(self@.skip(0) =~= self@);
        ListCursor::new(key)
    }
}

} // verus!
