//! Which keys have changed since somebody last looked.
//!
//! A change raises the flag of its key; looking at a key lowers it. Several changes of one
//! key before anybody looks leave one raised flag: notifications coalesce, and none is lost.

use crate::models::any::AnyActerModelView;
use crate::referencing::{lemma_is_under_iff_own_key, IndexKey, IndexKeyView};
use vstd::prelude::*;

verus! {

/// No key is written down twice.
pub open spec fn distinct_keys(keys: Seq<IndexKeyView>) -> bool {
    forall|i: int, j: int| 0 <= i < j < keys.len() ==> keys[i] != keys[j]
}

/// Once the keys of a new event have been raised, the flag of every key under which the
/// event is listed is up, whatever was raised before: no change goes unannounced.
pub proof fn lemma_new_event_is_announced(
    raised: Set<IndexKeyView>,
    m: AnyActerModelView,
    key: IndexKeyView,
)
    requires
        m.is_under(key),
    ensures
        raised.union(m.index_keys().to_set()).contains(key),
{
    lemma_is_under_iff_own_key(m, key);
}

/// The keys whose flags are raised.
pub struct Registry {
    raised: Vec<IndexKey>,
}

impl View for Registry {
    type V = Set<IndexKeyView>;

    closed spec fn view(&self) -> Set<IndexKeyView> {
        self.raised.deep_view().to_set()
    }
}

impl Registry {
    #[verifier::type_invariant]
    spec fn written_once(&self) -> bool {
        distinct_keys(self.raised.deep_view())
    }

    /// A registry in which no flag is raised.
    pub fn new() -> (res: Registry)
        ensures
            res@ == Set::<IndexKeyView>::empty(),
    {
        let raised: Vec<IndexKey> = Vec::new();
        assert(raised.deep_view() =~= Seq::<IndexKeyView>::empty());
        assert(raised.deep_view().to_set() =~= Set::<IndexKeyView>::empty());
        Registry { raised }
    }

    /// Where the flag of `key` is written down, if it is raised.
    fn place(&self, key: &IndexKey) -> (res: Option<usize>)
        ensures
            res matches Some(i) ==> i < self.raised.len() && self.raised.deep_view()[i as int]
                == key@,
            res is None ==> !self.raised.deep_view().contains(key@),
    {
        let ghost s = self.raised.deep_view();
        let n = self.raised.len();
        let mut i: usize = 0;
        while i < n
            invariant
                i <= n,
                n == self.raised.len(),
                s == self.raised.deep_view(),
                forall|j: int| 0 <= j < i ==> s[j] != key@,
            decreases n - i,
        {
            if self.raised[i].same(key) {
                return Some(i);
            }
            i += 1;
        }
        None
    }

    /// Whether the flag of `key` is raised.
    pub fn is_raised(&self, key: &IndexKey) -> (res: bool)
        ensures
            res == self@.contains(key@),
    {
        let place = self.place(key);
        proof {
            let s = self.raised.deep_view();
            match place {
                Some(i) => {
                    assert(s.contains(key@));
                },
                None => {},
            }
        }
        place.is_some()
    }

    /// Raises the flag of `key`. A flag that is raised already stays raised, once.
    pub fn notify(&mut self, key: &IndexKey)
        ensures
            final(self)@ == old(self)@.insert(key@),
    {
        proof {
            use_type_invariant(&*self);
        }
        let ghost before = self.raised.deep_view();
        match self.place(key) {
            Some(i) => {
                assert(before.contains(key@));
                assert(before.to_set() =~= before.to_set().insert(key@));
            },
            None => {
                let mut raised: Vec<IndexKey> = Vec::new();
                core::mem::swap(&mut self.raised, &mut raised);
                raised.push(key.clone());
                proof {
                    let after = raised.deep_view();
                    assert(after =~= before.push(key@));
                    assert forall|k: IndexKeyView| after.to_set().contains(k)
                        <==> before.to_set().insert(key@).contains(k) by {
                        if after.contains(k) {
                            let i = choose|i: int| 0 <= i < after.len() && after[i] == k;
                            if i < before.len() {
                                assert(before[i] == k);
                            }
                        }
                        if before.contains(k) {
                            let i = choose|i: int| 0 <= i < before.len() && before[i] == k;
                            assert(after[i] == k);
                        }
                        if k == key@ {
                            assert(after[before.len() as int] == k);
                        }
                    }
                    assert(after.to_set() =~= before.to_set().insert(key@));
                }
                self.raised = raised;
            },
        }
    }

    /// Raises the flag of each of `keys`.
    pub fn notify_all(&mut self, keys: &Vec<IndexKey>)
        ensures
            final(self)@ == old(self)@.union(keys.deep_view().to_set()),
    {
        let ghost before = self@;
        let ghost all = keys.deep_view();
        let n = keys.len();
        let mut i: usize = 0;
        assert(all.take(0).to_set() =~= Set::<IndexKeyView>::empty());
        assert(before.union(all.take(0).to_set()) =~= before);
        while i < n
            invariant
                i <= n,
                n == keys.len(),
                all == keys.deep_view(),
                self@ == before.union(all.take(i as int).to_set()),
            decreases n - i,
        {
            self.notify(&keys[i]);
            proof {
                let earlier = all.take(i as int);
                let now = all.take(i + 1);
                assert(now =~= earlier.push(all[i as int]));
                assert forall|k: IndexKeyView| now.to_set().contains(k) <==> earlier.to_set().insert(
                    all[i as int],
                ).contains(k) by {
                    if now.contains(k) {
                        let j = choose|j: int| 0 <= j < now.len() && now[j] == k;
                        if j < earlier.len() {
                            assert(earlier[j] == k);
                        }
                    }
                    if earlier.contains(k) {
                        let j = choose|j: int| 0 <= j < earlier.len() && earlier[j] == k;
                        assert(now[j] == k);
                    }
                    if k == all[i as int] {
                        assert(now[i as int] == k);
                    }
                }
                assert(now.to_set() =~= earlier.to_set().insert(all[i as int]));
                assert(self@ =~= before.union(now.to_set()));
            }
            i += 1;
        }
        assert(all.take(n as int) =~= all);
    }

    /// Looks at `key`: says whether its flag was raised, and lowers it. The other flags stay
    /// as they are.
    pub fn take(&mut self, key: &IndexKey) -> (changed: bool)
        ensures
            changed == old(self)@.contains(key@),
            final(self)@ == old(self)@.remove(key@),
    {
        proof {
            use_type_invariant(&*self);
        }
        let ghost before = self.raised.deep_view();
        match self.place(key) {
            Some(i) => {
                let mut raised: Vec<IndexKey> = Vec::new();
                core::mem::swap(&mut self.raised, &mut raised);
                let _ = raised.remove(i);
                proof {
                    let after = raised.deep_view();
                    assert(after =~= before.remove(i as int));
                    assert(before.contains(key@));
                    assert forall|k: IndexKeyView| after.to_set().contains(k)
                        <==> before.to_set().remove(key@).contains(k) by {
                        if after.contains(k) {
                            let j = choose|j: int| 0 <= j < after.len() && after[j] == k;
                            let j0 = if j < i {
                                j
                            } else {
                                j + 1
                            };
                            assert(before[j0] == k);
                        }
                        if before.contains(k) && k != key@ {
                            let j = choose|j: int| 0 <= j < before.len() && before[j] == k;
                            let j1 = if j < i {
                                j
                            } else {
                                j - 1
                            };
                            assert(after[j1] == k);
                        }
                    }
                    assert(after.to_set() =~= before.to_set().remove(key@));
                }
                self.raised = raised;
                true
            },
            None => {
                assert(before.to_set() =~= before.to_set().remove(key@));
                false
            },
        }
    }
}

} // verus!
