//! The feed of one room or object, page by page.

use crate::activities::ActivityContentView;
use crate::models::any::{AnyActerModel, AnyActerModelView};
use crate::referencing::{IndexKey, IndexKeyView};
use crate::store::{unique_ids, Store};
use vstd::prelude::*;

verus! {

impl AnyActerModelView {
    /// Whether the event has an activity, whatever the store holds.
    pub open spec fn has_activity(self) -> bool {
        ActivityContentView::of_model(self, None) is Some
    }

    /// Whether the event shows in the feed of `key`.
    pub open spec fn in_feed(self, key: IndexKeyView) -> bool {
        self.is_under(key) && self.has_activity()
    }
}

impl AnyActerModel {
    /// Whether the event has an activity.
    pub fn has_activity(&self) -> (res: bool)
        ensures
            res == self@.has_activity(),
    {
        match self {
            AnyActerModel::RedactedActerModel(_)
            | AnyActerModel::NewsEntryUpdate(_)
            | AnyActerModel::Story(_)
            | AnyActerModel::StoryUpdate(_)
            | AnyActerModel::CommentUpdate(_)
            | AnyActerModel::AttachmentUpdate(_)
            | AnyActerModel::ReadReceipt(_) => false,
            _ => true,
        }
    }
}

/// The events of `s` that show in the feed of `key`, in the order of `s`.
pub open spec fn feed_events(s: Seq<AnyActerModelView>, key: IndexKeyView) -> Seq<
    AnyActerModelView,
> {
    s.filter(|m: AnyActerModelView| m.in_feed(key))
}

/// The ids of the events of `s` that show in the feed of `key`, in the order of `s`.
pub open spec fn feed(s: Seq<AnyActerModelView>, key: IndexKeyView) -> Seq<Seq<char>> {
    feed_events(s, key).map_values(|m: AnyActerModelView| m.event_id())
}

/// The part of `all` that starts after `offset` items and holds at most `limit` items.
pub open spec fn page<T>(all: Seq<T>, offset: nat, limit: nat) -> Seq<T> {
    let start = if offset <= all.len() {
        offset
    } else {
        all.len()
    };
    let end = if offset + limit <= all.len() {
        offset + limit
    } else {
        all.len()
    };
    all.subrange(start as int, end as int)
}

/// A page and the page that follows it make up the page of both their sizes: nothing is
/// left out between them, nothing comes twice, and the order is that of the whole.
pub proof fn lemma_pages_follow<T>(all: Seq<T>, offset: nat, first: nat, second: nat)
    ensures
        page(all, offset, first) + page(all, offset + first, second) == page(
            all,
            offset,
            first + second,
        ),
{
    assert(page(all, offset, first) + page(all, offset + first, second) =~= page(
        all,
        offset,
        first + second,
    ));
}

/// Where no item comes twice in the whole, a page and the page that follows it share no
/// item.
pub proof fn lemma_pages_disjoint<T>(all: Seq<T>, offset: nat, first: nat, second: nat)
    requires
        all.no_duplicates(),
    ensures
        forall|x: T| #[trigger]
            page(all, offset, first).contains(x) ==> !page(all, offset + first, second).contains(
                x,
            ),
{
    let p = page(all, offset, first);
    let q = page(all, offset + first, second);
    assert forall|x: T| #[trigger] p.contains(x) implies !q.contains(x) by {
        if q.contains(x) {
            let i = choose|i: int| 0 <= i < p.len() && p[i] == x;
            let j = choose|j: int| 0 <= j < q.len() && q[j] == x;
            assert(all[offset + i] == x);
            assert(all[offset + first + j] == x);
        }
    }
}

/// No id comes twice in the feed of a store.
pub proof fn lemma_feed_unique(s: Seq<AnyActerModelView>, key: IndexKeyView)
    requires
        unique_ids(s),
    ensures
        feed(s, key).no_duplicates(),
    decreases s.len(),
{
    reveal(Seq::filter);
    let wanted = |m: AnyActerModelView| m.in_feed(key);
    if s.len() > 0 {
        let rest = s.drop_last();
        assert forall|i: int, j: int| 0 <= i < j < rest.len() implies rest[i].event_id()
            != rest[j].event_id() by {
            assert(rest[i] == s[i] && rest[j] == s[j]);
        }
        lemma_feed_unique(rest, key);
        if wanted(s.last()) {
            let f = feed(s, key);
            let g = feed(rest, key);
            assert(f =~= g.push(s.last().event_id()));
            assert forall|i: int| 0 <= i < g.len() implies g[i] != s.last().event_id() by {
                let m = feed_events(rest, key)[i];
                rest.lemma_filter_contains_rev(wanted, m);
                let k = choose|k: int| 0 <= k < rest.len() && rest[k] == m;
                assert(s[k] == m);
            }
        }
    }
}

/// No id comes twice in the feed of a store, so a page and the page that follows it share
/// no id.
pub proof fn lemma_feed_pages_disjoint(
    s: Seq<AnyActerModelView>,
    key: IndexKeyView,
    offset: nat,
    first: nat,
    second: nat,
)
    requires
        unique_ids(s),
    ensures
        forall|id: Seq<char>| #[trigger]
            page(feed(s, key), offset, first).contains(id) ==> !page(
                feed(s, key),
                offset + first,
                second,
            ).contains(id),
{
    lemma_feed_unique(s, key);
    lemma_pages_disjoint(feed(s, key), offset, first, second);
}

/// The feed of one room or of one object.
#[derive(Debug)]
pub struct Activities {
    pub index: IndexKey,
}

impl View for Activities {
    type V = IndexKeyView;

    open spec fn view(&self) -> IndexKeyView {
        self.index@
    }
}

impl Activities {
    /// The ids of the events in the feed, in the order in which they arrived, leaving out
    /// the first `offset` and giving at most `limit`. Events without an activity are not
    /// part of the feed and do not count.
    pub fn get_ids(&self, store: &Store, offset: u32, limit: u32) -> (res: Vec<String>)
        ensures
            res.deep_view() == page(feed(store@, self@), offset as nat, limit as nat),
    {
        let ghost s = store@;
        let ghost key = self@;
        let ghost wanted = |m: AnyActerModelView| m.in_feed(key);
        let all = store.all();
        let n = all.len();
        let mut res: Vec<String> = Vec::new();
        let skip: usize = offset as usize;
        let take: usize = limit as usize;
        let mut seen: usize = 0;
        let mut i: usize = 0;
        proof {
            reveal(Seq::filter);
            assert(s.take(0) =~= Seq::<AnyActerModelView>::empty());
            assert(res.deep_view() =~= page(feed(s.take(0), key), offset as nat, limit as nat));
        }
        while i < n
            invariant
                i <= n,
                n == s.len(),
                all.deep_view() == s,
                key == self@,
                skip == offset,
                take == limit,
                seen == feed(s.take(i as int), key).len(),
                seen <= i,
                res.deep_view() == page(feed(s.take(i as int), key), offset as nat, limit as nat),
            decreases n - i,
        {
            let ghost earlier = feed(s.take(i as int), key);
            let ghost collected = res.deep_view();
            let model = &all[i];
            proof {
                reveal(Seq::filter);
                assert(s.take(i + 1).drop_last() =~= s.take(i as int));
                assert(s.take(i + 1).last() == model@);
            }
            if model.is_under(&self.index) && model.has_activity() {
                assert(feed(s.take(i + 1), key) =~= earlier.push(model@.event_id()));
                if seen >= skip && seen - skip < take {
                    res.push(model.event_id().clone());
                    assert(res.deep_view() =~= collected.push(model@.event_id()));
                }
                seen += 1;
            } else {
                assert(feed(s.take(i + 1), key) =~= earlier);
            }
            assert(res.deep_view() =~= page(
                feed(s.take(i + 1), key),
                offset as nat,
                limit as nat,
            ));
            i += 1;
        }
        assert(s.take(n as int) =~= s);
        res
    }

    /// The key to listen on for changes of this feed.
    pub fn subscribe(&self) -> (res: IndexKey)
        ensures
            res@ == self@,
    {
        self.index.clone()
    }
}

} // verus!
