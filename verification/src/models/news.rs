//! News entries: a short run of slides.

use crate::content::{MsgContent, MsgContentView};
use crate::meta::{EventMeta, EventMetaView};
use crate::tristate::TriState;
use vstd::prelude::*;

verus! {

/// One slide of a news entry.
#[derive(Debug)]
pub struct NewsSlide {
    pub content: MsgContent,
}

/// Mathematical model of a [`NewsSlide`].
pub struct NewsSlideView {
    pub content: MsgContentView,
}

impl View for NewsSlide {
    type V = NewsSlideView;

    open spec fn view(&self) -> NewsSlideView {
        NewsSlideView {
            content: self.content@,
        }
    }
}

impl DeepView for NewsSlide {
    type V = NewsSlideView;

    open spec fn deep_view(&self) -> NewsSlideView {
        self@
    }
}

impl Clone for NewsSlide {
    fn clone(&self) -> (res: Self)
        ensures
            res@ == self@,
    {
        NewsSlide {
            content: self.content.clone(),
        }
    }
}

/// A news entry as it currently stands.
#[derive(Debug)]
pub struct NewsEntry {
    pub meta: EventMeta,
    pub slides: Vec<NewsSlide>,
}

/// Mathematical model of a [`NewsEntry`].
pub struct NewsEntryView {
    pub meta: EventMetaView,
    pub slides: Seq<NewsSlideView>,
}

impl View for NewsEntry {
    type V = NewsEntryView;

    open spec fn view(&self) -> NewsEntryView {
        NewsEntryView { meta: self.meta@, slides: self.slides.deep_view() }
    }
}

impl DeepView for NewsEntry {
    type V = NewsEntryView;

    open spec fn deep_view(&self) -> NewsEntryView {
        self@
    }
}

/// A copy of `slides`, slide by slide.
pub fn clone_slides(slides: &Vec<NewsSlide>) -> (res: Vec<NewsSlide>)
    ensures
        res.deep_view() == slides.deep_view(),
{
    let res = slides.clone();
    assert(res.deep_view() =~= slides.deep_view());
    res
}

impl Clone for NewsEntry {
    fn clone(&self) -> (res: Self)
        ensures
            res@ == self@,
    {
        NewsEntry { meta: self.meta.clone(), slides: clone_slides(&self.slides) }
    }
}

/// A partial update of a news entry.
#[derive(Debug)]
pub struct NewsEntryUpdate {
    pub meta: EventMeta,
    /// Event id of the news entry this update is for.
    pub news_entry: String,
    pub slides: TriState<Vec<NewsSlide>>,
}

/// Mathematical model of a [`NewsEntryUpdate`].
pub struct NewsEntryUpdateView {
    pub meta: EventMetaView,
    pub news_entry: Seq<char>,
    pub slides: TriState<Seq<NewsSlideView>>,
}

impl View for NewsEntryUpdate {
    type V = NewsEntryUpdateView;

    open spec fn view(&self) -> NewsEntryUpdateView {
        NewsEntryUpdateView {
            meta: self.meta@,
            news_entry: self.news_entry@,
            slides: self.slides.deep_view(),
        }
    }
}

impl DeepView for NewsEntryUpdate {
    type V = NewsEntryUpdateView;

    open spec fn deep_view(&self) -> NewsEntryUpdateView {
        self@
    }
}

impl Clone for NewsEntryUpdate {
    fn clone(&self) -> (res: Self)
        ensures
            res@ == self@,
    {
        let slides = match &self.slides {
            TriState::Absent => TriState::Absent,
            TriState::Empty => TriState::Empty,
            TriState::Value(v) => TriState::Value(clone_slides(v)),
        };
        NewsEntryUpdate { meta: self.meta.clone(), news_entry: self.news_entry.clone(), slides }
    }
}

impl NewsEntryUpdateView {
    /// The update mentions no field.
    pub open spec fn is_noop(self) -> bool {
        self.slides is Absent
    }
}

impl NewsEntryView {
    /// The news entry after `u` has been folded into it.
    pub open spec fn applied(self, u: NewsEntryUpdateView) -> NewsEntryView {
        NewsEntryView { slides: u.slides.merged_or(self.slides, Seq::empty()), ..self }
    }
}

impl NewsEntry {
    /// Folds `update` into this news entry: absent slides keep the old ones, empty ones
    /// leave no slide, set ones replace them all.
    pub fn apply(&mut self, update: &NewsEntryUpdate)
        ensures
            final(self)@ == old(self)@.applied(update@),
    {
        match &update.slides {
            TriState::Absent => {},
            TriState::Empty => {
                self.slides = Vec::new();
                assert(self.slides.deep_view() =~= Seq::<NewsSlideView>::empty());
            },
            TriState::Value(v) => {
                self.slides = clone_slides(v);
            },
        }
    }
}

/// Folding the same update in twice gives what folding it in once gives.
pub proof fn lemma_news_entry_apply_idempotent(entry: NewsEntryView, u: NewsEntryUpdateView)
    ensures
        entry.applied(u).applied(u) == entry.applied(u),
{
}

/// An update that mentions no field leaves the news entry as it was, and one with empty
/// slides leaves it without slides and otherwise as it was.
pub proof fn lemma_news_entry_apply_tristate(entry: NewsEntryView, u: NewsEntryUpdateView)
    ensures
        u.is_noop() ==> entry.applied(u) == entry,
        entry.applied(u).meta == entry.meta,
        u.slides is Empty ==> entry.applied(u).slides == Seq::<NewsSlideView>::empty(),
{
}

/// Of two updates folded in one after the other, the later decides the slides if it
/// mentions them.
pub proof fn lemma_news_entry_apply_last_wins(
    entry: NewsEntryView,
    first: NewsEntryUpdateView,
    second: NewsEntryUpdateView,
)
    ensures
        !(second.slides is Absent) ==> entry.applied(first).applied(second).slides
            == entry.applied(second).slides,
{
}

} // verus!
