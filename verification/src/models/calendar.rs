//! Calendar events: a titled span of time.

use crate::content::{TextContent, TextContentView};
use crate::meta::{EventMeta, EventMetaView, UtcDateTime};
use crate::tristate::TriState;
use vstd::prelude::*;

verus! {

/// A calendar event as it currently stands.
#[derive(Debug)]
pub struct CalendarEvent {
    pub meta: EventMeta,
    pub title: String,
    pub description: Option<TextContent>,
    pub utc_start: UtcDateTime,
    pub utc_end: UtcDateTime,
}

/// Mathematical model of a [`CalendarEvent`].
pub struct CalendarEventView {
    pub meta: EventMetaView,
    pub title: Seq<char>,
    pub description: Option<TextContentView>,
    pub utc_start: UtcDateTime,
    pub utc_end: UtcDateTime,
}

impl View for CalendarEvent {
    type V = CalendarEventView;

    open spec fn view(&self) -> CalendarEventView {
        CalendarEventView {
            meta: self.meta@,
            title: self.title@,
            description: self.description.deep_view(),
            utc_start: self.utc_start,
            utc_end: self.utc_end,
        }
    }
}

impl DeepView for CalendarEvent {
    type V = CalendarEventView;

    open spec fn deep_view(&self) -> CalendarEventView {
        self@
    }
}

impl Clone for CalendarEvent {
    fn clone(&self) -> (res: Self)
        ensures
            res@ == self@,
    {
        CalendarEvent {
            meta: self.meta.clone(),
            title: self.title.clone(),
            description: self.description.clone(),
            utc_start: self.utc_start,
            utc_end: self.utc_end,
        }
    }
}

/// A partial update of a calendar event.
#[derive(Debug)]
pub struct CalendarEventUpdate {
    pub meta: EventMeta,
    /// Event id of the calendar event this update is for.
    pub calendar_event: String,
    pub title: TriState<String>,
    pub description: TriState<TextContent>,
    pub utc_start: TriState<UtcDateTime>,
    pub utc_end: TriState<UtcDateTime>,
}

/// Mathematical model of a [`CalendarEventUpdate`].
pub struct CalendarEventUpdateView {
    pub meta: EventMetaView,
    pub calendar_event: Seq<char>,
    pub title: TriState<Seq<char>>,
    pub description: TriState<TextContentView>,
    pub utc_start: TriState<UtcDateTime>,
    pub utc_end: TriState<UtcDateTime>,
}

impl View for CalendarEventUpdate {
    type V = CalendarEventUpdateView;

    open spec fn view(&self) -> CalendarEventUpdateView {
        CalendarEventUpdateView {
            meta: self.meta@,
            calendar_event: self.calendar_event@,
            title: self.title.deep_view(),
            description: self.description.deep_view(),
            utc_start: self.utc_start.deep_view(),
            utc_end: self.utc_end.deep_view(),
        }
    }
}

impl DeepView for CalendarEventUpdate {
    type V = CalendarEventUpdateView;

    open spec fn deep_view(&self) -> CalendarEventUpdateView {
        self@
    }
}

impl Clone for CalendarEventUpdate {
    fn clone(&self) -> (res: Self)
        ensures
            res@ == self@,
    {
        CalendarEventUpdate {
            meta: self.meta.clone(),
            calendar_event: self.calendar_event.clone(),
            title: self.title.clone(),
            description: self.description.clone(),
            utc_start: self.utc_start.clone(),
            utc_end: self.utc_end.clone(),
        }
    }
}

impl CalendarEventUpdateView {
    /// The update mentions no field.
    pub open spec fn is_noop(self) -> bool {
        self.title is Absent
            && self.description is Absent
            && self.utc_start is Absent
            && self.utc_end is Absent
    }
}

impl CalendarEventView {
    /// The calendar event after `u` has been folded into it.
    pub open spec fn applied(self, u: CalendarEventUpdateView) -> CalendarEventView {
        CalendarEventView {
            title: u.title.merged_or(self.title, Seq::empty()),
            description: u.description.merged(self.description),
            utc_start: u.utc_start.merged_or(self.utc_start, (UtcDateTime { secs: 0, nanos: 0 })),
            utc_end: u.utc_end.merged_or(self.utc_end, (UtcDateTime { secs: 0, nanos: 0 })),
            ..self
        }
    }
}

impl CalendarEvent {
    /// Folds `update` into this calendar event, field by field: an absent field keeps the value, an
    /// empty one clears it, a set one overwrites it.
    pub fn apply(&mut self, update: &CalendarEventUpdate)
        ensures
            final(self)@ == old(self)@.applied(update@),
    {
        match &update.title {
            TriState::Absent => {},
            TriState::Empty => {
                self.title = String::new();
            },
            TriState::Value(v) => {
                self.title = v.clone();
            },
        }
        match &update.description {
            TriState::Absent => {},
            TriState::Empty => {
                self.description = None;
            },
            TriState::Value(v) => {
                self.description = Some(v.clone());
            },
        }
        match &update.utc_start {
            TriState::Absent => {},
            TriState::Empty => {
                self.utc_start = UtcDateTime { secs: 0, nanos: 0 };
            },
            TriState::Value(v) => {
                self.utc_start = *v;
            },
        }
        match &update.utc_end {
            TriState::Absent => {},
            TriState::Empty => {
                self.utc_end = UtcDateTime { secs: 0, nanos: 0 };
            },
            TriState::Value(v) => {
                self.utc_end = *v;
            },
        }
    }
}

/// Folding the same update in twice gives what folding it in once gives.
pub proof fn lemma_calendar_event_apply_idempotent(
    event: CalendarEventView,
    u: CalendarEventUpdateView,
)
    ensures
        event.applied(u).applied(u) == event.applied(u),
{
}

/// An update that mentions no field leaves the calendar event as it was. A field that the update
/// does not mention keeps its value, whatever the update says of other fields, and a
/// field that it gives as empty is cleared: an update changes exactly the fields it
/// mentions.
pub proof fn lemma_calendar_event_apply_tristate(
    event: CalendarEventView,
    u: CalendarEventUpdateView,
)
    ensures
        u.is_noop() ==> event.applied(u) == event,
        event.applied(u).meta == event.meta,
        u.title is Absent ==> event.applied(u).title == event.title,
        u.title is Empty ==> event.applied(u).title == Seq::<char>::empty(),
        u.description is Absent ==> event.applied(u).description == event.description,
        u.description is Empty ==> event.applied(u).description is None,
        u.utc_start is Absent ==> event.applied(u).utc_start == event.utc_start,
        u.utc_start is Empty ==> event.applied(u).utc_start == (UtcDateTime { secs: 0, nanos: 0 }),
        u.utc_end is Absent ==> event.applied(u).utc_end == event.utc_end,
        u.utc_end is Empty ==> event.applied(u).utc_end == (UtcDateTime { secs: 0, nanos: 0 }),
{
}

/// Of two updates folded in one after the other, the later decides every field it mentions,
/// so the two orders may give different results.
pub proof fn lemma_calendar_event_apply_last_wins(
    event: CalendarEventView,
    first: CalendarEventUpdateView,
    second: CalendarEventUpdateView,
)
    ensures
        !(second.title is Absent) ==> event.applied(first).applied(second).title
            == event.applied(second).title,
        !(second.description is Absent) ==> event.applied(first).applied(second).description
            == event.applied(second).description,
        !(second.utc_start is Absent) ==> event.applied(first).applied(second).utc_start
            == event.applied(second).utc_start,
        !(second.utc_end is Absent) ==> event.applied(first).applied(second).utc_end
            == event.applied(second).utc_end,
{
}

} // verus!
