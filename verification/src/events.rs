//! The events as they come off the wire: telling their kind by the type string, and
//! refusing what is not known.

use crate::foreign::{peek_event_type, wire_event_type};
use crate::models::any::{AnyActerModel, AnyActerModelView};
use crate::models::calendar::{
    CalendarEvent, CalendarEventUpdate, CalendarEventUpdateView, CalendarEventView,
};
use crate::models::news::{NewsEntry, NewsEntryUpdate, NewsEntryUpdateView, NewsEntryView};
use crate::models::pins::{Pin, PinUpdate, PinUpdateView, PinView};
use crate::models::relations::{
    Attachment, AttachmentView, BareEvent, BareEventView, Comment, CommentView, Reaction,
    ReactionView, Rsvp, RsvpView,
};
use crate::models::tasks::{
    Task, TaskList, TaskListUpdate, TaskListUpdateView, TaskListView, TaskSelfAssign,
    TaskSelfAssignView, TaskSelfUnassign, TaskSelfUnassignView, TaskUpdate, TaskUpdateView,
    TaskView,
};
use vstd::prelude::*;

verus! {

/// The kinds of event that the wire may carry.
#[derive(Clone, Copy, Debug, PartialEq, Eq, Structural)]
pub enum EventKind {
    CalendarEvent,
    CalendarEventUpdate,
    Pin,
    PinUpdate,
    NewsEntry,
    NewsEntryUpdate,
    TaskList,
    TaskListUpdate,
    Task,
    TaskUpdate,
    TaskSelfAssign,
    TaskSelfUnassign,
    Comment,
    CommentUpdate,
    Attachment,
    AttachmentUpdate,
    Rsvp,
    Reaction,
}

impl EventKind {
    /// The type string that events of this kind carry.
    pub open spec fn discriminator(self) -> Seq<char> {
        match self {
            EventKind::CalendarEvent => "global.acter.dev.calendar_event"@,
            EventKind::CalendarEventUpdate => "global.acter.dev.calendar_event.update"@,
            EventKind::Pin => "global.acter.dev.pin"@,
            EventKind::PinUpdate => "global.acter.dev.pin.update"@,
            EventKind::NewsEntry => "global.acter.dev.news"@,
            EventKind::NewsEntryUpdate => "global.acter.dev.news.update"@,
            EventKind::TaskList => "global.acter.dev.tasklist"@,
            EventKind::TaskListUpdate => "global.acter.dev.tasklist.update"@,
            EventKind::Task => "global.acter.dev.task"@,
            EventKind::TaskUpdate => "global.acter.dev.task.update"@,
            EventKind::TaskSelfAssign => "global.acter.dev.task.self_assign"@,
            EventKind::TaskSelfUnassign => "global.acter.dev.task.self_unassign"@,
            EventKind::Comment => "global.acter.dev.comment"@,
            EventKind::CommentUpdate => "global.acter.dev.comment.update"@,
            EventKind::Attachment => "global.acter.dev.attachment"@,
            EventKind::AttachmentUpdate => "global.acter.dev.attachment.update"@,
            EventKind::Rsvp => "global.acter.rsvp"@,
            EventKind::Reaction => "m.reaction"@,
        }
    }

    /// Every kind, in the order in which an unknown type string is answered.
    pub open spec fn all() -> Seq<EventKind> {
        seq![
            EventKind::CalendarEvent,
            EventKind::CalendarEventUpdate,
            EventKind::Pin,
            EventKind::PinUpdate,
            EventKind::NewsEntry,
            EventKind::NewsEntryUpdate,
            EventKind::TaskList,
            EventKind::TaskListUpdate,
            EventKind::Task,
            EventKind::TaskUpdate,
            EventKind::TaskSelfAssign,
            EventKind::TaskSelfUnassign,
            EventKind::Comment,
            EventKind::CommentUpdate,
            EventKind::Attachment,
            EventKind::AttachmentUpdate,
            EventKind::Rsvp,
            EventKind::Reaction,
        ]
    }

    /// The type strings of all kinds, in the order of [`EventKind::all`].
    pub open spec fn all_discriminators() -> Seq<Seq<char>> {
        Self::all().map_values(|k: EventKind| k.discriminator())
    }

    /// The kind whose type string is `t`, if there is one.
    pub open spec fn of_discriminator(t: Seq<char>) -> Option<EventKind> {
        if t == "global.acter.dev.calendar_event"@ {
            Some(EventKind::CalendarEvent)
        } else if t == "global.acter.dev.calendar_event.update"@ {
            Some(EventKind::CalendarEventUpdate)
        } else if t == "global.acter.dev.pin"@ {
            Some(EventKind::Pin)
        } else if t == "global.acter.dev.pin.update"@ {
            Some(EventKind::PinUpdate)
        } else if t == "global.acter.dev.news"@ {
            Some(EventKind::NewsEntry)
        } else if t == "global.acter.dev.news.update"@ {
            Some(EventKind::NewsEntryUpdate)
        } else if t == "global.acter.dev.tasklist"@ {
            Some(EventKind::TaskList)
        } else if t == "global.acter.dev.tasklist.update"@ {
            Some(EventKind::TaskListUpdate)
        } else if t == "global.acter.dev.task"@ {
            Some(EventKind::Task)
        } else if t == "global.acter.dev.task.update"@ {
            Some(EventKind::TaskUpdate)
        } else if t == "global.acter.dev.task.self_assign"@ {
            Some(EventKind::TaskSelfAssign)
        } else if t == "global.acter.dev.task.self_unassign"@ {
            Some(EventKind::TaskSelfUnassign)
        } else if t == "global.acter.dev.comment"@ {
            Some(EventKind::Comment)
        } else if t == "global.acter.dev.comment.update"@ {
            Some(EventKind::CommentUpdate)
        } else if t == "global.acter.dev.attachment"@ {
            Some(EventKind::Attachment)
        } else if t == "global.acter.dev.attachment.update"@ {
            Some(EventKind::AttachmentUpdate)
        } else if t == "global.acter.rsvp"@ {
            Some(EventKind::Rsvp)
        } else if t == "m.reaction"@ {
            Some(EventKind::Reaction)
        } else {
            None
        }
    }

    /// The type string that events of this kind carry.
    pub fn type_str(&self) -> (res: &'static str)
        ensures
            res@ == self.discriminator(),
    {
        match self {
            EventKind::CalendarEvent => "global.acter.dev.calendar_event",
            EventKind::CalendarEventUpdate => "global.acter.dev.calendar_event.update",
            EventKind::Pin => "global.acter.dev.pin",
            EventKind::PinUpdate => "global.acter.dev.pin.update",
            EventKind::NewsEntry => "global.acter.dev.news",
            EventKind::NewsEntryUpdate => "global.acter.dev.news.update",
            EventKind::TaskList => "global.acter.dev.tasklist",
            EventKind::TaskListUpdate => "global.acter.dev.tasklist.update",
            EventKind::Task => "global.acter.dev.task",
            EventKind::TaskUpdate => "global.acter.dev.task.update",
            EventKind::TaskSelfAssign => "global.acter.dev.task.self_assign",
            EventKind::TaskSelfUnassign => "global.acter.dev.task.self_unassign",
            EventKind::Comment => "global.acter.dev.comment",
            EventKind::CommentUpdate => "global.acter.dev.comment.update",
            EventKind::Attachment => "global.acter.dev.attachment",
            EventKind::AttachmentUpdate => "global.acter.dev.attachment.update",
            EventKind::Rsvp => "global.acter.rsvp",
            EventKind::Reaction => "m.reaction",
        }
    }

    /// The type strings of all kinds, in the order of [`EventKind::all`].
    pub fn supported_types() -> (res: Vec<String>)
        ensures
            res.deep_view() == Self::all_discriminators(),
    {
        let mut res: Vec<String> = Vec::new();
        res.push("global.acter.dev.calendar_event".to_owned());
        res.push("global.acter.dev.calendar_event.update".to_owned());
        res.push("global.acter.dev.pin".to_owned());
        res.push("global.acter.dev.pin.update".to_owned());
        res.push("global.acter.dev.news".to_owned());
        res.push("global.acter.dev.news.update".to_owned());
        res.push("global.acter.dev.tasklist".to_owned());
        res.push("global.acter.dev.tasklist.update".to_owned());
        res.push("global.acter.dev.task".to_owned());
        res.push("global.acter.dev.task.update".to_owned());
        res.push("global.acter.dev.task.self_assign".to_owned());
        res.push("global.acter.dev.task.self_unassign".to_owned());
        res.push("global.acter.dev.comment".to_owned());
        res.push("global.acter.dev.comment.update".to_owned());
        res.push("global.acter.dev.attachment".to_owned());
        res.push("global.acter.dev.attachment.update".to_owned());
        res.push("global.acter.rsvp".to_owned());
        res.push("m.reaction".to_owned());
        assert(res.deep_view() =~= Self::all_discriminators());
        res
    }

    /// The kind whose type string is `t`. A string that is the type of no kind is refused
    /// with `UnknownVariant`, which names the string and every type that is known.
    pub fn from_type_str(t: &str) -> (res: Result<EventKind, DeserializeError>)
        ensures
            match Self::of_discriminator(t@) {
                Some(kind) => res is Ok && res->Ok_0 == kind,
                None => res is Err && res->Err_0@ == (DeserializeErrorView::UnknownVariant {
                    found: t@,
                    expected: Self::all_discriminators(),
                }),
            },
    {
        if *t == *"global.acter.dev.calendar_event" {
            Ok(EventKind::CalendarEvent)
        } else if *t == *"global.acter.dev.calendar_event.update" {
            Ok(EventKind::CalendarEventUpdate)
        } else if *t == *"global.acter.dev.pin" {
            Ok(EventKind::Pin)
        } else if *t == *"global.acter.dev.pin.update" {
            Ok(EventKind::PinUpdate)
        } else if *t == *"global.acter.dev.news" {
            Ok(EventKind::NewsEntry)
        } else if *t == *"global.acter.dev.news.update" {
            Ok(EventKind::NewsEntryUpdate)
        } else if *t == *"global.acter.dev.tasklist" {
            Ok(EventKind::TaskList)
        } else if *t == *"global.acter.dev.tasklist.update" {
            Ok(EventKind::TaskListUpdate)
        } else if *t == *"global.acter.dev.task" {
            Ok(EventKind::Task)
        } else if *t == *"global.acter.dev.task.update" {
            Ok(EventKind::TaskUpdate)
        } else if *t == *"global.acter.dev.task.self_assign" {
            Ok(EventKind::TaskSelfAssign)
        } else if *t == *"global.acter.dev.task.self_unassign" {
            Ok(EventKind::TaskSelfUnassign)
        } else if *t == *"global.acter.dev.comment" {
            Ok(EventKind::Comment)
        } else if *t == *"global.acter.dev.comment.update" {
            Ok(EventKind::CommentUpdate)
        } else if *t == *"global.acter.dev.attachment" {
            Ok(EventKind::Attachment)
        } else if *t == *"global.acter.dev.attachment.update" {
            Ok(EventKind::AttachmentUpdate)
        } else if *t == *"global.acter.rsvp" {
            Ok(EventKind::Rsvp)
        } else if *t == *"m.reaction" {
            Ok(EventKind::Reaction)
        } else {
            Err(
                DeserializeError::UnknownVariant {
                    found: t.to_owned(),
                    expected: Self::supported_types(),
                },
            )
        }
    }
}

/// Why a raw event could not be read.
#[derive(Debug)]
pub enum DeserializeError {
    /// The bytes are no JSON object with a type string.
    Malformed,
    /// The type string is that of no known kind.
    UnknownVariant { found: String, expected: Vec<String> },
}

/// Mathematical model of a [`DeserializeError`].
pub enum DeserializeErrorView {
    Malformed,
    UnknownVariant { found: Seq<char>, expected: Seq<Seq<char>> },
}

impl View for DeserializeError {
    type V = DeserializeErrorView;

    open spec fn view(&self) -> DeserializeErrorView {
        match self {
            DeserializeError::Malformed => DeserializeErrorView::Malformed,
            DeserializeError::UnknownVariant { found, expected } => {
                DeserializeErrorView::UnknownVariant {
                    found: found@,
                    expected: expected.deep_view(),
                }
            },
        }
    }
}

/// Every kind is found again under its own type string: no two kinds share one.
pub proof fn lemma_kind_round_trip(kind: EventKind)
    ensures
        EventKind::of_discriminator(kind.discriminator()) == Some(kind),
{
    reveal_strlit("global.acter.dev.calendar_event");
    reveal_strlit("global.acter.dev.calendar_event.update");
    reveal_strlit("global.acter.dev.pin");
    reveal_strlit("global.acter.dev.pin.update");
    reveal_strlit("global.acter.dev.news");
    reveal_strlit("global.acter.dev.news.update");
    reveal_strlit("global.acter.dev.tasklist");
    reveal_strlit("global.acter.dev.tasklist.update");
    reveal_strlit("global.acter.dev.task");
    reveal_strlit("global.acter.dev.task.update");
    reveal_strlit("global.acter.dev.task.self_assign");
    reveal_strlit("global.acter.dev.task.self_unassign");
    reveal_strlit("global.acter.dev.comment");
    reveal_strlit("global.acter.dev.comment.update");
    reveal_strlit("global.acter.dev.attachment");
    reveal_strlit("global.acter.dev.attachment.update");
    reveal_strlit("global.acter.rsvp");
    reveal_strlit("m.reaction");
    // Most type strings differ in length; the few of the same length differ early on.
    assert("global.acter.dev.calendar_event"@.len() == 31);
    assert("global.acter.dev.calendar_event.update"@.len() == 38);
    assert("global.acter.dev.pin"@.len() == 20);
    assert("global.acter.dev.pin.update"@.len() == 27);
    assert("global.acter.dev.news"@.len() == 21);
    assert("global.acter.dev.news.update"@.len() == 28);
    assert("global.acter.dev.tasklist"@.len() == 25);
    assert("global.acter.dev.tasklist.update"@.len() == 32);
    assert("global.acter.dev.task"@.len() == 21);
    assert("global.acter.dev.task.update"@.len() == 28);
    assert("global.acter.dev.task.self_assign"@.len() == 33);
    assert("global.acter.dev.task.self_unassign"@.len() == 35);
    assert("global.acter.dev.comment"@.len() == 24);
    assert("global.acter.dev.comment.update"@.len() == 31);
    assert("global.acter.dev.attachment"@.len() == 27);
    assert("global.acter.dev.attachment.update"@.len() == 34);
    assert("global.acter.rsvp"@.len() == 17);
    assert("m.reaction"@.len() == 10);
    assert("global.acter.dev.news"@[17] != "global.acter.dev.task"@[17]);
    assert("global.acter.dev.pin.update"@[17] != "global.acter.dev.attachment"@[17]);
    assert("global.acter.dev.news.update"@[17] != "global.acter.dev.task.update"@[17]);
    assert("global.acter.dev.calendar_event"@[18] != "global.acter.dev.comment.update"@[18]);
}

/// A type string stands for at most one kind, and for the kind it stands for it is that
/// kind's own type string.
pub proof fn lemma_discriminator_decides(t: Seq<char>, kind: EventKind)
    ensures
        EventKind::of_discriminator(t) == Some(kind) <==> t == kind.discriminator(),
{
    lemma_kind_round_trip(kind);
}

/// The kind of a raw event whose type string, if it has one, is `wire_type`.
pub open spec fn kind_of(wire_type: Option<Seq<char>>) -> Result<EventKind, DeserializeErrorView> {
    match wire_type {
        None => Err(DeserializeErrorView::Malformed),
        Some(t) => match EventKind::of_discriminator(t) {
            Some(kind) => Ok(kind),
            None => Err(
                DeserializeErrorView::UnknownVariant {
                    found: t,
                    expected: EventKind::all_discriminators(),
                },
            ),
        },
    }
}

/// The kind of a raw event, told from its type string alone, without reading the rest.
/// Bytes without a type string are `Malformed`; a type string of no known kind is refused
/// with `UnknownVariant`.
pub fn peek_kind(raw: &str) -> (res: Result<EventKind, DeserializeError>)
    ensures
        match kind_of(wire_event_type(raw@)) {
            Ok(kind) => res is Ok && res->Ok_0 == kind,
            Err(e) => res is Err && res->Err_0@ == e,
        },
{
    match peek_event_type(raw) {
        Ok(t) => EventKind::from_type_str(t.as_str()),
        Err(_) => Err(DeserializeError::Malformed),
    }
}

/// One event off the wire, of any known kind.
#[derive(Debug)]
pub enum AnyActerEvent {
    CalendarEvent(CalendarEvent),
    CalendarEventUpdate(CalendarEventUpdate),
    Pin(Pin),
    PinUpdate(PinUpdate),
    NewsEntry(NewsEntry),
    NewsEntryUpdate(NewsEntryUpdate),
    TaskList(TaskList),
    TaskListUpdate(TaskListUpdate),
    Task(Task),
    TaskUpdate(TaskUpdate),
    TaskSelfAssign(TaskSelfAssign),
    TaskSelfUnassign(TaskSelfUnassign),
    Comment(Comment),
    CommentUpdate(BareEvent),
    Attachment(Attachment),
    AttachmentUpdate(BareEvent),
    Rsvp(Rsvp),
    Reaction(Reaction),
}

/// Mathematical model of an [`AnyActerEvent`].
pub enum AnyActerEventView {
    CalendarEvent(CalendarEventView),
    CalendarEventUpdate(CalendarEventUpdateView),
    Pin(PinView),
    PinUpdate(PinUpdateView),
    NewsEntry(NewsEntryView),
    NewsEntryUpdate(NewsEntryUpdateView),
    TaskList(TaskListView),
    TaskListUpdate(TaskListUpdateView),
    Task(TaskView),
    TaskUpdate(TaskUpdateView),
    TaskSelfAssign(TaskSelfAssignView),
    TaskSelfUnassign(TaskSelfUnassignView),
    Comment(CommentView),
    CommentUpdate(BareEventView),
    Attachment(AttachmentView),
    AttachmentUpdate(BareEventView),
    Rsvp(RsvpView),
    Reaction(ReactionView),
}

impl View for AnyActerEvent {
    type V = AnyActerEventView;

    open spec fn view(&self) -> AnyActerEventView {
        match self {
            AnyActerEvent::CalendarEvent(e) => AnyActerEventView::CalendarEvent(e@),
            AnyActerEvent::CalendarEventUpdate(e) => AnyActerEventView::CalendarEventUpdate(e@),
            AnyActerEvent::Pin(e) => AnyActerEventView::Pin(e@),
            AnyActerEvent::PinUpdate(e) => AnyActerEventView::PinUpdate(e@),
            AnyActerEvent::NewsEntry(e) => AnyActerEventView::NewsEntry(e@),
            AnyActerEvent::NewsEntryUpdate(e) => AnyActerEventView::NewsEntryUpdate(e@),
            AnyActerEvent::TaskList(e) => AnyActerEventView::TaskList(e@),
            AnyActerEvent::TaskListUpdate(e) => AnyActerEventView::TaskListUpdate(e@),
            AnyActerEvent::Task(e) => AnyActerEventView::Task(e@),
            AnyActerEvent::TaskUpdate(e) => AnyActerEventView::TaskUpdate(e@),
            AnyActerEvent::TaskSelfAssign(e) => AnyActerEventView::TaskSelfAssign(e@),
            AnyActerEvent::TaskSelfUnassign(e) => AnyActerEventView::TaskSelfUnassign(e@),
            AnyActerEvent::Comment(e) => AnyActerEventView::Comment(e@),
            AnyActerEvent::CommentUpdate(e) => AnyActerEventView::CommentUpdate(e@),
            AnyActerEvent::Attachment(e) => AnyActerEventView::Attachment(e@),
            AnyActerEvent::AttachmentUpdate(e) => AnyActerEventView::AttachmentUpdate(e@),
            AnyActerEvent::Rsvp(e) => AnyActerEventView::Rsvp(e@),
            AnyActerEvent::Reaction(e) => AnyActerEventView::Reaction(e@),
        }
    }
}

impl AnyActerEventView {
    /// The kind of the event.
    pub open spec fn kind(self) -> EventKind {
        match self {
            AnyActerEventView::CalendarEvent(_) => EventKind::CalendarEvent,
            AnyActerEventView::CalendarEventUpdate(_) => EventKind::CalendarEventUpdate,
            AnyActerEventView::Pin(_) => EventKind::Pin,
            AnyActerEventView::PinUpdate(_) => EventKind::PinUpdate,
            AnyActerEventView::NewsEntry(_) => EventKind::NewsEntry,
            AnyActerEventView::NewsEntryUpdate(_) => EventKind::NewsEntryUpdate,
            AnyActerEventView::TaskList(_) => EventKind::TaskList,
            AnyActerEventView::TaskListUpdate(_) => EventKind::TaskListUpdate,
            AnyActerEventView::Task(_) => EventKind::Task,
            AnyActerEventView::TaskUpdate(_) => EventKind::TaskUpdate,
            AnyActerEventView::TaskSelfAssign(_) => EventKind::TaskSelfAssign,
            AnyActerEventView::TaskSelfUnassign(_) => EventKind::TaskSelfUnassign,
            AnyActerEventView::Comment(_) => EventKind::Comment,
            AnyActerEventView::CommentUpdate(_) => EventKind::CommentUpdate,
            AnyActerEventView::Attachment(_) => EventKind::Attachment,
            AnyActerEventView::AttachmentUpdate(_) => EventKind::AttachmentUpdate,
            AnyActerEventView::Rsvp(_) => EventKind::Rsvp,
            AnyActerEventView::Reaction(_) => EventKind::Reaction,
        }
    }

    /// The event as the store keeps it.
    pub open spec fn model(self) -> AnyActerModelView {
        match self {
            AnyActerEventView::CalendarEvent(e) => AnyActerModelView::CalendarEvent(e),
            AnyActerEventView::CalendarEventUpdate(e) => AnyActerModelView::CalendarEventUpdate(e),
            AnyActerEventView::Pin(e) => AnyActerModelView::Pin(e),
            AnyActerEventView::PinUpdate(e) => AnyActerModelView::PinUpdate(e),
            AnyActerEventView::NewsEntry(e) => AnyActerModelView::NewsEntry(e),
            AnyActerEventView::NewsEntryUpdate(e) => AnyActerModelView::NewsEntryUpdate(e),
            AnyActerEventView::TaskList(e) => AnyActerModelView::TaskList(e),
            AnyActerEventView::TaskListUpdate(e) => AnyActerModelView::TaskListUpdate(e),
            AnyActerEventView::Task(e) => AnyActerModelView::Task(e),
            AnyActerEventView::TaskUpdate(e) => AnyActerModelView::TaskUpdate(e),
            AnyActerEventView::TaskSelfAssign(e) => AnyActerModelView::TaskSelfAssign(e),
            AnyActerEventView::TaskSelfUnassign(e) => AnyActerModelView::TaskSelfUnassign(e),
            AnyActerEventView::Comment(e) => AnyActerModelView::Comment(e),
            AnyActerEventView::CommentUpdate(e) => AnyActerModelView::CommentUpdate(e),
            AnyActerEventView::Attachment(e) => AnyActerModelView::Attachment(e),
            AnyActerEventView::AttachmentUpdate(e) => AnyActerModelView::AttachmentUpdate(e),
            AnyActerEventView::Rsvp(e) => AnyActerModelView::Rsvp(e),
            AnyActerEventView::Reaction(e) => AnyActerModelView::Reaction(e),
        }
    }
}

impl AnyActerEvent {
    /// The kind of the event.
    pub fn kind(&self) -> (res: EventKind)
        ensures
            res == self@.kind(),
    {
        match self {
            AnyActerEvent::CalendarEvent(_) => EventKind::CalendarEvent,
            AnyActerEvent::CalendarEventUpdate(_) => EventKind::CalendarEventUpdate,
            AnyActerEvent::Pin(_) => EventKind::Pin,
            AnyActerEvent::PinUpdate(_) => EventKind::PinUpdate,
            AnyActerEvent::NewsEntry(_) => EventKind::NewsEntry,
            AnyActerEvent::NewsEntryUpdate(_) => EventKind::NewsEntryUpdate,
            AnyActerEvent::TaskList(_) => EventKind::TaskList,
            AnyActerEvent::TaskListUpdate(_) => EventKind::TaskListUpdate,
            AnyActerEvent::Task(_) => EventKind::Task,
            AnyActerEvent::TaskUpdate(_) => EventKind::TaskUpdate,
            AnyActerEvent::TaskSelfAssign(_) => EventKind::TaskSelfAssign,
            AnyActerEvent::TaskSelfUnassign(_) => EventKind::TaskSelfUnassign,
            AnyActerEvent::Comment(_) => EventKind::Comment,
            AnyActerEvent::CommentUpdate(_) => EventKind::CommentUpdate,
            AnyActerEvent::Attachment(_) => EventKind::Attachment,
            AnyActerEvent::AttachmentUpdate(_) => EventKind::AttachmentUpdate,
            AnyActerEvent::Rsvp(_) => EventKind::Rsvp,
            AnyActerEvent::Reaction(_) => EventKind::Reaction,
        }
    }

    /// The event as the store keeps it.
    pub fn into_model(self) -> (res: AnyActerModel)
        ensures
            res@ == self@.model(),
    {
        match self {
            AnyActerEvent::CalendarEvent(e) => AnyActerModel::CalendarEvent(e),
            AnyActerEvent::CalendarEventUpdate(e) => AnyActerModel::CalendarEventUpdate(e),
            AnyActerEvent::Pin(e) => AnyActerModel::Pin(e),
            AnyActerEvent::PinUpdate(e) => AnyActerModel::PinUpdate(e),
            AnyActerEvent::NewsEntry(e) => AnyActerModel::NewsEntry(e),
            AnyActerEvent::NewsEntryUpdate(e) => AnyActerModel::NewsEntryUpdate(e),
            AnyActerEvent::TaskList(e) => AnyActerModel::TaskList(e),
            AnyActerEvent::TaskListUpdate(e) => AnyActerModel::TaskListUpdate(e),
            AnyActerEvent::Task(e) => AnyActerModel::Task(e),
            AnyActerEvent::TaskUpdate(e) => AnyActerModel::TaskUpdate(e),
            AnyActerEvent::TaskSelfAssign(e) => AnyActerModel::TaskSelfAssign(e),
            AnyActerEvent::TaskSelfUnassign(e) => AnyActerModel::TaskSelfUnassign(e),
            AnyActerEvent::Comment(e) => AnyActerModel::Comment(e),
            AnyActerEvent::CommentUpdate(e) => AnyActerModel::CommentUpdate(e),
            AnyActerEvent::Attachment(e) => AnyActerModel::Attachment(e),
            AnyActerEvent::AttachmentUpdate(e) => AnyActerModel::AttachmentUpdate(e),
            AnyActerEvent::Rsvp(e) => AnyActerModel::Rsvp(e),
            AnyActerEvent::Reaction(e) => AnyActerModel::Reaction(e),
        }
    }
}

} // verus!
