//! Every kind of stored event under one type.

use crate::models::calendar::{
    CalendarEvent, CalendarEventUpdate, CalendarEventUpdateView, CalendarEventView,
};
use crate::models::news::{NewsEntry, NewsEntryUpdate, NewsEntryUpdateView, NewsEntryView};
use crate::models::pins::{Pin, PinUpdate, PinUpdateView, PinView};
use crate::models::relations::{
    Attachment, AttachmentView, BareEvent, BareEventView, Comment, CommentView, ExplicitInvite,
    ExplicitInviteView, Reaction, ReactionView, Rsvp, RsvpView,
};
use crate::models::status::{RoomStatus, RoomStatusView};
use crate::models::tasks::{
    Task, TaskList, TaskListUpdate, TaskListUpdateView, TaskListView, TaskSelfAssign,
    TaskSelfAssignView, TaskSelfUnassign, TaskSelfUnassignView, TaskUpdate, TaskUpdateView,
    TaskView,
};
use crate::meta::{EventMeta, EventMetaView};
use vstd::prelude::*;

verus! {

/// One stored event of any supported kind.
#[derive(Debug)]
pub enum AnyActerModel {
    CalendarEvent(CalendarEvent),
    CalendarEventUpdate(CalendarEventUpdate),
    Pin(Pin),
    PinUpdate(PinUpdate),
    NewsEntry(NewsEntry),
    NewsEntryUpdate(NewsEntryUpdate),
    Story(BareEvent),
    StoryUpdate(BareEvent),
    TaskList(TaskList),
    TaskListUpdate(TaskListUpdate),
    Task(Task),
    TaskUpdate(TaskUpdate),
    TaskSelfAssign(TaskSelfAssign),
    TaskSelfUnassign(TaskSelfUnassign),
    Comment(Comment),
    CommentUpdate(BareEvent),
    Attachment(Attachment),
    AttachmentUpdate(BareEvent),
    Reaction(Reaction),
    ReadReceipt(BareEvent),
    Rsvp(Rsvp),
    ExplicitInvite(ExplicitInvite),
    RoomStatus(RoomStatus),
    RedactedActerModel(BareEvent),
}

/// Mathematical model of an [`AnyActerModel`].
pub enum AnyActerModelView {
    CalendarEvent(CalendarEventView),
    CalendarEventUpdate(CalendarEventUpdateView),
    Pin(PinView),
    PinUpdate(PinUpdateView),
    NewsEntry(NewsEntryView),
    NewsEntryUpdate(NewsEntryUpdateView),
    Story(BareEventView),
    StoryUpdate(BareEventView),
    TaskList(TaskListView),
    TaskListUpdate(TaskListUpdateView),
    Task(TaskView),
    TaskUpdate(TaskUpdateView),
    TaskSelfAssign(TaskSelfAssignView),
    TaskSelfUnassign(TaskSelfUnassignView),
    Comment(CommentView),
    CommentUpdate(BareEventView),
    Attachment(AttachmentView),
    AttachmentUpdate(BareEventView),
    Reaction(ReactionView),
    ReadReceipt(BareEventView),
    Rsvp(RsvpView),
    ExplicitInvite(ExplicitInviteView),
    RoomStatus(RoomStatusView),
    RedactedActerModel(BareEventView),
}

impl View for AnyActerModel {
    type V = AnyActerModelView;

    open spec fn view(&self) -> AnyActerModelView {
        match self {
            AnyActerModel::CalendarEvent(m) => AnyActerModelView::CalendarEvent(m@),
            AnyActerModel::CalendarEventUpdate(m) => AnyActerModelView::CalendarEventUpdate(m@),
            AnyActerModel::Pin(m) => AnyActerModelView::Pin(m@),
            AnyActerModel::PinUpdate(m) => AnyActerModelView::PinUpdate(m@),
            AnyActerModel::NewsEntry(m) => AnyActerModelView::NewsEntry(m@),
            AnyActerModel::NewsEntryUpdate(m) => AnyActerModelView::NewsEntryUpdate(m@),
            AnyActerModel::Story(m) => AnyActerModelView::Story(m@),
            AnyActerModel::StoryUpdate(m) => AnyActerModelView::StoryUpdate(m@),
            AnyActerModel::TaskList(m) => AnyActerModelView::TaskList(m@),
            AnyActerModel::TaskListUpdate(m) => AnyActerModelView::TaskListUpdate(m@),
            AnyActerModel::Task(m) => AnyActerModelView::Task(m@),
            AnyActerModel::TaskUpdate(m) => AnyActerModelView::TaskUpdate(m@),
            AnyActerModel::TaskSelfAssign(m) => AnyActerModelView::TaskSelfAssign(m@),
            AnyActerModel::TaskSelfUnassign(m) => AnyActerModelView::TaskSelfUnassign(m@),
            AnyActerModel::Comment(m) => AnyActerModelView::Comment(m@),
            AnyActerModel::CommentUpdate(m) => AnyActerModelView::CommentUpdate(m@),
            AnyActerModel::Attachment(m) => AnyActerModelView::Attachment(m@),
            AnyActerModel::AttachmentUpdate(m) => AnyActerModelView::AttachmentUpdate(m@),
            AnyActerModel::Reaction(m) => AnyActerModelView::Reaction(m@),
            AnyActerModel::ReadReceipt(m) => AnyActerModelView::ReadReceipt(m@),
            AnyActerModel::Rsvp(m) => AnyActerModelView::Rsvp(m@),
            AnyActerModel::ExplicitInvite(m) => AnyActerModelView::ExplicitInvite(m@),
            AnyActerModel::RoomStatus(m) => AnyActerModelView::RoomStatus(m@),
            AnyActerModel::RedactedActerModel(m) => AnyActerModelView::RedactedActerModel(m@),
        }
    }
}

impl DeepView for AnyActerModel {
    type V = AnyActerModelView;

    open spec fn deep_view(&self) -> AnyActerModelView {
        self@
    }
}

impl Clone for AnyActerModel {
    fn clone(&self) -> (res: Self)
        ensures
            res@ == self@,
    {
        match self {
            AnyActerModel::CalendarEvent(m) => AnyActerModel::CalendarEvent(m.clone()),
            AnyActerModel::CalendarEventUpdate(m) => AnyActerModel::CalendarEventUpdate(m.clone()),
            AnyActerModel::Pin(m) => AnyActerModel::Pin(m.clone()),
            AnyActerModel::PinUpdate(m) => AnyActerModel::PinUpdate(m.clone()),
            AnyActerModel::NewsEntry(m) => AnyActerModel::NewsEntry(m.clone()),
            AnyActerModel::NewsEntryUpdate(m) => AnyActerModel::NewsEntryUpdate(m.clone()),
            AnyActerModel::Story(m) => AnyActerModel::Story(m.clone()),
            AnyActerModel::StoryUpdate(m) => AnyActerModel::StoryUpdate(m.clone()),
            AnyActerModel::TaskList(m) => AnyActerModel::TaskList(m.clone()),
            AnyActerModel::TaskListUpdate(m) => AnyActerModel::TaskListUpdate(m.clone()),
            AnyActerModel::Task(m) => AnyActerModel::Task(m.clone()),
            AnyActerModel::TaskUpdate(m) => AnyActerModel::TaskUpdate(m.clone()),
            AnyActerModel::TaskSelfAssign(m) => AnyActerModel::TaskSelfAssign(m.clone()),
            AnyActerModel::TaskSelfUnassign(m) => AnyActerModel::TaskSelfUnassign(m.clone()),
            AnyActerModel::Comment(m) => AnyActerModel::Comment(m.clone()),
            AnyActerModel::CommentUpdate(m) => AnyActerModel::CommentUpdate(m.clone()),
            AnyActerModel::Attachment(m) => AnyActerModel::Attachment(m.clone()),
            AnyActerModel::AttachmentUpdate(m) => AnyActerModel::AttachmentUpdate(m.clone()),
            AnyActerModel::Reaction(m) => AnyActerModel::Reaction(m.clone()),
            AnyActerModel::ReadReceipt(m) => AnyActerModel::ReadReceipt(m.clone()),
            AnyActerModel::Rsvp(m) => AnyActerModel::Rsvp(m.clone()),
            AnyActerModel::ExplicitInvite(m) => AnyActerModel::ExplicitInvite(m.clone()),
            AnyActerModel::RoomStatus(m) => AnyActerModel::RoomStatus(m.clone()),
            AnyActerModel::RedactedActerModel(m) => AnyActerModel::RedactedActerModel(m.clone()),
        }
    }
}

impl AnyActerModelView {
    /// The envelope of the event.
    pub open spec fn meta(self) -> EventMetaView {
        match self {
            AnyActerModelView::CalendarEvent(m) => m.meta,
            AnyActerModelView::CalendarEventUpdate(m) => m.meta,
            AnyActerModelView::Pin(m) => m.meta,
            AnyActerModelView::PinUpdate(m) => m.meta,
            AnyActerModelView::NewsEntry(m) => m.meta,
            AnyActerModelView::NewsEntryUpdate(m) => m.meta,
            AnyActerModelView::Story(m) => m.meta,
            AnyActerModelView::StoryUpdate(m) => m.meta,
            AnyActerModelView::TaskList(m) => m.meta,
            AnyActerModelView::TaskListUpdate(m) => m.meta,
            AnyActerModelView::Task(m) => m.meta,
            AnyActerModelView::TaskUpdate(m) => m.meta,
            AnyActerModelView::TaskSelfAssign(m) => m.meta,
            AnyActerModelView::TaskSelfUnassign(m) => m.meta,
            AnyActerModelView::Comment(m) => m.meta,
            AnyActerModelView::CommentUpdate(m) => m.meta,
            AnyActerModelView::Attachment(m) => m.meta,
            AnyActerModelView::AttachmentUpdate(m) => m.meta,
            AnyActerModelView::Reaction(m) => m.meta,
            AnyActerModelView::ReadReceipt(m) => m.meta,
            AnyActerModelView::Rsvp(m) => m.meta,
            AnyActerModelView::ExplicitInvite(m) => m.meta,
            AnyActerModelView::RoomStatus(m) => m.meta,
            AnyActerModelView::RedactedActerModel(m) => m.meta,
        }
    }

    /// The id of the event.
    pub open spec fn event_id(self) -> Seq<char> {
        self.meta().event_id
    }

    /// The id of the object this event hangs on: the object it updates, comments, reacts
    /// or answers to, or the task list of a task. `None` for an object that stands alone.
    pub open spec fn parent_id(self) -> Option<Seq<char>> {
        match self {
            AnyActerModelView::CalendarEvent(_) => None,
            AnyActerModelView::CalendarEventUpdate(m) => Some(m.calendar_event),
            AnyActerModelView::Pin(_) => None,
            AnyActerModelView::PinUpdate(m) => Some(m.pin),
            AnyActerModelView::NewsEntry(_) => None,
            AnyActerModelView::NewsEntryUpdate(m) => Some(m.news_entry),
            AnyActerModelView::Story(m) => m.refers_to,
            AnyActerModelView::StoryUpdate(m) => m.refers_to,
            AnyActerModelView::TaskList(_) => None,
            AnyActerModelView::TaskListUpdate(m) => Some(m.task_list),
            AnyActerModelView::Task(m) => Some(m.task_list_id),
            AnyActerModelView::TaskUpdate(m) => Some(m.task),
            AnyActerModelView::TaskSelfAssign(m) => Some(m.task),
            AnyActerModelView::TaskSelfUnassign(m) => Some(m.task),
            AnyActerModelView::Comment(m) => Some(m.on),
            AnyActerModelView::CommentUpdate(m) => m.refers_to,
            AnyActerModelView::Attachment(m) => Some(m.on),
            AnyActerModelView::AttachmentUpdate(m) => m.refers_to,
            AnyActerModelView::Reaction(m) => Some(m.relates_to),
            AnyActerModelView::ReadReceipt(m) => m.refers_to,
            AnyActerModelView::Rsvp(m) => Some(m.to),
            AnyActerModelView::ExplicitInvite(m) => Some(m.to),
            AnyActerModelView::RoomStatus(_) => None,
            AnyActerModelView::RedactedActerModel(m) => m.refers_to,
        }
    }

    /// Whether the event makes an object of its own, whose history it starts.
    pub open spec fn is_object(self) -> bool {
        self is CalendarEvent || self is Pin || self is NewsEntry || self is Story
            || self is TaskList || self is Task
    }

    /// The object under whose history the event is listed: itself for an object, else the
    /// object it hangs on, and itself again where it hangs on nothing.
    pub open spec fn history_id(self) -> Seq<char> {
        if self.is_object() {
            self.event_id()
        } else {
            match self.parent_id() {
                Some(id) => id,
                None => self.event_id(),
            }
        }
    }

    /// The object after `update` has been folded into it, where `update` is an update of
    /// the object's own kind that names the object's id; `None` in every other case.
    pub open spec fn folded(self, update: AnyActerModelView) -> Option<AnyActerModelView> {
        match (self, update) {
            (AnyActerModelView::Pin(o), AnyActerModelView::PinUpdate(u)) => if u.pin
                == o.meta.event_id {
                Some(AnyActerModelView::Pin(o.applied(u)))
            } else {
                None
            },
            (
                AnyActerModelView::CalendarEvent(o),
                AnyActerModelView::CalendarEventUpdate(u),
            ) => if u.calendar_event == o.meta.event_id {
                Some(AnyActerModelView::CalendarEvent(o.applied(u)))
            } else {
                None
            },
            (AnyActerModelView::NewsEntry(o), AnyActerModelView::NewsEntryUpdate(u)) => if u.news_entry
                == o.meta.event_id {
                Some(AnyActerModelView::NewsEntry(o.applied(u)))
            } else {
                None
            },
            (AnyActerModelView::TaskList(o), AnyActerModelView::TaskListUpdate(u)) => if u.task_list
                == o.meta.event_id {
                Some(AnyActerModelView::TaskList(o.applied(u)))
            } else {
                None
            },
            (AnyActerModelView::Task(o), AnyActerModelView::TaskUpdate(u)) => if u.task
                == o.meta.event_id {
                Some(AnyActerModelView::Task(o.applied(u)))
            } else {
                None
            },
            _ => None,
        }
    }

    /// The object as it stands once `update` has been seen.
    pub open spec fn transitioned(self, update: AnyActerModelView) -> AnyActerModelView {
        match self.folded(update) {
            Some(next) => next,
            None => self,
        }
    }
}

impl AnyActerModel {
    /// The envelope of the event.
    pub fn event_meta(&self) -> (res: &EventMeta)
        ensures
            res@ == self@.meta(),
    {
        match self {
            AnyActerModel::CalendarEvent(m) => &m.meta,
            AnyActerModel::CalendarEventUpdate(m) => &m.meta,
            AnyActerModel::Pin(m) => &m.meta,
            AnyActerModel::PinUpdate(m) => &m.meta,
            AnyActerModel::NewsEntry(m) => &m.meta,
            AnyActerModel::NewsEntryUpdate(m) => &m.meta,
            AnyActerModel::Story(m) => &m.meta,
            AnyActerModel::StoryUpdate(m) => &m.meta,
            AnyActerModel::TaskList(m) => &m.meta,
            AnyActerModel::TaskListUpdate(m) => &m.meta,
            AnyActerModel::Task(m) => &m.meta,
            AnyActerModel::TaskUpdate(m) => &m.meta,
            AnyActerModel::TaskSelfAssign(m) => &m.meta,
            AnyActerModel::TaskSelfUnassign(m) => &m.meta,
            AnyActerModel::Comment(m) => &m.meta,
            AnyActerModel::CommentUpdate(m) => &m.meta,
            AnyActerModel::Attachment(m) => &m.meta,
            AnyActerModel::AttachmentUpdate(m) => &m.meta,
            AnyActerModel::Reaction(m) => &m.meta,
            AnyActerModel::ReadReceipt(m) => &m.meta,
            AnyActerModel::Rsvp(m) => &m.meta,
            AnyActerModel::ExplicitInvite(m) => &m.meta,
            AnyActerModel::RoomStatus(m) => &m.meta,
            AnyActerModel::RedactedActerModel(m) => &m.meta,
        }
    }

    /// The id of the event.
    pub fn event_id(&self) -> (res: &String)
        ensures
            res@ == self@.event_id(),
    {
        &self.event_meta().event_id
    }

    /// The id of the object this event hangs on, if it hangs on one.
    pub fn parent_id(&self) -> (res: Option<&String>)
        ensures
            res.deep_view() == self@.parent_id(),
    {
        match self {
            AnyActerModel::CalendarEvent(_) => None,
            AnyActerModel::CalendarEventUpdate(m) => Some(&m.calendar_event),
            AnyActerModel::Pin(_) => None,
            AnyActerModel::PinUpdate(m) => Some(&m.pin),
            AnyActerModel::NewsEntry(_) => None,
            AnyActerModel::NewsEntryUpdate(m) => Some(&m.news_entry),
            AnyActerModel::Story(m) => m.refers_to.as_ref(),
            AnyActerModel::StoryUpdate(m) => m.refers_to.as_ref(),
            AnyActerModel::TaskList(_) => None,
            AnyActerModel::TaskListUpdate(m) => Some(&m.task_list),
            AnyActerModel::Task(m) => Some(&m.task_list_id),
            AnyActerModel::TaskUpdate(m) => Some(&m.task),
            AnyActerModel::TaskSelfAssign(m) => Some(&m.task),
            AnyActerModel::TaskSelfUnassign(m) => Some(&m.task),
            AnyActerModel::Comment(m) => Some(&m.on),
            AnyActerModel::CommentUpdate(m) => m.refers_to.as_ref(),
            AnyActerModel::Attachment(m) => Some(&m.on),
            AnyActerModel::AttachmentUpdate(m) => m.refers_to.as_ref(),
            AnyActerModel::Reaction(m) => Some(&m.relates_to),
            AnyActerModel::ReadReceipt(m) => m.refers_to.as_ref(),
            AnyActerModel::Rsvp(m) => Some(&m.to),
            AnyActerModel::ExplicitInvite(m) => Some(&m.to),
            AnyActerModel::RoomStatus(_) => None,
            AnyActerModel::RedactedActerModel(m) => m.refers_to.as_ref(),
        }
    }

    /// Whether the event makes an object of its own.
    pub fn is_object(&self) -> (res: bool)
        ensures
            res == self@.is_object(),
    {
        match self {
            AnyActerModel::CalendarEvent(_)
            | AnyActerModel::Pin(_)
            | AnyActerModel::NewsEntry(_)
            | AnyActerModel::Story(_)
            | AnyActerModel::TaskList(_)
            | AnyActerModel::Task(_) => true,
            _ => false,
        }
    }

    /// The object under whose history the event is listed.
    pub fn history_id(&self) -> (res: &String)
        ensures
            res@ == self@.history_id(),
    {
        if self.is_object() {
            self.event_id()
        } else {
            match self.parent_id() {
                Some(id) => id,
                None => self.event_id(),
            }
        }
    }

    /// Folds `update` into this object if it is an update of the object's own kind that
    /// names the object's id, and says whether it did. Anything else changes nothing.
    pub fn transition(&mut self, update: &AnyActerModel) -> (changed: bool)
        ensures
            changed == old(self)@.folded(update@).is_some(),
            final(self)@ == old(self)@.transitioned(update@),
    {
        match (self, update) {
            (AnyActerModel::Pin(o), AnyActerModel::PinUpdate(u)) => {
                if u.pin == o.meta.event_id {
                    o.apply(u);
                    true
                } else {
                    false
                }
            },
            (AnyActerModel::CalendarEvent(o), AnyActerModel::CalendarEventUpdate(u)) => {
                if u.calendar_event == o.meta.event_id {
                    o.apply(u);
                    true
                } else {
                    false
                }
            },
            (AnyActerModel::NewsEntry(o), AnyActerModel::NewsEntryUpdate(u)) => {
                if u.news_entry == o.meta.event_id {
                    o.apply(u);
                    true
                } else {
                    false
                }
            },
            (AnyActerModel::TaskList(o), AnyActerModel::TaskListUpdate(u)) => {
                if u.task_list == o.meta.event_id {
                    o.apply(u);
                    true
                } else {
                    false
                }
            },
            (AnyActerModel::Task(o), AnyActerModel::TaskUpdate(u)) => {
                if u.task == o.meta.event_id {
                    o.apply(u);
                    true
                } else {
                    false
                }
            },
            _ => false,
        }
    }
}

/// Folding the same update into an object twice gives what folding it in once gives.
pub proof fn lemma_transition_idempotent(object: AnyActerModelView, update: AnyActerModelView)
    ensures
        object.transitioned(update).transitioned(update) == object.transitioned(update),
{
}

/// Folding an update in changes neither the id of the object nor its kind.
pub proof fn lemma_transition_keeps_identity(object: AnyActerModelView, update: AnyActerModelView)
    ensures
        object.transitioned(update).meta() == object.meta(),
        object.transitioned(update).parent_id() == object.parent_id(),
        object.transitioned(update).is_object() == object.is_object(),
{
}

} // verus!
