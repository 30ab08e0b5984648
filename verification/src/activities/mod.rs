//! The activity feed: what each stored event means to a reader.

pub mod feed;
pub mod object;

use crate::activities::object::{
    lemma_object_url_is_a_path, ActivityObject, ActivityObjectView,
};
use crate::content::{
    AttachmentContent, AttachmentContentView, MsgContent, MsgContentView, RefDetails,
    RefDetailsView, TextContent, TextContentView,
};
use crate::error::CoreError;
use crate::foreign::{percent_encoded, url_encode};
use crate::meta::{EventMeta, EventMetaView, NaiveDate, UtcDateTime};
use crate::models::any::{AnyActerModel, AnyActerModelView};
use crate::models::calendar::{CalendarEventUpdate, CalendarEventUpdateView};
use crate::models::pins::{PinUpdate, PinUpdateView};
use crate::models::relations::RsvpStatus;
use crate::models::status::{
    MembershipChange, MembershipChangeView, RoomCreateContent, RoomCreateContentView,
    RoomStatusContent, RoomStatusContentView,
};
use crate::models::tasks::{
    Task, TaskListUpdate, TaskListUpdateView, TaskUpdate, TaskUpdateView, TaskView,
};
use crate::text::{clone_strings, join2, join3, join4};
use crate::tristate::TriState;
use vstd::prelude::*;
use vstd::utf8::encode_utf8;

verus! {

/// What happened, as the feed shows it.
#[derive(Debug)]
#[allow(inconsistent_fields)]
pub enum ActivityContent {
    MembershipChange(MembershipChange),
    RoomCreate(RoomCreateContent),
    RoomName(String),
    Boost { first_slide: Option<MsgContent> },
    Attachment { object: ActivityObject, content: AttachmentContent },
    Reference { object: ActivityObject, details: RefDetails },
    Comment { object: ActivityObject, content: TextContent },
    Reaction { object: ActivityObject, key: String },
    Creation { object: ActivityObject },
    TitleChange { object: ActivityObject, new_title: String },
    DescriptionChange { object: ActivityObject, content: Option<TextContent> },
    EventDateChange { object: ActivityObject, new_date: UtcDateTime },
    Rsvp { object: ActivityObject, rsvp: RsvpStatus },
    TaskAdd { object: ActivityObject, task: Task },
    TaskProgress { object: ActivityObject, done: bool },
    TaskDueDateChange { object: ActivityObject, new_due_date: Option<NaiveDate> },
    TaskAccept { object: ActivityObject },
    TaskDecline { object: ActivityObject },
    ObjectInvitation { object: ActivityObject, invitees: Vec<String> },
    OtherChanges { object: ActivityObject },
}

/// Mathematical model of an [`ActivityContent`].
#[allow(inconsistent_fields)]
pub enum ActivityContentView {
    MembershipChange(MembershipChangeView),
    RoomCreate(RoomCreateContentView),
    RoomName(Seq<char>),
    Boost { first_slide: Option<MsgContentView> },
    Attachment { object: ActivityObjectView, content: AttachmentContentView },
    Reference { object: ActivityObjectView, details: RefDetailsView },
    Comment { object: ActivityObjectView, content: TextContentView },
    Reaction { object: ActivityObjectView, key: Seq<char> },
    Creation { object: ActivityObjectView },
    TitleChange { object: ActivityObjectView, new_title: Seq<char> },
    DescriptionChange { object: ActivityObjectView, content: Option<TextContentView> },
    EventDateChange { object: ActivityObjectView, new_date: UtcDateTime },
    Rsvp { object: ActivityObjectView, rsvp: RsvpStatus },
    TaskAdd { object: ActivityObjectView, task: TaskView },
    TaskProgress { object: ActivityObjectView, done: bool },
    TaskDueDateChange { object: ActivityObjectView, new_due_date: Option<NaiveDate> },
    TaskAccept { object: ActivityObjectView },
    TaskDecline { object: ActivityObjectView },
    ObjectInvitation { object: ActivityObjectView, invitees: Seq<Seq<char>> },
    OtherChanges { object: ActivityObjectView },
}

impl View for ActivityContent {
    type V = ActivityContentView;

    open spec fn view(&self) -> ActivityContentView {
        match self {
            ActivityContent::MembershipChange(c) => ActivityContentView::MembershipChange(c@),
            ActivityContent::RoomCreate(c) => ActivityContentView::RoomCreate(c@),
            ActivityContent::RoomName(c) => ActivityContentView::RoomName(c@),
            ActivityContent::Boost { first_slide } => ActivityContentView::Boost {
                first_slide: first_slide.deep_view(),
            },
            ActivityContent::Attachment { object, content } => ActivityContentView::Attachment {
                object: object@,
                content: content@,
            },
            ActivityContent::Reference { object, details } => ActivityContentView::Reference {
                object: object@,
                details: details@,
            },
            ActivityContent::Comment { object, content } => ActivityContentView::Comment {
                object: object@,
                content: content@,
            },
            ActivityContent::Reaction { object, key } => ActivityContentView::Reaction {
                object: object@,
                key: key@,
            },
            ActivityContent::Creation { object } => ActivityContentView::Creation {
                object: object@,
            },
            ActivityContent::TitleChange { object, new_title } => ActivityContentView::TitleChange {
                object: object@,
                new_title: new_title@,
            },
            ActivityContent::DescriptionChange { object, content } => {
                ActivityContentView::DescriptionChange {
                    object: object@,
                    content: content.deep_view(),
                }
            },
            ActivityContent::EventDateChange { object, new_date } => {
                ActivityContentView::EventDateChange {
                    object: object@,
                    new_date: *new_date,
                }
            },
            ActivityContent::Rsvp { object, rsvp } => ActivityContentView::Rsvp {
                object: object@,
                rsvp: *rsvp,
            },
            ActivityContent::TaskAdd { object, task } => ActivityContentView::TaskAdd {
                object: object@,
                task: task@,
            },
            ActivityContent::TaskProgress { object, done } => ActivityContentView::TaskProgress {
                object: object@,
                done: *done,
            },
            ActivityContent::TaskDueDateChange { object, new_due_date } => {
                ActivityContentView::TaskDueDateChange {
                    object: object@,
                    new_due_date: *new_due_date,
                }
            },
            ActivityContent::TaskAccept { object } => ActivityContentView::TaskAccept {
                object: object@,
            },
            ActivityContent::TaskDecline { object } => ActivityContentView::TaskDecline {
                object: object@,
            },
            ActivityContent::ObjectInvitation { object, invitees } => {
                ActivityContentView::ObjectInvitation {
                    object: object@,
                    invitees: invitees.deep_view(),
                }
            },
            ActivityContent::OtherChanges { object } => ActivityContentView::OtherChanges {
                object: object@,
            },
        }
    }
}

impl DeepView for ActivityContent {
    type V = ActivityContentView;

    open spec fn deep_view(&self) -> ActivityContentView {
        self@
    }
}

impl Clone for ActivityContent {
    fn clone(&self) -> (res: Self)
        ensures
            res@ == self@,
    {
        match self {
            ActivityContent::MembershipChange(c) => ActivityContent::MembershipChange(c.clone()),
            ActivityContent::RoomCreate(c) => ActivityContent::RoomCreate(c.clone()),
            ActivityContent::RoomName(c) => ActivityContent::RoomName(c.clone()),
            ActivityContent::Boost { first_slide } => ActivityContent::Boost {
                first_slide: first_slide.clone(),
            },
            ActivityContent::Attachment { object, content } => ActivityContent::Attachment {
                object: object.clone(),
                content: content.clone(),
            },
            ActivityContent::Reference { object, details } => ActivityContent::Reference {
                object: object.clone(),
                details: details.clone(),
            },
            ActivityContent::Comment { object, content } => ActivityContent::Comment {
                object: object.clone(),
                content: content.clone(),
            },
            ActivityContent::Reaction { object, key } => ActivityContent::Reaction {
                object: object.clone(),
                key: key.clone(),
            },
            ActivityContent::Creation { object } => ActivityContent::Creation {
                object: object.clone(),
            },
            ActivityContent::TitleChange { object, new_title } => ActivityContent::TitleChange {
                object: object.clone(),
                new_title: new_title.clone(),
            },
            ActivityContent::DescriptionChange { object, content } => {
                ActivityContent::DescriptionChange {
                    object: object.clone(),
                    content: content.clone(),
                }
            },
            ActivityContent::EventDateChange { object, new_date } => {
                ActivityContent::EventDateChange {
                    object: object.clone(),
                    new_date: *new_date,
                }
            },
            ActivityContent::Rsvp { object, rsvp } => ActivityContent::Rsvp {
                object: object.clone(),
                rsvp: *rsvp,
            },
            ActivityContent::TaskAdd { object, task } => ActivityContent::TaskAdd {
                object: object.clone(),
                task: task.clone(),
            },
            ActivityContent::TaskProgress { object, done } => ActivityContent::TaskProgress {
                object: object.clone(),
                done: *done,
            },
            ActivityContent::TaskDueDateChange { object, new_due_date } => {
                ActivityContent::TaskDueDateChange {
                    object: object.clone(),
                    new_due_date: *new_due_date,
                }
            },
            ActivityContent::TaskAccept { object } => ActivityContent::TaskAccept {
                object: object.clone(),
            },
            ActivityContent::TaskDecline { object } => ActivityContent::TaskDecline {
                object: object.clone(),
            },
            ActivityContent::ObjectInvitation { object, invitees } => {
                ActivityContent::ObjectInvitation {
                    object: object.clone(),
                    invitees: clone_strings(invitees),
                }
            },
            ActivityContent::OtherChanges { object } => ActivityContent::OtherChanges {
                object: object.clone(),
            },
        }
    }
}

impl ActivityContentView {
    /// What an update of a pin amounts to: the first field it mentions, in the order
    /// title, description; anything else counts as other changes.
    pub open spec fn of_pin_update(u: PinUpdateView, object: ActivityObjectView) -> Self {
        if !(u.title is Absent) {
            ActivityContentView::TitleChange {
                object,
                new_title: u.title.merged_or(Seq::empty(), Seq::empty()),
            }
        } else if !(u.description is Absent) {
            ActivityContentView::DescriptionChange { object, content: u.description.merged(None) }
        } else {
            ActivityContentView::OtherChanges { object }
        }
    }

    /// What an update of a calendar event amounts to: the first field it mentions, in the
    /// order title, description, start, end; anything else counts as other changes.
    pub open spec fn of_calendar_event_update(
        u: CalendarEventUpdateView,
        object: ActivityObjectView,
    ) -> Self {
        let epoch = UtcDateTime { secs: 0, nanos: 0 };
        if !(u.title is Absent) {
            ActivityContentView::TitleChange {
                object,
                new_title: u.title.merged_or(Seq::empty(), Seq::empty()),
            }
        } else if !(u.description is Absent) {
            ActivityContentView::DescriptionChange { object, content: u.description.merged(None) }
        } else if !(u.utc_start is Absent) {
            ActivityContentView::EventDateChange {
                object,
                new_date: u.utc_start.merged_or(epoch, epoch),
            }
        } else if !(u.utc_end is Absent) {
            ActivityContentView::EventDateChange {
                object,
                new_date: u.utc_end.merged_or(epoch, epoch),
            }
        } else {
            ActivityContentView::OtherChanges { object }
        }
    }

    /// What an update of a task list amounts to: the first field it mentions, in the order
    /// name, description; anything else counts as other changes.
    pub open spec fn of_task_list_update(u: TaskListUpdateView, object: ActivityObjectView) -> Self {
        if !(u.name is Absent) {
            ActivityContentView::TitleChange {
                object,
                new_title: u.name.merged_or(Seq::empty(), Seq::empty()),
            }
        } else if !(u.description is Absent) {
            ActivityContentView::DescriptionChange { object, content: u.description.merged(None) }
        } else {
            ActivityContentView::OtherChanges { object }
        }
    }

    /// What an update of a task amounts to: the first field it mentions, in the order
    /// progress, due date, title, description; anything else counts as other changes. A
    /// task is done at 100 percent and above, and not done when its progress is cleared.
    pub open spec fn of_task_update(u: TaskUpdateView, object: ActivityObjectView) -> Self {
        if !(u.progress_percent is Absent) {
            ActivityContentView::TaskProgress {
                object,
                done: u.progress_percent matches TriState::Value(p) && p >= 100,
            }
        } else if !(u.due_date is Absent) {
            ActivityContentView::TaskDueDateChange { object, new_due_date: u.due_date.merged(None) }
        } else if !(u.title is Absent) {
            ActivityContentView::TitleChange {
                object,
                new_title: u.title.merged_or(Seq::empty(), Seq::empty()),
            }
        } else if !(u.description is Absent) {
            ActivityContentView::DescriptionChange { object, content: u.description.merged(None) }
        } else {
            ActivityContentView::OtherChanges { object }
        }
    }

    /// What the stored event `m` means to a reader, given what the store holds under the id
    /// of the object that `m` hangs on. `None` for the kinds that have no activity: stories,
    /// updates of news, stories, comments and attachments, read receipts and redactions.
    pub open spec fn of_model(m: AnyActerModelView, parent: Option<AnyActerModelView>) -> Option<
        Self,
    > {
        match m {
            AnyActerModelView::RoomStatus(s) => Some(
                match s.inner {
                    RoomStatusContentView::MembershipChange(c) => {
                        ActivityContentView::MembershipChange(c)
                    },
                    RoomStatusContentView::RoomCreate(c) => ActivityContentView::RoomCreate(c),
                    RoomStatusContentView::RoomName(n) => ActivityContentView::RoomName(n),
                },
            ),
            AnyActerModelView::NewsEntry(n) => Some(
                ActivityContentView::Boost {
                    first_slide: if n.slides.len() > 0 {
                        Some(n.slides[0].content)
                    } else {
                        None
                    },
                },
            ),
            AnyActerModelView::Comment(e) => Some(
                ActivityContentView::Comment {
                    object: ActivityObjectView::resolved(parent, e.on),
                    content: e.content,
                },
            ),
            AnyActerModelView::Attachment(e) => Some(
                match e.content {
                    AttachmentContentView::Reference(details) => ActivityContentView::Reference {
                        object: ActivityObjectView::resolved(parent, e.on),
                        details,
                    },
                    content => ActivityContentView::Attachment {
                        object: ActivityObjectView::resolved(parent, e.on),
                        content,
                    },
                },
            ),
            AnyActerModelView::Reaction(e) => Some(
                ActivityContentView::Reaction {
                    object: ActivityObjectView::resolved(parent, e.relates_to),
                    key: e.key,
                },
            ),
            AnyActerModelView::ExplicitInvite(e) => Some(
                ActivityContentView::ObjectInvitation {
                    object: ActivityObjectView::resolved(parent, e.to),
                    invitees: e.user_ids,
                },
            ),
            AnyActerModelView::Pin(e) => Some(
                ActivityContentView::Creation {
                    object: ActivityObjectView::Pin { object_id: e.meta.event_id, title: e.title },
                },
            ),
            AnyActerModelView::PinUpdate(e) => Some(
                Self::of_pin_update(e, ActivityObjectView::resolved(parent, e.pin)),
            ),
            AnyActerModelView::CalendarEvent(e) => Some(
                ActivityContentView::Creation {
                    object: ActivityObjectView::CalendarEvent {
                        object_id: e.meta.event_id,
                        title: e.title,
                    },
                },
            ),
            AnyActerModelView::CalendarEventUpdate(e) => Some(
                Self::of_calendar_event_update(
                    e,
                    ActivityObjectView::resolved(parent, e.calendar_event),
                ),
            ),
            AnyActerModelView::Rsvp(e) => Some(
                ActivityContentView::Rsvp {
                    object: ActivityObjectView::resolved(parent, e.to),
                    rsvp: e.status,
                },
            ),
            AnyActerModelView::TaskList(e) => Some(
                ActivityContentView::Creation {
                    object: ActivityObjectView::TaskList {
                        object_id: e.meta.event_id,
                        title: e.name,
                    },
                },
            ),
            AnyActerModelView::TaskListUpdate(e) => Some(
                Self::of_task_list_update(e, ActivityObjectView::resolved(parent, e.task_list)),
            ),
            AnyActerModelView::Task(e) => Some(
                ActivityContentView::TaskAdd {
                    object: ActivityObjectView::resolved(parent, e.task_list_id),
                    task: e,
                },
            ),
            AnyActerModelView::TaskUpdate(e) => Some(
                Self::of_task_update(e, ActivityObjectView::resolved(parent, e.task)),
            ),
            AnyActerModelView::TaskSelfAssign(e) => Some(
                ActivityContentView::TaskAccept {
                    object: ActivityObjectView::resolved(parent, e.task),
                },
            ),
            AnyActerModelView::TaskSelfUnassign(e) => Some(
                ActivityContentView::TaskDecline {
                    object: ActivityObjectView::resolved(parent, e.task),
                },
            ),
            AnyActerModelView::RedactedActerModel(_)
            | AnyActerModelView::NewsEntryUpdate(_)
            | AnyActerModelView::Story(_)
            | AnyActerModelView::StoryUpdate(_)
            | AnyActerModelView::CommentUpdate(_)
            | AnyActerModelView::AttachmentUpdate(_)
            | AnyActerModelView::ReadReceipt(_) => None,
        }
    }

    /// The object the activity is about; `None` for news and for changes of the room itself.
    pub open spec fn object(self) -> Option<ActivityObjectView> {
        match self {
            ActivityContentView::MembershipChange(_)
            | ActivityContentView::RoomCreate(_)
            | ActivityContentView::RoomName(_)
            | ActivityContentView::Boost { .. } => None,
            ActivityContentView::Attachment { object, .. } => Some(object),
            ActivityContentView::Reference { object, .. } => Some(object),
            ActivityContentView::Comment { object, .. } => Some(object),
            ActivityContentView::Reaction { object, .. } => Some(object),
            ActivityContentView::Creation { object } => Some(object),
            ActivityContentView::TitleChange { object, .. } => Some(object),
            ActivityContentView::DescriptionChange { object, .. } => Some(object),
            ActivityContentView::EventDateChange { object, .. } => Some(object),
            ActivityContentView::Rsvp { object, .. } => Some(object),
            ActivityContentView::TaskAdd { object, .. } => Some(object),
            ActivityContentView::TaskProgress { object, .. } => Some(object),
            ActivityContentView::TaskDueDateChange { object, .. } => Some(object),
            ActivityContentView::TaskAccept { object } => Some(object),
            ActivityContentView::TaskDecline { object } => Some(object),
            ActivityContentView::ObjectInvitation { object, .. } => Some(object),
            ActivityContentView::OtherChanges { object } => Some(object),
        }
    }

    /// The tag under which the activity is shown.
    pub open spec fn kind_tag(self) -> Seq<char> {
        match self {
            ActivityContentView::MembershipChange(c) => c.change.name(),
            ActivityContentView::RoomCreate(_) => "roomCreate"@,
            ActivityContentView::RoomName(_) => "roomName"@,
            ActivityContentView::Comment { .. } => "comment"@,
            ActivityContentView::Reaction { .. } => "reaction"@,
            ActivityContentView::Attachment { .. } => "attachment"@,
            ActivityContentView::Reference { .. } => "references"@,
            ActivityContentView::TaskProgress { done, .. } => if done {
                "taskComplete"@
            } else {
                "taskReOpen"@
            },
            ActivityContentView::TaskDueDateChange { .. } => "taskDueDateChange"@,
            ActivityContentView::TaskAccept { .. } => "taskAccept"@,
            ActivityContentView::TaskDecline { .. } => "taskDecline"@,
            ActivityContentView::Boost { .. } => "news"@,
            ActivityContentView::Creation { .. } => "creation"@,
            ActivityContentView::TitleChange { .. } => "titleChange"@,
            ActivityContentView::DescriptionChange { .. } => "descriptionChange"@,
            ActivityContentView::EventDateChange { .. } => "eventDateChange"@,
            ActivityContentView::Rsvp { rsvp, .. } => match rsvp {
                RsvpStatus::Yes => "rsvpYes"@,
                RsvpStatus::Maybe => "rsvpMaybe"@,
                RsvpStatus::No => "rsvpNo"@,
            },
            ActivityContentView::TaskAdd { .. } => "taskAdd"@,
            ActivityContentView::ObjectInvitation { .. } => "objectInvitation"@,
            ActivityContentView::OtherChanges { .. } => "otherChanges"@,
        }
    }

    /// Whether the activity is about something to go to: all are but the changes of the
    /// room itself.
    pub open spec fn has_target(self) -> bool {
        !(self is MembershipChange || self is RoomCreate || self is RoomName)
    }
}

/// One entry of the feed: what happened, and the envelope of the event that says so.
#[derive(Debug)]
pub struct Activity {
    pub inner: ActivityContent,
    pub meta: EventMeta,
}

/// Mathematical model of an [`Activity`].
pub struct ActivityView {
    pub inner: ActivityContentView,
    pub meta: EventMetaView,
}

impl View for Activity {
    type V = ActivityView;

    open spec fn view(&self) -> ActivityView {
        ActivityView { inner: self.inner@, meta: self.meta@ }
    }
}

impl DeepView for Activity {
    type V = ActivityView;

    open spec fn deep_view(&self) -> ActivityView {
        self@
    }
}

impl Clone for Activity {
    fn clone(&self) -> (res: Self)
        ensures
            res@ == self@,
    {
        Activity { inner: self.inner.clone(), meta: self.meta.clone() }
    }
}

impl ActivityView {
    /// The activity that the stored event `m` gives rise to, if its kind has one.
    pub open spec fn of_model(m: AnyActerModelView, parent: Option<AnyActerModelView>) -> Option<
        ActivityView,
    > {
        match ActivityContentView::of_model(m, parent) {
            Some(inner) => Some(ActivityView { inner, meta: m.meta() }),
            None => None,
        }
    }

    /// The title that the activity itself carries: the name of an attachment, the title of
    /// an added task.
    pub open spec fn title(self) -> Option<Seq<char>> {
        match self.inner {
            ActivityContentView::Attachment { content, .. } => content.name(),
            ActivityContentView::TaskAdd { task, .. } => Some(task.title),
            _ => None,
        }
    }

    /// The date the activity sets: the new date of a calendar event, or midnight UTC at the
    /// start of a task's new due date.
    pub open spec fn new_date(self) -> Option<UtcDateTime> {
        match self.inner {
            ActivityContentView::EventDateChange { new_date, .. } => Some(new_date),
            ActivityContentView::TaskDueDateChange { new_due_date: Some(date), .. } => {
                date.midnight()
            },
            _ => None,
        }
    }

    /// The id of the task list, for the activities about a task or a task list.
    pub open spec fn task_list_id(self) -> Option<Seq<char>> {
        match self.inner {
            ActivityContentView::TaskAccept { object } => object.task_list_id(),
            ActivityContentView::TaskAdd { object, .. } => object.task_list_id(),
            ActivityContentView::TaskDecline { object } => object.task_list_id(),
            ActivityContentView::TaskDueDateChange { object, .. } => object.task_list_id(),
            ActivityContentView::TaskProgress { object, .. } => object.task_list_id(),
            _ => None,
        }
    }

    /// The event's own id, percent-encoded for use in a query.
    pub open spec fn encoded_event_id(self) -> Seq<char> {
        percent_encoded(encode_utf8(self.meta.event_id))
    }

    /// Where the activity leads. News lead to the entry itself. A change of an object leads
    /// to the object. An attachment, reference, comment or reaction leads to its own place
    /// on the object's page, named by the percent-encoded id of the event. An added task
    /// leads to the task under its list. A change of the room itself is about no object
    /// and has the empty path.
    pub open spec fn target_url(self) -> Seq<char> {
        match self.inner {
            ActivityContentView::Boost { .. } => "/updates/"@ + self.meta.event_id,
            ActivityContentView::Attachment { object, .. } => object.target_url()
                + "?section=attachments&attachmentId="@ + self.encoded_event_id(),
            ActivityContentView::Reference { object, .. } => object.target_url()
                + "?section=references&referenceId="@ + self.encoded_event_id(),
            ActivityContentView::Comment { object, .. } => object.target_url()
                + "?section=comments&commentId="@ + self.encoded_event_id(),
            ActivityContentView::Reaction { object, .. } => object.target_url()
                + "?section=reactions&reactionId="@ + self.encoded_event_id(),
            ActivityContentView::TaskAdd { object, .. } => "/tasks/"@ + object.object_id() + "/"@
                + self.meta.event_id,
            ActivityContentView::TitleChange { object, .. } => object.target_url(),
            ActivityContentView::DescriptionChange { object, .. } => object.target_url(),
            ActivityContentView::EventDateChange { object, .. } => object.target_url(),
            ActivityContentView::Rsvp { object, .. } => object.target_url(),
            ActivityContentView::TaskProgress { object, .. } => object.target_url(),
            ActivityContentView::TaskDueDateChange { object, .. } => object.target_url(),
            ActivityContentView::TaskAccept { object } => object.target_url(),
            ActivityContentView::TaskDecline { object } => object.target_url(),
            ActivityContentView::OtherChanges { object } => object.target_url(),
            ActivityContentView::Creation { object } => object.target_url(),
            ActivityContentView::ObjectInvitation { object, .. } => object.target_url(),
            ActivityContentView::MembershipChange(_)
            | ActivityContentView::RoomCreate(_)
            | ActivityContentView::RoomName(_) => Seq::empty(),
        }
    }
}

impl Activity {
    pub fn content(&self) -> (res: &ActivityContent)
        ensures
            res@ == self@.inner,
    {
        &self.inner
    }

    pub fn event_meta(&self) -> (res: &EventMeta)
        ensures
            res@ == self@.meta,
    {
        &self.meta
    }

    pub fn sender_id_str(&self) -> (res: String)
        ensures
            res@ == self@.meta.sender,
    {
        self.meta.sender.clone()
    }

    pub fn origin_server_ts(&self) -> (res: u64)
        ensures
            res == self@.meta.origin_server_ts,
    {
        self.meta.origin_server_ts
    }

    pub fn room_id_str(&self) -> (res: String)
        ensures
            res@ == self@.meta.room_id,
    {
        self.meta.room_id.clone()
    }

    pub fn event_id_str(&self) -> (res: String)
        ensures
            res@ == self@.meta.event_id,
    {
        self.meta.event_id.clone()
    }

    /// The finer kind of the activity, for an attachment.
    pub fn sub_type_str(&self) -> (res: Option<String>)
        ensures
            res.deep_view() == match self@.inner {
                ActivityContentView::Attachment { content, .. } => Some(content.kind_tag()),
                _ => None,
            },
    {
        match &self.inner {
            ActivityContent::Attachment { content, .. } => Some(content.type_str()),
            _ => None,
        }
    }

    /// The same as [`Activity::title`].
    pub fn name(&self) -> (res: Option<String>)
        ensures
            res.deep_view() == self@.title(),
    {
        self.title()
    }

    /// The tag under which the activity is shown.
    pub fn type_str(&self) -> (res: String)
        ensures
            res@ == self@.inner.kind_tag(),
    {
        match &self.inner {
            ActivityContent::MembershipChange(c) => c.as_str().to_owned(),
            ActivityContent::RoomCreate(_) => "roomCreate".to_owned(),
            ActivityContent::RoomName(_) => "roomName".to_owned(),
            ActivityContent::Comment { .. } => "comment".to_owned(),
            ActivityContent::Reaction { .. } => "reaction".to_owned(),
            ActivityContent::Attachment { .. } => "attachment".to_owned(),
            ActivityContent::Reference { .. } => "references".to_owned(),
            ActivityContent::TaskProgress { done, .. } => {
                if *done {
                    "taskComplete".to_owned()
                } else {
                    "taskReOpen".to_owned()
                }
            },
            ActivityContent::TaskDueDateChange { .. } => "taskDueDateChange".to_owned(),
            ActivityContent::TaskAccept { .. } => "taskAccept".to_owned(),
            ActivityContent::TaskDecline { .. } => "taskDecline".to_owned(),
            ActivityContent::Boost { .. } => "news".to_owned(),
            ActivityContent::Creation { .. } => "creation".to_owned(),
            ActivityContent::TitleChange { .. } => "titleChange".to_owned(),
            ActivityContent::DescriptionChange { .. } => "descriptionChange".to_owned(),
            ActivityContent::EventDateChange { .. } => "eventDateChange".to_owned(),
            ActivityContent::Rsvp { rsvp, .. } => match rsvp {
                RsvpStatus::Yes => "rsvpYes".to_owned(),
                RsvpStatus::Maybe => "rsvpMaybe".to_owned(),
                RsvpStatus::No => "rsvpNo".to_owned(),
            },
            ActivityContent::TaskAdd { .. } => "taskAdd".to_owned(),
            ActivityContent::ObjectInvitation { .. } => "objectInvitation".to_owned(),
            ActivityContent::OtherChanges { .. } => "otherChanges".to_owned(),
        }
    }

    /// The change of membership, where the activity is one.
    pub fn membership_change(&self) -> (res: Option<MembershipChange>)
        ensures
            res.deep_view() == match self@.inner {
                ActivityContentView::MembershipChange(c) => Some(c),
                _ => None,
            },
    {
        match &self.inner {
            ActivityContent::MembershipChange(c) => Some(c.clone()),
            _ => None,
        }
    }

    /// The title that the activity itself carries.
    pub fn title(&self) -> (res: Option<String>)
        ensures
            res.deep_view() == self@.title(),
    {
        match &self.inner {
            ActivityContent::Attachment { content, .. } => content.name(),
            ActivityContent::TaskAdd { task, .. } => Some(task.title.clone()),
            _ => None,
        }
    }

    /// The object the activity is about.
    pub fn object(&self) -> (res: Option<ActivityObject>)
        ensures
            res.deep_view() == self@.inner.object(),
    {
        match &self.inner {
            ActivityContent::MembershipChange(_)
            | ActivityContent::RoomCreate(_)
            | ActivityContent::RoomName(_)
            | ActivityContent::Boost { .. } => None,
            ActivityContent::Attachment { object, .. } => Some(object.clone()),
            ActivityContent::Reference { object, .. } => Some(object.clone()),
            ActivityContent::Comment { object, .. } => Some(object.clone()),
            ActivityContent::Reaction { object, .. } => Some(object.clone()),
            ActivityContent::Creation { object } => Some(object.clone()),
            ActivityContent::TitleChange { object, .. } => Some(object.clone()),
            ActivityContent::DescriptionChange { object, .. } => Some(object.clone()),
            ActivityContent::EventDateChange { object, .. } => Some(object.clone()),
            ActivityContent::Rsvp { object, .. } => Some(object.clone()),
            ActivityContent::TaskAdd { object, .. } => Some(object.clone()),
            ActivityContent::TaskProgress { object, .. } => Some(object.clone()),
            ActivityContent::TaskDueDateChange { object, .. } => Some(object.clone()),
            ActivityContent::TaskAccept { object } => Some(object.clone()),
            ActivityContent::TaskDecline { object } => Some(object.clone()),
            ActivityContent::ObjectInvitation { object, .. } => Some(object.clone()),
            ActivityContent::OtherChanges { object } => Some(object.clone()),
        }
    }

    /// The key of the reaction, where the activity is one.
    pub fn reaction_key(&self) -> (res: Option<String>)
        ensures
            res.deep_view() == match self@.inner {
                ActivityContentView::Reaction { key, .. } => Some(key),
                _ => None,
            },
    {
        match &self.inner {
            ActivityContent::Reaction { key, .. } => Some(key.clone()),
            _ => None,
        }
    }

    /// The date the activity sets.
    pub fn new_date(&self) -> (res: Option<UtcDateTime>)
        ensures
            res == self@.new_date(),
    {
        match &self.inner {
            ActivityContent::EventDateChange { new_date, .. } => Some(*new_date),
            ActivityContent::TaskDueDateChange { new_due_date: Some(date), .. } => {
                date.and_midnight_utc()
            },
            _ => None,
        }
    }

    /// The reference, where the activity is one.
    pub fn ref_details(&self) -> (res: Option<RefDetails>)
        ensures
            res.deep_view() == match self@.inner {
                ActivityContentView::Reference { details, .. } => Some(details),
                _ => None,
            },
    {
        match &self.inner {
            ActivityContent::Reference { details, .. } => Some(details.clone()),
            _ => None,
        }
    }

    /// Whether the activity is about something to go to: all are but the changes of the
    /// room itself.
    pub fn has_target(&self) -> (res: bool)
        ensures
            res == self@.inner.has_target(),
    {
        match &self.inner {
            ActivityContent::MembershipChange(_)
            | ActivityContent::RoomCreate(_)
            | ActivityContent::RoomName(_) => false,
            _ => true,
        }
    }

    /// Where the activity leads. Every activity has a path; that of a change of the room
    /// itself, which is about no object, is empty.
    pub fn target_url(&self) -> (res: String)
        ensures
            res@ == self@.target_url(),
            !self@.inner.has_target() ==> res@ == Seq::<char>::empty(),
    {
        match &self.inner {
            ActivityContent::Boost { .. } => join2("/updates/", self.meta.event_id.as_str()),
            ActivityContent::TitleChange { object, .. } => object.target_url(),
            ActivityContent::DescriptionChange { object, .. } => object.target_url(),
            ActivityContent::EventDateChange { object, .. } => object.target_url(),
            ActivityContent::Rsvp { object, .. } => object.target_url(),
            ActivityContent::TaskProgress { object, .. } => object.target_url(),
            ActivityContent::TaskDueDateChange { object, .. } => object.target_url(),
            ActivityContent::TaskAccept { object } => object.target_url(),
            ActivityContent::TaskDecline { object } => object.target_url(),
            ActivityContent::OtherChanges { object } => object.target_url(),
            ActivityContent::Creation { object } => object.target_url(),
            ActivityContent::ObjectInvitation { object, .. } => object.target_url(),
            ActivityContent::Attachment { object, .. } => {
                let page = object.target_url();
                let id = url_encode(self.meta.event_id.as_str());
                join3(page.as_str(), "?section=attachments&attachmentId=", id.as_str())
            },
            ActivityContent::Reference { object, .. } => {
                let page = object.target_url();
                let id = url_encode(self.meta.event_id.as_str());
                join3(page.as_str(), "?section=references&referenceId=", id.as_str())
            },
            ActivityContent::Comment { object, .. } => {
                let page = object.target_url();
                let id = url_encode(self.meta.event_id.as_str());
                join3(page.as_str(), "?section=comments&commentId=", id.as_str())
            },
            ActivityContent::Reaction { object, .. } => {
                let page = object.target_url();
                let id = url_encode(self.meta.event_id.as_str());
                join3(page.as_str(), "?section=reactions&reactionId=", id.as_str())
            },
            ActivityContent::TaskAdd { object, .. } => {
                let list = object.object_id_str();
                join4("/tasks/", list.as_str(), "/", self.meta.event_id.as_str())
            },
            ActivityContent::MembershipChange(_)
            | ActivityContent::RoomCreate(_)
            | ActivityContent::RoomName(_) => String::new(),
        }
    }

    /// Who was invited, where the activity is an invitation; nobody else.
    pub fn whom(&self) -> (res: Vec<String>)
        ensures
            res.deep_view() == match self@.inner {
                ActivityContentView::ObjectInvitation { invitees, .. } => invitees,
                _ => Seq::empty(),
            },
    {
        match &self.inner {
            ActivityContent::ObjectInvitation { invitees, .. } => clone_strings(invitees),
            _ => {
                let none: Vec<String> = Vec::new();
                assert(none.deep_view() =~= Seq::<Seq<char>>::empty());
                none
            },
        }
    }

    /// The id of the task list, for the activities about a task or a task list.
    pub fn task_list_id_str(&self) -> (res: Option<String>)
        ensures
            res.deep_view() == self@.task_list_id(),
    {
        match &self.inner {
            ActivityContent::TaskAccept { object } => object.task_list_id_str(),
            ActivityContent::TaskAdd { object, .. } => object.task_list_id_str(),
            ActivityContent::TaskDecline { object } => object.task_list_id_str(),
            ActivityContent::TaskDueDateChange { object, .. } => object.task_list_id_str(),
            ActivityContent::TaskProgress { object, .. } => object.task_list_id_str(),
            _ => None,
        }
    }
}

impl Activity {
    /// The activity that a stored event gives rise to.
    ///
    /// `parent` is what the store holds under [`AnyActerModel::parent_id`] of `mdl`, if it
    /// holds anything. A missing parent never fails the reduction: the activity then names
    /// its object as unknown. An update counts as the first field it mentions, in the fixed
    /// order of its kind. The kinds without an activity give `CoreError::Unsupported`.
    pub fn for_acter_model(mdl: AnyActerModel, parent: Option<&AnyActerModel>) -> (res: Result<
        Activity,
        CoreError,
    >)
        ensures
            match ActivityView::of_model(mdl@, parent.deep_view()) {
                Some(activity) => res is Ok && res->Ok_0@ == activity,
                None => res == Err::<Activity, CoreError>(CoreError::Unsupported),
            },
    {
        let meta = mdl.event_meta().clone();
        let inner = match mdl {
            AnyActerModel::RoomStatus(s) => match s.inner {
                RoomStatusContent::MembershipChange(c) => ActivityContent::MembershipChange(c),
                RoomStatusContent::RoomCreate(c) => ActivityContent::RoomCreate(c),
                RoomStatusContent::RoomName(c) => ActivityContent::RoomName(c),
            },
            AnyActerModel::NewsEntry(n) => {
                let first_slide = if n.slides.len() > 0 {
                    Some(n.slides[0].content.clone())
                } else {
                    None
                };
                ActivityContent::Boost { first_slide }
            },
            AnyActerModel::Comment(e) => {
                let object = ActivityObject::resolve(parent, &e.on);
                ActivityContent::Comment { object, content: e.content }
            },
            AnyActerModel::Attachment(e) => {
                let object = ActivityObject::resolve(parent, &e.on);
                match e.content {
                    AttachmentContent::Reference(details) => ActivityContent::Reference {
                        object,
                        details,
                    },
                    content => ActivityContent::Attachment { object, content },
                }
            },
            AnyActerModel::Reaction(e) => {
                let object = ActivityObject::resolve(parent, &e.relates_to);
                ActivityContent::Reaction { object, key: e.key }
            },
            AnyActerModel::ExplicitInvite(e) => {
                let object = ActivityObject::resolve(parent, &e.to);
                ActivityContent::ObjectInvitation { object, invitees: e.user_ids }
            },
            AnyActerModel::Pin(e) => {
                let object = ActivityObject::Pin { object_id: e.meta.event_id, title: e.title };
                ActivityContent::Creation { object }
            },
            AnyActerModel::PinUpdate(e) => {
                let object = ActivityObject::resolve(parent, &e.pin);
                Self::pin_update_content(e, object)
            },
            AnyActerModel::CalendarEvent(e) => {
                let object = ActivityObject::CalendarEvent {
                    object_id: e.meta.event_id,
                    title: e.title,
                };
                ActivityContent::Creation { object }
            },
            AnyActerModel::CalendarEventUpdate(e) => {
                let object = ActivityObject::resolve(parent, &e.calendar_event);
                Self::calendar_event_update_content(e, object)
            },
            AnyActerModel::Rsvp(e) => {
                let object = ActivityObject::resolve(parent, &e.to);
                ActivityContent::Rsvp { object, rsvp: e.status }
            },
            AnyActerModel::TaskList(e) => {
                let object = ActivityObject::TaskList { object_id: e.meta.event_id, title: e.name };
                ActivityContent::Creation { object }
            },
            AnyActerModel::TaskListUpdate(e) => {
                let object = ActivityObject::resolve(parent, &e.task_list);
                Self::task_list_update_content(e, object)
            },
            AnyActerModel::Task(e) => {
                let object = ActivityObject::resolve(parent, &e.task_list_id);
                ActivityContent::TaskAdd { object, task: e }
            },
            AnyActerModel::TaskUpdate(e) => {
                let object = ActivityObject::resolve(parent, &e.task);
                Self::task_update_content(e, object)
            },
            AnyActerModel::TaskSelfAssign(e) => {
                let object = ActivityObject::resolve(parent, &e.task);
                ActivityContent::TaskAccept { object }
            },
            AnyActerModel::TaskSelfUnassign(e) => {
                let object = ActivityObject::resolve(parent, &e.task);
                ActivityContent::TaskDecline { object }
            },
            AnyActerModel::RedactedActerModel(_)
            | AnyActerModel::NewsEntryUpdate(_)
            | AnyActerModel::Story(_)
            | AnyActerModel::StoryUpdate(_)
            | AnyActerModel::CommentUpdate(_)
            | AnyActerModel::AttachmentUpdate(_)
            | AnyActerModel::ReadReceipt(_) => {
                return Err(CoreError::Unsupported);
            },
        };
        Ok(Activity { inner, meta })
    }

    /// What an update of a pin amounts to, about the object given.
    pub fn pin_update_content(update: PinUpdate, object: ActivityObject) -> (res: ActivityContent)
        ensures
            res@ == ActivityContentView::of_pin_update(update@, object@),
    {
        match update.title {
            TriState::Value(new_title) => ActivityContent::TitleChange { object, new_title },
            TriState::Empty => ActivityContent::TitleChange { object, new_title: String::new() },
            TriState::Absent => match update.description {
                TriState::Value(c) => ActivityContent::DescriptionChange {
                    object,
                    content: Some(c),
                },
                TriState::Empty => ActivityContent::DescriptionChange { object, content: None },
                TriState::Absent => ActivityContent::OtherChanges { object },
            },
        }
    }

    /// What an update of a calendar event amounts to, about the object given.
    pub fn calendar_event_update_content(
        update: CalendarEventUpdate,
        object: ActivityObject,
    ) -> (res: ActivityContent)
        ensures
            res@ == ActivityContentView::of_calendar_event_update(update@, object@),
    {
        let epoch = UtcDateTime { secs: 0, nanos: 0 };
        match update.title {
            TriState::Value(new_title) => ActivityContent::TitleChange { object, new_title },
            TriState::Empty => ActivityContent::TitleChange { object, new_title: String::new() },
            TriState::Absent => match update.description {
                TriState::Value(c) => ActivityContent::DescriptionChange {
                    object,
                    content: Some(c),
                },
                TriState::Empty => ActivityContent::DescriptionChange { object, content: None },
                TriState::Absent => match update.utc_start {
                    TriState::Value(new_date) => ActivityContent::EventDateChange {
                        object,
                        new_date,
                    },
                    TriState::Empty => ActivityContent::EventDateChange { object, new_date: epoch },
                    TriState::Absent => match update.utc_end {
                        TriState::Value(new_date) => ActivityContent::EventDateChange {
                            object,
                            new_date,
                        },
                        TriState::Empty => ActivityContent::EventDateChange {
                            object,
                            new_date: epoch,
                        },
                        TriState::Absent => ActivityContent::OtherChanges { object },
                    },
                },
            },
        }
    }

    /// What an update of a task list amounts to, about the object given.
    pub fn task_list_update_content(update: TaskListUpdate, object: ActivityObject) -> (res:
        ActivityContent)
        ensures
            res@ == ActivityContentView::of_task_list_update(update@, object@),
    {
        match update.name {
            TriState::Value(new_title) => ActivityContent::TitleChange { object, new_title },
            TriState::Empty => ActivityContent::TitleChange { object, new_title: String::new() },
            TriState::Absent => match update.description {
                TriState::Value(c) => ActivityContent::DescriptionChange {
                    object,
                    content: Some(c),
                },
                TriState::Empty => ActivityContent::DescriptionChange { object, content: None },
                TriState::Absent => ActivityContent::OtherChanges { object },
            },
        }
    }

    /// What an update of a task amounts to, about the object given.
    pub fn task_update_content(update: TaskUpdate, object: ActivityObject) -> (res:
        ActivityContent)
        ensures
            res@ == ActivityContentView::of_task_update(update@, object@),
    {
        match update.progress_percent {
            TriState::Value(percent) => ActivityContent::TaskProgress {
                object,
                done: percent >= 100,
            },
            TriState::Empty => ActivityContent::TaskProgress { object, done: false },
            TriState::Absent => match update.due_date {
                TriState::Value(date) => ActivityContent::TaskDueDateChange {
                    object,
                    new_due_date: Some(date),
                },
                TriState::Empty => ActivityContent::TaskDueDateChange {
                    object,
                    new_due_date: None,
                },
                TriState::Absent => match update.title {
                    TriState::Value(new_title) => ActivityContent::TitleChange {
                        object,
                        new_title,
                    },
                    TriState::Empty => ActivityContent::TitleChange {
                        object,
                        new_title: String::new(),
                    },
                    TriState::Absent => match update.description {
                        TriState::Value(c) => ActivityContent::DescriptionChange {
                            object,
                            content: Some(c),
                        },
                        TriState::Empty => ActivityContent::DescriptionChange {
                            object,
                            content: None,
                        },
                        TriState::Absent => ActivityContent::OtherChanges { object },
                    },
                },
            },
        }
    }
}

/// An activity about something to go to has a path that starts at the root; the others,
/// which are the changes of the room itself, have the empty path.
pub proof fn lemma_target_url_is_a_path(activity: ActivityView)
    ensures
        activity.inner.has_target() ==> activity.target_url().len() > 0
            && activity.target_url()[0] == '/',
        !activity.inner.has_target() ==> activity.target_url() == Seq::<char>::empty(),
{
    reveal_strlit("/updates/");
    reveal_strlit("/tasks/");
    match activity.inner.object() {
        Some(object) => {
            lemma_object_url_is_a_path(object);
        },
        None => {},
    }
}

/// An event whose parent is not in the store still has its activity, and that activity
/// names its object as unknown, with the id that was looked for.
pub proof fn lemma_unknown_parent_fallback(m: AnyActerModelView)
    requires
        m.parent_id() is Some,
        ActivityView::of_model(m, None) is Some,
    ensures
        ActivityView::of_model(m, None)->Some_0.inner.object() == Some(
            ActivityObjectView::Unknown { object_id: m.parent_id()->Some_0 },
        ),
{
}

/// Whether an event has an activity depends on its kind alone, not on what the store holds.
pub proof fn lemma_support_ignores_parent(
    m: AnyActerModelView,
    one: Option<AnyActerModelView>,
    other: Option<AnyActerModelView>,
)
    ensures
        ActivityView::of_model(m, one) is Some <==> ActivityView::of_model(m, other) is Some,
{
}

} // verus!
