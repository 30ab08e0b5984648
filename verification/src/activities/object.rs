//! The object an activity is about, as a light handle.

use crate::foreign::{percent_encoded, url_encode};
use crate::models::any::{AnyActerModel, AnyActerModelView};
use crate::text::{join2, join4};
use vstd::prelude::*;
use vstd::utf8::encode_utf8;

verus! {

/// A handle to the object an activity is about: its id, its kind and, where the kind has
/// one, its title. It is looked up when the activity is read and never stored.
#[derive(Debug)]
pub enum ActivityObject {
    News { object_id: String },
    Story { object_id: String },
    Pin { object_id: String, title: String },
    CalendarEvent { object_id: String, title: String },
    TaskList { object_id: String, title: String },
    Task { object_id: String, tl_id: String, title: String },
    /// The object is not in the store, or is of no kind that can be shown.
    Unknown { object_id: String },
}

/// Mathematical model of an [`ActivityObject`].
pub enum ActivityObjectView {
    News { object_id: Seq<char> },
    Story { object_id: Seq<char> },
    Pin { object_id: Seq<char>, title: Seq<char> },
    CalendarEvent { object_id: Seq<char>, title: Seq<char> },
    TaskList { object_id: Seq<char>, title: Seq<char> },
    Task { object_id: Seq<char>, tl_id: Seq<char>, title: Seq<char> },
    Unknown { object_id: Seq<char> },
}

impl View for ActivityObject {
    type V = ActivityObjectView;

    open spec fn view(&self) -> ActivityObjectView {
        match self {
            ActivityObject::News { object_id } => ActivityObjectView::News { object_id: object_id@ },
            ActivityObject::Story { object_id } => ActivityObjectView::Story {
                object_id: object_id@,
            },
            ActivityObject::Pin { object_id, title } => ActivityObjectView::Pin {
                object_id: object_id@,
                title: title@,
            },
            ActivityObject::CalendarEvent { object_id, title } => {
                ActivityObjectView::CalendarEvent {
                    object_id: object_id@,
                    title: title@,
                }
            },
            ActivityObject::TaskList { object_id, title } => ActivityObjectView::TaskList {
                object_id: object_id@,
                title: title@,
            },
            ActivityObject::Task { object_id, tl_id, title } => ActivityObjectView::Task {
                object_id: object_id@,
                tl_id: tl_id@,
                title: title@,
            },
            ActivityObject::Unknown { object_id } => ActivityObjectView::Unknown {
                object_id: object_id@,
            },
        }
    }
}

impl DeepView for ActivityObject {
    type V = ActivityObjectView;

    open spec fn deep_view(&self) -> ActivityObjectView {
        self@
    }
}

impl Clone for ActivityObject {
    fn clone(&self) -> (res: Self)
        ensures
            res@ == self@,
    {
        match self {
            ActivityObject::News { object_id } => ActivityObject::News {
                object_id: object_id.clone(),
            },
            ActivityObject::Story { object_id } => ActivityObject::Story {
                object_id: object_id.clone(),
            },
            ActivityObject::Pin { object_id, title } => ActivityObject::Pin {
                object_id: object_id.clone(),
                title: title.clone(),
            },
            ActivityObject::CalendarEvent { object_id, title } => ActivityObject::CalendarEvent {
                object_id: object_id.clone(),
                title: title.clone(),
            },
            ActivityObject::TaskList { object_id, title } => ActivityObject::TaskList {
                object_id: object_id.clone(),
                title: title.clone(),
            },
            ActivityObject::Task { object_id, tl_id, title } => ActivityObject::Task {
                object_id: object_id.clone(),
                tl_id: tl_id.clone(),
                title: title.clone(),
            },
            ActivityObject::Unknown { object_id } => ActivityObject::Unknown {
                object_id: object_id.clone(),
            },
        }
    }
}

impl ActivityObjectView {
    /// The handle for a stored event, where the event is an object that can be shown.
    pub open spec fn of_model(m: AnyActerModelView) -> Option<ActivityObjectView> {
        match m {
            AnyActerModelView::Pin(p) => Some(
                ActivityObjectView::Pin { object_id: p.meta.event_id, title: p.title },
            ),
            AnyActerModelView::CalendarEvent(e) => Some(
                ActivityObjectView::CalendarEvent { object_id: e.meta.event_id, title: e.title },
            ),
            AnyActerModelView::TaskList(l) => Some(
                ActivityObjectView::TaskList { object_id: l.meta.event_id, title: l.name },
            ),
            AnyActerModelView::Task(t) => Some(
                ActivityObjectView::Task {
                    object_id: t.meta.event_id,
                    tl_id: t.task_list_id,
                    title: t.title,
                },
            ),
            AnyActerModelView::NewsEntry(n) => Some(
                ActivityObjectView::News { object_id: n.meta.event_id },
            ),
            AnyActerModelView::Story(s) => Some(
                ActivityObjectView::Story { object_id: s.meta.event_id },
            ),
            _ => None,
        }
    }

    /// The handle for the object of id `object_id`, given what the store holds under that
    /// id: the object's own handle where there is one, and `Unknown` with the id else.
    pub open spec fn resolved(
        found: Option<AnyActerModelView>,
        object_id: Seq<char>,
    ) -> ActivityObjectView {
        match found {
            Some(m) => match Self::of_model(m) {
                Some(object) => object,
                None => ActivityObjectView::Unknown { object_id },
            },
            None => ActivityObjectView::Unknown { object_id },
        }
    }

    /// The tag of the object's kind.
    pub open spec fn kind_tag(self) -> Seq<char> {
        match self {
            ActivityObjectView::News { .. } => "news"@,
            ActivityObjectView::Story { .. } => "story"@,
            ActivityObjectView::Pin { .. } => "pin"@,
            ActivityObjectView::CalendarEvent { .. } => "event"@,
            ActivityObjectView::TaskList { .. } => "task-list"@,
            ActivityObjectView::Task { .. } => "task"@,
            ActivityObjectView::Unknown { .. } => "unknown"@,
        }
    }

    /// The id of the object.
    pub open spec fn object_id(self) -> Seq<char> {
        match self {
            ActivityObjectView::News { object_id } => object_id,
            ActivityObjectView::Story { object_id } => object_id,
            ActivityObjectView::Pin { object_id, .. } => object_id,
            ActivityObjectView::CalendarEvent { object_id, .. } => object_id,
            ActivityObjectView::TaskList { object_id, .. } => object_id,
            ActivityObjectView::Task { object_id, .. } => object_id,
            ActivityObjectView::Unknown { object_id } => object_id,
        }
    }

    /// The title of the object, for the kinds that have one.
    pub open spec fn title(self) -> Option<Seq<char>> {
        match self {
            ActivityObjectView::Pin { title, .. } => Some(title),
            ActivityObjectView::CalendarEvent { title, .. } => Some(title),
            ActivityObjectView::TaskList { title, .. } => Some(title),
            ActivityObjectView::Task { title, .. } => Some(title),
            _ => None,
        }
    }

    /// The id of the task list, for a task.
    pub open spec fn task_list_id(self) -> Option<Seq<char>> {
        match self {
            ActivityObjectView::Task { tl_id, .. } => Some(tl_id),
            _ => None,
        }
    }

    /// The emoji that stands for the object's kind.
    pub open spec fn emoji(self) -> Seq<char> {
        match self {
            ActivityObjectView::News { .. } => "🚀"@,
            ActivityObjectView::Story { .. } => "📖"@,
            ActivityObjectView::Pin { .. } => "📌"@,
            ActivityObjectView::CalendarEvent { .. } => "🗓️"@,
            ActivityObjectView::TaskList { .. } => "📋"@,
            ActivityObjectView::Task { .. } => "☑️"@,
            ActivityObjectView::Unknown { .. } => "🧩"@,
        }
    }

    /// The path under which the object is shown. An unknown object goes to a forwarding
    /// page, its id percent-encoded.
    pub open spec fn target_url(self) -> Seq<char> {
        match self {
            ActivityObjectView::News { object_id } => "/updates/"@ + object_id,
            ActivityObjectView::Story { object_id } => "/updates/"@ + object_id,
            ActivityObjectView::Pin { object_id, .. } => "/pins/"@ + object_id,
            ActivityObjectView::CalendarEvent { object_id, .. } => "/events/"@ + object_id,
            ActivityObjectView::TaskList { object_id, .. } => "/tasks/"@ + object_id,
            ActivityObjectView::Task { object_id, tl_id, .. } => "/tasks/"@ + tl_id + "/"@
                + object_id,
            ActivityObjectView::Unknown { object_id } => "/forward?eventId="@ + percent_encoded(
                encode_utf8(object_id),
            ),
        }
    }
}

impl ActivityObject {
    /// The handle for a stored event, where the event is an object that can be shown.
    pub fn try_from_model(model: &AnyActerModel) -> (res: Option<ActivityObject>)
        ensures
            res.deep_view() == ActivityObjectView::of_model(model@),
    {
        match model {
            AnyActerModel::Pin(p) => Some(
                ActivityObject::Pin { object_id: p.meta.event_id.clone(), title: p.title.clone() },
            ),
            AnyActerModel::CalendarEvent(e) => Some(
                ActivityObject::CalendarEvent {
                    object_id: e.meta.event_id.clone(),
                    title: e.title.clone(),
                },
            ),
            AnyActerModel::TaskList(l) => Some(
                ActivityObject::TaskList {
                    object_id: l.meta.event_id.clone(),
                    title: l.name.clone(),
                },
            ),
            AnyActerModel::Task(t) => Some(
                ActivityObject::Task {
                    object_id: t.meta.event_id.clone(),
                    tl_id: t.task_list_id.clone(),
                    title: t.title.clone(),
                },
            ),
            AnyActerModel::NewsEntry(n) => Some(
                ActivityObject::News { object_id: n.meta.event_id.clone() },
            ),
            AnyActerModel::Story(s) => Some(
                ActivityObject::Story { object_id: s.meta.event_id.clone() },
            ),
            _ => None,
        }
    }

    /// The handle for the object of id `object_id`, given what the store holds under that
    /// id. A missing object, or one that cannot be shown, gives `Unknown`; it never fails.
    pub fn resolve(found: Option<&AnyActerModel>, object_id: &String) -> (res: ActivityObject)
        ensures
            res@ == ActivityObjectView::resolved(found.deep_view(), object_id@),
            found is None ==> res@ == (ActivityObjectView::Unknown { object_id: object_id@ }),
    {
        match found {
            Some(model) => match ActivityObject::try_from_model(model) {
                Some(object) => object,
                None => ActivityObject::Unknown { object_id: object_id.clone() },
            },
            None => ActivityObject::Unknown { object_id: object_id.clone() },
        }
    }

    /// The tag of the object's kind.
    pub fn type_str(&self) -> (res: String)
        ensures
            res@ == self@.kind_tag(),
    {
        match self {
            ActivityObject::News { .. } => "news".to_owned(),
            ActivityObject::Story { .. } => "story".to_owned(),
            ActivityObject::Pin { .. } => "pin".to_owned(),
            ActivityObject::CalendarEvent { .. } => "event".to_owned(),
            ActivityObject::TaskList { .. } => "task-list".to_owned(),
            ActivityObject::Task { .. } => "task".to_owned(),
            ActivityObject::Unknown { .. } => "unknown".to_owned(),
        }
    }

    /// The id of the object.
    pub fn object_id_str(&self) -> (res: String)
        ensures
            res@ == self@.object_id(),
    {
        match self {
            ActivityObject::News { object_id } => object_id.clone(),
            ActivityObject::Story { object_id } => object_id.clone(),
            ActivityObject::Pin { object_id, .. } => object_id.clone(),
            ActivityObject::CalendarEvent { object_id, .. } => object_id.clone(),
            ActivityObject::TaskList { object_id, .. } => object_id.clone(),
            ActivityObject::Task { object_id, .. } => object_id.clone(),
            ActivityObject::Unknown { object_id } => object_id.clone(),
        }
    }

    /// The title of the object, for the kinds that have one.
    pub fn title(&self) -> (res: Option<String>)
        ensures
            res.deep_view() == self@.title(),
    {
        match self {
            ActivityObject::Pin { title, .. } => Some(title.clone()),
            ActivityObject::CalendarEvent { title, .. } => Some(title.clone()),
            ActivityObject::TaskList { title, .. } => Some(title.clone()),
            ActivityObject::Task { title, .. } => Some(title.clone()),
            _ => None,
        }
    }

    /// The id of the task list, for a task.
    pub fn task_list_id_str(&self) -> (res: Option<String>)
        ensures
            res.deep_view() == self@.task_list_id(),
    {
        match self {
            ActivityObject::Task { tl_id, .. } => Some(tl_id.clone()),
            _ => None,
        }
    }

    /// The emoji that stands for the object's kind.
    pub fn emoji(&self) -> (res: String)
        ensures
            res@ == self@.emoji(),
    {
        match self {
            ActivityObject::News { .. } => "🚀".to_owned(),
            ActivityObject::Story { .. } => "📖".to_owned(),
            ActivityObject::Pin { .. } => "📌".to_owned(),
            ActivityObject::CalendarEvent { .. } => "🗓️".to_owned(),
            ActivityObject::TaskList { .. } => "📋".to_owned(),
            ActivityObject::Task { .. } => "☑️".to_owned(),
            ActivityObject::Unknown { .. } => "🧩".to_owned(),
        }
    }

    /// The path under which the object is shown.
    pub fn target_url(&self) -> (res: String)
        ensures
            res@ == self@.target_url(),
    {
        match self {
            ActivityObject::News { object_id } => join2("/updates/", object_id.as_str()),
            ActivityObject::Story { object_id } => join2("/updates/", object_id.as_str()),
            ActivityObject::Pin { object_id, .. } => join2("/pins/", object_id.as_str()),
            ActivityObject::CalendarEvent { object_id, .. } => join2(
                "/events/",
                object_id.as_str(),
            ),
            ActivityObject::TaskList { object_id, .. } => join2("/tasks/", object_id.as_str()),
            ActivityObject::Task { object_id, tl_id, .. } => join4(
                "/tasks/",
                tl_id.as_str(),
                "/",
                object_id.as_str(),
            ),
            ActivityObject::Unknown { object_id } => {
                let encoded = url_encode(object_id.as_str());
                join2("/forward?eventId=", encoded.as_str())
            },
        }
    }
}

/// Every object has a path, and it starts at the root.
pub proof fn lemma_object_url_is_a_path(object: ActivityObjectView)
    ensures
        object.target_url().len() > 0,
        object.target_url()[0] == '/',
{
    reveal_strlit("/updates/");
    reveal_strlit("/pins/");
    reveal_strlit("/events/");
    reveal_strlit("/tasks/");
    reveal_strlit("/forward?eventId=");
}

} // verus!
