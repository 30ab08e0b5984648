//! Task lists, their tasks, and who takes them on.

use crate::content::{TextContent, TextContentView};
use crate::meta::{EventMeta, EventMetaView, NaiveDate};
use crate::tristate::TriState;
use vstd::prelude::*;

verus! {

/// A task list as it currently stands.
#[derive(Debug)]
pub struct TaskList {
    pub meta: EventMeta,
    pub name: String,
    pub description: Option<TextContent>,
}

/// Mathematical model of a [`TaskList`].
pub struct TaskListView {
    pub meta: EventMetaView,
    pub name: Seq<char>,
    pub description: Option<TextContentView>,
}

impl View for TaskList {
    type V = TaskListView;

    open spec fn view(&self) -> TaskListView {
        TaskListView {
            meta: self.meta@,
            name: self.name@,
            description: self.description.deep_view(),
        }
    }
}

impl DeepView for TaskList {
    type V = TaskListView;

    open spec fn deep_view(&self) -> TaskListView {
        self@
    }
}

impl Clone for TaskList {
    fn clone(&self) -> (res: Self)
        ensures
            res@ == self@,
    {
        TaskList {
            meta: self.meta.clone(),
            name: self.name.clone(),
            description: self.description.clone(),
        }
    }
}

/// A partial update of a task list.
#[derive(Debug)]
pub struct TaskListUpdate {
    pub meta: EventMeta,
    /// Event id of the task list this update is for.
    pub task_list: String,
    pub name: TriState<String>,
    pub description: TriState<TextContent>,
}

/// Mathematical model of a [`TaskListUpdate`].
pub struct TaskListUpdateView {
    pub meta: EventMetaView,
    pub task_list: Seq<char>,
    pub name: TriState<Seq<char>>,
    pub description: TriState<TextContentView>,
}

impl View for TaskListUpdate {
    type V = TaskListUpdateView;

    open spec fn view(&self) -> TaskListUpdateView {
        TaskListUpdateView {
            meta: self.meta@,
            task_list: self.task_list@,
            name: self.name.deep_view(),
            description: self.description.deep_view(),
        }
    }
}

impl DeepView for TaskListUpdate {
    type V = TaskListUpdateView;

    open spec fn deep_view(&self) -> TaskListUpdateView {
        self@
    }
}

impl Clone for TaskListUpdate {
    fn clone(&self) -> (res: Self)
        ensures
            res@ == self@,
    {
        TaskListUpdate {
            meta: self.meta.clone(),
            task_list: self.task_list.clone(),
            name: self.name.clone(),
            description: self.description.clone(),
        }
    }
}

impl TaskListUpdateView {
    /// The update mentions no field.
    pub open spec fn is_noop(self) -> bool {
        self.name is Absent
            && self.description is Absent
    }
}

impl TaskListView {
    /// The task list after `u` has been folded into it.
    pub open spec fn applied(self, u: TaskListUpdateView) -> TaskListView {
        TaskListView {
            name: u.name.merged_or(self.name, Seq::empty()),
            description: u.description.merged(self.description),
            ..self
        }
    }
}

impl TaskList {
    /// Folds `update` into the list, field by field: an absent field keeps the value, an
    /// empty one clears it, a set one overwrites it.
    pub fn apply(&mut self, update: &TaskListUpdate)
        ensures
            final(self)@ == old(self)@.applied(update@),
    {
        match &update.name {
            TriState::Absent => {},
            TriState::Empty => {
                self.name = String::new();
            },
            TriState::Value(v) => {
                self.name = v.clone();
            },
        }
        match &update.description {
            TriState::Absent => {},
            TriState::Empty => {
                self.description = None;
            },
            TriState::Value(v) => {
                self.description = Some(v.clone());
            },
        }
    }
}

/// Folding the same update in twice gives what folding it in once gives.
pub proof fn lemma_task_list_apply_idempotent(list: TaskListView, u: TaskListUpdateView)
    ensures
        list.applied(u).applied(u) == list.applied(u),
{
}

/// An update that mentions no field leaves the task list as it was. A field that the update
/// does not mention keeps its value, whatever the update says of other fields, and a
/// field that it gives as empty is cleared: an update changes exactly the fields it
/// mentions.
pub proof fn lemma_task_list_apply_tristate(list: TaskListView, u: TaskListUpdateView)
    ensures
        u.is_noop() ==> list.applied(u) == list,
        list.applied(u).meta == list.meta,
        u.name is Absent ==> list.applied(u).name == list.name,
        u.name is Empty ==> list.applied(u).name == Seq::<char>::empty(),
        u.description is Absent ==> list.applied(u).description == list.description,
        u.description is Empty ==> list.applied(u).description is None,
{
}

/// Of two updates folded in one after the other, the later decides every field it mentions,
/// so the two orders may give different results.
pub proof fn lemma_task_list_apply_last_wins(
    list: TaskListView,
    first: TaskListUpdateView,
    second: TaskListUpdateView,
)
    ensures
        !(second.name is Absent) ==> list.applied(first).applied(second).name
            == list.applied(second).name,
        !(second.description is Absent) ==> list.applied(first).applied(second).description
            == list.applied(second).description,
{
}

/// A task as it currently stands.
#[derive(Debug)]
pub struct Task {
    pub meta: EventMeta,
    /// Event id of the task list the task belongs to.
    pub task_list_id: String,
    pub title: String,
    pub description: Option<TextContent>,
    pub due_date: Option<NaiveDate>,
    /// How far the task is, in percent; 100 and above is done.
    pub progress_percent: Option<u8>,
}

/// Mathematical model of a [`Task`].
pub struct TaskView {
    pub meta: EventMetaView,
    pub task_list_id: Seq<char>,
    pub title: Seq<char>,
    pub description: Option<TextContentView>,
    pub due_date: Option<NaiveDate>,
    pub progress_percent: Option<u8>,
}

impl View for Task {
    type V = TaskView;

    open spec fn view(&self) -> TaskView {
        TaskView {
            meta: self.meta@,
            task_list_id: self.task_list_id@,
            title: self.title@,
            description: self.description.deep_view(),
            due_date: self.due_date,
            progress_percent: self.progress_percent,
        }
    }
}

impl DeepView for Task {
    type V = TaskView;

    open spec fn deep_view(&self) -> TaskView {
        self@
    }
}

impl Clone for Task {
    fn clone(&self) -> (res: Self)
        ensures
            res@ == self@,
    {
        Task {
            meta: self.meta.clone(),
            task_list_id: self.task_list_id.clone(),
            title: self.title.clone(),
            description: self.description.clone(),
            due_date: self.due_date,
            progress_percent: self.progress_percent,
        }
    }
}

/// A partial update of a task.
#[derive(Debug)]
pub struct TaskUpdate {
    pub meta: EventMeta,
    /// Event id of the task this update is for.
    pub task: String,
    pub title: TriState<String>,
    pub description: TriState<TextContent>,
    pub due_date: TriState<NaiveDate>,
    pub progress_percent: TriState<u8>,
}

/// Mathematical model of a [`TaskUpdate`].
pub struct TaskUpdateView {
    pub meta: EventMetaView,
    pub task: Seq<char>,
    pub title: TriState<Seq<char>>,
    pub description: TriState<TextContentView>,
    pub due_date: TriState<NaiveDate>,
    pub progress_percent: TriState<u8>,
}

impl View for TaskUpdate {
    type V = TaskUpdateView;

    open spec fn view(&self) -> TaskUpdateView {
        TaskUpdateView {
            meta: self.meta@,
            task: self.task@,
            title: self.title.deep_view(),
            description: self.description.deep_view(),
            due_date: self.due_date.deep_view(),
            progress_percent: self.progress_percent.deep_view(),
        }
    }
}

impl DeepView for TaskUpdate {
    type V = TaskUpdateView;

    open spec fn deep_view(&self) -> TaskUpdateView {
        self@
    }
}

impl Clone for TaskUpdate {
    fn clone(&self) -> (res: Self)
        ensures
            res@ == self@,
    {
        TaskUpdate {
            meta: self.meta.clone(),
            task: self.task.clone(),
            title: self.title.clone(),
            description: self.description.clone(),
            due_date: self.due_date.clone(),
            progress_percent: self.progress_percent.clone(),
        }
    }
}

impl TaskUpdateView {
    /// The update mentions no field.
    pub open spec fn is_noop(self) -> bool {
        self.title is Absent
            && self.description is Absent
            && self.due_date is Absent
            && self.progress_percent is Absent
    }
}

impl TaskView {
    /// The task after `u` has been folded into it.
    pub open spec fn applied(self, u: TaskUpdateView) -> TaskView {
        TaskView {
            title: u.title.merged_or(self.title, Seq::empty()),
            description: u.description.merged(self.description),
            due_date: u.due_date.merged(self.due_date),
            progress_percent: u.progress_percent.merged(self.progress_percent),
            ..self
        }
    }
}

impl Task {
    /// Folds `update` into the task, field by field: an absent field keeps the value, an
    /// empty one clears it, a set one overwrites it.
    pub fn apply(&mut self, update: &TaskUpdate)
        ensures
            final(self)@ == old(self)@.applied(update@),
    {
        match &update.title {
            TriState::Absent => {},
            TriState::Empty => {
                self.title = String::new();
            },
            TriState::Value(v) => {
                self.title = v.clone();
            },
        }
        match &update.description {
            TriState::Absent => {},
            TriState::Empty => {
                self.description = None;
            },
            TriState::Value(v) => {
                self.description = Some(v.clone());
            },
        }
        match &update.due_date {
            TriState::Absent => {},
            TriState::Empty => {
                self.due_date = None;
            },
            TriState::Value(v) => {
                self.due_date = Some(*v);
            },
        }
        match &update.progress_percent {
            TriState::Absent => {},
            TriState::Empty => {
                self.progress_percent = None;
            },
            TriState::Value(v) => {
                self.progress_percent = Some(*v);
            },
        }
    }
}

/// Folding the same update in twice gives what folding it in once gives.
pub proof fn lemma_task_apply_idempotent(task: TaskView, u: TaskUpdateView)
    ensures
        task.applied(u).applied(u) == task.applied(u),
{
}

/// An update that mentions no field leaves the task as it was. A field that the update
/// does not mention keeps its value, whatever the update says of other fields, and a
/// field that it gives as empty is cleared: an update changes exactly the fields it
/// mentions.
pub proof fn lemma_task_apply_tristate(task: TaskView, u: TaskUpdateView)
    ensures
        u.is_noop() ==> task.applied(u) == task,
        task.applied(u).meta == task.meta,
        task.applied(u).task_list_id == task.task_list_id,
        u.title is Absent ==> task.applied(u).title == task.title,
        u.title is Empty ==> task.applied(u).title == Seq::<char>::empty(),
        u.description is Absent ==> task.applied(u).description == task.description,
        u.description is Empty ==> task.applied(u).description is None,
        u.due_date is Absent ==> task.applied(u).due_date == task.due_date,
        u.due_date is Empty ==> task.applied(u).due_date is None,
        u.progress_percent is Absent ==> task.applied(u).progress_percent == task.progress_percent,
        u.progress_percent is Empty ==> task.applied(u).progress_percent is None,
{
}

/// Of two updates folded in one after the other, the later decides every field it mentions,
/// so the two orders may give different results.
pub proof fn lemma_task_apply_last_wins(
    task: TaskView,
    first: TaskUpdateView,
    second: TaskUpdateView,
)
    ensures
        !(second.title is Absent) ==> task.applied(first).applied(second).title
            == task.applied(second).title,
        !(second.description is Absent) ==> task.applied(first).applied(second).description
            == task.applied(second).description,
        !(second.due_date is Absent) ==> task.applied(first).applied(second).due_date
            == task.applied(second).due_date,
        !(second.progress_percent is Absent) ==> task.applied(first).applied(
            second,
        ).progress_percent
            == task.applied(second).progress_percent,
{
}

/// The sender takes a task on.
#[derive(Debug)]
pub struct TaskSelfAssign {
    pub meta: EventMeta,
    /// Event id of the task.
    pub task: String,
}

/// Mathematical model of a [`TaskSelfAssign`].
pub struct TaskSelfAssignView {
    pub meta: EventMetaView,
    pub task: Seq<char>,
}

impl View for TaskSelfAssign {
    type V = TaskSelfAssignView;

    open spec fn view(&self) -> TaskSelfAssignView {
        TaskSelfAssignView {
            meta: self.meta@,
            task: self.task@,
        }
    }
}

impl DeepView for TaskSelfAssign {
    type V = TaskSelfAssignView;

    open spec fn deep_view(&self) -> TaskSelfAssignView {
        self@
    }
}

impl Clone for TaskSelfAssign {
    fn clone(&self) -> (res: Self)
        ensures
            res@ == self@,
    {
        TaskSelfAssign {
            meta: self.meta.clone(),
            task: self.task.clone(),
        }
    }
}

/// The sender gives a task back.
#[derive(Debug)]
pub struct TaskSelfUnassign {
    pub meta: EventMeta,
    /// Event id of the task.
    pub task: String,
}

/// Mathematical model of a [`TaskSelfUnassign`].
pub struct TaskSelfUnassignView {
    pub meta: EventMetaView,
    pub task: Seq<char>,
}

impl View for TaskSelfUnassign {
    type V = TaskSelfUnassignView;

    open spec fn view(&self) -> TaskSelfUnassignView {
        TaskSelfUnassignView {
            meta: self.meta@,
            task: self.task@,
        }
    }
}

impl DeepView for TaskSelfUnassign {
    type V = TaskSelfUnassignView;

    open spec fn deep_view(&self) -> TaskSelfUnassignView {
        self@
    }
}

impl Clone for TaskSelfUnassign {
    fn clone(&self) -> (res: Self)
        ensures
            res@ == self@,
    {
        TaskSelfUnassign {
            meta: self.meta.clone(),
            task: self.task.clone(),
        }
    }
}

} // verus!
