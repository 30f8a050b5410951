//! Data model: tasks, their completion state, and the inputs that create and
//! update them.

use vstd::prelude::*;

verus! {

/// Completion state of a task.
#[derive(Clone, Copy, Debug, PartialEq, Eq, Structural, PartialOrd, Ord, Hash)]
pub enum TaskCompletionState {
    /// The task is completed.
    Completed,
    /// The task is not completed.
    NotCompleted,
}

/// A task as it is stored.
///
/// Identifiers are 128-bit values (the bits of a UUID); the deadline, when
/// present, counts microseconds since the Unix epoch in UTC.
#[derive(Debug, Hash)]
pub struct Task {
    /// Identifier of the task.
    pub task_id: u128,
    /// Identifier of the blog which owns the task.
    pub blog_id: u128,
    /// Name of the task.
    pub name: String,
    /// Deadline of the task.
    pub deadline: Option<i64>,
    /// Completion state of the task.
    pub completion: TaskCompletionState,
}

/// Mathematical value of a [`Task`].
pub struct TaskView {
    pub task_id: u128,
    pub blog_id: u128,
    pub name: Seq<char>,
    pub deadline: Option<i64>,
    pub completion: TaskCompletionState,
}

impl View for Task {
    type V = TaskView;

    open spec fn view(&self) -> TaskView {
        TaskView {
            task_id: self.task_id,
            blog_id: self.blog_id,
            name: self.name@,
            deadline: self.deadline,
            completion: self.completion,
        }
    }
}

fn same_deadline(a: &Option<i64>, b: &Option<i64>) -> (r: bool)
    ensures
        r == (*a == *b),
{
    match (a, b) {
        (Some(x), Some(y)) => *x == *y,
        (None, None) => true,
        _ => false,
    }
}

impl Clone for Task {
    fn clone(&self) -> (r: Task)
        ensures
            r@ == self@,
    {
        Task {
            task_id: self.task_id,
            blog_id: self.blog_id,
            name: self.name.clone(),
            deadline: self.deadline,
            completion: self.completion,
        }
    }
}

impl PartialEq for Task {
    fn eq(&self, other: &Task) -> (r: bool) {
        self.task_id == other.task_id && self.blog_id == other.blog_id && self.name
            == other.name && same_deadline(&self.deadline, &other.deadline)
            && self.completion == other.completion
    }
}

impl vstd::std_specs::cmp::PartialEqSpecImpl for Task {
    open spec fn obeys_eq_spec() -> bool {
        true
    }

    open spec fn eq_spec(&self, other: &Task) -> bool {
        self@ == other@
    }
}

impl Eq for Task {}

impl PartialEq for CreateTask {
    fn eq(&self, other: &CreateTask) -> (r: bool) {
        self.blog_id == other.blog_id && self.name == other.name && same_deadline(
            &self.deadline,
            &other.deadline,
        )
    }
}

impl vstd::std_specs::cmp::PartialEqSpecImpl for CreateTask {
    open spec fn obeys_eq_spec() -> bool {
        true
    }

    open spec fn eq_spec(&self, other: &CreateTask) -> bool {
        self.blog_id == other.blog_id && self.name@ == other.name@ && self.deadline
            == other.deadline
    }
}

impl Eq for CreateTask {}

impl PartialEq for UpdateTask {
    fn eq(&self, other: &UpdateTask) -> (r: bool) {
        self.blog_id == other.blog_id && self.name == other.name && same_deadline(
            &self.deadline,
            &other.deadline,
        ) && self.completion == other.completion
    }
}

impl vstd::std_specs::cmp::PartialEqSpecImpl for UpdateTask {
    open spec fn obeys_eq_spec() -> bool {
        true
    }

    open spec fn eq_spec(&self, other: &UpdateTask) -> bool {
        self.blog_id == other.blog_id && self.name@ == other.name@ && self.deadline
            == other.deadline && self.completion == other.completion
    }
}

impl Eq for UpdateTask {}

/// Data that creates a task.
#[derive(Clone, Debug, Hash)]
pub struct CreateTask {
    /// Identifier of the blog which owns the task.
    pub blog_id: u128,
    /// Name of the task.
    pub name: String,
    /// Deadline of the task.
    pub deadline: Option<i64>,
}

/// Data that replaces the fields of a task other than its identifier.
#[derive(Clone, Debug, Hash)]
pub struct UpdateTask {
    /// Identifier of the blog which owns the task.
    pub blog_id: u128,
    /// Name of the task.
    pub name: String,
    /// Deadline of the task.
    pub deadline: Option<i64>,
    /// Completion state of the task.
    pub completion: TaskCompletionState,
}

impl CreateTask {
    /// The task that this input creates under the identifier `id`: not yet
    /// completed.
    pub open spec fn created_with(self, id: u128) -> TaskView {
        TaskView {
            task_id: id,
            blog_id: self.blog_id,
            name: self.name@,
            deadline: self.deadline,
            completion: TaskCompletionState::NotCompleted,
        }
    }

    /// Builds the task with identifier `id` from this input.
    pub fn into_task(self, id: u128) -> (r: Task)
        ensures
            r@ == self.created_with(id),
    {
        Task {
            task_id: id,
            blog_id: self.blog_id,
            name: self.name,
            deadline: self.deadline,
            completion: TaskCompletionState::NotCompleted,
        }
    }
}

impl UpdateTask {
    /// The task with identifier `id` whose other fields are this input's.
    pub open spec fn applied_to(self, id: u128) -> TaskView {
        TaskView {
            task_id: id,
            blog_id: self.blog_id,
            name: self.name@,
            deadline: self.deadline,
            completion: self.completion,
        }
    }

    /// Builds the task with identifier `id` from this input.
    pub fn into_task(self, id: u128) -> (r: Task)
        ensures
            r@ == self.applied_to(id),
    {
        Task {
            task_id: id,
            blog_id: self.blog_id,
            name: self.name,
            deadline: self.deadline,
            completion: self.completion,
        }
    }
}

} // verus!
