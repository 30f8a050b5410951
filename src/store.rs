//! The abstract state of a task repository and what each operation does to
//! it, with the laws that follow.

use vstd::prelude::*;
use crate::model::{CreateTask, Task, TaskView, UpdateTask};

verus! {

/// Failure of a repository operation.
#[derive(Clone, Copy, Debug, PartialEq, Eq, Structural)]
pub enum TaskRepoError {
    /// A task already exists by the identifier.
    ExistsById,
    /// No task is found by the identifier.
    NoTaskById,
    /// The backing store failed to carry out the operation.
    StoreUnavailable,
}

/// What a repository holds: the tasks present, by identifier, and every
/// identifier ever issued (deleted tasks' identifiers stay issued).
pub struct Store {
    pub table: Map<u128, TaskView>,
    pub issued: Set<u128>,
}

/// Mathematical value of an operation's result.
pub open spec fn result_view(r: Result<Task, TaskRepoError>) -> Result<TaskView, TaskRepoError> {
    match r {
        Ok(t) => Ok(t@),
        Err(e) => Err(e),
    }
}

impl Store {
    /// Each present task is stored under its own identifier, which was issued.
    pub open spec fn inv(self) -> bool {
        forall|id: u128| #[trigger]
            self.table.contains_key(id) ==> self.issued.contains(id) && self.table[id].task_id
                == id
    }

    /// A store without tasks in which no identifier was issued.
    pub open spec fn empty() -> Store {
        Store { table: Map::empty(), issued: Set::empty() }
    }

    /// The task by `id`, or `NoTaskById` where there is none.
    pub open spec fn lookup(self, id: u128) -> Result<TaskView, TaskRepoError> {
        if self.table.contains_key(id) {
            Ok(self.table[id])
        } else {
            Err(TaskRepoError::NoTaskById)
        }
    }

    /// Creates the task of `c` under the identifier `id`, which must not have
    /// been issued before.
    pub open spec fn create(self, c: CreateTask, id: u128) -> (Store, Result<TaskView, TaskRepoError>) {
        if self.issued.contains(id) {
            (self, Err(TaskRepoError::ExistsById))
        } else {
            let t = c.created_with(id);
            (Store { table: self.table.insert(id, t), issued: self.issued.insert(id) }, Ok(t))
        }
    }

    /// Replaces every field but the identifier of the task by `id`.
    pub open spec fn update(self, id: u128, u: UpdateTask) -> (Store, Result<TaskView, TaskRepoError>) {
        if self.table.contains_key(id) {
            let t = u.applied_to(id);
            (Store { table: self.table.insert(id, t), issued: self.issued }, Ok(t))
        } else {
            (self, Err(TaskRepoError::NoTaskById))
        }
    }

    /// Removes the task by `id` and gives back what it was.
    pub open spec fn delete(self, id: u128) -> (Store, Result<TaskView, TaskRepoError>) {
        if self.table.contains_key(id) {
            (Store { table: self.table.remove(id), issued: self.issued }, Ok(self.table[id]))
        } else {
            (self, Err(TaskRepoError::NoTaskById))
        }
    }
}

/// `rows` holds every task of `table` once, in some order.
pub open spec fn lists_table(rows: Seq<TaskView>, table: Map<u128, TaskView>) -> bool {
    &&& forall|i: int| 0 <= i < rows.len() ==> #[trigger] table.contains_key(rows[i].task_id)
        && table[rows[i].task_id] == rows[i]
    &&& forall|id: u128| #[trigger] table.contains_key(id) ==> exists|i: int|
        0 <= i < rows.len() && rows[i].task_id == id
    &&& forall|i: int, j: int|
        0 <= i < j < rows.len() ==> #[trigger] rows[i].task_id != #[trigger] rows[j].task_id
}

} // verus!
