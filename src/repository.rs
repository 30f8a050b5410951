//! The task repository: its contract as a trait, and an implementation that
//! keeps the tasks in memory.

use vstd::prelude::*;
use crate::model::{CreateTask, Task, UpdateTask};
use crate::store::{lists_table, result_view, Store, TaskRepoError};

verus! {

/// Result of a repository operation.
pub type TaskRepoResult<T> = Result<T, TaskRepoError>;

/// Relies on uuid::Uuid::new_v4 and Uuid::as_u128: the bits of a random
/// version 4 UUID (version nibble 4, RFC 4122 variant).
#[verifier::external_body]
fn new_task_id() -> (r: u128)
    ensures
        (r >> 76u128) & 0xfu128 == 4u128,
        (r >> 62u128) & 0x3u128 == 2u128,
{
    uuid::Uuid::new_v4().as_u128()
}

/// Repository with the tasks of the service.
pub trait TaskRepository {
    /// What the repository holds.
    spec fn store(&self) -> Store;

    /// The repository's internal invariant.
    spec fn wf(&self) -> bool;

    /// A well-formed repository holds a valid store with finitely many tasks.
    proof fn lemma_store_valid(&self)
        requires
            self.wf(),
        ensures
            self.store().inv(),
            self.store().table.dom().finite(),
    ;

    /// Gets all tasks, in an unspecified order.
    fn get_all(&self) -> (r: Vec<Task>)
        requires
            self.wf(),
        ensures
            lists_table(r@.map_values(|t: Task| t@), self.store().table),
    ;

    /// Finds one task by its identifier.
    fn get_one(&self, id: u128) -> (r: TaskRepoResult<Task>)
        requires
            self.wf(),
        ensures
            result_view(r) == self.store().lookup(id),
    ;

    /// Creates one task from the provided data, under a fresh random
    /// identifier.
    fn create_one(&mut self, create: CreateTask) -> (r: TaskRepoResult<Task>)
        requires
            old(self).wf(),
        ensures
            final(self).wf(),
            final(self).store().inv(),
            match r {
                Ok(t) => (final(self).store(), result_view(r)) == old(self).store().create(
                    create,
                    t.task_id,
                ),
                Err(e) => e == TaskRepoError::ExistsById && final(self).store() == old(
                    self,
                ).store() && exists|id: u128| #[trigger] old(self).store().issued.contains(id),
            },
    ;

    /// Updates one task which is found by the provided identifier.
    fn update_one(&mut self, id: u128, update: UpdateTask) -> (r: TaskRepoResult<Task>)
        requires
            old(self).wf(),
        ensures
            final(self).wf(),
            final(self).store().inv(),
            (final(self).store(), result_view(r)) == old(self).store().update(id, update),
    ;

    /// Deletes one task by its identifier, giving back what it was.
    fn delete_one(&mut self, id: u128) -> (r: TaskRepoResult<Task>)
        requires
            old(self).wf(),
        ensures
            final(self).wf(),
            final(self).store().inv(),
            (final(self).store(), result_view(r)) == old(self).store().delete(id),
    ;
}

/// Task repository that keeps the tasks in memory.
pub struct LocalTaskRepository {
    tasks: Vec<Task>,
    issued: Vec<u128>,
    state: Ghost<Store>,
}

impl LocalTaskRepository {
    /// The rows hold exactly the tasks of the table, each identifier once,
    /// and `issued` holds exactly the issued identifiers.
    pub closed spec fn rows_match(&self) -> bool {
        &&& lists_table(self.tasks@.map_values(|t: Task| t@), self.state@.table)
        &&& forall|id: u128| self.state@.issued.contains(id) <==> self.issued@.contains(id)
        &&& self.state@.inv()
        &&& self.state@.table.dom().finite()
    }

    /// Creates a repository without tasks.
    pub fn new() -> (r: LocalTaskRepository)
        ensures
            r.wf(),
            r.store() == Store::empty(),
    {
        let r = LocalTaskRepository {
            tasks: Vec::new(),
            issued: Vec::new(),
            state: Ghost(Store::empty()),
        };
        assert(r.tasks@.map_values(|t: Task| t@) =~= Seq::empty());
        r
    }

    /// Index of the task by `id`, if there is one.
    fn position(&self, id: u128) -> (r: Option<usize>)
        requires
            self.rows_match(),
        ensures
            match r {
                Some(i) => i < self.tasks@.len() && self.tasks@[i as int].task_id == id,
                None => !self.state@.table.contains_key(id),
            },
    {
        let ghost rows = self.tasks@.map_values(|t: Task| t@);
        let mut i: usize = 0;
        while i < self.tasks.len()
            invariant
                i <= self.tasks@.len(),
                self.rows_match(),
                rows == self.tasks@.map_values(|t: Task| t@),
                forall|k: int| 0 <= k < i ==> self.tasks@[k].task_id != id,
            decreases self.tasks@.len() - i,
        {
            if self.tasks[i].task_id == id {
                return Some(i);
            }
            i = i + 1;
        }
        proof {
            if self.state@.table.contains_key(id) {
                let k = choose|k: int| 0 <= k < rows.len() && rows[k].task_id == id;
                assert(rows[k].task_id == self.tasks@[k].task_id);
            }
        }
        None
    }

    /// Whether `id` was ever issued by this repository.
    fn was_issued(&self, id: u128) -> (r: bool)
        requires
            self.rows_match(),
        ensures
            r == self.state@.issued.contains(id),
    {
        let mut i: usize = 0;
        while i < self.issued.len()
            invariant
                i <= self.issued@.len(),
                self.rows_match(),
                forall|k: int| 0 <= k < i ==> self.issued@[k] != id,
            decreases self.issued@.len() - i,
        {
            if self.issued[i] == id {
                assert(self.issued@[i as int] == id);
                assert(self.issued@.contains(id));
                assert(self.state@.issued.contains(id));
                return true;
            }
            i = i + 1;
        }
        false
    }

    /// Creates one task from the provided data under the identifier `id`;
    /// fails with `ExistsById` where `id` was issued before.
    pub fn create_with_id(&mut self, create: CreateTask, id: u128) -> (r: TaskRepoResult<Task>)
        requires
            old(self).wf(),
        ensures
            final(self).wf(),
            (final(self).store(), result_view(r)) == old(self).store().create(create, id),
    {
        if self.was_issued(id) {
            return Err(TaskRepoError::ExistsById);
        }
        let ghost c = create;
        let ghost old_issued = self.issued@;
        let ghost old_rows = self.tasks@.map_values(|t: Task| t@);
        let task = create.into_task(id);
        let out = task.clone();
        self.tasks.push(task);
        self.issued.push(id);
        let ghost t = c.created_with(id);
        self.state = Ghost(
            Store { table: self.state@.table.insert(id, t), issued: self.state@.issued.insert(id) },
        );
        proof {
            let rows = self.tasks@.map_values(|t: Task| t@);
            assert(rows =~= old_rows.push(t));
            assert forall|k: u128| self.state@.table.contains_key(k) implies exists|i: int|
                0 <= i < rows.len() && rows[i].task_id == k by {
                if k == id {
                    assert(rows[rows.len() - 1].task_id == k);
                } else {
                    let i = choose|i: int| 0 <= i < old_rows.len() && old_rows[i].task_id == k;
                    assert(rows[i].task_id == k);
                }
            }
            assert(self.issued@ == old_issued.push(id));
            assert forall|a: int| 0 <= a < rows.len() implies #[trigger] self.state@.table.contains_key(
                rows[a].task_id,
            ) && self.state@.table[rows[a].task_id] == rows[a] by {
                if a < rows.len() - 1 {
                    assert(old(self).state@.table.contains_key(old_rows[a].task_id));
                    assert(old(self).state@.issued.contains(old_rows[a].task_id));
                }
            }
            assert forall|x: u128| self.state@.issued.contains(x) <==> self.issued@.contains(x) by {
                if x != id {
                    if self.issued@.contains(x) {
                        let j = choose|j: int| 0 <= j < self.issued@.len() && self.issued@[j] == x;
                        assert(j < old_issued.len());
                        assert(old_issued[j] == x);
                    }
                    if old_issued.contains(x) {
                        let j = choose|j: int| 0 <= j < old_issued.len() && old_issued[j] == x;
                        assert(self.issued@[j] == x);
                    }
                } else {
                    assert(self.issued@[self.issued@.len() - 1] == id);
                }
            }
            assert forall|a: int, b: int| 0 <= a < b < rows.len() implies #[trigger] rows[a].task_id
                != #[trigger] rows[b].task_id by {
                if b == rows.len() - 1 {
                    assert(old(self).state@.table.contains_key(old_rows[a].task_id));
                    assert(old(self).state@.issued.contains(old_rows[a].task_id));
                } else {
                    assert(old_rows[a].task_id != old_rows[b].task_id);
                }
            }
        }
        Ok(out)
    }
}

impl TaskRepository for LocalTaskRepository {
    closed spec fn store(&self) -> Store {
        self.state@
    }

    closed spec fn wf(&self) -> bool {
        self.rows_match()
    }

    proof fn lemma_store_valid(&self) {
    }

    fn get_all(&self) -> (r: Vec<Task>) {
        let mut out: Vec<Task> = Vec::new();
        let mut i: usize = 0;
        while i < self.tasks.len()
            invariant
                i <= self.tasks@.len(),
                out@.len() == i,
                forall|k: int| 0 <= k < i ==> #[trigger] out@[k]@ == self.tasks@[k]@,
            decreases self.tasks@.len() - i,
        {
            out.push(self.tasks[i].clone());
            i = i + 1;
        }
        assert(out@.map_values(|t: Task| t@) =~= self.tasks@.map_values(|t: Task| t@));
        out
    }

    fn get_one(&self, id: u128) -> (r: TaskRepoResult<Task>) {
        match self.position(id) {
            Some(i) => {
                proof {
                    let rows = self.tasks@.map_values(|t: Task| t@);
                    assert(rows[i as int].task_id == id);
                }
                Ok(self.tasks[i].clone())
            },
            None => Err(TaskRepoError::NoTaskById),
        }
    }

    fn create_one(&mut self, create: CreateTask) -> (r: TaskRepoResult<Task>) {
        let id = new_task_id();
        self.create_with_id(create, id)
    }

    fn update_one(&mut self, id: u128, update: UpdateTask) -> (r: TaskRepoResult<Task>) {
        let i = match self.position(id) {
            Some(i) => i,
            None => {
                return Err(TaskRepoError::NoTaskById);
            },
        };
        let ghost u = update;
        let ghost old_rows = self.tasks@.map_values(|t: Task| t@);
        proof {
            assert(old_rows[i as int].task_id == id);
        }
        let task = update.into_task(id);
        let out = task.clone();
        self.tasks.set(i, task);
        let ghost t = u.applied_to(id);
        self.state = Ghost(Store { table: self.state@.table.insert(id, t), issued: self.state@.issued });
        proof {
            let rows = self.tasks@.map_values(|t: Task| t@);
            assert(rows =~= old_rows.update(i as int, t));
            assert(self.state@.table.dom() =~= old(self).state@.table.dom());
            assert forall|a: int| 0 <= a < rows.len() implies #[trigger] self.state@.table.contains_key(
                rows[a].task_id,
            ) && self.state@.table[rows[a].task_id] == rows[a] by {
                if a != i {
                    assert(rows[a] == old_rows[a]);
                    assert(old_rows[a].task_id != old_rows[i as int].task_id);
                    assert(old(self).state@.table.contains_key(old_rows[a].task_id));
                } else {
                    assert(rows[a] == t);
                }
            }
            assert forall|k: u128| self.state@.table.contains_key(k) implies exists|j: int|
                0 <= j < rows.len() && rows[j].task_id == k by {
                assert(old(self).state@.table.contains_key(k));
                let j = choose|j: int| 0 <= j < old_rows.len() && old_rows[j].task_id == k;
                assert(rows[j].task_id == k);
            }
            assert forall|a: int, b: int| 0 <= a < b < rows.len() implies #[trigger] rows[a].task_id
                != #[trigger] rows[b].task_id by {
                assert(old_rows[a].task_id != old_rows[b].task_id);
            }
        }
        Ok(out)
    }

    fn delete_one(&mut self, id: u128) -> (r: TaskRepoResult<Task>) {
        let i = match self.position(id) {
            Some(i) => i,
            None => {
                return Err(TaskRepoError::NoTaskById);
            },
        };
        let ghost old_rows = self.tasks@.map_values(|t: Task| t@);
        proof {
            assert(old_rows[i as int].task_id == id);
        }
        let out = self.tasks.remove(i);
        self.state = Ghost(Store { table: self.state@.table.remove(id), issued: self.state@.issued });
        proof {
            let rows = self.tasks@.map_values(|t: Task| t@);
            assert(rows =~= old_rows.remove(i as int));
            assert forall|a: int| 0 <= a < rows.len() implies #[trigger] self.state@.table.contains_key(
                rows[a].task_id,
            ) && self.state@.table[rows[a].task_id] == rows[a] by {
                let a2 = if a < i { a } else { a + 1 };
                assert(rows[a] == old_rows[a2]);
                assert(old_rows[a2].task_id != old_rows[i as int].task_id);
                assert(old(self).state@.table.contains_key(old_rows[a2].task_id));
            }
            assert forall|k: u128| self.state@.table.contains_key(k) implies exists|j: int|
                0 <= j < rows.len() && rows[j].task_id == k by {
                assert(old(self).state@.table.contains_key(k));
                let j = choose|j: int| 0 <= j < old_rows.len() && old_rows[j].task_id == k;
                if j < i {
                    assert(rows[j].task_id == k);
                } else {
                    assert(j != i);
                    assert(rows[j - 1].task_id == k);
                }
            }
            assert forall|a: int, b: int| 0 <= a < b < rows.len() implies #[trigger] rows[a].task_id
                != #[trigger] rows[b].task_id by {
                let a2 = if a < i { a } else { a + 1 };
                let b2 = if b < i { b } else { b + 1 };
                assert(rows[a] == old_rows[a2]);
                assert(rows[b] == old_rows[b2]);
            }
        }
        Ok(out)
    }
}

} // verus!
