//! Laws that relate the repository operations to one another, stated over
//! the abstract store that each operation's contract speaks of.

use vstd::prelude::*;
use crate::model::{CreateTask, TaskCompletionState, TaskView, UpdateTask};
use crate::store::{Store, TaskRepoError};

verus! {

/// Every operation keeps the store's invariant.
pub proof fn lemma_operations_keep_inv(s: Store, c: CreateTask, u: UpdateTask, id: u128)
    requires
        s.inv(),
    ensures
        s.create(c, id).0.inv(),
        s.update(id, u).0.inv(),
        s.delete(id).0.inv(),
{
}

/// Creating a task and then reading it by the identifier it was given
/// yields the created task: not completed, under an identifier that was
/// never issued before.
pub proof fn lemma_create_then_get(s: Store, c: CreateTask, id: u128)
    requires
        s.inv(),
        s.create(c, id).1 is Ok,
    ensures
        !s.issued.contains(id),
        !s.table.contains_key(id),
        s.create(c, id).0.issued == s.issued.insert(id),
        s.create(c, id).1 == Ok::<TaskView, TaskRepoError>(c.created_with(id)),
        s.create(c, id).1->Ok_0.completion == TaskCompletionState::NotCompleted,
        s.create(c, id).0.lookup(id) == s.create(c, id).1,
{
}

/// Reading or deleting by an identifier that was never issued fails with
/// `NoTaskById` and changes nothing.
pub proof fn lemma_unissued_read_fails(s: Store, id: u128)
    requires
        s.inv(),
        !s.issued.contains(id),
    ensures
        s.lookup(id) == Err::<TaskView, TaskRepoError>(TaskRepoError::NoTaskById),
        s.delete(id) == (s, Err::<TaskView, TaskRepoError>(TaskRepoError::NoTaskById)),
{
}

/// Updating by an identifier that was never issued fails with `NoTaskById`
/// and leaves the store as it was.
pub proof fn lemma_unissued_update_fails(s: Store, id: u128, u: UpdateTask)
    requires
        s.inv(),
        !s.issued.contains(id),
    ensures
        s.update(id, u) == (s, Err::<TaskView, TaskRepoError>(TaskRepoError::NoTaskById)),
{
}

/// After a successful update, reading by the same identifier yields the
/// update's fields under the unchanged identifier.
pub proof fn lemma_update_then_get(s: Store, id: u128, u: UpdateTask)
    requires
        s.inv(),
        s.update(id, u).1 is Ok,
    ensures
        s.update(id, u).0.lookup(id) == Ok::<TaskView, TaskRepoError>(u.applied_to(id)),
        s.update(id, u).0.lookup(id)->Ok_0.task_id == s.lookup(id)->Ok_0.task_id,
        s.update(id, u).0.lookup(id)->Ok_0.blog_id == u.blog_id,
        s.update(id, u).0.lookup(id)->Ok_0.name == u.name@,
        s.update(id, u).0.lookup(id)->Ok_0.deadline == u.deadline,
        s.update(id, u).0.lookup(id)->Ok_0.completion == u.completion,
{
}

/// After a successful delete, reading by the same identifier fails with
/// `NoTaskById`, and the delete gave back the task as it was before.
pub proof fn lemma_delete_then_get(s: Store, id: u128)
    requires
        s.inv(),
        s.delete(id).1 is Ok,
    ensures
        s.delete(id).0.lookup(id) == Err::<TaskView, TaskRepoError>(TaskRepoError::NoTaskById),
        s.delete(id).1 == s.lookup(id),
{
}

/// No operation takes an identifier out of the issued set: once issued, an
/// identifier stays issued whatever runs after.
pub proof fn lemma_issued_only_grows(s: Store, c: CreateTask, u: UpdateTask, id: u128, x: u128)
    ensures
        s.create(c, x).0.issued.subset_of(s.issued.insert(x)),
        s.issued.subset_of(s.create(c, x).0.issued),
        s.update(id, u).0.issued == s.issued,
        s.delete(id).0.issued == s.issued,
{
}

/// A successful create never hands out an identifier that was issued
/// before, whatever operations ran in between: with
/// [`lemma_issued_only_grows`], identifiers of earlier creates, deleted or
/// not, are never given again.
pub proof fn lemma_create_avoids_issued(s: Store, c: CreateTask, x: u128, earlier: u128)
    requires
        s.issued.contains(earlier),
        s.create(c, x).1 is Ok,
    ensures
        s.create(c, x).1->Ok_0.task_id != earlier,
        s.create(c, x).0.issued.contains(earlier),
        s.create(c, x).0.issued.contains(x),
{
}

/// An identifier that was issued and whose task is gone stays absent
/// whatever operation runs next, so reads of it keep failing with
/// `NoTaskById` after any number of later calls.
pub proof fn lemma_retired_id_stays_absent(
    s: Store,
    id: u128,
    c: CreateTask,
    u: UpdateTask,
    x: u128,
    y: u128,
)
    requires
        s.inv(),
        s.issued.contains(id),
        !s.table.contains_key(id),
    ensures
        s.lookup(id) == Err::<TaskView, TaskRepoError>(TaskRepoError::NoTaskById),
        s.create(c, x).0.issued.contains(id),
        !s.create(c, x).0.table.contains_key(id),
        s.update(y, u).0.issued.contains(id),
        !s.update(y, u).0.table.contains_key(id),
        s.delete(y).0.issued.contains(id),
        !s.delete(y).0.table.contains_key(id),
{
}

/// After a successful delete the identifier is retired: issued, and absent
/// from the store.
pub proof fn lemma_delete_retires(s: Store, id: u128)
    requires
        s.inv(),
        s.delete(id).1 is Ok,
    ensures
        s.delete(id).0.issued.contains(id),
        !s.delete(id).0.table.contains_key(id),
{
}

/// Runs one create per input in turn, the `k`-th under the identifier
/// `ids[k]`; gives the final store and each create's result.
pub open spec fn create_each(s: Store, cs: Seq<CreateTask>, ids: Seq<u128>) -> (Store, Seq<
    Result<TaskView, TaskRepoError>,
>)
    decreases cs.len(),
{
    if cs.len() == 0 || ids.len() == 0 {
        (s, Seq::empty())
    } else {
        let (s1, r) = s.create(cs[0], ids[0]);
        let (s2, rs) = create_each(s1, cs.drop_first(), ids.drop_first());
        (s2, seq![r] + rs)
    }
}

/// Sequential creates give pairwise distinct identifiers to the tasks they
/// create, none of them issued before, all of them issued after.
pub proof fn lemma_created_ids_distinct(s: Store, cs: Seq<CreateTask>, ids: Seq<u128>)
    requires
        s.inv(),
    ensures
        ({
            let (s2, rs) = create_each(s, cs, ids);
            &&& s2.inv()
            &&& s.issued.subset_of(s2.issued)
            &&& forall|k: int|
                0 <= k < rs.len() && #[trigger] rs[k] is Ok ==> !s.issued.contains(
                    rs[k]->Ok_0.task_id,
                ) && s2.issued.contains(rs[k]->Ok_0.task_id)
            &&& forall|a: int, b: int|
                0 <= a < b < rs.len() && #[trigger] rs[a] is Ok && #[trigger] rs[b] is Ok
                    ==> rs[a]->Ok_0.task_id != rs[b]->Ok_0.task_id
        }),
    decreases cs.len(),
{
    if cs.len() == 0 || ids.len() == 0 {
    } else {
        let (s1, r) = s.create(cs[0], ids[0]);
        lemma_created_ids_distinct(s1, cs.drop_first(), ids.drop_first());
        let (s2, rs1) = create_each(s1, cs.drop_first(), ids.drop_first());
        let rs = seq![r] + rs1;
        assert(create_each(s, cs, ids) == (s2, rs));
        assert forall|k: int|
            0 <= k < rs.len() && #[trigger] rs[k] is Ok implies !s.issued.contains(
                rs[k]->Ok_0.task_id,
            ) && s2.issued.contains(rs[k]->Ok_0.task_id) by {
            if k > 0 {
                assert(rs[k] == rs1[k - 1]);
            }
        }
        assert forall|a: int, b: int|
            0 <= a < b < rs.len() && #[trigger] rs[a] is Ok && #[trigger] rs[b] is Ok implies rs[a]->Ok_0.task_id
                != rs[b]->Ok_0.task_id by {
            assert(rs[b] == rs1[b - 1]);
            if a == 0 {
                assert(s1.issued.contains(rs[a]->Ok_0.task_id));
            } else {
                assert(rs[a] == rs1[a - 1]);
            }
        }
    }
}

} // verus!
