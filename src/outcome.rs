//! Decisions on what a relational backing store reported: a statement that
//! touches one row by identifier either gives that row back, finds none, or
//! fails.

use vstd::prelude::*;
use crate::model::Task;
use crate::repository::TaskRepoResult;
use crate::store::{result_view, TaskRepoError};

verus! {

/// Why a statement against the backing store failed.
#[derive(Clone, Copy, Debug, PartialEq, Eq, Structural)]
pub enum StoreFailure {
    /// A row with the same identifier already exists.
    UniqueViolation,
    /// Any other failure: connectivity, malformed rows, other constraints.
    Unavailable,
}

impl StoreFailure {
    /// Repository error that a store failure stands for.
    pub open spec fn spec_error(self) -> TaskRepoError {
        match self {
            StoreFailure::UniqueViolation => TaskRepoError::ExistsById,
            StoreFailure::Unavailable => TaskRepoError::StoreUnavailable,
        }
    }

    /// Repository error that a store failure stands for.
    pub fn error(self) -> (r: TaskRepoError)
        ensures
            r == self.spec_error(),
    {
        match self {
            StoreFailure::UniqueViolation => TaskRepoError::ExistsById,
            StoreFailure::Unavailable => TaskRepoError::StoreUnavailable,
        }
    }
}

/// Result of an operation on the row by an identifier, from what the store
/// reported: the row where there was one, `NoTaskById` where the statement
/// matched no row (an update or delete that affected nothing must not look
/// like a success), the failure's error otherwise.
pub fn row_result(outcome: Result<Option<Task>, StoreFailure>) -> (r: TaskRepoResult<Task>)
    ensures
        match outcome {
            Ok(Some(t)) => result_view(r) == Ok::<_, TaskRepoError>(t@),
            Ok(None) => r == Err::<Task, _>(TaskRepoError::NoTaskById),
            Err(f) => r == Err::<Task, _>(f.spec_error()),
        },
{
    match outcome {
        Ok(Some(t)) => Ok(t),
        Ok(None) => Err(TaskRepoError::NoTaskById),
        Err(f) => Err(f.error()),
    }
}

/// Result of reading every row, from what the store reported.
pub fn rows_result(outcome: Result<Vec<Task>, StoreFailure>) -> (r: TaskRepoResult<Vec<Task>>)
    ensures
        match outcome {
            Ok(rows) => r matches Ok(v) && v@ == rows@,
            Err(f) => r == Err::<Vec<Task>, _>(f.spec_error()),
        },
{
    match outcome {
        Ok(rows) => Ok(rows),
        Err(f) => Err(f.error()),
    }
}

} // verus!
