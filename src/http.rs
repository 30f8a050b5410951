//! How repository outcomes are answered over HTTP: the status code and the
//! message of each error.

use vstd::prelude::*;
use crate::store::TaskRepoError;

verus! {

/// HTTP status of a successful request.
pub const STATUS_OK: u16 = 200;

/// HTTP status `404 Not Found`.
pub const STATUS_NOT_FOUND: u16 = 404;

/// HTTP status `409 Conflict`.
pub const STATUS_CONFLICT: u16 = 409;

/// HTTP status `503 Service Unavailable`.
pub const STATUS_SERVICE_UNAVAILABLE: u16 = 503;

impl TaskRepoError {
    /// Human-readable text of the error.
    pub open spec fn spec_message(self) -> Seq<char> {
        match self {
            TaskRepoError::ExistsById => "task already exists by id"@,
            TaskRepoError::NoTaskById => "no task by id"@,
            TaskRepoError::StoreUnavailable => "task store unavailable"@,
        }
    }

    /// Human-readable text of the error.
    pub fn message(&self) -> (r: String)
        ensures
            r@ == self.spec_message(),
    {
        match self {
            TaskRepoError::ExistsById => String::from_str("task already exists by id"),
            TaskRepoError::NoTaskById => String::from_str("no task by id"),
            TaskRepoError::StoreUnavailable => String::from_str("task store unavailable"),
        }
    }
}

/// Top level error of the service.
#[derive(Clone, Copy, Debug, PartialEq, Eq, Structural)]
pub enum AppError {
    /// Task repository error.
    TaskRepo(TaskRepoError),
}

impl From<TaskRepoError> for AppError {
    fn from(e: TaskRepoError) -> (r: AppError) {
        AppError::TaskRepo(e)
    }
}

impl vstd::std_specs::convert::FromSpecImpl<TaskRepoError> for AppError {
    open spec fn obeys_from_spec() -> bool {
        true
    }

    open spec fn from_spec(e: TaskRepoError) -> AppError {
        AppError::TaskRepo(e)
    }
}

impl AppError {
    /// HTTP status that answers the error.
    pub open spec fn spec_status_code(self) -> u16 {
        match self {
            AppError::TaskRepo(TaskRepoError::ExistsById) => STATUS_CONFLICT,
            AppError::TaskRepo(TaskRepoError::NoTaskById) => STATUS_NOT_FOUND,
            AppError::TaskRepo(TaskRepoError::StoreUnavailable) => STATUS_SERVICE_UNAVAILABLE,
        }
    }

    /// HTTP status that answers the error.
    pub fn status_code(&self) -> (r: u16)
        ensures
            r == self.spec_status_code(),
    {
        match self {
            AppError::TaskRepo(TaskRepoError::ExistsById) => STATUS_CONFLICT,
            AppError::TaskRepo(TaskRepoError::NoTaskById) => STATUS_NOT_FOUND,
            AppError::TaskRepo(TaskRepoError::StoreUnavailable) => STATUS_SERVICE_UNAVAILABLE,
        }
    }

    /// Text of the `error` field of the response body.
    pub fn message(&self) -> (r: String)
        ensures
            match self {
                AppError::TaskRepo(e) => r@ == e.spec_message(),
            },
    {
        match self {
            AppError::TaskRepo(e) => e.message(),
        }
    }
}

} // verus!
