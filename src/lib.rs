//! A store of tasks: the data model, the repository of tasks with its
//! not-found rules and identity assignment, the reading of what a relational
//! backing store reports, and the mapping of repository errors to HTTP
//! statuses.

pub mod model;
pub mod store;
pub mod repository;
pub mod http;
pub mod laws;
pub mod outcome;
