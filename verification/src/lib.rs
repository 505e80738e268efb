//! A user directory served over HTTP: the user record, the partial update
//! of its mutable fields, the contents of the collection that holds the
//! records, and the answer that each route gives for each storage outcome.

pub mod bootstrap;
pub mod collection;
pub mod document;
pub mod json;
pub mod laws;
pub mod patch;
pub mod routes;
pub mod storage;
pub mod user;
