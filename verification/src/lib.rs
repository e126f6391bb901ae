//! A store directory service: the records, the table that keeps them, and the
//! handlers that turn a request and the table's answer into an HTTP response.
//!
//! Every rule of the service lives here and is proved against its contract.
//! Transport and the database driver stay outside; they hand this crate plain
//! values and take plain values back.

pub mod model;
pub mod repository;
pub mod handler;
pub mod laws;
