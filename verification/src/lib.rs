//! Risk triage for blockchain transactions.
//!
//! A request names a chain and a transaction. The fetcher brings the
//! transaction into one common shape; the analyzer classifies it, scores it
//! and explains the result. Both are plain functions of their arguments, so
//! any number of requests may be served side by side.

pub mod models;
pub mod routes;
pub mod services;
pub mod text;
