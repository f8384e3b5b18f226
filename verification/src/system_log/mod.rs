//! The audit log's vocabulary.

pub mod models;
