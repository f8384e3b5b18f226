//! What several parts of the backend share.

pub mod models;
