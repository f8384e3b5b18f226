//! Games and the requests that list and create them.

pub mod models;
