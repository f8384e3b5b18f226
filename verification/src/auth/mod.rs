//! Who is calling: token claims, permissions and user records.

pub mod models;
