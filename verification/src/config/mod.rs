//! The settings of the backend.

pub mod config;
