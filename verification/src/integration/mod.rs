//! The services that call the backend machine to machine.

pub mod models;
