//! Join-key vault for a party-game backend, with the plain data models that
//! travel around it.
//!
//! The vault hands out short two-word join codes drawn from two fixed
//! vocabularies, never issues a code twice while it is active, reports
//! exhaustion and expires codes that were never released.

pub mod auth;
pub mod client;
pub mod common;
pub mod config;
pub mod game;
pub mod integration;
pub mod key_vault;
pub mod system_log;
