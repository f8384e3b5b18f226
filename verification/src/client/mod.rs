//! Addresses of the game-session service.

pub mod gamesession_client;
pub mod gs_client;
