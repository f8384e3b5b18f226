//! The join-key vault: vocabularies, the registry of active keys, allocation,
//! release and reclamation.

pub mod audit;
pub mod code;
pub mod error;
pub mod laws;
pub mod model;
pub mod models;
pub mod registry;
pub mod rng;
pub mod vault;
pub mod words;
