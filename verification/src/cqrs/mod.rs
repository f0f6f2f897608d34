//! Command and query intents, and the read-model projection.
pub mod commands;
pub mod projections;
