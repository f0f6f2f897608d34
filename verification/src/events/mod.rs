//! Domain events and their replay.
pub mod replay;
pub mod types;
