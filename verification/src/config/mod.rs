//! Application secrets: where they are looked up and how they resolve.
pub mod secrets;
