//! Request, response and token payloads.
pub mod auth;
