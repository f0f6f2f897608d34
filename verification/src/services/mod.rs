//! Authentication and tip validation rules.
pub mod auth_service;
pub mod validation_service;
