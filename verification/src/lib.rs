//! Verified core of the Stellar tip-jar backend.
pub mod config;
pub mod cqrs;
pub mod db;
pub mod events;
pub mod identity;
pub mod keyed;
pub mod models;
pub mod services;
pub mod text;
pub mod time;
