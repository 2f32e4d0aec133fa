//! The fixed texts of the service: variable names and defaults, store
//! command words, route paths, and messages.

pub mod env;
pub mod errors;
pub mod health;
pub mod messages;
pub mod redis;
pub mod routes;
