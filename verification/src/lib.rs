//! Telemetry ingestion and API-credential management, stated as verified
//! decisions over plain values.
//!
//! Every exchange with the key-value store is a [`store::StoreCommand`] handed
//! out and a [`store::StoreReply`] handed back: the functions here decide what
//! to ask and what each answer means; the caller performs the commands.

pub mod auth;
pub mod config;
pub mod consts;
pub mod error_utils;
pub mod guarantees;
pub mod routes;
pub mod sensor;
pub mod status;
pub mod store;
pub mod text;
pub mod wire;
