//! What each endpoint decides.

pub mod apikeys;
pub mod health;
pub mod ingest;
