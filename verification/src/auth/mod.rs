//! Credentials: how they are made, and how a request is held against them.

pub mod api_key;

pub use api_key::bootstrap_admin_key;
pub use api_key::generate_api_key;
pub use api_key::validate_admin_api_key;
pub use api_key::validate_api_key;
