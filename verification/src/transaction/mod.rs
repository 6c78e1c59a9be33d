//! Transactions and the endpoint that holds them.

pub mod ids;
pub mod key;
pub mod timer;
pub mod message;
pub mod endpoint;
pub mod transaction;
pub mod laws;
pub mod client_laws;
pub mod server_laws;
pub mod endpoint_laws;
pub mod builder;
