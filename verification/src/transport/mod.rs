//! Transports.

pub mod sip_addr;
pub mod connection;
pub mod tls;
pub mod transport_layer;
pub mod cert;
pub mod laws;
