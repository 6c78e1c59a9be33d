//! The parts of a SIP message.

pub mod basic;
pub mod status;
pub mod uri;
pub mod header;
pub mod session_id;
pub mod message;
pub mod laws;
