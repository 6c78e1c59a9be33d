//! The decisions of a SIP endpoint: transactions, dialogs and the choice of
//! transports, over plain values.

pub mod dialog;
pub mod error;
pub mod lists;
pub mod maps;
pub mod sip;
pub mod text;
pub mod transaction;
pub mod transport;
