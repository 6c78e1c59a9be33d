//! Dialogs.

pub mod dialog;
pub mod id;
pub mod requests;
pub mod prack;
pub mod responses;
pub mod exchange;
pub mod snapshot;
pub mod refer;
pub mod invite_dialog;
pub mod inviting;
pub mod handling;
pub mod laws;
pub mod invitation;
pub mod abandoning;
pub mod kinds;
pub mod message_laws;
pub mod invite_laws;
pub mod answer_laws;
pub mod call_laws;
pub mod outcome_laws;
