pub mod event;
pub mod handler;
pub mod handler_laws;
pub mod hex;
pub mod json;
pub mod key;
pub mod nostr_event;
pub mod number;
pub mod payment;
pub mod primal;
pub mod primal_laws;
pub mod record;
pub mod record_laws;
pub mod transaction;
