//! An idempotent financial command handler: account-identifier generation and
//! validation, an idempotent command log, a balance ledger with an overdraft
//! invariant, and the handlers that turn commands into result events.

pub mod account;
pub mod config;
pub mod decode;
pub mod events;
pub mod handlers;
pub mod laws;
pub mod store;
