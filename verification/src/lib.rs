//! An interactive wallet shell: a numbered menu dispatching to a language
//! feature walkthrough and to a ledger wallet query flow (balance, latest
//! block reference, recent transaction signatures), with the decisions,
//! formatting and rendering verified.

pub mod balance;
pub mod demo;
pub mod digits;
pub mod flow;
pub mod history;
pub mod keystore;
pub mod shell;
pub mod text;
