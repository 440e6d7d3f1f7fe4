//! Wallet-ledger core: extracts hashtag-style transaction fields from chat
//! messages, maintains per-wallet running balances with at-most-once message
//! application, and records an append-only transaction log.

pub mod calculator;
pub mod clock;
pub mod error;
pub mod grammar;
pub mod handler;
pub mod laws;
pub mod ledger;
pub mod models;
pub mod numfmt;
pub mod parser;
pub mod settings;
pub mod text;
pub mod utils;
