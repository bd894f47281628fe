//! Escrow: a ledger that holds media found at a source for a fixed time,
//! discards it once the source has shown it present until the deadline, and
//! keeps it when the source loses it.

pub mod adapter;
pub mod asset;
pub mod config;
pub mod content;
pub mod custody;
pub mod decimal;
pub mod disk;
pub mod engine;
pub mod handover;
pub mod hold;
pub mod intake;
pub mod item;
pub mod ledger;
pub mod listing;
pub mod liveness;
pub mod order;
pub mod paths;
pub mod pipeline;
pub mod round;
pub mod screen;
pub mod source;
pub mod state;
pub mod store;
pub mod text;
pub mod timestamp;
pub mod url;
