//! Normalises chat exports from Telegram, WhatsApp, Instagram and Discord
//! into one message model, merges same-sender bursts, and renders the result
//! as CSV, JSON or JSONL.
pub mod message;
pub mod merge;
pub mod error;
pub mod selector;
pub mod output;
pub mod json;
pub mod pipeline;

pub use pipeline::{convert, version};
