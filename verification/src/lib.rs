//! Verified core of the AIU desktop frontend: the JSONL protocol model, the
//! backend session rules, bounded line framing and the panel's decisions.

pub mod intents;
pub mod keys;
pub mod laws;
pub mod panel;
pub mod protocol;
pub mod reader;
pub mod session;
pub mod text;
pub mod tray;
pub mod view;

pub use vstd::hash_map::StringHashMap;
