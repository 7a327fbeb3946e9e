//! Clipboard synchronisation core: wire codecs, peer discovery and pairing
//! rules, the clipboard monitor and applier decisions, and the supervisor's
//! state machine, each with a machine-checked contract.

pub mod clipboard;
pub mod config;
pub mod connection;
pub mod events;
pub mod json;
pub mod lan;
pub mod messages;
pub mod server;
pub mod state;
pub mod supervisor;
pub mod text;
pub mod theme;
