//! Relay of console commands to one connected vehicle over a compact binary
//! protocol: the wire codec, the command grammar, the single-slot connection
//! registry, the per-connection heartbeat state machine and the dispatch
//! decisions.

pub mod error;
pub mod events;
pub mod command;
pub mod registry;
pub mod connection;
pub mod dispatch;
