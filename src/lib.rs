//! A verified core for a desktop auto-clicker: the engine's configuration
//! and state, the click-cycle state machine, and the decisions behind
//! position picking and hotkey capture.

pub mod config;
pub mod state;
pub mod engine;
pub mod pointer;
pub mod hotkey;
