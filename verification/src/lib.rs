//! Task queue and scheduler for a desktop video toolkit, together with the
//! error and event vocabulary the host application shares with it.
//!
//! The scheduler is a plain state machine: every command takes the current
//! state and returns the events the host has to publish. The host owns the
//! lock around the state, the persistent store, the event sink and the
//! execution engine.

pub mod commands;
pub mod preset_manager;
pub mod services;
pub mod state;
pub mod utils;
