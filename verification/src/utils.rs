//! Helpers shared by the state and service modules.

pub mod app_info;
pub mod conversions;
pub mod error;
pub mod error_handler;
pub mod event_emitter;
pub mod gpu_detector;
pub mod logger;
pub mod parse;
pub mod store_helper;
pub mod text;
