//! Application state owned by the backend.

pub mod app_state;
pub mod conversion_state;
pub mod errors;
pub mod helpers;
pub mod preferences_state;
pub mod task_manager;
