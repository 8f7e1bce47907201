//! The task queue and scheduler.
//!
//! `TaskManager` keeps the task list, the queue of pending task ids, the
//! concurrency limit and the pause flag. Its commands are total: each one
//! either applies a transition or reports why it did not, and says which
//! events follow.

pub mod errors;
pub mod events;
pub mod laws;
pub mod lemmas;
pub mod manager;
pub mod model;
pub mod processor;
pub mod snapshot;
mod stamps;
pub mod task;

pub use errors::{TaskError, TaskErrorView, TaskResult};
pub use events::{HostAction, HostActionView, TaskEvent, TaskEventView};
pub use manager::TaskManager;
pub use model::{SchedulerState, Transition};
pub use processor::TaskKind;
pub use snapshot::{StoredState, StoredStateView};

pub use task::{Task, TaskStatus, TaskView, PROGRESS_COMPLETE};
