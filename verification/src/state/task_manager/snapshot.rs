//! What the persistent store keeps of the scheduler.

use super::task::{Task, TaskView};
use vstd::prelude::*;

verus! {

/// The four values kept in the store, under the keys `tasks`, `queue`,
/// `max_concurrent_tasks` and `is_queue_paused`. A key that the store does
/// not hold is `None`.
#[derive(Debug, PartialEq, Eq)]
pub struct StoredState {
    pub tasks: Option<Vec<Task>>,
    pub queue: Option<Vec<String>>,
    pub max_concurrent_tasks: Option<usize>,
    pub is_queue_paused: Option<bool>,
}

/// A `StoredState` with its strings read as characters.
pub struct StoredStateView {
    pub tasks: Option<Seq<TaskView>>,
    pub queue: Option<Seq<Seq<char>>>,
    pub max_concurrent_tasks: Option<usize>,
    pub is_queue_paused: Option<bool>,
}

impl View for StoredState {
    type V = StoredStateView;

    open spec fn view(&self) -> StoredStateView {
        StoredStateView {
            tasks: match self.tasks {
                Some(tasks) => Some(tasks@.map_values(|t: Task| t@)),
                None => None,
            },
            queue: match self.queue {
                Some(queue) => Some(queue@.map_values(|s: String| s@)),
                None => None,
            },
            max_concurrent_tasks: self.max_concurrent_tasks,
            is_queue_paused: self.is_queue_paused,
        }
    }
}

} // verus!
