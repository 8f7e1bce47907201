//! The task record and its status.

use crate::utils::text::{clone_opt, opt_chars};
use std::collections::HashMap;
use vstd::prelude::*;
use vstd::string::*;

verus! {

/// Progress of a finished task, in hundredths of a percent.
pub const PROGRESS_COMPLETE: u32 = 10_000;

/// Status of a task.
#[derive(Debug, Clone, Copy, PartialEq, Eq, Structural)]
pub enum TaskStatus {
    Pending,
    Running,
    Paused,
    Completed,
    Failed,
    Canceled,
}

impl TaskStatus {
    /// The lower-case name of the status, as a sequence of characters.
    pub open spec fn spec_label(self) -> Seq<char> {
        match self {
            TaskStatus::Pending => "pending"@,
            TaskStatus::Running => "running"@,
            TaskStatus::Paused => "paused"@,
            TaskStatus::Completed => "completed"@,
            TaskStatus::Failed => "failed"@,
            TaskStatus::Canceled => "canceled"@,
        }
    }

    /// A task in a terminal status runs no more unless it is retried.
    pub open spec fn spec_is_terminal(self) -> bool {
        self == TaskStatus::Completed || self == TaskStatus::Failed || self
            == TaskStatus::Canceled
    }

    /// The lower-case name of the status.
    pub fn label(&self) -> (s: String)
        ensures
            s@ == self.spec_label(),
    {
        match self {
            TaskStatus::Pending => String::from_str("pending"),
            TaskStatus::Running => String::from_str("running"),
            TaskStatus::Paused => String::from_str("paused"),
            TaskStatus::Completed => String::from_str("completed"),
            TaskStatus::Failed => String::from_str("failed"),
            TaskStatus::Canceled => String::from_str("canceled"),
        }
    }

    /// Whether the status is Completed, Failed or Canceled.
    #[verifier::when_used_as_spec(spec_is_terminal)]
    pub fn is_terminal(self) -> (b: bool)
        ensures
            b == self.spec_is_terminal(),
    {
        match self {
            TaskStatus::Completed | TaskStatus::Failed | TaskStatus::Canceled => true,
            _ => false,
        }
    }
}

/// A unit of processing work.
///
/// `progress` counts hundredths of a percent, from 0 to `PROGRESS_COMPLETE`.
#[derive(Debug, PartialEq, Eq)]
pub struct Task {
    pub id: String,
    pub input_path: String,
    pub output_path: String,
    pub status: TaskStatus,
    pub progress: u32,
    pub error: Option<String>,
    pub attempts: usize,
    pub created_at: String,
    pub started_at: Option<String>,
    pub completed_at: Option<String>,
    pub task_type: String,
    pub config: HashMap<String, String>,
}

/// What a task holds, with every string read as its characters.
pub struct TaskView {
    pub id: Seq<char>,
    pub input_path: Seq<char>,
    pub output_path: Seq<char>,
    pub status: TaskStatus,
    pub progress: u32,
    pub error: Option<Seq<char>>,
    pub attempts: usize,
    pub created_at: Seq<char>,
    pub started_at: Option<Seq<char>>,
    pub completed_at: Option<Seq<char>>,
    pub task_type: Seq<char>,
    pub config: Map<String, String>,
}

impl View for Task {
    type V = TaskView;

    open spec fn view(&self) -> TaskView {
        TaskView {
            id: self.id@,
            input_path: self.input_path@,
            output_path: self.output_path@,
            status: self.status,
            progress: self.progress,
            error: opt_chars(self.error),
            attempts: self.attempts,
            created_at: self.created_at@,
            started_at: opt_chars(self.started_at),
            completed_at: opt_chars(self.completed_at),
            task_type: self.task_type@,
            config: self.config@,
        }
    }
}

impl Clone for Task {
    fn clone(&self) -> (res: Task)
        ensures
            res@ == self@,
    {
        Task {
            id: self.id.clone(),
            input_path: self.input_path.clone(),
            output_path: self.output_path.clone(),
            status: self.status,
            progress: self.progress,
            error: clone_opt(&self.error),
            attempts: self.attempts,
            created_at: self.created_at.clone(),
            started_at: clone_opt(&self.started_at),
            completed_at: clone_opt(&self.completed_at),
            task_type: self.task_type.clone(),
            config: self.config.clone(),
        }
    }
}

} // verus!
