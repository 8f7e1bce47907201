//! Errors of the task manager.

use crate::utils::text::{prefixed, wrapped};
use vstd::prelude::*;
use vstd::string::*;

verus! {

/// Error types specific to task management.
#[derive(Debug, PartialEq, Eq)]
pub enum TaskError {
    /// No task has the given id.
    TaskNotFound(String),
    /// A transition was asked for from a status that does not allow it.
    InvalidStatus(String),
    /// The execution engine reported a failure.
    ProcessingFailed(String),
    /// The task type is outside the supported set.
    UnsupportedTaskType(String),
    /// The persistent store could not be written.
    StoreSaveError(String),
    /// The persistent store could not be read.
    StoreLoadError(String),
    /// A waiting operation saw the task canceled.
    Canceled,
    /// Anything else.
    Other(String),
}

/// Result with a `TaskError`.
pub type TaskResult<T> = Result<T, TaskError>;

/// A `TaskError` with its text read as characters.
pub enum TaskErrorView {
    TaskNotFound(Seq<char>),
    InvalidStatus(Seq<char>),
    ProcessingFailed(Seq<char>),
    UnsupportedTaskType(Seq<char>),
    StoreSaveError(Seq<char>),
    StoreLoadError(Seq<char>),
    Canceled,
    Other(Seq<char>),
}

impl TaskErrorView {
    /// The text shown for the error.
    pub open spec fn message(self) -> Seq<char> {
        match self {
            TaskErrorView::TaskNotFound(id) => "Task "@ + id + " not found"@,
            TaskErrorView::InvalidStatus(msg) => "Invalid task status: "@ + msg,
            TaskErrorView::ProcessingFailed(msg) => "Task processing failed: "@ + msg,
            TaskErrorView::UnsupportedTaskType(kind) => "Unsupported task type: "@ + kind,
            TaskErrorView::StoreSaveError(msg) => "Failed to save task state: "@ + msg,
            TaskErrorView::StoreLoadError(msg) => "Failed to load task state: "@ + msg,
            TaskErrorView::Canceled => "Task was canceled"@,
            TaskErrorView::Other(msg) => msg,
        }
    }
}

impl View for TaskError {
    type V = TaskErrorView;

    open spec fn view(&self) -> TaskErrorView {
        match self {
            TaskError::TaskNotFound(id) => TaskErrorView::TaskNotFound(id@),
            TaskError::InvalidStatus(msg) => TaskErrorView::InvalidStatus(msg@),
            TaskError::ProcessingFailed(msg) => TaskErrorView::ProcessingFailed(msg@),
            TaskError::UnsupportedTaskType(kind) => TaskErrorView::UnsupportedTaskType(kind@),
            TaskError::StoreSaveError(msg) => TaskErrorView::StoreSaveError(msg@),
            TaskError::StoreLoadError(msg) => TaskErrorView::StoreLoadError(msg@),
            TaskError::Canceled => TaskErrorView::Canceled,
            TaskError::Other(msg) => TaskErrorView::Other(msg@),
        }
    }
}

impl TaskError {
    /// The text shown for the error.
    pub fn message(&self) -> (s: String)
        ensures
            s@ == self@.message(),
    {
        match self {
            TaskError::TaskNotFound(id) => wrapped("Task ", id.as_str(), " not found"),
            TaskError::InvalidStatus(msg) => prefixed("Invalid task status: ", msg.as_str()),
            TaskError::ProcessingFailed(msg) => prefixed(
                "Task processing failed: ",
                msg.as_str(),
            ),
            TaskError::UnsupportedTaskType(kind) => prefixed(
                "Unsupported task type: ",
                kind.as_str(),
            ),
            TaskError::StoreSaveError(msg) => prefixed(
                "Failed to save task state: ",
                msg.as_str(),
            ),
            TaskError::StoreLoadError(msg) => prefixed(
                "Failed to load task state: ",
                msg.as_str(),
            ),
            TaskError::Canceled => String::from_str("Task was canceled"),
            TaskError::Other(msg) => msg.clone(),
        }
    }
}

} // verus!
