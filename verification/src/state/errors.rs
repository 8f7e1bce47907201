//! Errors of state management.

use crate::utils::error::{IoFailure, IoFailureView};
use crate::utils::text::{decimal, decimal_text, prefixed, wrapped};
use vstd::prelude::*;
use vstd::string::*;

verus! {

/// Domain-specific error types for state management. Ids are held as their
/// text.
#[derive(Debug, PartialEq, Eq)]
pub enum StateError {
    TaskNotFound(String),
    FileNotFound(String),
    InvalidGpuIndex(i32),
    EmitError(String),
    SerializationError(String),
    DeserializationError(String),
    Io(IoFailure),
    Tauri(String),
    Other(String),
}

/// Result with a `StateError`.
pub type StateResult<T> = Result<T, StateError>;

/// A `StateError` with its strings read as characters.
pub enum StateErrorView {
    TaskNotFound(Seq<char>),
    FileNotFound(Seq<char>),
    InvalidGpuIndex(i32),
    EmitError(Seq<char>),
    SerializationError(Seq<char>),
    DeserializationError(Seq<char>),
    Io(IoFailureView),
    Tauri(Seq<char>),
    Other(Seq<char>),
}

impl StateErrorView {
    /// The text shown for the error.
    pub open spec fn message(self) -> Seq<char> {
        match self {
            StateErrorView::TaskNotFound(id) => "Task "@ + id + " not found"@,
            StateErrorView::FileNotFound(id) => "File "@ + id + " not found"@,
            StateErrorView::InvalidGpuIndex(index) => "Invalid GPU index "@ + decimal_text(
                index as int,
            ),
            StateErrorView::EmitError(msg) => "Failed to emit state change event: "@ + msg,
            StateErrorView::SerializationError(msg) => "Failed to serialize state: "@ + msg,
            StateErrorView::DeserializationError(msg) => "Failed to deserialize state: "@ + msg,
            StateErrorView::Io(failure) => "IO error: "@ + failure.message,
            StateErrorView::Tauri(msg) => "Tauri error: "@ + msg,
            StateErrorView::Other(msg) => msg,
        }
    }
}

impl View for StateError {
    type V = StateErrorView;

    open spec fn view(&self) -> StateErrorView {
        match self {
            StateError::TaskNotFound(id) => StateErrorView::TaskNotFound(id@),
            StateError::FileNotFound(id) => StateErrorView::FileNotFound(id@),
            StateError::InvalidGpuIndex(index) => StateErrorView::InvalidGpuIndex(*index),
            StateError::EmitError(msg) => StateErrorView::EmitError(msg@),
            StateError::SerializationError(msg) => StateErrorView::SerializationError(msg@),
            StateError::DeserializationError(msg) => StateErrorView::DeserializationError(msg@),
            StateError::Io(failure) => StateErrorView::Io(failure@),
            StateError::Tauri(msg) => StateErrorView::Tauri(msg@),
            StateError::Other(msg) => StateErrorView::Other(msg@),
        }
    }
}

impl StateError {
    pub fn task_not_found(id: String) -> (e: StateError)
        ensures
            e@ == StateErrorView::TaskNotFound(id@),
    {
        StateError::TaskNotFound(id)
    }

    pub fn file_not_found(id: String) -> (e: StateError)
        ensures
            e@ == StateErrorView::FileNotFound(id@),
    {
        StateError::FileNotFound(id)
    }

    pub fn invalid_gpu_index(index: i32) -> (e: StateError)
        ensures
            e@ == StateErrorView::InvalidGpuIndex(index),
    {
        StateError::InvalidGpuIndex(index)
    }

    /// An `EmitError` with the text of what went wrong.
    pub fn emit_error(err: String) -> (e: StateError)
        ensures
            e@ == StateErrorView::EmitError(err@),
    {
        StateError::EmitError(err)
    }

    pub fn other(msg: String) -> (e: StateError)
        ensures
            e@ == StateErrorView::Other(msg@),
    {
        StateError::Other(msg)
    }

    /// The text shown for the error.
    pub fn message(&self) -> (s: String)
        ensures
            s@ == self@.message(),
    {
        match self {
            StateError::TaskNotFound(id) => wrapped("Task ", id.as_str(), " not found"),
            StateError::FileNotFound(id) => wrapped("File ", id.as_str(), " not found"),
            StateError::InvalidGpuIndex(index) => {
                let number = decimal(*index);
                prefixed("Invalid GPU index ", number.as_str())
            },
            StateError::EmitError(msg) => prefixed(
                "Failed to emit state change event: ",
                msg.as_str(),
            ),
            StateError::SerializationError(msg) => prefixed(
                "Failed to serialize state: ",
                msg.as_str(),
            ),
            StateError::DeserializationError(msg) => prefixed(
                "Failed to deserialize state: ",
                msg.as_str(),
            ),
            StateError::Io(failure) => prefixed("IO error: ", failure.message.as_str()),
            StateError::Tauri(msg) => prefixed("Tauri error: ", msg.as_str()),
            StateError::Other(msg) => msg.clone(),
        }
    }
}

} // verus!
