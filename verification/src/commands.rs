//! What the commands of the frontend decide before and after they reach the
//! state. The host binds them to its command system.

pub mod task_commands;

use crate::utils::error::{ErrorCode, ErrorInfo, ErrorInfoView};
use crate::utils::text::wrapped;
use vstd::prelude::*;
use vstd::string::*;

verus! {

/// The greeting for a name.
pub fn greet(name: &str) -> (greeting: String)
    ensures
        greeting@ == "Hello, "@ + name@ + "! You've been greeted from Rust!"@,
{
    wrapped("Hello, ", name, "! You've been greeted from Rust!")
}

/// What the frontend is told when a command failed: the code, what failed
/// with the text of the failure after a colon, and what more is said of it.
pub open spec fn failure(
    code: ErrorCode,
    what: Seq<char>,
    error: Seq<char>,
    details: Seq<char>,
) -> ErrorInfoView {
    ErrorInfoView { code, message: what + ": "@ + error, details: Some(details) }
}

/// What the frontend is told when a command failed.
pub fn failure_info(code: ErrorCode, what: &str, error: &str, details: &str) -> (info: ErrorInfo)
    ensures
        info@ == failure(code, what@, error@, details@),
{
    ErrorInfo {
        code,
        message: wrapped(what, ": ", error),
        details: Some(String::from_str(details)),
    }
}

/// The application information could not be got.
pub fn app_info_failed(error: &str) -> (info: ErrorInfo)
    ensures
        info@ == failure(
            ErrorCode::UnknownError,
            "Failed to get app info"@,
            error@,
            "Error getting application information"@,
        ),
{
    failure_info(
        ErrorCode::UnknownError,
        "Failed to get app info",
        error,
        "Error getting application information",
    )
}

/// The GPU could not be set.
pub fn set_gpu_failed(error: &str) -> (info: ErrorInfo)
    ensures
        info@ == failure(
            ErrorCode::UnknownError,
            "Failed to set GPU"@,
            error@,
            "Error setting GPU"@,
        ),
{
    failure_info(ErrorCode::UnknownError, "Failed to set GPU", error, "Error setting GPU")
}

/// The path of the log file could not be got.
pub fn log_file_path_failed(error: &str) -> (info: ErrorInfo)
    ensures
        info@ == failure(
            ErrorCode::FileReadError,
            "Failed to get log file path"@,
            error@,
            "Error accessing log file"@,
        ),
{
    failure_info(
        ErrorCode::FileReadError,
        "Failed to get log file path",
        error,
        "Error accessing log file",
    )
}

/// The log file could not be opened.
pub fn open_log_file_failed(error: &str) -> (info: ErrorInfo)
    ensures
        info@ == failure(
            ErrorCode::FileReadError,
            "Failed to open log file"@,
            error@,
            "Error opening log file"@,
        ),
{
    failure_info(
        ErrorCode::FileReadError,
        "Failed to open log file",
        error,
        "Error opening log file",
    )
}

/// The log directory could not be opened.
pub fn open_log_directory_failed(error: &str) -> (info: ErrorInfo)
    ensures
        info@ == failure(
            ErrorCode::FileReadError,
            "Failed to open log directory"@,
            error@,
            "Error opening log directory"@,
        ),
{
    failure_info(
        ErrorCode::FileReadError,
        "Failed to open log directory",
        error,
        "Error opening log directory",
    )
}

} // verus!
