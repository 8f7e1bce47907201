//! What is made of the answers of the store. Reading and writing the store
//! is the host's part.

use crate::utils::error::{AppError, AppErrorView, AppResult, ErrorCode};
use crate::utils::parse::{contains, contains_text};
use crate::utils::text::prefixed;
use vstd::prelude::*;
use vstd::string::*;

verus! {

/// The store that keeps the tasks.
pub const TASKS_STORE_PATH: &'static str = "tasks.json";

/// The store that keeps the configuration.
pub const CONFIG_STORE_PATH: &'static str = "config.json";

/// The store that keeps the presets.
pub const PRESETS_STORE_PATH: &'static str = "presets.json";

/// An error of the state with the given text, code and context.
pub open spec fn state_error(
    message: Seq<char>,
    code: ErrorCode,
    context: Seq<char>,
) -> AppErrorView {
    AppErrorView::StateError { message, code, context: Some(context) }
}

/// The error for a store that cannot be opened.
pub fn store_unavailable(path: &str, error: &str) -> (e: AppError)
    ensures
        e@ == state_error(
            "Failed to get store: "@ + error@,
            ErrorCode::StateAccessError,
            "Error accessing store file: "@ + path@,
        ),
{
    AppError::state_error(
        prefixed("Failed to get store: ", error),
        ErrorCode::StateAccessError,
        Some(prefixed("Error accessing store file: ", path)),
    )
}

/// `start`, the key, `middle`, the path and a closing quote.
fn about_key(start: &str, key: &str, middle: &str, path: &str) -> (s: String)
    ensures
        s@ == start@ + key@ + middle@ + path@ + "'"@,
{
    let mut s = String::from_str(start);
    s.append(key);
    s.append(middle);
    s.append(path);
    s.append("'");
    s
}

/// The error for a stored value that cannot be read as what it should be.
pub fn value_unreadable(path: &str, key: &str, error: &str) -> (e: AppError)
    ensures
        e@ == state_error(
            "Failed to deserialize value: "@ + error@,
            ErrorCode::StateSerializationError,
            "Error deserializing data for key '"@ + key@ + "' in store '"@ + path@ + "'"@,
        ),
{
    AppError::state_error(
        prefixed("Failed to deserialize value: ", error),
        ErrorCode::StateSerializationError,
        Some(about_key("Error deserializing data for key '", key, "' in store '", path)),
    )
}

/// The error for a value that cannot be written as JSON.
pub fn value_unwritable(path: &str, key: &str, error: &str) -> (e: AppError)
    ensures
        e@ == state_error(
            "Failed to serialize value: "@ + error@,
            ErrorCode::StateSerializationError,
            "Error serializing data for key '"@ + key@ + "' in store '"@ + path@ + "'"@,
        ),
{
    AppError::state_error(
        prefixed("Failed to serialize value: ", error),
        ErrorCode::StateSerializationError,
        Some(about_key("Error serializing data for key '", key, "' in store '", path)),
    )
}

/// The error for a store that cannot be saved.
pub fn save_failed(path: &str, error: &str) -> (e: AppError)
    ensures
        e@ == state_error(
            "Failed to save store: "@ + error@,
            ErrorCode::StateSerializationError,
            "Error saving store file: "@ + path@,
        ),
{
    AppError::state_error(
        prefixed("Failed to save store: ", error),
        ErrorCode::StateSerializationError,
        Some(prefixed("Error saving store file: ", path)),
    )
}

/// The error for a key that is to be deleted and is not there.
pub fn key_missing(path: &str, key: &str) -> (e: AppError)
    ensures
        e@ == state_error(
            "Failed to delete key: Key not found"@,
            ErrorCode::StateMutationError,
            "Key '"@ + key@ + "' not found in store '"@ + path@ + "'"@,
        ),
{
    AppError::state_error(
        String::from_str("Failed to delete key: Key not found"),
        ErrorCode::StateMutationError,
        Some(about_key("Key '", key, "' not found in store '", path)),
    )
}

/// Whether a store exists, from the attempt to open it: `None` where it
/// opened, the text of the failure where it did not. A failure that says
/// `No such file` means that the store does not exist; any other failure
/// is an error.
pub fn store_exists(path: &str, failure: Option<&str>) -> (r: AppResult<bool>)
    ensures
        failure is None ==> r == Ok::<bool, AppError>(true),
        failure is Some && contains_text(failure->0@, "No such file"@) ==> r == Ok::<
            bool,
            AppError,
        >(false),
        failure is Some && !contains_text(failure->0@, "No such file"@) ==> r is Err
            && r->Err_0@ == state_error(
            "Failed to check if store exists: "@ + failure->0@,
            ErrorCode::StateAccessError,
            "Error checking store file: "@ + path@,
        ),
{
    match failure {
        None => Ok(true),
        Some(error) => {
            if contains(error, "No such file") {
                Ok(false)
            } else {
                Err(
                    AppError::state_error(
                        prefixed("Failed to check if store exists: ", error),
                        ErrorCode::StateAccessError,
                        Some(prefixed("Error checking store file: ", path)),
                    ),
                )
            }
        },
    }
}

} // verus!
