use vid_kit_simple::commands::{
    app_info_failed, failure_info, greet, log_file_path_failed, open_log_directory_failed,
    open_log_file_failed, set_gpu_failed,
};
use vid_kit_simple::state::task_manager::manager::is_supported_task_type;
use vid_kit_simple::utils::error::{AppError, ErrorCode, ErrorInfo};
use vid_kit_simple::utils::logger::{current_log_file_name, main_log_file_name};
use vid_kit_simple::utils::parse::contains;
use vid_kit_simple::utils::store_helper::{
    key_missing, save_failed, store_exists, store_unavailable, value_unreadable,
    value_unwritable, CONFIG_STORE_PATH, PRESETS_STORE_PATH, TASKS_STORE_PATH,
};

fn s(text: &str) -> String {
    text.to_string()
}

fn state_error(message: &str, code: ErrorCode, context: &str) -> AppError {
    AppError::StateError { message: s(message), code, context: Some(s(context)) }
}

#[test]
fn greeting_names_the_guest() {
    assert_eq!(greet("Ann"), "Hello, Ann! You've been greeted from Rust!");
    assert_eq!(greet(""), "Hello, ! You've been greeted from Rust!");
}

#[test]
fn failed_commands_say_what_failed() {
    assert_eq!(
        failure_info(ErrorCode::FormatError, "Failed to x", "boom", "more"),
        ErrorInfo {
            code: ErrorCode::FormatError,
            message: s("Failed to x: boom"),
            details: Some(s("more")),
        }
    );
    assert_eq!(
        app_info_failed("e"),
        ErrorInfo {
            code: ErrorCode::UnknownError,
            message: s("Failed to get app info: e"),
            details: Some(s("Error getting application information")),
        }
    );
    assert_eq!(
        set_gpu_failed("e"),
        ErrorInfo {
            code: ErrorCode::UnknownError,
            message: s("Failed to set GPU: e"),
            details: Some(s("Error setting GPU")),
        }
    );
    assert_eq!(
        log_file_path_failed("e"),
        ErrorInfo {
            code: ErrorCode::FileReadError,
            message: s("Failed to get log file path: e"),
            details: Some(s("Error accessing log file")),
        }
    );
    assert_eq!(
        open_log_file_failed("e"),
        ErrorInfo {
            code: ErrorCode::FileReadError,
            message: s("Failed to open log file: e"),
            details: Some(s("Error opening log file")),
        }
    );
    assert_eq!(
        open_log_directory_failed("e"),
        ErrorInfo {
            code: ErrorCode::FileReadError,
            message: s("Failed to open log directory: e"),
            details: Some(s("Error opening log directory")),
        }
    );
}

#[test]
fn supported_task_types_are_four() {
    for kind in ["convert", "split", "edit", "sanitize"] {
        assert!(is_supported_task_type(kind));
    }
    for kind in ["", "Convert", "convert ", "merge", "converts"] {
        assert!(!is_supported_task_type(kind));
    }
}

#[test]
fn texts_are_searched_as_the_standard_library_searches_them() {
    let texts = ["", "a", "ab", "abc", "No such file", "x No such file or directory (os error 2)",
        "No such fil", "no such file", "aaab", "ababab", "éa４b", "No such No such file"];
    let patterns = ["", "a", "b", "ab", "abc", "No such file", "aab", "bab", "４", "é", "file"];
    for text in texts {
        for pattern in patterns {
            assert_eq!(contains(text, pattern), text.contains(pattern), "{pattern:?} in {text:?}");
        }
    }
}

#[test]
fn store_errors_name_the_store() {
    assert_eq!(TASKS_STORE_PATH, "tasks.json");
    assert_eq!(CONFIG_STORE_PATH, "config.json");
    assert_eq!(PRESETS_STORE_PATH, "presets.json");
    assert_eq!(
        store_unavailable("tasks.json", "locked"),
        state_error(
            "Failed to get store: locked",
            ErrorCode::StateAccessError,
            "Error accessing store file: tasks.json"
        )
    );
    assert_eq!(
        value_unreadable("tasks.json", "queue", "bad"),
        state_error(
            "Failed to deserialize value: bad",
            ErrorCode::StateSerializationError,
            "Error deserializing data for key 'queue' in store 'tasks.json'"
        )
    );
    assert_eq!(
        value_unwritable("tasks.json", "queue", "bad"),
        state_error(
            "Failed to serialize value: bad",
            ErrorCode::StateSerializationError,
            "Error serializing data for key 'queue' in store 'tasks.json'"
        )
    );
    assert_eq!(
        save_failed("tasks.json", "full"),
        state_error(
            "Failed to save store: full",
            ErrorCode::StateSerializationError,
            "Error saving store file: tasks.json"
        )
    );
    assert_eq!(
        key_missing("tasks.json", "queue"),
        state_error(
            "Failed to delete key: Key not found",
            ErrorCode::StateMutationError,
            "Key 'queue' not found in store 'tasks.json'"
        )
    );
}

#[test]
fn a_missing_file_means_a_missing_store() {
    assert_eq!(store_exists("tasks.json", None), Ok(true));
    assert_eq!(
        store_exists("tasks.json", Some("No such file or directory (os error 2)")),
        Ok(false)
    );
    assert_eq!(
        store_exists("tasks.json", Some("permission denied")),
        Err(state_error(
            "Failed to check if store exists: permission denied",
            ErrorCode::StateAccessError,
            "Error checking store file: tasks.json"
        ))
    );
}

#[test]
fn current_log_file_is_the_main_file_or_the_first_rotated_one() {
    assert_eq!(main_log_file_name(), "app.log");
    assert_eq!(current_log_file_name(true, &vec![true, true]), "app.log");
    assert_eq!(current_log_file_name(false, &vec![]), "app.log");
    assert_eq!(current_log_file_name(false, &vec![false; 5]), "app.log");
    assert_eq!(current_log_file_name(false, &vec![true, false, true]), "app_1.log");
    assert_eq!(current_log_file_name(false, &vec![false, false, true, true]), "app_3.log");
    assert_eq!(current_log_file_name(false, &vec![false, false, false, false, true]), "app_5.log");
    // files beyond the fifth are not looked at
    assert_eq!(
        current_log_file_name(false, &vec![false, false, false, false, false, true]),
        "app.log"
    );
}
