//! The task commands that do more than hand a call through.

use crate::state::task_manager::manager::TaskManager;
use crate::state::task_manager::model::{is_supported_type, new_task};
use crate::state::task_manager::task::Task;
use crate::utils::error::{ErrorCode, ErrorInfo, ErrorInfoView};
use crate::utils::text::{prefixed, wrapped};
use std::collections::HashMap;
use vstd::prelude::*;
use vstd::string::*;

verus! {

/// What the frontend is told when it asks for a task of an unknown type.
pub open spec fn invalid_task_type(task_type: Seq<char>) -> ErrorInfoView {
    ErrorInfoView {
        code: ErrorCode::InvalidArgument,
        message: "Invalid task type: "@ + task_type,
        details: Some("Task type must be one of: convert, split, edit, sanitize"@),
    }
}

/// What the frontend is told when it asks for a task that does not exist.
pub open spec fn task_not_found(task_id: Seq<char>) -> ErrorInfoView {
    ErrorInfoView {
        code: ErrorCode::TaskNotFound,
        message: "Task not found: Task "@ + task_id + " not found"@,
        details: Some("Task with ID "@ + task_id + " not found"@),
    }
}

/// Create a new task under the given id and creation time. A task type
/// outside the supported set is refused before it reaches the manager.
pub fn create_task_with(
    manager: &mut TaskManager,
    input_path: String,
    output_path: String,
    config: HashMap<String, String>,
    task_type: String,
    task_id: String,
    created_at: String,
) -> (r: Result<String, ErrorInfo>)
    ensures
        is_supported_type(task_type@) ==> r is Ok && r->Ok_0@ == task_id@ && final(manager)@
            == old(manager)@.created(
            new_task(task_id@, input_path@, output_path@, task_type@, config@, created_at@),
        ),
        !is_supported_type(task_type@) ==> r is Err && r->Err_0@ == invalid_task_type(
            task_type@,
        ) && final(manager)@ == old(manager)@,
{
    if !crate::state::task_manager::manager::is_supported_task_type(task_type.as_str()) {
        return Err(
            ErrorInfo {
                code: ErrorCode::InvalidArgument,
                message: prefixed("Invalid task type: ", task_type.as_str()),
                details: Some(
                    String::from_str("Task type must be one of: convert, split, edit, sanitize"),
                ),
            },
        );
    }
    match manager.create_task_with(
        input_path,
        output_path,
        task_type,
        config,
        task_id,
        created_at,
    ) {
        Ok(id) => Ok(id),
        Err(e) => {
            let text = e.message();
            Err(
                ErrorInfo {
                    code: ErrorCode::StateMutationError,
                    message: prefixed("Failed to create task: ", text.as_str()),
                    details: Some(String::from_str("Error creating task in task manager")),
                },
            )
        },
    }
}

/// Create a new task under a new id, stamped with the current time. A task
/// type outside the supported set is refused before it reaches the manager.
pub fn create_task(
    manager: &mut TaskManager,
    input_path: String,
    output_path: String,
    config: HashMap<String, String>,
    task_type: String,
) -> (r: Result<String, ErrorInfo>)
    ensures
        is_supported_type(task_type@) ==> r is Ok && old(manager)@.created_at_some_time(
            final(manager)@,
            r->Ok_0@,
            input_path@,
            output_path@,
            task_type@,
            config@,
        ),
        !is_supported_type(task_type@) ==> r is Err && r->Err_0@ == invalid_task_type(
            task_type@,
        ) && final(manager)@ == old(manager)@,
{
    if !crate::state::task_manager::manager::is_supported_task_type(task_type.as_str()) {
        return Err(
            ErrorInfo {
                code: ErrorCode::InvalidArgument,
                message: prefixed("Invalid task type: ", task_type.as_str()),
                details: Some(
                    String::from_str("Task type must be one of: convert, split, edit, sanitize"),
                ),
            },
        );
    }
    match manager.create_task(input_path, output_path, task_type, config) {
        Ok(id) => Ok(id),
        Err(e) => {
            let text = e.message();
            Err(
                ErrorInfo {
                    code: ErrorCode::StateMutationError,
                    message: prefixed("Failed to create task: ", text.as_str()),
                    details: Some(String::from_str("Error creating task in task manager")),
                },
            )
        },
    }
}

/// Get a task by id.
pub fn get_task(manager: &TaskManager, task_id: String) -> (r: Result<Task, ErrorInfo>)
    ensures
        manager@.has_task(task_id@) ==> r is Ok && r->Ok_0@ == manager@.task(task_id@),
        !manager@.has_task(task_id@) ==> r is Err && r->Err_0@ == task_not_found(task_id@),
{
    match manager.get_task(task_id.as_str()) {
        Ok(task) => Ok(task),
        Err(e) => {
            let text = e.message();
            assert(text@ == "Task "@ + task_id@ + " not found"@);
            let message = prefixed("Task not found: ", text.as_str());
            assert(message@ =~= "Task not found: Task "@ + task_id@ + " not found"@) by {
                reveal_strlit("Task not found: ");
                reveal_strlit("Task ");
                reveal_strlit("Task not found: Task ");
            }
            Err(
                ErrorInfo {
                    code: ErrorCode::TaskNotFound,
                    message,
                    details: Some(wrapped("Task with ID ", task_id.as_str(), " not found")),
                },
            )
        },
    }
}

} // verus!
