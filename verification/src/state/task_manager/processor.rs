//! What the task processor decides before it hands a task to the engine.

use super::errors::{TaskError, TaskErrorView, TaskResult};
use super::task::Task;

use vstd::prelude::*;
use vstd::string::*;

verus! {

/// The kinds of work the engine does.
#[derive(Debug, Clone, Copy, PartialEq, Eq, Structural)]
pub enum TaskKind {
    Convert,
    Split,
    Edit,
    Sanitize,
}

/// The kind of work that a task type names, if it names one.
pub open spec fn kind_named(task_type: Seq<char>) -> Option<TaskKind> {
    if task_type == "convert"@ {
        Some(TaskKind::Convert)
    } else if task_type == "split"@ {
        Some(TaskKind::Split)
    } else if task_type == "edit"@ {
        Some(TaskKind::Edit)
    } else if task_type == "sanitize"@ {
        Some(TaskKind::Sanitize)
    } else {
        None
    }
}

impl TaskKind {
    /// The name of the kind, as task types are written.
    pub open spec fn spec_name(self) -> Seq<char> {
        match self {
            TaskKind::Convert => "convert"@,
            TaskKind::Split => "split"@,
            TaskKind::Edit => "edit"@,
            TaskKind::Sanitize => "sanitize"@,
        }
    }

    /// The name of the kind, as task types are written.
    pub fn name(self) -> (s: String)
        ensures
            s@ == self.spec_name(),
    {
        match self {
            TaskKind::Convert => String::from_str("convert"),
            TaskKind::Split => String::from_str("split"),
            TaskKind::Edit => String::from_str("edit"),
            TaskKind::Sanitize => String::from_str("sanitize"),
        }
    }

    /// The kind of work that a task type names. Any other text is an
    /// unsupported task type.
    pub fn parse(task_type: &str) -> (r: TaskResult<TaskKind>)
        ensures
            kind_named(task_type@) is Some ==> r == Ok::<TaskKind, TaskError>(
                kind_named(task_type@)->0,
            ),
            kind_named(task_type@) is None ==> r is Err && r->Err_0@
                == TaskErrorView::UnsupportedTaskType(task_type@),
    {
        let given = String::from_str(task_type);
        if given == String::from_str("convert") {
            Ok(TaskKind::Convert)
        } else if given == String::from_str("split") {
            Ok(TaskKind::Split)
        } else if given == String::from_str("edit") {
            Ok(TaskKind::Edit)
        } else if given == String::from_str("sanitize") {
            Ok(TaskKind::Sanitize)
        } else {
            Err(TaskError::UnsupportedTaskType(given))
        }
    }
}

/// The engine's work for a task: the kind that the task's type names.
pub fn kind_of(task: &Task) -> (r: TaskResult<TaskKind>)
    ensures
        kind_named(task@.task_type) is Some ==> r == Ok::<TaskKind, TaskError>(
            kind_named(task@.task_type)->0,
        ),
        kind_named(task@.task_type) is None ==> r is Err && r->Err_0@
            == TaskErrorView::UnsupportedTaskType(task@.task_type),
{
    TaskKind::parse(task.task_type.as_str())
}

/// The error for a failure that the engine reported with `message`.
pub fn processing_failed(message: String) -> (e: TaskError)
    ensures
        e@ == TaskErrorView::ProcessingFailed(message@),
{
    TaskError::ProcessingFailed(message)
}

} // verus!
