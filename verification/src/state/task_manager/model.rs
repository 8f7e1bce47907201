//! The scheduler as a mathematical state machine.
//!
//! `SchedulerState` is what a `TaskManager` holds, read as sequences of
//! characters. Each command of the manager has a transition here that says,
//! for every state and argument, what the next state is and which events or
//! error come out. The executable commands are proved against these.

use super::errors::TaskErrorView;
use super::events::{actions_of, HostActionView, TaskEventView};
use super::snapshot::StoredStateView;
use super::task::{TaskStatus, TaskView, PROGRESS_COMPLETE};
use vstd::prelude::*;

verus! {

/// The state of the scheduler.
pub struct SchedulerState {
    /// Every known task, oldest first.
    pub tasks: Seq<TaskView>,
    /// Ids of the tasks waiting for a slot, next one first.
    pub queue: Seq<Seq<char>>,
    /// How many tasks may run at once.
    pub max_concurrent_tasks: usize,
    /// While set, admission starts nothing.
    pub is_queue_paused: bool,
}

/// The result of a command: the state it leaves and what it reports.
pub struct Transition {
    pub next: SchedulerState,
    pub outcome: Result<Seq<TaskEventView>, TaskErrorView>,
}

impl Transition {
    /// What the host has to do after the command: for the events of a
    /// command that succeeded see `actions_of`; for one that failed, the
    /// error.
    pub open spec fn actions(self) -> Result<Seq<HostActionView>, TaskErrorView> {
        match self.outcome {
            Ok(events) => Ok(actions_of(events)),
            Err(e) => Err(e),
        }
    }
}

/// Whether `task_type` names one of the four kinds of work.
pub open spec fn is_supported_type(task_type: Seq<char>) -> bool {
    task_type == "convert"@ || task_type == "split"@ || task_type == "edit"@ || task_type
        == "sanitize"@
}

/// A task as it is right after creation.
pub open spec fn new_task(
    id: Seq<char>,
    input_path: Seq<char>,
    output_path: Seq<char>,
    task_type: Seq<char>,
    config: Map<String, String>,
    created_at: Seq<char>,
) -> TaskView {
    TaskView {
        id,
        input_path,
        output_path,
        status: TaskStatus::Pending,
        progress: 0,
        error: None,
        attempts: 0,
        created_at,
        started_at: None,
        completed_at: None,
        task_type,
        config,
    }
}

/// The attempt counter after one more start. It stops at the largest value
/// the counter can hold.
pub open spec fn next_attempts(attempts: usize) -> usize {
    if attempts < usize::MAX {
        (attempts + 1) as usize
    } else {
        attempts
    }
}

/// How many of `tasks` are Running.
pub open spec fn count_running(tasks: Seq<TaskView>) -> nat
    decreases tasks.len(),
{
    if tasks.len() == 0 {
        0
    } else {
        count_running(tasks.drop_last()) + if tasks.last().status == TaskStatus::Running {
            1nat
        } else {
            0nat
        }
    }
}

/// Whether a task in this status can be canceled.
pub open spec fn is_cancelable(status: TaskStatus) -> bool {
    status == TaskStatus::Pending || status == TaskStatus::Running || status == TaskStatus::Paused
}

/// Whether a task in this status can be retried.
pub open spec fn is_retryable(status: TaskStatus) -> bool {
    status == TaskStatus::Failed || status == TaskStatus::Canceled
}

/// Whether a task in this status is dropped when finished tasks are cleared.
pub open spec fn is_clearable(status: TaskStatus) -> bool {
    status == TaskStatus::Completed || status == TaskStatus::Canceled
}

/// Whether a task in this status may be removed.
pub open spec fn is_removable(status: TaskStatus) -> bool {
    status != TaskStatus::Running && status != TaskStatus::Paused
}

pub open spec fn not_pending_message(id: Seq<char>) -> Seq<char> {
    "Task "@ + id + " is not in pending state"@
}

pub open spec fn not_running_message(id: Seq<char>) -> Seq<char> {
    "Task "@ + id + " is not in running state"@
}

pub open spec fn not_paused_message(id: Seq<char>) -> Seq<char> {
    "Task "@ + id + " is not in paused state"@
}

pub open spec fn not_cancelable_message(id: Seq<char>) -> Seq<char> {
    "Task "@ + id + " cannot be canceled in its current state"@
}

pub open spec fn not_retryable_message(id: Seq<char>) -> Seq<char> {
    "Task "@ + id + " cannot be retried in its current state"@
}

pub open spec fn not_removable_message(id: Seq<char>) -> Seq<char> {
    "Task "@ + id + " cannot be removed while running or paused"@
}

/// The task after the start transition.
pub open spec fn started_task(t: TaskView, now: Seq<char>) -> TaskView {
    TaskView {
        status: TaskStatus::Running,
        started_at: Some(now),
        attempts: next_attempts(t.attempts),
        ..t
    }
}

/// The task with another status and nothing else changed.
pub open spec fn with_status(t: TaskView, status: TaskStatus) -> TaskView {
    TaskView { status, ..t }
}

/// The task after the cancel transition.
pub open spec fn canceled_task(t: TaskView, now: Seq<char>) -> TaskView {
    TaskView { status: TaskStatus::Canceled, completed_at: Some(now), ..t }
}

/// The task after the retry transition.
pub open spec fn retried_task(t: TaskView) -> TaskView {
    TaskView { status: TaskStatus::Pending, progress: 0, error: None, completed_at: None, ..t }
}

/// The task after the engine reported success.
pub open spec fn completed_task(t: TaskView, now: Seq<char>) -> TaskView {
    TaskView {
        status: TaskStatus::Completed,
        progress: PROGRESS_COMPLETE,
        completed_at: Some(now),
        ..t
    }
}

/// The task after the engine reported `error`.
pub open spec fn failed_task(t: TaskView, error: Seq<char>, now: Seq<char>) -> TaskView {
    TaskView { status: TaskStatus::Failed, error: Some(error), completed_at: Some(now), ..t }
}

/// The progress a task shows after a report of `reported`: never above
/// complete, and never below what a Running task already showed.
pub open spec fn merged_progress(t: TaskView, reported: u32) -> u32 {
    let capped = if reported > PROGRESS_COMPLETE {
        PROGRESS_COMPLETE
    } else {
        reported
    };
    if t.status == TaskStatus::Running && capped < t.progress {
        t.progress
    } else {
        capped
    }
}

/// The task paused if it was Running, and unchanged otherwise.
pub open spec fn paused_if_running(t: TaskView) -> TaskView {
    if t.status == TaskStatus::Running {
        with_status(t, TaskStatus::Paused)
    } else {
        t
    }
}

/// The task resumed if it was Paused, and unchanged otherwise.
pub open spec fn resumed_if_paused(t: TaskView) -> TaskView {
    if t.status == TaskStatus::Paused {
        with_status(t, TaskStatus::Running)
    } else {
        t
    }
}

/// The task canceled if it could be, and unchanged otherwise.
pub open spec fn canceled_if_active(t: TaskView, now: Seq<char>) -> TaskView {
    if is_cancelable(t.status) {
        canceled_task(t, now)
    } else {
        t
    }
}

/// What holds of a task record whatever happened to the task: the progress
/// is at most complete; an error is recorded exactly while the task is
/// Failed; the time of completion is recorded exactly while the task is
/// Completed, Failed or Canceled; the time of the start is recorded exactly
/// once the task was started; and a task that is Running, Paused,
/// Completed or Failed was started.
pub open spec fn is_well_formed(t: TaskView) -> bool {
    &&& t.progress <= PROGRESS_COMPLETE
    &&& (t.error is Some <==> t.status == TaskStatus::Failed)
    &&& (t.completed_at is Some <==> t.status.spec_is_terminal())
    &&& (t.started_at is Some <==> t.attempts > 0)
    &&& (t.status == TaskStatus::Running || t.status == TaskStatus::Paused || t.status
        == TaskStatus::Completed || t.status == TaskStatus::Failed ==> t.attempts > 0)
}

/// The queue without any entry equal to `id`.
pub open spec fn without_id(queue: Seq<Seq<char>>, id: Seq<char>) -> Seq<Seq<char>> {
    queue.filter(|q: Seq<char>| q != id)
}

/// The tasks whose id is not `id`.
pub open spec fn tasks_without_id(tasks: Seq<TaskView>, id: Seq<char>) -> Seq<TaskView> {
    tasks.filter(|t: TaskView| t.id != id)
}

/// The tasks that clearing leaves in the list.
pub open spec fn tasks_kept(tasks: Seq<TaskView>) -> Seq<TaskView> {
    tasks.filter(|t: TaskView| !is_clearable(t.status))
}

/// The tasks that clearing takes out of the list.
pub open spec fn tasks_cleared(tasks: Seq<TaskView>) -> Seq<TaskView> {
    tasks.filter(|t: TaskView| is_clearable(t.status))
}

/// The tasks in the given status.
pub open spec fn tasks_in(tasks: Seq<TaskView>, status: TaskStatus) -> Seq<TaskView> {
    tasks.filter(|t: TaskView| t.status == status)
}

/// The tasks that can be canceled.
pub open spec fn tasks_cancelable(tasks: Seq<TaskView>) -> Seq<TaskView> {
    tasks.filter(|t: TaskView| is_cancelable(t.status))
}

/// One removal event for each task.
pub open spec fn removed_events(tasks: Seq<TaskView>) -> Seq<TaskEventView> {
    tasks.map_values(|t: TaskView| TaskEventView::TaskRemoved(t.id))
}

/// One pause event for each task.
pub open spec fn paused_events(tasks: Seq<TaskView>) -> Seq<TaskEventView> {
    tasks.map_values(|t: TaskView| TaskEventView::TaskPaused(t.id))
}

/// One resume event for each task.
pub open spec fn resumed_events(tasks: Seq<TaskView>) -> Seq<TaskEventView> {
    tasks.map_values(|t: TaskView| TaskEventView::TaskResumed(t.id))
}

/// One cancel event for each task.
pub open spec fn canceled_events(tasks: Seq<TaskView>) -> Seq<TaskEventView> {
    tasks.map_values(|t: TaskView| TaskEventView::TaskCanceled(t.id))
}

impl SchedulerState {
    /// The state of a new manager.
    pub open spec fn initial(max_concurrent_tasks: usize) -> SchedulerState {
        SchedulerState {
            tasks: Seq::empty(),
            queue: Seq::empty(),
            max_concurrent_tasks,
            is_queue_paused: false,
        }
    }

    /// Whether some task has this id.
    pub open spec fn has_task(self, id: Seq<char>) -> bool {
        exists|i: int| 0 <= i < self.tasks.len() && (#[trigger] self.tasks[i]).id == id
    }

    /// Whether `i` is the place of the first task with this id.
    pub open spec fn is_first_match(self, i: int, id: Seq<char>) -> bool {
        &&& 0 <= i < self.tasks.len()
        &&& self.tasks[i].id == id
        &&& forall|j: int| 0 <= j < i ==> (#[trigger] self.tasks[j]).id != id
    }

    /// The place of the first task with this id, where there is one.
    pub open spec fn index_of(self, id: Seq<char>) -> int {
        choose|i: int| self.is_first_match(i, id)
    }

    /// The first task with this id, where there is one.
    pub open spec fn task(self, id: Seq<char>) -> TaskView {
        self.tasks[self.index_of(id)]
    }

    /// How many tasks are Running.
    pub open spec fn running_count(self) -> nat {
        count_running(self.tasks)
    }

    /// Whether one more task may run.
    pub open spec fn has_free_slot(self) -> bool {
        self.running_count() < self.max_concurrent_tasks
    }

    /// Whether some task with this id is Completed or Canceled.
    pub open spec fn is_cleared_id(self, id: Seq<char>) -> bool {
        exists|i: int|
            0 <= i < self.tasks.len() && (#[trigger] self.tasks[i]).id == id && is_clearable(
                self.tasks[i].status,
            )
    }

    /// The state with the first task of this id replaced.
    pub open spec fn with_task(self, id: Seq<char>, task: TaskView) -> SchedulerState {
        SchedulerState { tasks: self.tasks.update(self.index_of(id), task), ..self }
    }

    /// The state with the queue replaced.
    pub open spec fn with_queue(self, queue: Seq<Seq<char>>) -> SchedulerState {
        SchedulerState { queue, ..self }
    }

    /// The state with every task passed through `change`.
    pub open spec fn with_each_task(self, change: spec_fn(TaskView) -> TaskView) -> SchedulerState {
        SchedulerState { tasks: self.tasks.map_values(change), ..self }
    }

    /// A command that changes nothing and reports `error`.
    pub open spec fn rejected(self, error: TaskErrorView) -> Transition {
        Transition { next: self, outcome: Err(error) }
    }

    /// A command that changes nothing and reports no event.
    pub open spec fn unchanged(self) -> Transition {
        Transition { next: self, outcome: Ok(Seq::empty()) }
    }

    /// The state after `task` was added: last in the list, last in the queue.
    pub open spec fn created(self, task: TaskView) -> SchedulerState {
        SchedulerState {
            tasks: self.tasks.push(task),
            queue: self.queue.push(task.id),
            ..self
        }
    }

    /// Whether `next` is this state after a Pending task with these values
    /// was added, created at some time.
    pub open spec fn created_at_some_time(
        self,
        next: SchedulerState,
        id: Seq<char>,
        input_path: Seq<char>,
        output_path: Seq<char>,
        task_type: Seq<char>,
        config: Map<String, String>,
    ) -> bool {
        exists|created_at: Seq<char>|
            next == self.created(
                new_task(id, input_path, output_path, task_type, config, created_at),
            )
    }

    /// The state after the task `id` went from Pending to Running.
    pub open spec fn started(self, id: Seq<char>, now: Seq<char>) -> SchedulerState {
        self.with_task(id, started_task(self.task(id), now)).with_queue(
            without_id(self.queue, id),
        )
    }

    /// Start: Pending to Running, where a slot is free. With no free slot the
    /// task stays Pending in the queue and nothing is reported.
    pub open spec fn start_task(self, id: Seq<char>, now: Seq<char>) -> Transition {
        if !self.has_task(id) {
            self.rejected(TaskErrorView::TaskNotFound(id))
        } else if self.task(id).status != TaskStatus::Pending {
            self.rejected(TaskErrorView::InvalidStatus(not_pending_message(id)))
        } else if !self.has_free_slot() {
            self.unchanged()
        } else {
            Transition {
                next: self.started(id, now),
                outcome: Ok(seq![TaskEventView::TaskStarted(id)]),
            }
        }
    }

    /// Pause: Running to Paused.
    pub open spec fn pause_task(self, id: Seq<char>) -> Transition {
        if !self.has_task(id) {
            self.rejected(TaskErrorView::TaskNotFound(id))
        } else if self.task(id).status != TaskStatus::Running {
            self.rejected(TaskErrorView::InvalidStatus(not_running_message(id)))
        } else {
            Transition {
                next: self.with_task(id, with_status(self.task(id), TaskStatus::Paused)),
                outcome: Ok(seq![TaskEventView::TaskPaused(id)]),
            }
        }
    }

    /// Resume: Paused to Running.
    pub open spec fn resume_task(self, id: Seq<char>) -> Transition {
        if !self.has_task(id) {
            self.rejected(TaskErrorView::TaskNotFound(id))
        } else if self.task(id).status != TaskStatus::Paused {
            self.rejected(TaskErrorView::InvalidStatus(not_paused_message(id)))
        } else {
            Transition {
                next: self.with_task(id, with_status(self.task(id), TaskStatus::Running)),
                outcome: Ok(seq![TaskEventView::TaskResumed(id)]),
            }
        }
    }

    /// Cancel: Pending, Running or Paused to Canceled, and out of the queue.
    pub open spec fn cancel_task(self, id: Seq<char>, now: Seq<char>) -> Transition {
        if !self.has_task(id) {
            self.rejected(TaskErrorView::TaskNotFound(id))
        } else if !is_cancelable(self.task(id).status) {
            self.rejected(TaskErrorView::InvalidStatus(not_cancelable_message(id)))
        } else {
            Transition {
                next: self.with_task(id, canceled_task(self.task(id), now)).with_queue(
                    without_id(self.queue, id),
                ),
                outcome: Ok(seq![TaskEventView::TaskCanceled(id)]),
            }
        }
    }

    /// The state after the task `id` went back to Pending: reset, and last in
    /// the queue unless the queue already held its id.
    pub open spec fn requeued(self, id: Seq<char>) -> SchedulerState {
        self.with_task(id, retried_task(self.task(id))).with_queue(
            if self.queue.contains(id) {
                self.queue
            } else {
                self.queue.push(id)
            },
        )
    }

    /// Retry: Failed or Canceled back to Pending and into the queue; started
    /// at once where the queue is not paused and a slot is free.
    pub open spec fn retry_task(self, id: Seq<char>, now: Seq<char>) -> Transition {
        if !self.has_task(id) {
            self.rejected(TaskErrorView::TaskNotFound(id))
        } else if !is_retryable(self.task(id).status) {
            self.rejected(TaskErrorView::InvalidStatus(not_retryable_message(id)))
        } else if !self.is_queue_paused && self.has_free_slot() {
            Transition {
                next: self.requeued(id).started(id, now),
                outcome: Ok(
                    seq![TaskEventView::TaskRetried(id), TaskEventView::TaskStarted(id)],
                ),
            }
        } else {
            Transition {
                next: self.requeued(id),
                outcome: Ok(seq![TaskEventView::TaskRetried(id)]),
            }
        }
    }

    /// Remove: every task with this id leaves the list, and the id leaves the
    /// queue. Refused while the task is Running or Paused.
    pub open spec fn remove_task(self, id: Seq<char>) -> Transition {
        if !self.has_task(id) {
            self.rejected(TaskErrorView::TaskNotFound(id))
        } else if !is_removable(self.task(id).status) {
            self.rejected(TaskErrorView::InvalidStatus(not_removable_message(id)))
        } else {
            Transition {
                next: SchedulerState {
                    tasks: tasks_without_id(self.tasks, id),
                    queue: without_id(self.queue, id),
                    ..self
                },
                outcome: Ok(seq![TaskEventView::TaskRemoved(id)]),
            }
        }
    }

    /// Those of `ids` that are not the id of a Completed or Canceled task.
    pub open spec fn ids_not_cleared(self, ids: Seq<Seq<char>>) -> Seq<Seq<char>> {
        ids.filter(|q: Seq<char>| !self.is_cleared_id(q))
    }

    /// Clear: every Completed or Canceled task leaves the list, and its id
    /// the queue. One event for each task that left, in list order.
    pub open spec fn clear_completed_tasks(self) -> Transition {
        Transition {
            next: SchedulerState {
                tasks: tasks_kept(self.tasks),
                queue: self.ids_not_cleared(self.queue),
                ..self
            },
            outcome: Ok(removed_events(tasks_cleared(self.tasks))),
        }
    }

    /// Whether `k` is the place of the first id in `order` that no task has.
    pub open spec fn is_first_unknown(self, order: Seq<Seq<char>>, k: int) -> bool {
        &&& 0 <= k < order.len()
        &&& !self.has_task(order[k])
        &&& forall|j: int| 0 <= j < k ==> self.has_task(#[trigger] order[j])
    }

    /// Whether every id in `order` is the id of some task.
    pub open spec fn knows_all(self, order: Seq<Seq<char>>) -> bool {
        forall|k: int| 0 <= k < order.len() ==> self.has_task(#[trigger] order[k])
    }

    /// Reorder: the queue becomes `order`, unless `order` names an unknown id;
    /// then nothing changes and the first such id is reported.
    pub open spec fn reorder_tasks(self, order: Seq<Seq<char>>) -> Transition {
        if self.knows_all(order) {
            Transition {
                next: self.with_queue(order),
                outcome: Ok(seq![TaskEventView::QueueReordered]),
            }
        } else {
            self.rejected(
                TaskErrorView::TaskNotFound(
                    order[choose|k: int| self.is_first_unknown(order, k)],
                ),
            )
        }
    }

    /// Pause the queue: the flag is set and every Running task is paused.
    pub open spec fn pause_queue(self) -> Transition {
        Transition {
            next: SchedulerState {
                tasks: self.tasks.map_values(|t: TaskView| paused_if_running(t)),
                is_queue_paused: true,
                ..self
            },
            outcome: Ok(
                paused_events(tasks_in(self.tasks, TaskStatus::Running)).push(
                    TaskEventView::QueuePaused,
                ),
            ),
        }
    }

    /// Whether admission would start the task `id` now.
    pub open spec fn admits(self, id: Seq<char>) -> bool {
        self.has_free_slot() && self.has_task(id) && self.task(id).status == TaskStatus::Pending
    }

    /// The state after admission walked `ids` in order and started each task
    /// that was Pending while a slot was free.
    pub open spec fn admitted(self, ids: Seq<Seq<char>>, now: Seq<char>) -> SchedulerState
        decreases ids.len(),
    {
        if ids.len() == 0 {
            self
        } else if self.admits(ids.first()) {
            self.started(ids.first(), now).admitted(ids.drop_first(), now)
        } else {
            self.admitted(ids.drop_first(), now)
        }
    }

    /// The events of that walk: the admission signal and the start, for each
    /// task started, in order.
    pub open spec fn admission_events(self, ids: Seq<Seq<char>>, now: Seq<char>) -> Seq<
        TaskEventView,
    >
        decreases ids.len(),
    {
        if ids.len() == 0 {
            Seq::empty()
        } else if self.admits(ids.first()) {
            seq![
                TaskEventView::StartTask(ids.first()),
                TaskEventView::TaskStarted(ids.first()),
            ] + self.started(ids.first(), now).admission_events(ids.drop_first(), now)
        } else {
            self.admission_events(ids.drop_first(), now)
        }
    }

    /// Admission: nothing while the queue is paused; otherwise the queue is
    /// walked in order.
    pub open spec fn process_next_tasks(self, now: Seq<char>) -> Transition {
        if self.is_queue_paused {
            self.unchanged()
        } else {
            Transition {
                next: self.admitted(self.queue, now),
                outcome: Ok(self.admission_events(self.queue, now)),
            }
        }
    }

    /// The state with the pause flag cleared and every Paused task Running.
    pub open spec fn all_resumed(self) -> SchedulerState {
        SchedulerState {
            tasks: self.tasks.map_values(|t: TaskView| resumed_if_paused(t)),
            is_queue_paused: false,
            ..self
        }
    }

    /// Resume the queue: the flag is cleared, every Paused task runs again,
    /// then admission fills the free slots.
    pub open spec fn resume_queue(self, now: Seq<char>) -> Transition {
        let resumed = self.all_resumed();
        Transition {
            next: resumed.admitted(resumed.queue, now),
            outcome: Ok(
                resumed_events(tasks_in(self.tasks, TaskStatus::Paused))
                    + resumed.admission_events(resumed.queue, now).push(
                    TaskEventView::QueueResumed,
                ),
            ),
        }
    }

    /// Start the queue: resume it if it is paused; otherwise run admission.
    pub open spec fn start_queue(self, now: Seq<char>) -> Transition {
        if self.is_queue_paused {
            self.resume_queue(now)
        } else {
            Transition {
                next: self.admitted(self.queue, now),
                outcome: Ok(
                    self.admission_events(self.queue, now).push(TaskEventView::QueueStarted),
                ),
            }
        }
    }

    /// Cancel the queue: every Pending, Running or Paused task is canceled and
    /// the queue is emptied.
    pub open spec fn cancel_queue(self, now: Seq<char>) -> Transition {
        Transition {
            next: SchedulerState {
                tasks: self.tasks.map_values(|t: TaskView| canceled_if_active(t, now)),
                queue: Seq::empty(),
                ..self
            },
            outcome: Ok(
                canceled_events(tasks_cancelable(self.tasks)).push(TaskEventView::QueueCanceled),
            ),
        }
    }

    /// The state with another concurrency limit.
    pub open spec fn with_limit(self, max: usize) -> SchedulerState {
        SchedulerState { max_concurrent_tasks: max, ..self }
    }

    /// Set the limit. Where the limit went up, admission fills the new slots.
    pub open spec fn set_max_concurrent_tasks(self, max: usize, now: Seq<char>) -> Transition {
        let changed = seq![TaskEventView::MaxConcurrentTasksChanged(max)];
        if max > self.max_concurrent_tasks {
            let admission = self.with_limit(max).process_next_tasks(now);
            Transition { next: admission.next, outcome: Ok(changed + admission.outcome->Ok_0) }
        } else {
            Transition { next: self.with_limit(max), outcome: Ok(changed) }
        }
    }

    /// Whether a result of the engine for the task `id` is applied: only a
    /// Running task takes one.
    pub open spec fn takes_result(self, id: Seq<char>) -> bool {
        self.has_task(id) && self.task(id).status == TaskStatus::Running
    }

    /// The state after the engine's result for the task `id` was applied,
    /// before admission. `failure` is the engine's message, if it failed.
    pub open spec fn settled(
        self,
        id: Seq<char>,
        failure: Option<Seq<char>>,
        now: Seq<char>,
    ) -> SchedulerState {
        if !self.takes_result(id) {
            self
        } else {
            match failure {
                None => self.with_task(id, completed_task(self.task(id), now)),
                Some(error) => self.with_task(id, failed_task(self.task(id), error, now)),
            }
        }
    }

    /// The events of applying the engine's result, before admission.
    pub open spec fn settle_events(
        self,
        id: Seq<char>,
        failure: Option<Seq<char>>,
        now: Seq<char>,
    ) -> Seq<TaskEventView> {
        if !self.takes_result(id) {
            Seq::empty()
        } else {
            match failure {
                None => seq![
                    TaskEventView::TaskUpdated(completed_task(self.task(id), now)),
                    TaskEventView::TaskCompleted(id),
                ],
                Some(error) => seq![
                    TaskEventView::TaskUpdated(failed_task(self.task(id), error, now)),
                    TaskEventView::TaskFailed(id, error),
                ],
            }
        }
    }

    /// Finish: the engine's result is applied to a Running task and dropped
    /// for any other; either way admission then fills the freed slot.
    pub open spec fn finish_task(
        self,
        id: Seq<char>,
        failure: Option<Seq<char>>,
        now: Seq<char>,
    ) -> Transition {
        let settled = self.settled(id, failure, now);
        let admission = settled.process_next_tasks(now);
        Transition {
            next: admission.next,
            outcome: Ok(self.settle_events(id, failure, now) + admission.outcome->Ok_0),
        }
    }

    /// The state after a progress report for the task `id`.
    pub open spec fn progressed(self, id: Seq<char>, reported: u32) -> SchedulerState {
        self.with_task(
            id,
            TaskView { progress: merged_progress(self.task(id), reported), ..self.task(id) },
        )
    }

    /// Whether the engine should go on with the task `id`: not once the task
    /// is gone, Canceled or Paused.
    pub open spec fn should_continue(self, id: Seq<char>) -> bool {
        self.has_task(id) && self.task(id).status != TaskStatus::Canceled && self.task(id).status
            != TaskStatus::Paused
    }

    /// What is written to the store: all four values.
    pub open spec fn stored(self) -> StoredStateView {
        StoredStateView {
            tasks: Some(self.tasks),
            queue: Some(self.queue),
            max_concurrent_tasks: Some(self.max_concurrent_tasks),
            is_queue_paused: Some(self.is_queue_paused),
        }
    }

    /// The state after a stored snapshot was loaded: each value that the
    /// snapshot holds replaces the manager's own.
    pub open spec fn loaded(self, stored: StoredStateView) -> SchedulerState {
        SchedulerState {
            tasks: match stored.tasks {
                Some(t) => t,
                None => self.tasks,
            },
            queue: match stored.queue {
                Some(q) => q,
                None => self.queue,
            },
            max_concurrent_tasks: match stored.max_concurrent_tasks {
                Some(m) => m,
                None => self.max_concurrent_tasks,
            },
            is_queue_paused: match stored.is_queue_paused {
                Some(p) => p,
                None => self.is_queue_paused,
            },
        }
    }

    /// Whether no two tasks share an id.
    pub open spec fn unique_ids(self) -> bool {
        forall|i: int, j: int|
            0 <= i < j < self.tasks.len() ==> (#[trigger] self.tasks[i]).id != (
            #[trigger] self.tasks[j]).id
    }

    /// Whether some Pending task has this id.
    pub open spec fn is_pending_id(self, id: Seq<char>) -> bool {
        exists|i: int|
            0 <= i < self.tasks.len() && (#[trigger] self.tasks[i]).id == id && self.tasks[i].status
                == TaskStatus::Pending
    }

    /// The queue invariant: no two tasks share an id, every id in the queue
    /// is that of a Pending task, and the id of every Pending task is in the
    /// queue exactly once.
    pub open spec fn consistent(self) -> bool {
        &&& self.unique_ids()
        &&& self.queue.no_duplicates()
        &&& forall|k: int|
            0 <= k < self.queue.len() ==> self.is_pending_id(#[trigger] self.queue[k])
        &&& forall|i: int|
            0 <= i < self.tasks.len() && (#[trigger] self.tasks[i]).status == TaskStatus::Pending
                ==> self.queue.contains(self.tasks[i].id)
    }

    /// Whether every task record is well formed: see `is_well_formed`.
    pub open spec fn all_well_formed(self) -> bool {
        forall|i: int| 0 <= i < self.tasks.len() ==> is_well_formed(#[trigger] self.tasks[i])
    }

    /// No more tasks are Running than the limit allows.
    pub open spec fn within_limit(self) -> bool {
        self.running_count() <= self.max_concurrent_tasks
    }
}

} // verus!
