//! The executable scheduler.

use super::errors::{TaskError, TaskErrorView, TaskResult};
use super::events::{
    actions_view, events_view, host_actions, HostAction, HostActionView, TaskEvent,
    TaskEventView,
};
use super::lemmas;
use super::model::{
    canceled_events, canceled_if_active, completed_task, count_running, failed_task,
    is_clearable, is_supported_type, merged_progress, new_task, paused_events,
    paused_if_running, removed_events, resumed_events, resumed_if_paused, tasks_cancelable,
    tasks_cleared, tasks_in, tasks_kept, tasks_without_id, without_id, SchedulerState,
};
use super::snapshot::StoredState;
use super::stamps::{current_timestamp, fresh_task_id};
use super::task::{Task, TaskStatus, TaskView, PROGRESS_COMPLETE};
use crate::utils::text::wrapped;
use std::collections::HashMap;
use std::collections::VecDeque;
use vstd::prelude::*;
use vstd::string::*;

verus! {

/// Manages tasks and decides when they run.
pub struct TaskManager {
    tasks: Vec<Task>,
    queue: VecDeque<String>,
    max_concurrent_tasks: usize,
    is_queue_paused: bool,
}

/// A list of tasks, each read as its view.
pub open spec fn task_views(tasks: Seq<Task>) -> Seq<TaskView> {
    tasks.map_values(|t: Task| t@)
}

/// A list of strings, each read as its characters.
pub open spec fn id_views(ids: Seq<String>) -> Seq<Seq<char>> {
    ids.map_values(|s: String| s@)
}

/// What a command handed back, read as views.
pub open spec fn outcome_view(r: TaskResult<Vec<HostAction>>) -> Result<
    Seq<HostActionView>,
    TaskErrorView,
> {
    match r {
        Ok(actions) => Ok(actions_view(actions@)),
        Err(e) => Err(e@),
    }
}

impl View for TaskManager {
    type V = SchedulerState;

    closed spec fn view(&self) -> SchedulerState {
        SchedulerState {
            tasks: task_views(self.tasks@),
            queue: id_views(self.queue@),
            max_concurrent_tasks: self.max_concurrent_tasks,
            is_queue_paused: self.is_queue_paused,
        }
    }
}

impl TaskManager {
    /// A manager with no task, an empty queue that is not paused, and the
    /// given limit.
    pub fn new(max_concurrent_tasks: usize) -> (manager: TaskManager)
        ensures
            manager@ == SchedulerState::initial(max_concurrent_tasks),
    {
        let manager = TaskManager {
            tasks: Vec::new(),
            queue: VecDeque::new(),
            max_concurrent_tasks,
            is_queue_paused: false,
        };
        assert(manager@.tasks =~= Seq::empty());
        assert(manager@.queue =~= Seq::empty());
        manager
    }

    /// The place of the first task with this id.
    fn position(&self, id: &String) -> (r: Option<usize>)
        ensures
            r is Some <==> self@.has_task(id@),
            r is Some ==> self@.is_first_match(r->0 as int, id@) && self@.index_of(id@) == r->0
                && r->0 < self.tasks.len(),
    {
        let mut i: usize = 0;
        while i < self.tasks.len()
            invariant
                i <= self.tasks.len(),
                forall|j: int| 0 <= j < i ==> (#[trigger] self.tasks@[j]).id@ != id@,
            decreases self.tasks.len() - i,
        {
            if self.tasks[i].id == *id {
                proof {
                    assert(self@.tasks[i as int] == self.tasks@[i as int]@);
                    assert forall|j: int| 0 <= j < i implies (#[trigger] self@.tasks[j]).id
                        != id@ by {
                        assert(self@.tasks[j] == self.tasks@[j]@);
                    }
                    lemmas::lemma_first_match_is_index(self@, id@, i as int);
                }
                return Some(i);
            }
            i += 1;
        }
        proof {
            assert forall|j: int| 0 <= j < self@.tasks.len() implies (#[trigger] self@.tasks[j]).id
                != id@ by {
                assert(self@.tasks[j] == self.tasks@[j]@);
            }
        }
        None
    }

    /// The first task with this id.
    pub fn get_task(&self, task_id: &str) -> (r: TaskResult<Task>)
        ensures
            self@.has_task(task_id@) ==> r is Ok && r->Ok_0@ == self@.task(task_id@),
            !self@.has_task(task_id@) ==> r is Err && r->Err_0@ == TaskErrorView::TaskNotFound(
                task_id@,
            ),
    {
        let id = String::from_str(task_id);
        match self.position(&id) {
            Some(i) => Ok(self.tasks[i].clone()),
            None => Err(TaskError::TaskNotFound(id)),
        }
    }

    /// Every task, oldest first.
    pub fn get_all_tasks(&self) -> (tasks: Vec<Task>)
        ensures
            task_views(tasks@) == self@.tasks,
    {
        let mut out: Vec<Task> = Vec::new();
        let mut i: usize = 0;
        while i < self.tasks.len()
            invariant
                i <= self.tasks.len(),
                out@.len() == i,
                forall|j: int| 0 <= j < i ==> (#[trigger] out@[j])@ == self.tasks@[j]@,
            decreases self.tasks.len() - i,
        {
            out.push(self.tasks[i].clone());
            i += 1;
        }
        assert(task_views(out@) =~= self@.tasks);
        out
    }

    /// The ids in the queue, next one first.
    pub fn get_queue(&self) -> (queue: Vec<String>)
        ensures
            id_views(queue@) == self@.queue,
    {
        let mut out: Vec<String> = Vec::new();
        let mut i: usize = 0;
        while i < self.queue.len()
            invariant
                i <= self.queue.len(),
                out@.len() == i,
                forall|j: int| 0 <= j < i ==> (#[trigger] out@[j])@ == self.queue@[j]@,
            decreases self.queue.len() - i,
        {
            out.push(self.queue[i].clone());
            i += 1;
        }
        assert(id_views(out@) =~= self@.queue);
        out
    }

    /// The concurrency limit.
    pub fn get_max_concurrent_tasks(&self) -> (max: usize)
        ensures
            max == self@.max_concurrent_tasks,
    {
        self.max_concurrent_tasks
    }

    /// Whether the queue is paused.
    pub fn is_queue_paused(&self) -> (paused: bool)
        ensures
            paused == self@.is_queue_paused,
    {
        self.is_queue_paused
    }
}

impl TaskManager {
    /// How many tasks are Running.
    fn count_running(&self) -> (n: usize)
        ensures
            n == self@.running_count(),
    {
        let mut n: usize = 0;
        let mut i: usize = 0;
        while i < self.tasks.len()
            invariant
                i <= self.tasks.len(),
                n <= i,
                n == count_running(self@.tasks.take(i as int)),
            decreases self.tasks.len() - i,
        {
            proof {
                lemmas::lemma_count_running_take_step(self@.tasks, i as int);
                assert(self@.tasks[i as int] == self.tasks@[i as int]@);
            }
            if self.tasks[i].status == TaskStatus::Running {
                n += 1;
            }
            i += 1;
        }
        assert(self@.tasks.take(self.tasks.len() as int) =~= self@.tasks);
        n
    }

    /// Whether the queue holds this id.
    fn queue_contains(&self, id: &String) -> (found: bool)
        ensures
            found == self@.queue.contains(id@),
    {
        let mut i: usize = 0;
        while i < self.queue.len()
            invariant
                i <= self.queue.len(),
                forall|j: int| 0 <= j < i ==> (#[trigger] self.queue@[j])@ != id@,
            decreases self.queue.len() - i,
        {
            if self.queue[i] == *id {
                assert(self@.queue[i as int] == id@);
                return true;
            }
            i += 1;
        }
        assert forall|j: int| 0 <= j < self@.queue.len() implies self@.queue[j] != id@ by {
            assert(self@.queue[j] == self.queue@[j]@);
        }
        false
    }

    /// Takes every entry equal to this id out of the queue.
    fn dequeue(&mut self, id: &String)
        ensures
            final(self)@ == old(self)@.with_queue(without_id(old(self)@.queue, id@)),
    {
        let ghost before = self@.queue;
        let ghost keep = |q: Seq<char>| q != id@;
        let mut i: usize = 0;
        let ghost mut k: int = 0;
        while i < self.queue.len()
            invariant
                i <= self.queue.len(),
                0 <= k <= before.len(),
                self.queue.len() - i == before.len() - k,
                self@.queue.take(i as int) == before.take(k).filter(keep),
                self@.queue.skip(i as int) == before.skip(k),
                self.tasks == old(self).tasks,
                self.max_concurrent_tasks == old(self).max_concurrent_tasks,
                self.is_queue_paused == old(self).is_queue_paused,
                keep == (|q: Seq<char>| q != id@),
            decreases self.queue.len() - i,
        {
            let ghost current = self@.queue;
            proof {
                lemmas::lemma_filter_take_step(before, keep, k);
                assert(current[i as int] == current.skip(i as int)[0]);
                assert(before[k] == before.skip(k)[0]);
                assert(current[i as int] == self.queue@[i as int]@);
            }
            if self.queue[i] == *id {
                let _ = self.queue.remove(i);
                proof {
                    assert(self@.queue =~= current.remove(i as int));
                    assert(self@.queue.take(i as int) =~= current.take(i as int));
                    assert(self@.queue.skip(i as int) =~= current.skip(i as int).skip(1));
                    assert(before.skip(k + 1) =~= before.skip(k).skip(1));
                    k = k + 1;
                }
            } else {
                proof {
                    assert(current.take(i as int + 1) =~= current.take(i as int).push(
                        current[i as int],
                    ));
                    assert(current.skip(i as int + 1) =~= current.skip(i as int).skip(1));
                    assert(before.skip(k + 1) =~= before.skip(k).skip(1));
                    k = k + 1;
                }
                i += 1;
            }
        }
        proof {
            assert(self@.queue.take(i as int) =~= self@.queue);
            assert(before.take(k) =~= before);
        }
    }

    /// An `InvalidStatus` error whose text is "Task ", the id and `suffix`.
    fn invalid_status(task_id: &str, suffix: &str) -> (e: TaskError)
        ensures
            e@ == TaskErrorView::InvalidStatus("Task "@ + task_id@ + suffix@),
    {
        TaskError::InvalidStatus(wrapped("Task ", task_id, suffix))
    }

    /// Moves the task at place `i` from Pending to Running and takes its id
    /// out of the queue.
    fn mark_started(&mut self, i: usize, id: &String, now: &str)
        requires
            old(self)@.is_first_match(i as int, id@),
        ensures
            final(self)@ == old(self)@.started(id@, now@),
    {
        proof {
            lemmas::lemma_first_match_is_index(self@, id@, i as int);
            assert(self@.tasks[i as int] == self.tasks@[i as int]@);
        }
        let attempts = self.tasks[i].attempts;
        self.tasks[i].status = TaskStatus::Running;
        self.tasks[i].started_at = Some(String::from_str(now));
        self.tasks[i].attempts = if attempts < usize::MAX {
            attempts + 1
        } else {
            attempts
        };
        assert(self@.tasks =~= old(self)@.tasks.update(
            i as int,
            super::model::started_task(old(self)@.tasks[i as int], now@),
        ));
        self.dequeue(id);
    }

    /// Start a task at the time `now`: see `SchedulerState::start_task`.
    pub fn start_task_at(&mut self, task_id: &str, now: &str) -> (r: TaskResult<Vec<HostAction>>)
        ensures
            final(self)@ == old(self)@.start_task(task_id@, now@).next,
            outcome_view(r) == old(self)@.start_task(task_id@, now@).actions(),
    {
        let id = String::from_str(task_id);
        match self.position(&id) {
            None => Err(TaskError::TaskNotFound(id)),
            Some(i) => {
                assert(self@.tasks[i as int] == self.tasks@[i as int]@);
                if self.tasks[i].status != TaskStatus::Pending {
                    Err(Self::invalid_status(task_id, " is not in pending state"))
                } else if self.count_running() >= self.max_concurrent_tasks {
                    let events: Vec<TaskEvent> = Vec::new();
                    assert(events_view(events@) =~= Seq::empty());
                    Ok(host_actions(events))
                } else {
                    self.mark_started(i, &id, now);
                    let mut events: Vec<TaskEvent> = Vec::new();
                    events.push(TaskEvent::TaskStarted(id));
                    assert(events_view(events@) =~= seq![TaskEventView::TaskStarted(task_id@)]);
                    Ok(host_actions(events))
                }
            },
        }
    }
}

impl TaskManager {
    /// Gives the task at place `i` another status.
    fn set_status(&mut self, i: usize, id: &String, status: TaskStatus)
        requires
            old(self)@.is_first_match(i as int, id@),
        ensures
            final(self)@ == old(self)@.with_task(
                id@,
                super::model::with_status(old(self)@.task(id@), status),
            ),
    {
        proof {
            lemmas::lemma_first_match_is_index(self@, id@, i as int);
            assert(self@.tasks[i as int] == self.tasks@[i as int]@);
        }
        self.tasks[i].status = status;
        assert(self@.tasks =~= old(self)@.tasks.update(
            i as int,
            super::model::with_status(old(self)@.tasks[i as int], status),
        ));
        assert(self@.queue =~= old(self)@.queue);
    }

    /// A list that holds one event.
    fn one_event(event: TaskEvent) -> (events: Vec<TaskEvent>)
        ensures
            events_view(events@) == seq![event@],
    {
        let mut events: Vec<TaskEvent> = Vec::new();
        events.push(event);
        assert(events_view(events@) =~= seq![event@]);
        events
    }

    /// Adds one event at the end of a list.
    fn push_event(events: &mut Vec<TaskEvent>, event: TaskEvent)
        ensures
            events_view(final(events)@) == events_view(old(events)@).push(event@),
    {
        events.push(event);
        assert(events_view(events@) =~= events_view(old(events)@).push(event@));
    }

    /// Pause a task: see `SchedulerState::pause_task`.
    pub fn pause_task(&mut self, task_id: &str) -> (r: TaskResult<Vec<HostAction>>)
        ensures
            final(self)@ == old(self)@.pause_task(task_id@).next,
            outcome_view(r) == old(self)@.pause_task(task_id@).actions(),
    {
        let id = String::from_str(task_id);
        match self.position(&id) {
            None => Err(TaskError::TaskNotFound(id)),
            Some(i) => {
                assert(self@.tasks[i as int] == self.tasks@[i as int]@);
                if self.tasks[i].status != TaskStatus::Running {
                    Err(Self::invalid_status(task_id, " is not in running state"))
                } else {
                    self.set_status(i, &id, TaskStatus::Paused);
                    Ok(host_actions(Self::one_event(TaskEvent::TaskPaused(id))))
                }
            },
        }
    }

    /// Resume a task: see `SchedulerState::resume_task`.
    pub fn resume_task(&mut self, task_id: &str) -> (r: TaskResult<Vec<HostAction>>)
        ensures
            final(self)@ == old(self)@.resume_task(task_id@).next,
            outcome_view(r) == old(self)@.resume_task(task_id@).actions(),
    {
        let id = String::from_str(task_id);
        match self.position(&id) {
            None => Err(TaskError::TaskNotFound(id)),
            Some(i) => {
                assert(self@.tasks[i as int] == self.tasks@[i as int]@);
                if self.tasks[i].status != TaskStatus::Paused {
                    Err(Self::invalid_status(task_id, " is not in paused state"))
                } else {
                    self.set_status(i, &id, TaskStatus::Running);
                    Ok(host_actions(Self::one_event(TaskEvent::TaskResumed(id))))
                }
            },
        }
    }

    /// Cancel a task at the time `now`: see `SchedulerState::cancel_task`.
    pub fn cancel_task_at(&mut self, task_id: &str, now: &str) -> (r: TaskResult<Vec<HostAction>>)
        ensures
            final(self)@ == old(self)@.cancel_task(task_id@, now@).next,
            outcome_view(r) == old(self)@.cancel_task(task_id@, now@).actions(),
    {
        let id = String::from_str(task_id);
        match self.position(&id) {
            None => Err(TaskError::TaskNotFound(id)),
            Some(i) => {
                assert(self@.tasks[i as int] == self.tasks@[i as int]@);
                let status = self.tasks[i].status;
                if status != TaskStatus::Running && status != TaskStatus::Paused && status
                    != TaskStatus::Pending {
                    Err(Self::invalid_status(task_id, " cannot be canceled in its current state"))
                } else {
                    self.tasks[i].status = TaskStatus::Canceled;
                    self.tasks[i].completed_at = Some(String::from_str(now));
                    assert(self@.tasks =~= old(self)@.tasks.update(
                        i as int,
                        super::model::canceled_task(old(self)@.tasks[i as int], now@),
                    ));
                    assert(self@.queue =~= old(self)@.queue);
                    self.dequeue(&id);
                    Ok(host_actions(Self::one_event(TaskEvent::TaskCanceled(id))))
                }
            },
        }
    }

    /// Retry a task at the time `now`: see `SchedulerState::retry_task`.
    pub fn retry_task_at(&mut self, task_id: &str, now: &str) -> (r: TaskResult<Vec<HostAction>>)
        ensures
            final(self)@ == old(self)@.retry_task(task_id@, now@).next,
            outcome_view(r) == old(self)@.retry_task(task_id@, now@).actions(),
    {
        let id = String::from_str(task_id);
        match self.position(&id) {
            None => Err(TaskError::TaskNotFound(id)),
            Some(i) => {
                assert(self@.tasks[i as int] == self.tasks@[i as int]@);
                let status = self.tasks[i].status;
                if status != TaskStatus::Failed && status != TaskStatus::Canceled {
                    return Err(
                        Self::invalid_status(task_id, " cannot be retried in its current state"),
                    );
                }
                let free = !self.is_queue_paused && self.count_running()
                    < self.max_concurrent_tasks;
                let queued = self.queue_contains(&id);
                self.tasks[i].status = TaskStatus::Pending;
                self.tasks[i].progress = 0;
                self.tasks[i].error = None;
                self.tasks[i].completed_at = None;
                assert(self@.tasks =~= old(self)@.tasks.update(
                    i as int,
                    super::model::retried_task(old(self)@.tasks[i as int]),
                ));
                if !queued {
                    self.queue.push_back(id.clone());
                    assert(self@.queue =~= old(self)@.queue.push(id@));
                } else {
                    assert(self@.queue =~= old(self)@.queue);
                }
                assert(self@ == old(self)@.requeued(id@));
                let mut events = Self::one_event(TaskEvent::TaskRetried(id.clone()));
                if free {
                    proof {
                        assert forall|j: int| 0 <= j < i implies (#[trigger] self@.tasks[j]).id
                            != id@ by {
                            assert(self@.tasks[j] == old(self)@.tasks[j]);
                        }
                    }
                    self.mark_started(i, &id, now);
                    Self::push_event(&mut events, TaskEvent::TaskStarted(id));
                    assert(events_view(events@) =~= seq![
                        TaskEventView::TaskRetried(task_id@),
                        TaskEventView::TaskStarted(task_id@),
                    ]);
                }
                Ok(host_actions(events))
            },
        }
    }

    /// Records a progress report for a task, and asks the host to persist
    /// the state. A report above complete counts as complete, and a Running
    /// task never shows less than it did.
    pub fn update_task_progress(&mut self, task_id: &str, progress: u32) -> (r: TaskResult<
        Vec<HostAction>,
    >)
        ensures
            old(self)@.has_task(task_id@) ==> final(self)@ == old(self)@.progressed(
                task_id@,
                progress,
            ) && outcome_view(r) == Ok::<Seq<HostActionView>, TaskErrorView>(
                seq![HostActionView::Persist],
            ),
            !old(self)@.has_task(task_id@) ==> final(self)@ == old(self)@ && outcome_view(r)
                == Err::<Seq<HostActionView>, TaskErrorView>(
                TaskErrorView::TaskNotFound(task_id@),
            ),
    {
        let id = String::from_str(task_id);
        match self.position(&id) {
            None => Err(TaskError::TaskNotFound(id)),
            Some(i) => {
                assert(self@.tasks[i as int] == self.tasks@[i as int]@);
                let capped = if progress > PROGRESS_COMPLETE {
                    PROGRESS_COMPLETE
                } else {
                    progress
                };
                let shown = self.tasks[i].progress;
                let merged = if self.tasks[i].status == TaskStatus::Running && capped < shown {
                    shown
                } else {
                    capped
                };
                self.tasks[i].progress = merged;
                assert(self@.tasks =~= old(self)@.tasks.update(
                    i as int,
                    TaskView {
                        progress: merged_progress(old(self)@.tasks[i as int], progress),
                        ..old(self)@.tasks[i as int]
                    },
                ));
                assert(self@.queue =~= old(self)@.queue);
                let mut actions: Vec<HostAction> = Vec::new();
                actions.push(HostAction::Persist);
                assert(actions_view(actions@) =~= seq![HostActionView::Persist]);
                Ok(actions)
            },
        }
    }
}

/// Whether `task_type` names one of the four kinds of work.
pub fn is_supported_task_type(task_type: &str) -> (supported: bool)
    ensures
        supported == is_supported_type(task_type@),
{
    let given = String::from_str(task_type);
    given == String::from_str("convert") || given == String::from_str("split") || given
        == String::from_str("edit") || given == String::from_str("sanitize")
}

impl TaskManager {
    /// Adds a Pending task with the given id and creation time at the end of
    /// the list and of the queue, and returns the id. A task type outside the
    /// supported set is refused and nothing changes.
    pub fn create_task_with(
        &mut self,
        input_path: String,
        output_path: String,
        task_type: String,
        config: HashMap<String, String>,
        task_id: String,
        created_at: String,
    ) -> (r: TaskResult<String>)
        ensures
            is_supported_type(task_type@) ==> r is Ok && r->Ok_0@ == task_id@ && final(self)@
                == old(self)@.created(
                new_task(
                    task_id@,
                    input_path@,
                    output_path@,
                    task_type@,
                    config@,
                    created_at@,
                ),
            ),
            !is_supported_type(task_type@) ==> r is Err && r->Err_0@
                == TaskErrorView::UnsupportedTaskType(task_type@) && final(self)@ == old(self)@,
    {
        if !is_supported_task_type(task_type.as_str()) {
            return Err(TaskError::UnsupportedTaskType(task_type));
        }
        let task = Task {
            id: task_id.clone(),
            input_path,
            output_path,
            status: TaskStatus::Pending,
            progress: 0,
            error: None,
            attempts: 0,
            created_at,
            started_at: None,
            completed_at: None,
            task_type,
            config,
        };
        self.tasks.push(task);
        self.queue.push_back(task_id.clone());
        assert(self@.tasks =~= old(self)@.tasks.push(task@));
        assert(self@.queue =~= old(self)@.queue.push(task_id@));
        Ok(task_id)
    }

    /// Takes every task with this id out of the list.
    fn drop_tasks(&mut self, id: &String)
        ensures
            final(self)@ == (SchedulerState {
                tasks: tasks_without_id(old(self)@.tasks, id@),
                ..old(self)@
            }),
    {
        let ghost before = self@.tasks;
        let mut i: usize = 0;
        let ghost mut k: int = 0;
        while i < self.tasks.len()
            invariant
                i <= self.tasks.len(),
                0 <= k <= before.len(),
                self.tasks.len() - i == before.len() - k,
                self@.tasks.take(i as int) == tasks_without_id(before.take(k), id@),
                self@.tasks.skip(i as int) == before.skip(k),
                self.queue == old(self).queue,
                self.max_concurrent_tasks == old(self).max_concurrent_tasks,
                self.is_queue_paused == old(self).is_queue_paused,
            decreases self.tasks.len() - i,
        {
            let ghost current = self@.tasks;
            proof {
                lemmas::lemma_tasks_without_id_step(before, id@, k);
                assert(current[i as int] == current.skip(i as int)[0]);
                assert(before[k] == before.skip(k)[0]);
                assert(current[i as int] == self.tasks@[i as int]@);
            }
            if self.tasks[i].id == *id {
                let _ = self.tasks.remove(i);
                proof {
                    assert(self@.tasks =~= current.remove(i as int));
                    assert(self@.tasks.take(i as int) =~= current.take(i as int));
                    assert(self@.tasks.skip(i as int) =~= current.skip(i as int).skip(1));
                    assert(before.skip(k + 1) =~= before.skip(k).skip(1));
                    k = k + 1;
                }
            } else {
                proof {
                    assert(current.take(i as int + 1) =~= current.take(i as int).push(
                        current[i as int],
                    ));
                    assert(current.skip(i as int + 1) =~= current.skip(i as int).skip(1));
                    assert(before.skip(k + 1) =~= before.skip(k).skip(1));
                    k = k + 1;
                }
                i += 1;
            }
        }
        proof {
            assert(self@.tasks.take(i as int) =~= self@.tasks);
            assert(before.take(k) =~= before);
        }
    }

    /// Remove a task: see `SchedulerState::remove_task`.
    pub fn remove_task(&mut self, task_id: &str) -> (r: TaskResult<Vec<HostAction>>)
        ensures
            final(self)@ == old(self)@.remove_task(task_id@).next,
            outcome_view(r) == old(self)@.remove_task(task_id@).actions(),
    {
        let id = String::from_str(task_id);
        match self.position(&id) {
            None => Err(TaskError::TaskNotFound(id)),
            Some(i) => {
                assert(self@.tasks[i as int] == self.tasks@[i as int]@);
                let status = self.tasks[i].status;
                if status == TaskStatus::Running || status == TaskStatus::Paused {
                    Err(
                        Self::invalid_status(
                            task_id,
                            " cannot be removed while running or paused",
                        ),
                    )
                } else {
                    self.drop_tasks(&id);
                    self.dequeue(&id);
                    Ok(host_actions(Self::one_event(TaskEvent::TaskRemoved(id))))
                }
            },
        }
    }

    /// Whether some task with this id is Completed or Canceled.
    fn is_cleared_id(&self, id: &String) -> (cleared: bool)
        ensures
            cleared == self@.is_cleared_id(id@),
    {
        let mut i: usize = 0;
        while i < self.tasks.len()
            invariant
                i <= self.tasks.len(),
                forall|j: int|
                    0 <= j < i ==> !((#[trigger] self.tasks@[j]).id@ == id@ && is_clearable(
                        self.tasks@[j].status,
                    )),
            decreases self.tasks.len() - i,
        {
            let status = self.tasks[i].status;
            if self.tasks[i].id == *id && (status == TaskStatus::Completed || status
                == TaskStatus::Canceled) {
                assert(self@.tasks[i as int] == self.tasks@[i as int]@);
                return true;
            }
            i += 1;
        }
        assert forall|j: int| 0 <= j < self@.tasks.len() implies !((#[trigger] self@.tasks[j]).id
            == id@ && is_clearable(self@.tasks[j].status)) by {
            assert(self@.tasks[j] == self.tasks@[j]@);
        }
        false
    }

    /// Takes the ids of Completed and Canceled tasks out of the queue.
    fn dequeue_cleared(&mut self)
        ensures
            final(self)@ == old(self)@.with_queue(old(self)@.ids_not_cleared(old(self)@.queue)),
    {
        let ghost start = self@;
        let ghost before = self@.queue;
        let mut i: usize = 0;
        let ghost mut k: int = 0;
        while i < self.queue.len()
            invariant
                i <= self.queue.len(),
                0 <= k <= before.len(),
                self.queue.len() - i == before.len() - k,
                self@.queue.take(i as int) == start.ids_not_cleared(before.take(k)),
                self@.queue.skip(i as int) == before.skip(k),
                self@.tasks == start.tasks,
                self.tasks == old(self).tasks,
                self.max_concurrent_tasks == old(self).max_concurrent_tasks,
                self.is_queue_paused == old(self).is_queue_paused,
                start == old(self)@,
                before == start.queue,
            decreases self.queue.len() - i,
        {
            let ghost current = self@.queue;
            proof {
                lemmas::lemma_ids_not_cleared_step(start, before, k);
                assert(current[i as int] == current.skip(i as int)[0]);
                assert(before[k] == before.skip(k)[0]);
                assert(current[i as int] == self.queue@[i as int]@);
                assert forall|q: Seq<char>| self@.is_cleared_id(q) == start.is_cleared_id(q) by {}
            }
            let cleared = self.is_cleared_id(&self.queue[i]);
            if cleared {
                let _ = self.queue.remove(i);
                proof {
                    assert(self@.queue =~= current.remove(i as int));
                    assert(self@.queue.take(i as int) =~= current.take(i as int));
                    assert(self@.queue.skip(i as int) =~= current.skip(i as int).skip(1));
                    assert(before.skip(k + 1) =~= before.skip(k).skip(1));
                    k = k + 1;
                }
            } else {
                proof {
                    assert(current.take(i as int + 1) =~= current.take(i as int).push(
                        current[i as int],
                    ));
                    assert(current.skip(i as int + 1) =~= current.skip(i as int).skip(1));
                    assert(before.skip(k + 1) =~= before.skip(k).skip(1));
                    k = k + 1;
                }
                i += 1;
            }
        }
        proof {
            assert(self@.queue.take(i as int) =~= self@.queue);
            assert(before.take(k) =~= before);
        }
    }

    /// Takes every Completed and Canceled task out of the list and returns
    /// one removal event for each.
    fn drop_cleared(&mut self) -> (events: Vec<TaskEvent>)
        ensures
            final(self)@ == (SchedulerState {
                tasks: tasks_kept(old(self)@.tasks),
                ..old(self)@
            }),
            events_view(events@) == removed_events(tasks_cleared(old(self)@.tasks)),
    {
        let ghost before = self@.tasks;
        let mut events: Vec<TaskEvent> = Vec::new();
        let mut i: usize = 0;
        let ghost mut k: int = 0;
        assert(events_view(events@) =~= removed_events(tasks_cleared(before.take(0))));
        while i < self.tasks.len()
            invariant
                i <= self.tasks.len(),
                0 <= k <= before.len(),
                self.tasks.len() - i == before.len() - k,
                self@.tasks.take(i as int) == tasks_kept(before.take(k)),
                self@.tasks.skip(i as int) == before.skip(k),
                events_view(events@) == removed_events(tasks_cleared(before.take(k))),
                self.queue == old(self).queue,
                self.max_concurrent_tasks == old(self).max_concurrent_tasks,
                self.is_queue_paused == old(self).is_queue_paused,
            decreases self.tasks.len() - i,
        {
            let ghost current = self@.tasks;
            proof {
                lemmas::lemma_tasks_kept_step(before, k);
                lemmas::lemma_removed_events_step(before, k);
                assert(current[i as int] == current.skip(i as int)[0]);
                assert(before[k] == before.skip(k)[0]);
                assert(current[i as int] == self.tasks@[i as int]@);
            }
            let status = self.tasks[i].status;
            if status == TaskStatus::Completed || status == TaskStatus::Canceled {
                let task = self.tasks.remove(i);
                Self::push_event(&mut events, TaskEvent::TaskRemoved(task.id));
                proof {
                    assert(self@.tasks =~= current.remove(i as int));
                    assert(self@.tasks.take(i as int) =~= current.take(i as int));
                    assert(self@.tasks.skip(i as int) =~= current.skip(i as int).skip(1));
                    assert(before.skip(k + 1) =~= before.skip(k).skip(1));
                    k = k + 1;
                }
            } else {
                proof {
                    assert(current.take(i as int + 1) =~= current.take(i as int).push(
                        current[i as int],
                    ));
                    assert(current.skip(i as int + 1) =~= current.skip(i as int).skip(1));
                    assert(before.skip(k + 1) =~= before.skip(k).skip(1));
                    k = k + 1;
                }
                i += 1;
            }
        }
        proof {
            assert(self@.tasks.take(i as int) =~= self@.tasks);
            assert(before.take(k) =~= before);
        }
        events
    }

    /// Clear the finished tasks: see `SchedulerState::clear_completed_tasks`.
    pub fn clear_completed_tasks(&mut self) -> (r: TaskResult<Vec<HostAction>>)
        ensures
            final(self)@ == old(self)@.clear_completed_tasks().next,
            outcome_view(r) == old(self)@.clear_completed_tasks().actions(),
    {
        self.dequeue_cleared();
        let events = self.drop_cleared();
        Ok(host_actions(events))
    }
}

impl TaskManager {
    /// Replaces the queue by a copy of `ids`.
    fn replace_queue(&mut self, ids: &Vec<String>)
        ensures
            final(self)@ == old(self)@.with_queue(id_views(ids@)),
    {
        self.queue.clear();
        let mut k: usize = 0;
        assert(self@.queue =~= id_views(ids@).take(0));
        while k < ids.len()
            invariant
                k <= ids.len(),
                self@.queue == id_views(ids@).take(k as int),
                self.tasks == old(self).tasks,
                self.max_concurrent_tasks == old(self).max_concurrent_tasks,
                self.is_queue_paused == old(self).is_queue_paused,
            decreases ids.len() - k,
        {
            let ghost current = self@.queue;
            self.queue.push_back(ids[k].clone());
            assert(self@.queue =~= current.push(ids@[k as int]@));
            assert(id_views(ids@).take(k as int + 1) =~= id_views(ids@).take(k as int).push(
                ids@[k as int]@,
            ));
            k += 1;
        }
        assert(id_views(ids@).take(ids.len() as int) =~= id_views(ids@));
    }

    /// Reorder the queue: see `SchedulerState::reorder_tasks`.
    pub fn reorder_tasks(&mut self, new_order: Vec<String>) -> (r: TaskResult<Vec<HostAction>>)
        ensures
            final(self)@ == old(self)@.reorder_tasks(id_views(new_order@)).next,
            outcome_view(r) == old(self)@.reorder_tasks(id_views(new_order@)).actions(),
    {
        let ghost order = id_views(new_order@);
        let mut k: usize = 0;
        while k < new_order.len()
            invariant
                k <= new_order.len(),
                order == id_views(new_order@),
                forall|j: int| 0 <= j < k ==> self@.has_task(#[trigger] order[j]),
                self == old(self),
            decreases new_order.len() - k,
        {
            assert(order[k as int] == new_order@[k as int]@);
            if self.position(&new_order[k]).is_none() {
                proof {
                    assert(self@.is_first_unknown(order, k as int));
                    let c = choose|c: int| self@.is_first_unknown(order, c);
                    assert(self@.is_first_unknown(order, c));
                    assert(c == k);
                    assert(!self@.knows_all(order));
                }
                return Err(TaskError::TaskNotFound(new_order[k].clone()));
            }
            k += 1;
        }
        self.replace_queue(&new_order);
        Ok(host_actions(Self::one_event(TaskEvent::QueueReordered)))
    }

    /// Pause the queue: see `SchedulerState::pause_queue`.
    pub fn pause_queue(&mut self) -> (r: TaskResult<Vec<HostAction>>)
        ensures
            final(self)@ == old(self)@.pause_queue().next,
            outcome_view(r) == old(self)@.pause_queue().actions(),
    {
        let ghost before = self@.tasks;
        self.is_queue_paused = true;
        let mut events: Vec<TaskEvent> = Vec::new();
        let mut i: usize = 0;
        assert(events_view(events@) =~= paused_events(
            tasks_in(before.take(0), TaskStatus::Running),
        ));
        while i < self.tasks.len()
            invariant
                i <= self.tasks.len(),
                self.tasks.len() == before.len(),
                forall|j: int|
                    0 <= j < i ==> (#[trigger] self.tasks@[j])@ == paused_if_running(before[j]),
                forall|j: int| i <= j < before.len() ==> (#[trigger] self.tasks@[j])@ == before[j],
                events_view(events@) == paused_events(
                    tasks_in(before.take(i as int), TaskStatus::Running),
                ),
                self.queue == old(self).queue,
                self.max_concurrent_tasks == old(self).max_concurrent_tasks,
                self.is_queue_paused,
            decreases self.tasks.len() - i,
        {
            proof {
                lemmas::lemma_paused_events_step(before, i as int);
            }
            if self.tasks[i].status == TaskStatus::Running {
                self.tasks[i].status = TaskStatus::Paused;
                Self::push_event(&mut events, TaskEvent::TaskPaused(self.tasks[i].id.clone()));
            }
            i += 1;
        }
        Self::push_event(&mut events, TaskEvent::QueuePaused);
        proof {
            assert(before.take(before.len() as int) =~= before);
            assert(self@.tasks =~= before.map_values(|t: TaskView| paused_if_running(t)));
            assert(self@.queue =~= old(self)@.queue);
        }
        Ok(host_actions(events))
    }

    /// Cancel the queue at the time `now`: see `SchedulerState::cancel_queue`.
    pub fn cancel_queue_at(&mut self, now: &str) -> (r: TaskResult<Vec<HostAction>>)
        ensures
            final(self)@ == old(self)@.cancel_queue(now@).next,
            outcome_view(r) == old(self)@.cancel_queue(now@).actions(),
    {
        let ghost before = self@.tasks;
        let mut events: Vec<TaskEvent> = Vec::new();
        let mut i: usize = 0;
        assert(events_view(events@) =~= canceled_events(tasks_cancelable(before.take(0))));
        while i < self.tasks.len()
            invariant
                i <= self.tasks.len(),
                self.tasks.len() == before.len(),
                forall|j: int|
                    0 <= j < i ==> (#[trigger] self.tasks@[j])@ == canceled_if_active(
                        before[j],
                        now@,
                    ),
                forall|j: int| i <= j < before.len() ==> (#[trigger] self.tasks@[j])@ == before[j],
                events_view(events@) == canceled_events(tasks_cancelable(before.take(i as int))),
                self.queue == old(self).queue,
                self.max_concurrent_tasks == old(self).max_concurrent_tasks,
                self.is_queue_paused == old(self).is_queue_paused,
            decreases self.tasks.len() - i,
        {
            proof {
                lemmas::lemma_canceled_events_step(before, i as int);
            }
            let status = self.tasks[i].status;
            if status == TaskStatus::Pending || status == TaskStatus::Running || status
                == TaskStatus::Paused {
                self.tasks[i].status = TaskStatus::Canceled;
                self.tasks[i].completed_at = Some(String::from_str(now));
                Self::push_event(&mut events, TaskEvent::TaskCanceled(self.tasks[i].id.clone()));
            }
            i += 1;
        }
        self.queue.clear();
        Self::push_event(&mut events, TaskEvent::QueueCanceled);
        proof {
            assert(before.take(before.len() as int) =~= before);
            assert(self@.tasks =~= before.map_values(|t: TaskView| canceled_if_active(t, now@)));
            assert(self@.queue =~= Seq::empty());
        }
        Ok(host_actions(events))
    }

    /// Clears the pause flag, lets every Paused task run again and returns
    /// one resume event for each.
    fn resume_all(&mut self) -> (events: Vec<TaskEvent>)
        ensures
            final(self)@ == old(self)@.all_resumed(),
            events_view(events@) == resumed_events(tasks_in(old(self)@.tasks, TaskStatus::Paused)),
    {
        let ghost before = self@.tasks;
        self.is_queue_paused = false;
        let mut events: Vec<TaskEvent> = Vec::new();
        let mut i: usize = 0;
        assert(events_view(events@) =~= resumed_events(
            tasks_in(before.take(0), TaskStatus::Paused),
        ));
        while i < self.tasks.len()
            invariant
                i <= self.tasks.len(),
                self.tasks.len() == before.len(),
                forall|j: int|
                    0 <= j < i ==> (#[trigger] self.tasks@[j])@ == resumed_if_paused(before[j]),
                forall|j: int| i <= j < before.len() ==> (#[trigger] self.tasks@[j])@ == before[j],
                events_view(events@) == resumed_events(
                    tasks_in(before.take(i as int), TaskStatus::Paused),
                ),
                self.queue == old(self).queue,
                self.max_concurrent_tasks == old(self).max_concurrent_tasks,
                !self.is_queue_paused,
            decreases self.tasks.len() - i,
        {
            proof {
                lemmas::lemma_resumed_events_step(before, i as int);
            }
            if self.tasks[i].status == TaskStatus::Paused {
                self.tasks[i].status = TaskStatus::Running;
                Self::push_event(&mut events, TaskEvent::TaskResumed(self.tasks[i].id.clone()));
            }
            i += 1;
        }
        proof {
            assert(before.take(before.len() as int) =~= before);
            assert(self@.tasks =~= before.map_values(|t: TaskView| resumed_if_paused(t)));
            assert(self@.queue =~= old(self)@.queue);
        }
        events
    }
}

impl TaskManager {
    /// Walks the queue as it stands and starts each Pending task while a
    /// slot is free.
    fn fill_slots(&mut self, now: &str) -> (events: Vec<TaskEvent>)
        ensures
            final(self)@ == old(self)@.admitted(old(self)@.queue, now@),
            events_view(events@) == old(self)@.admission_events(old(self)@.queue, now@),
    {
        let ids = self.get_queue();
        let ghost order = id_views(ids@);
        let ghost start = self@;
        let mut running = self.count_running();
        let mut events: Vec<TaskEvent> = Vec::new();
        let mut k: usize = 0;
        assert(order.skip(0) =~= order);
        assert(events_view(events@) =~= Seq::empty());
        while k < ids.len()
            invariant
                k <= ids.len(),
                order == id_views(ids@),
                running == self@.running_count(),
                self@.admitted(order.skip(k as int), now@) == start.admitted(order, now@),
                events_view(events@) + self@.admission_events(order.skip(k as int), now@)
                    == start.admission_events(order, now@),
            decreases ids.len() - k,
        {
            let ghost here = self@;
            let ghost told = events_view(events@);
            proof {
                lemmas::lemma_admission_step(here, order, k as int, now@);
                assert(order[k as int] == ids@[k as int]@);
            }
            if running < self.max_concurrent_tasks {
                match self.position(&ids[k]) {
                    Some(i) => {
                        assert(self@.tasks[i as int] == self.tasks@[i as int]@);
                        if self.tasks[i].status == TaskStatus::Pending {
                            proof {
                                lemmas::lemma_started(here, order[k as int], now@);
                            }
                            self.mark_started(i, &ids[k], now);
                            running += 1;
                            Self::push_event(&mut events, TaskEvent::StartTask(ids[k].clone()));
                            Self::push_event(&mut events, TaskEvent::TaskStarted(ids[k].clone()));
                            proof {
                                let first = seq![
                                    TaskEventView::StartTask(order[k as int]),
                                    TaskEventView::TaskStarted(order[k as int]),
                                ];
                                let rest = self@.admission_events(order.skip(k as int + 1), now@);
                                assert(events_view(events@) =~= told + first);
                                assert((told + first) + rest =~= told + (first + rest));
                            }
                        }
                    },
                    None => {},
                }
            }
            k += 1;
        }
        proof {
            assert(order.skip(ids.len() as int) =~= Seq::empty());
            assert(events_view(events@) + Seq::empty() =~= events_view(events@));
        }
        events
    }

    /// Run admission at the time `now`: see
    /// `SchedulerState::process_next_tasks`.
    pub fn process_next_tasks_at(&mut self, now: &str) -> (r: TaskResult<Vec<HostAction>>)
        ensures
            final(self)@ == old(self)@.process_next_tasks(now@).next,
            outcome_view(r) == old(self)@.process_next_tasks(now@).actions(),
    {
        if self.is_queue_paused {
            let events: Vec<TaskEvent> = Vec::new();
            assert(events_view(events@) =~= Seq::empty());
            return Ok(host_actions(events));
        }
        Ok(host_actions(self.fill_slots(now)))
    }

    /// Adds the events of `more` at the end of `events`.
    fn append_events(events: &mut Vec<TaskEvent>, more: Vec<TaskEvent>)
        ensures
            events_view(final(events)@) == events_view(old(events)@) + events_view(more@),
    {
        let mut rest = more;
        events.append(&mut rest);
        assert(events_view(events@) =~= events_view(old(events)@) + events_view(more@));
    }

    /// Resume the queue at the time `now`: see `SchedulerState::resume_queue`.
    pub fn resume_queue_at(&mut self, now: &str) -> (r: TaskResult<Vec<HostAction>>)
        ensures
            final(self)@ == old(self)@.resume_queue(now@).next,
            outcome_view(r) == old(self)@.resume_queue(now@).actions(),
    {
        let mut events = self.resume_all();
        let admitted = self.fill_slots(now);
        Self::append_events(&mut events, admitted);
        Self::push_event(&mut events, TaskEvent::QueueResumed);
        proof {
            let resumed = old(self)@.all_resumed();
            let a = resumed_events(tasks_in(old(self)@.tasks, TaskStatus::Paused));
            let b = resumed.admission_events(resumed.queue, now@);
            assert((a + b).push(TaskEventView::QueueResumed) =~= a + b.push(
                TaskEventView::QueueResumed,
            ));
        }
        Ok(host_actions(events))
    }

    /// Start the queue at the time `now`: see `SchedulerState::start_queue`.
    pub fn start_queue_at(&mut self, now: &str) -> (r: TaskResult<Vec<HostAction>>)
        ensures
            final(self)@ == old(self)@.start_queue(now@).next,
            outcome_view(r) == old(self)@.start_queue(now@).actions(),
    {
        if self.is_queue_paused {
            return self.resume_queue_at(now);
        }
        let mut events = self.fill_slots(now);
        Self::push_event(&mut events, TaskEvent::QueueStarted);
        Ok(host_actions(events))
    }

    /// Set the concurrency limit at the time `now`: see
    /// `SchedulerState::set_max_concurrent_tasks`.
    pub fn set_max_concurrent_tasks_at(&mut self, max: usize, now: &str) -> (r: TaskResult<
        Vec<HostAction>,
    >)
        ensures
            final(self)@ == old(self)@.set_max_concurrent_tasks(max, now@).next,
            outcome_view(r) == old(self)@.set_max_concurrent_tasks(max, now@).actions(),
    {
        let raised = max > self.max_concurrent_tasks;
        self.max_concurrent_tasks = max;
        let mut events = Self::one_event(TaskEvent::MaxConcurrentTasksChanged(max));
        if raised && !self.is_queue_paused {
            let admitted = self.fill_slots(now);
            Self::append_events(&mut events, admitted);
        } else {
            assert(events_view(events@) + Seq::empty() =~= events_view(events@));
        }
        Ok(host_actions(events))
    }
}

/// The engine's failure message, if its result is a failure.
pub open spec fn failure_of(result: Result<(), TaskError>) -> Option<Seq<char>> {
    match result {
        Ok(_) => None,
        Err(e) => Some(e@.message()),
    }
}

impl TaskManager {
    /// Applies the engine's result to the task, if the task is Running.
    fn settle(&mut self, id: &String, result: Result<(), TaskError>, now: &str) -> (events: Vec<
        TaskEvent,
    >)
        ensures
            final(self)@ == old(self)@.settled(id@, failure_of(result), now@),
            events_view(events@) == old(self)@.settle_events(id@, failure_of(result), now@),
    {
        let mut events: Vec<TaskEvent> = Vec::new();
        assert(events_view(events@) =~= Seq::empty());
        let i = match self.position(id) {
            Some(i) => i,
            None => {
                return events;
            },
        };
        assert(self@.tasks[i as int] == self.tasks@[i as int]@);
        if self.tasks[i].status != TaskStatus::Running {
            return events;
        }
        self.tasks[i].completed_at = Some(String::from_str(now));
        match result {
            Ok(_) => {
                self.tasks[i].status = TaskStatus::Completed;
                self.tasks[i].progress = PROGRESS_COMPLETE;
                assert(self@.tasks =~= old(self)@.tasks.update(
                    i as int,
                    completed_task(old(self)@.tasks[i as int], now@),
                ));
                assert(self@.queue =~= old(self)@.queue);
                Self::push_event(&mut events, TaskEvent::TaskUpdated(self.tasks[i].clone()));
                Self::push_event(&mut events, TaskEvent::TaskCompleted(id.clone()));
                assert(events_view(events@) =~= seq![
                    TaskEventView::TaskUpdated(completed_task(old(self)@.task(id@), now@)),
                    TaskEventView::TaskCompleted(id@),
                ]);
            },
            Err(e) => {
                let error = e.message();
                self.tasks[i].status = TaskStatus::Failed;
                self.tasks[i].error = Some(error.clone());
                assert(self@.tasks =~= old(self)@.tasks.update(
                    i as int,
                    failed_task(old(self)@.tasks[i as int], error@, now@),
                ));
                assert(self@.queue =~= old(self)@.queue);
                Self::push_event(&mut events, TaskEvent::TaskUpdated(self.tasks[i].clone()));
                Self::push_event(&mut events, TaskEvent::TaskFailed(id.clone(), error));
                assert(events_view(events@) =~= seq![
                    TaskEventView::TaskUpdated(failed_task(old(self)@.task(id@), error@, now@)),
                    TaskEventView::TaskFailed(id@, error@),
                ]);
            },
        }
        events
    }

    /// Takes the engine's result for a task at the time `now`: see
    /// `SchedulerState::finish_task`. A failure is recorded with the text of
    /// its error.
    pub fn finish_task_at(&mut self, task_id: &str, result: Result<(), TaskError>, now: &str) -> (r:
        TaskResult<Vec<HostAction>>)
        ensures
            final(self)@ == old(self)@.finish_task(task_id@, failure_of(result), now@).next,
            outcome_view(r) == old(self)@.finish_task(task_id@, failure_of(result), now@).actions(),
    {
        let id = String::from_str(task_id);
        let mut events = self.settle(&id, result, now);
        if !self.is_queue_paused {
            let admitted = self.fill_slots(now);
            Self::append_events(&mut events, admitted);
        } else {
            assert(events_view(events@) + Seq::empty() =~= events_view(events@));
        }
        Ok(host_actions(events))
    }

    /// The progress callback of the engine: the event to publish for the
    /// report, and whether the engine should go on. It should stop once the
    /// task is gone, Canceled or Paused.
    pub fn report_progress(&self, task_id: &str, progress: u32) -> (r: (TaskEvent, bool))
        ensures
            r.0@ == TaskEventView::TaskProgress(task_id@, progress),
            r.1 == self@.should_continue(task_id@),
    {
        let id = String::from_str(task_id);
        let keep_going = match self.position(&id) {
            Some(i) => {
                assert(self@.tasks[i as int] == self.tasks@[i as int]@);
                let status = self.tasks[i].status;
                status != TaskStatus::Canceled && status != TaskStatus::Paused
            },
            None => false,
        };
        (TaskEvent::TaskProgress(id, progress), keep_going)
    }

    /// One look at a task that waits to be resumed: `Ok(true)` once it is
    /// Running again, `Ok(false)` while it has to wait, and an error once it
    /// is Canceled or gone.
    pub fn check_resumed(&self, task_id: &str) -> (r: TaskResult<bool>)
        ensures
            !self@.has_task(task_id@) ==> r is Err && r->Err_0@ == TaskErrorView::TaskNotFound(
                task_id@,
            ),
            self@.has_task(task_id@) && self@.task(task_id@).status == TaskStatus::Canceled ==> r
                is Err && r->Err_0@ == TaskErrorView::Canceled,
            self@.has_task(task_id@) && self@.task(task_id@).status != TaskStatus::Canceled ==> r
                == Ok::<bool, TaskError>(self@.task(task_id@).status == TaskStatus::Running),
    {
        let id = String::from_str(task_id);
        match self.position(&id) {
            None => Err(TaskError::TaskNotFound(id)),
            Some(i) => {
                assert(self@.tasks[i as int] == self.tasks@[i as int]@);
                let status = self.tasks[i].status;
                if status == TaskStatus::Canceled {
                    Err(TaskError::Canceled)
                } else {
                    Ok(status == TaskStatus::Running)
                }
            },
        }
    }

    /// What is to be written to the store: the task list, the queue, the
    /// limit and the pause flag.
    pub fn save_state(&self) -> (stored: StoredState)
        ensures
            stored@ == self@.stored(),
    {
        let tasks = self.get_all_tasks();
        let queue = self.get_queue();
        StoredState {
            tasks: Some(tasks),
            queue: Some(queue),
            max_concurrent_tasks: Some(self.max_concurrent_tasks),
            is_queue_paused: Some(self.is_queue_paused),
        }
    }

    /// Takes over what the store held. Each value that is there replaces the
    /// manager's own; with no snapshot nothing changes.
    pub fn load_state(&mut self, stored: Option<StoredState>)
        ensures
            stored is None ==> final(self)@ == old(self)@,
            stored is Some ==> final(self)@ == old(self)@.loaded(stored->0@),
    {
        let stored = match stored {
            Some(s) => s,
            None => {
                return ;
            },
        };
        match stored.tasks {
            Some(tasks) => {
                self.tasks = tasks;
            },
            None => {},
        }
        match stored.queue {
            Some(queue) => {
                self.replace_queue(&queue);
            },
            None => {},
        }
        match stored.max_concurrent_tasks {
            Some(max) => {
                self.max_concurrent_tasks = max;
            },
            None => {},
        }
        match stored.is_queue_paused {
            Some(paused) => {
                self.is_queue_paused = paused;
            },
            None => {},
        }
    }
}

impl TaskManager {
    /// Create a task under a new id, stamped with the current time. The id
    /// and the time come from outside; for what is done with them see
    /// `create_task_with`.
    pub fn create_task(
        &mut self,
        input_path: String,
        output_path: String,
        task_type: String,
        config: HashMap<String, String>,
    ) -> (r: TaskResult<String>)
        ensures
            is_supported_type(task_type@) ==> r is Ok && r->Ok_0@.len() == 36 && old(
                self,
            )@.created_at_some_time(
                final(self)@,
                r->Ok_0@,
                input_path@,
                output_path@,
                task_type@,
                config@,
            ),
            !is_supported_type(task_type@) ==> r is Err && r->Err_0@
                == TaskErrorView::UnsupportedTaskType(task_type@) && final(self)@ == old(self)@,
    {
        let task_id = fresh_task_id();
        let created_at = current_timestamp();
        let ghost stamp = created_at@;
        let r = self.create_task_with(
            input_path,
            output_path,
            task_type,
            config,
            task_id,
            created_at,
        );
        proof {
            if is_supported_type(task_type@) {
                assert(self@ == old(self)@.created(
                    new_task(r->Ok_0@, input_path@, output_path@, task_type@, config@, stamp),
                ));
            }
        }
        r
    }

    /// Start a task now: `start_task_at` with the current time.
    pub fn start_task(&mut self, task_id: &str) -> (r: TaskResult<Vec<HostAction>>)
        ensures
            exists|now: Seq<char>|
                final(self)@ == old(self)@.start_task(task_id@, now).next && outcome_view(r) == old(
                    self,
                )@.start_task(task_id@, now).actions(),
    {
        let now = current_timestamp();
        let r = self.start_task_at(task_id, now.as_str());
        assert(self@ == old(self)@.start_task(task_id@, now@).next);
        r
    }

    /// Cancel a task now: `cancel_task_at` with the current time.
    pub fn cancel_task(&mut self, task_id: &str) -> (r: TaskResult<Vec<HostAction>>)
        ensures
            exists|now: Seq<char>|
                final(self)@ == old(self)@.cancel_task(task_id@, now).next && outcome_view(r)
                    == old(self)@.cancel_task(task_id@, now).actions(),
    {
        let now = current_timestamp();
        let r = self.cancel_task_at(task_id, now.as_str());
        assert(self@ == old(self)@.cancel_task(task_id@, now@).next);
        r
    }

    /// Retry a task now: `retry_task_at` with the current time.
    pub fn retry_task(&mut self, task_id: &str) -> (r: TaskResult<Vec<HostAction>>)
        ensures
            exists|now: Seq<char>|
                final(self)@ == old(self)@.retry_task(task_id@, now).next && outcome_view(r) == old(
                    self,
                )@.retry_task(task_id@, now).actions(),
    {
        let now = current_timestamp();
        let r = self.retry_task_at(task_id, now.as_str());
        assert(self@ == old(self)@.retry_task(task_id@, now@).next);
        r
    }

    /// Run admission now: `process_next_tasks_at` with the current time.
    pub fn process_next_tasks(&mut self) -> (r: TaskResult<Vec<HostAction>>)
        ensures
            exists|now: Seq<char>|
                final(self)@ == old(self)@.process_next_tasks(now).next && outcome_view(r) == old(
                    self,
                )@.process_next_tasks(now).actions(),
    {
        let now = current_timestamp();
        let r = self.process_next_tasks_at(now.as_str());
        assert(self@ == old(self)@.process_next_tasks(now@).next);
        r
    }

    /// Start the queue now: `start_queue_at` with the current time.
    pub fn start_queue(&mut self) -> (r: TaskResult<Vec<HostAction>>)
        ensures
            exists|now: Seq<char>|
                final(self)@ == old(self)@.start_queue(now).next && outcome_view(r) == old(
                    self,
                )@.start_queue(now).actions(),
    {
        let now = current_timestamp();
        let r = self.start_queue_at(now.as_str());
        assert(self@ == old(self)@.start_queue(now@).next);
        r
    }

    /// Resume the queue now: `resume_queue_at` with the current time.
    pub fn resume_queue(&mut self) -> (r: TaskResult<Vec<HostAction>>)
        ensures
            exists|now: Seq<char>|
                final(self)@ == old(self)@.resume_queue(now).next && outcome_view(r) == old(
                    self,
                )@.resume_queue(now).actions(),
    {
        let now = current_timestamp();
        let r = self.resume_queue_at(now.as_str());
        assert(self@ == old(self)@.resume_queue(now@).next);
        r
    }

    /// Cancel the queue now: `cancel_queue_at` with the current time.
    pub fn cancel_queue(&mut self) -> (r: TaskResult<Vec<HostAction>>)
        ensures
            exists|now: Seq<char>|
                final(self)@ == old(self)@.cancel_queue(now).next && outcome_view(r) == old(
                    self,
                )@.cancel_queue(now).actions(),
    {
        let now = current_timestamp();
        let r = self.cancel_queue_at(now.as_str());
        assert(self@ == old(self)@.cancel_queue(now@).next);
        r
    }

    /// Set the concurrency limit now: `set_max_concurrent_tasks_at` with the
    /// current time.
    pub fn set_max_concurrent_tasks(&mut self, max: usize) -> (r: TaskResult<Vec<HostAction>>)
        ensures
            exists|now: Seq<char>|
                final(self)@ == old(self)@.set_max_concurrent_tasks(max, now).next && outcome_view(
                    r,
                ) == old(self)@.set_max_concurrent_tasks(max, now).actions(),
    {
        let now = current_timestamp();
        let r = self.set_max_concurrent_tasks_at(max, now.as_str());
        assert(self@ == old(self)@.set_max_concurrent_tasks(max, now@).next);
        r
    }

    /// Take the engine's result for a task now: `finish_task_at` with the
    /// current time.
    pub fn finish_task(&mut self, task_id: &str, result: Result<(), TaskError>) -> (r: TaskResult<
        Vec<HostAction>,
    >)
        ensures
            exists|now: Seq<char>|
                final(self)@ == old(self)@.finish_task(task_id@, failure_of(result), now).next
                    && outcome_view(r) == old(self)@.finish_task(
                    task_id@,
                    failure_of(result),
                    now,
                ).actions(),
    {
        let now = current_timestamp();
        let r = self.finish_task_at(task_id, result, now.as_str());
        assert(self@ == old(self)@.finish_task(task_id@, failure_of(result), now@).next);
        r
    }
}

} // verus!
