//! Events the scheduler asks its host to publish.

use super::task::{Task, TaskView};
use vstd::prelude::*;
use vstd::string::*;

verus! {

/// A notification for the event sink. The scheduler decides which events
/// follow a command and in what order; the host publishes them.
#[derive(Debug, PartialEq, Eq)]
pub enum TaskEvent {
    TaskStarted(String),
    TaskProgress(String, u32),
    TaskPaused(String),
    TaskResumed(String),
    TaskCanceled(String),
    TaskRetried(String),
    TaskRemoved(String),
    TaskCompleted(String),
    TaskFailed(String, String),
    TaskUpdated(Task),
    QueueStarted,
    QueuePaused,
    QueueResumed,
    QueueCanceled,
    QueueReordered,
    MaxConcurrentTasksChanged(usize),
    /// Admission picked the task; the host hands it to the execution engine.
    StartTask(String),
}

/// A `TaskEvent` with its strings read as characters.
pub enum TaskEventView {
    TaskStarted(Seq<char>),
    TaskProgress(Seq<char>, u32),
    TaskPaused(Seq<char>),
    TaskResumed(Seq<char>),
    TaskCanceled(Seq<char>),
    TaskRetried(Seq<char>),
    TaskRemoved(Seq<char>),
    TaskCompleted(Seq<char>),
    TaskFailed(Seq<char>, Seq<char>),
    TaskUpdated(TaskView),
    QueueStarted,
    QueuePaused,
    QueueResumed,
    QueueCanceled,
    QueueReordered,
    MaxConcurrentTasksChanged(usize),
    StartTask(Seq<char>),
}

impl TaskEventView {
    /// The name under which the event is published.
    pub open spec fn name(self) -> Seq<char> {
        match self {
            TaskEventView::TaskStarted(_) => "task-started"@,
            TaskEventView::TaskProgress(_, _) => "task-progress"@,
            TaskEventView::TaskPaused(_) => "task-paused"@,
            TaskEventView::TaskResumed(_) => "task-resumed"@,
            TaskEventView::TaskCanceled(_) => "task-canceled"@,
            TaskEventView::TaskRetried(_) => "task-retried"@,
            TaskEventView::TaskRemoved(_) => "task-removed"@,
            TaskEventView::TaskCompleted(_) => "task-completed"@,
            TaskEventView::TaskFailed(_, _) => "task-failed"@,
            TaskEventView::TaskUpdated(_) => "task-updated"@,
            TaskEventView::QueueStarted => "queue-started"@,
            TaskEventView::QueuePaused => "queue-paused"@,
            TaskEventView::QueueResumed => "queue-resumed"@,
            TaskEventView::QueueCanceled => "queue-canceled"@,
            TaskEventView::QueueReordered => "queue-reordered"@,
            TaskEventView::MaxConcurrentTasksChanged(_) => "max-concurrent-tasks-changed"@,
            TaskEventView::StartTask(_) => "start-task"@,
        }
    }
}

impl View for TaskEvent {
    type V = TaskEventView;

    open spec fn view(&self) -> TaskEventView {
        match self {
            TaskEvent::TaskStarted(id) => TaskEventView::TaskStarted(id@),
            TaskEvent::TaskProgress(id, progress) => TaskEventView::TaskProgress(id@, *progress),
            TaskEvent::TaskPaused(id) => TaskEventView::TaskPaused(id@),
            TaskEvent::TaskResumed(id) => TaskEventView::TaskResumed(id@),
            TaskEvent::TaskCanceled(id) => TaskEventView::TaskCanceled(id@),
            TaskEvent::TaskRetried(id) => TaskEventView::TaskRetried(id@),
            TaskEvent::TaskRemoved(id) => TaskEventView::TaskRemoved(id@),
            TaskEvent::TaskCompleted(id) => TaskEventView::TaskCompleted(id@),
            TaskEvent::TaskFailed(id, error) => TaskEventView::TaskFailed(id@, error@),
            TaskEvent::TaskUpdated(task) => TaskEventView::TaskUpdated(task@),
            TaskEvent::QueueStarted => TaskEventView::QueueStarted,
            TaskEvent::QueuePaused => TaskEventView::QueuePaused,
            TaskEvent::QueueResumed => TaskEventView::QueueResumed,
            TaskEvent::QueueCanceled => TaskEventView::QueueCanceled,
            TaskEvent::QueueReordered => TaskEventView::QueueReordered,
            TaskEvent::MaxConcurrentTasksChanged(max) => TaskEventView::MaxConcurrentTasksChanged(
                *max,
            ),
            TaskEvent::StartTask(id) => TaskEventView::StartTask(id@),
        }
    }
}

/// A list of events, each read as its view.
pub open spec fn events_view(events: Seq<TaskEvent>) -> Seq<TaskEventView> {
    events.map_values(|e: TaskEvent| e@)
}

impl TaskEvent {
    /// The name under which the event is published.
    pub fn name(&self) -> (s: String)
        ensures
            s@ == self@.name(),
    {
        match self {
            TaskEvent::TaskStarted(_) => String::from_str("task-started"),
            TaskEvent::TaskProgress(_, _) => String::from_str("task-progress"),
            TaskEvent::TaskPaused(_) => String::from_str("task-paused"),
            TaskEvent::TaskResumed(_) => String::from_str("task-resumed"),
            TaskEvent::TaskCanceled(_) => String::from_str("task-canceled"),
            TaskEvent::TaskRetried(_) => String::from_str("task-retried"),
            TaskEvent::TaskRemoved(_) => String::from_str("task-removed"),
            TaskEvent::TaskCompleted(_) => String::from_str("task-completed"),
            TaskEvent::TaskFailed(_, _) => String::from_str("task-failed"),
            TaskEvent::TaskUpdated(_) => String::from_str("task-updated"),
            TaskEvent::QueueStarted => String::from_str("queue-started"),
            TaskEvent::QueuePaused => String::from_str("queue-paused"),
            TaskEvent::QueueResumed => String::from_str("queue-resumed"),
            TaskEvent::QueueCanceled => String::from_str("queue-canceled"),
            TaskEvent::QueueReordered => String::from_str("queue-reordered"),
            TaskEvent::MaxConcurrentTasksChanged(_) => String::from_str(
                "max-concurrent-tasks-changed",
            ),
            TaskEvent::StartTask(_) => String::from_str("start-task"),
        }
    }
}

/// What the host has to do after a command, in order.
#[derive(Debug, PartialEq, Eq)]
pub enum HostAction {
    /// Write the state to the persistent store.
    Persist,
    /// Publish the event to the event sink.
    Emit(TaskEvent),
    /// Hand the task to the execution engine, on a context of its own.
    Dispatch(String),
    /// Wake whoever waits for the task to leave its pause.
    Wake(String),
}

/// A `HostAction` with its strings read as characters.
pub enum HostActionView {
    Persist,
    Emit(TaskEventView),
    Dispatch(Seq<char>),
    Wake(Seq<char>),
}

impl View for HostAction {
    type V = HostActionView;

    open spec fn view(&self) -> HostActionView {
        match self {
            HostAction::Persist => HostActionView::Persist,
            HostAction::Emit(event) => HostActionView::Emit(event@),
            HostAction::Dispatch(id) => HostActionView::Dispatch(id@),
            HostAction::Wake(id) => HostActionView::Wake(id@),
        }
    }
}

/// A list of actions, each read as its view.
pub open spec fn actions_view(actions: Seq<HostAction>) -> Seq<HostActionView> {
    actions.map_values(|a: HostAction| a@)
}

/// What follows the publication of an event: a task that started is handed
/// to the engine, and the waiters of a task that was resumed or canceled
/// are woken.
pub open spec fn follow_up(event: TaskEventView) -> Seq<HostActionView> {
    match event {
        TaskEventView::TaskStarted(id) => seq![HostActionView::Dispatch(id)],
        TaskEventView::TaskResumed(id) => seq![HostActionView::Wake(id)],
        TaskEventView::TaskCanceled(id) => seq![HostActionView::Wake(id)],
        _ => Seq::empty(),
    }
}

/// The publication of each event, in order, each with what follows it.
pub open spec fn emissions(events: Seq<TaskEventView>) -> Seq<HostActionView>
    decreases events.len(),
{
    if events.len() == 0 {
        Seq::empty()
    } else {
        emissions(events.drop_last()) + seq![HostActionView::Emit(events.last())] + follow_up(
            events.last(),
        )
    }
}

/// What the host has to do for the events of a command: nothing where
/// there is no event; otherwise the state is persisted first, then the
/// events are published.
pub open spec fn actions_of(events: Seq<TaskEventView>) -> Seq<HostActionView> {
    if events.len() == 0 {
        Seq::empty()
    } else {
        seq![HostActionView::Persist] + emissions(events)
    }
}

/// The id of the task to hand to the engine after the event, if any.
fn dispatched(event: &TaskEvent) -> (id: Option<String>)
    ensures
        event@ is TaskStarted ==> id is Some && id->0@ == event@->TaskStarted_0,
        !(event@ is TaskStarted) ==> id is None,
{
    match event {
        TaskEvent::TaskStarted(id) => Some(id.clone()),
        _ => None,
    }
}

/// The id of the task whose waiters are woken after the event, if any.
fn woken(event: &TaskEvent) -> (id: Option<String>)
    ensures
        event@ is TaskResumed ==> id is Some && id->0@ == event@->TaskResumed_0,
        event@ is TaskCanceled ==> id is Some && id->0@ == event@->TaskCanceled_0,
        !(event@ is TaskResumed) && !(event@ is TaskCanceled) ==> id is None,
{
    match event {
        TaskEvent::TaskResumed(id) => Some(id.clone()),
        TaskEvent::TaskCanceled(id) => Some(id.clone()),
        _ => None,
    }
}

/// What the host has to do for the events of a command: see `actions_of`.
pub fn host_actions(events: Vec<TaskEvent>) -> (actions: Vec<HostAction>)
    ensures
        actions_view(actions@) == actions_of(events_view(events@)),
{
    let ghost all = events_view(events@);
    let mut actions: Vec<HostAction> = Vec::new();
    if events.len() == 0 {
        assert(actions_view(actions@) =~= Seq::empty());
        return actions;
    }
    actions.push(HostAction::Persist);
    let mut rest = events;
    let n = rest.len();
    // The events are taken from the end, so the actions are built back to
    // front and turned round at the end.
    let mut back: Vec<HostAction> = Vec::new();
    let mut k: usize = n;
    assert(all.take(n as int) =~= all);
    while k > 0
        invariant
            k <= n,
            n == all.len(),
            rest@.len() == k,
            events_view(rest@) == all.take(k as int),
            emissions(all.take(k as int)) + actions_view(back@).reverse() == emissions(all),
        decreases k,
    {
        let ghost told = actions_view(back@);
        let ghost before = all.take(k as int);
        let event = rest.pop().unwrap();
        proof {
            assert(events_view(rest@) =~= before.drop_last());
            assert(before.drop_last() =~= all.take(k as int - 1));
            assert(event@ == before.last());
        }
        let start = dispatched(&event);
        let wake = woken(&event);
        match start {
            Some(id) => {
                back.push(HostAction::Dispatch(id));
            },
            None => {},
        }
        match wake {
            Some(id) => {
                back.push(HostAction::Wake(id));
            },
            None => {},
        }
        back.push(HostAction::Emit(event));
        proof {
            let step = seq![HostActionView::Emit(before.last())] + follow_up(before.last());
            assert(actions_view(back@).reverse() =~= step + told.reverse());
            assert(emissions(before) == emissions(before.drop_last()) + seq![
                HostActionView::Emit(before.last()),
            ] + follow_up(before.last()));
            assert(emissions(before.drop_last()) + (step + told.reverse()) =~= emissions(before)
                + told.reverse());
        }
        k -= 1;
    }
    assert(all.take(0) =~= Seq::<TaskEventView>::empty());
    assert(emissions(all.take(0)) + actions_view(back@).reverse() =~= actions_view(
        back@,
    ).reverse());
    let ghost emitted = actions_view(back@).reverse();
    let m = back.len();
    let mut j: usize = m;
    while j > 0
        invariant
            j <= m,
            back@.len() == j,
            emitted.len() == m,
            forall|i: int| 0 <= i < j ==> (#[trigger] back@[i])@ == emitted[m - 1 - i],
            actions@.len() == 1 + (m - j),
            actions@[0]@ == HostActionView::Persist,
            forall|i: int| 1 <= i < 1 + (m - j) ==> (#[trigger] actions@[i])@ == emitted[i - 1],
        decreases j,
    {
        let action = back.pop().unwrap();
        actions.push(action);
        j -= 1;
    }
    assert(actions_view(actions@) =~= seq![HostActionView::Persist] + emitted);
    actions
}

} // verus!
