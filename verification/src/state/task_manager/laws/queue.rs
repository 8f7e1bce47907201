//! The queue invariant: every id in the queue is that of a Pending task,
//! and the id of every Pending task is in the queue exactly once.

use super::super::errors::TaskErrorView;
use super::super::events::TaskEventView;
use super::super::lemmas::{lemma_index_of_known, lemma_same_ids, lemma_without_id};
use super::super::model::{
    canceled_if_active, canceled_task, completed_task, failed_task, is_clearable, is_removable,
    is_retryable, is_supported_type, new_task, paused_if_running, resumed_if_paused, retried_task,
    started_task, with_status, without_id, SchedulerState,
};
use super::super::task::{TaskStatus, TaskView};
use super::commands::{apply, run, Command};
use super::filters::{
    lemma_filter_keeps_order, lemma_filter_no_duplicates, lemma_ids_not_cleared_as_filter,
    lemma_tasks_kept_as_filter, lemma_tasks_without_id_as_filter, lemma_without_id_as_filter,
};
use vstd::prelude::*;

verus! {

/// Creation keeps the queue invariant, where the new task is Pending and no
/// task has its id yet.
pub proof fn law_create_keeps_queue_invariant(s: SchedulerState, task: TaskView)
    requires
        s.consistent(),
        !s.has_task(task.id),
        task.status == TaskStatus::Pending,
    ensures
        s.created(task).consistent(),
{
    let n = s.created(task);
    assert forall|i: int, j: int| 0 <= i < j < n.tasks.len() implies (#[trigger] n.tasks[i]).id != (
    #[trigger] n.tasks[j]).id by {
        if j < s.tasks.len() {
            assert(n.tasks[i] == s.tasks[i] && n.tasks[j] == s.tasks[j]);
        } else {
            assert(n.tasks[i] == s.tasks[i]);
        }
    }
    assert forall|k: int| 0 <= k < n.queue.len() implies n.is_pending_id(
        #[trigger] n.queue[k],
    ) by {
        if k < s.queue.len() {
            assert(s.is_pending_id(s.queue[k]));
            let i = choose|i: int|
                0 <= i < s.tasks.len() && (#[trigger] s.tasks[i]).id == s.queue[k]
                    && s.tasks[i].status == TaskStatus::Pending;
            assert(n.tasks[i] == s.tasks[i]);
        } else {
            assert(n.tasks[s.tasks.len() as int] == task);
        }
    }
    assert forall|a: int, b: int|
        0 <= a < n.queue.len() && 0 <= b < n.queue.len() && a != b implies n.queue[a]
        != n.queue[b] by {
        if a == s.queue.len() || b == s.queue.len() {
            let other = if a == s.queue.len() {
                b
            } else {
                a
            };
            assert(s.is_pending_id(s.queue[other]));
        }
    }
    assert forall|i: int|
        0 <= i < n.tasks.len() && (#[trigger] n.tasks[i]).status
            == TaskStatus::Pending implies n.queue.contains(n.tasks[i].id) by {
        if i < s.tasks.len() {
            assert(n.tasks[i] == s.tasks[i]);
            assert(s.queue.contains(s.tasks[i].id));
            let k = choose|k: int| 0 <= k < s.queue.len() && s.queue[k] == s.tasks[i].id;
            assert(n.queue[k] == s.tasks[i].id);
        } else {
            assert(n.queue[s.queue.len() as int] == task.id);
        }
    }
}

/// In a consistent state the queue holds the id of a task exactly when the
/// task is Pending.
pub proof fn lemma_queue_holds_pending(s: SchedulerState, i: int)
    requires
        s.consistent(),
        0 <= i < s.tasks.len(),
    ensures
        s.queue.contains(s.tasks[i].id) <==> s.tasks[i].status == TaskStatus::Pending,
{
    let id = s.tasks[i].id;
    if s.queue.contains(id) {
        let k = choose|k: int| 0 <= k < s.queue.len() && s.queue[k] == id;
        assert(s.is_pending_id(s.queue[k]));
        let j = choose|j: int|
            0 <= j < s.tasks.len() && (#[trigger] s.tasks[j]).id == id && s.tasks[j].status
                == TaskStatus::Pending;
        if j != i {
            if j < i {
                assert(s.tasks[j].id != s.tasks[i].id);
            } else {
                assert(s.tasks[i].id != s.tasks[j].id);
            }
        }
    }
}

/// A task that takes a status other than Pending, and whose id leaves the
/// queue, leaves the queue invariant standing.
pub proof fn lemma_leave_queue(s: SchedulerState, i: int, task: TaskView)
    requires
        s.consistent(),
        0 <= i < s.tasks.len(),
        task.id == s.tasks[i].id,
        task.status != TaskStatus::Pending,
    ensures
        (SchedulerState {
            tasks: s.tasks.update(i, task),
            queue: without_id(s.queue, task.id),
            ..s
        }).consistent(),
        s.tasks[i].status != TaskStatus::Pending ==> without_id(s.queue, task.id) == s.queue,
{
    let id = task.id;
    let n = SchedulerState {
        tasks: s.tasks.update(i, task),
        queue: without_id(s.queue, id),
        ..s
    };
    lemma_without_id(s.queue, id);
    lemma_queue_holds_pending(s, i);
    assert forall|a: int, b: int| 0 <= a < b < n.tasks.len() implies (#[trigger] n.tasks[a]).id != (
    #[trigger] n.tasks[b]).id by {
        assert(n.tasks[a].id == s.tasks[a].id && n.tasks[b].id == s.tasks[b].id);
    }
    assert forall|k: int| 0 <= k < n.queue.len() implies n.is_pending_id(
        #[trigger] n.queue[k],
    ) by {
        let q = n.queue[k];
        assert(n.queue.contains(q));
        assert(q != id);
        assert(s.queue.contains(q));
        let m = choose|m: int| 0 <= m < s.queue.len() && s.queue[m] == q;
        assert(s.is_pending_id(s.queue[m]));
        let j = choose|j: int|
            0 <= j < s.tasks.len() && (#[trigger] s.tasks[j]).id == q && s.tasks[j].status
                == TaskStatus::Pending;
        assert(n.tasks[j] == s.tasks[j]);
    }
    assert forall|j: int|
        0 <= j < n.tasks.len() && (#[trigger] n.tasks[j]).status
            == TaskStatus::Pending implies n.queue.contains(n.tasks[j].id) by {
        assert(j != i);
        assert(n.tasks[j] == s.tasks[j]);
        if j < i {
            assert(s.tasks[j].id != s.tasks[i].id);
        } else {
            assert(s.tasks[i].id != s.tasks[j].id);
        }
        assert(s.queue.contains(s.tasks[j].id));
    }
}

/// A task that goes back to Pending, and whose id goes to the end of the
/// queue, leaves the queue invariant standing.
pub proof fn lemma_enter_queue(s: SchedulerState, i: int, task: TaskView)
    requires
        s.consistent(),
        0 <= i < s.tasks.len(),
        task.id == s.tasks[i].id,
        s.tasks[i].status != TaskStatus::Pending,
        task.status == TaskStatus::Pending,
    ensures
        !s.queue.contains(task.id),
        (SchedulerState {
            tasks: s.tasks.update(i, task),
            queue: s.queue.push(task.id),
            ..s
        }).consistent(),
{
    let id = task.id;
    let n = SchedulerState { tasks: s.tasks.update(i, task), queue: s.queue.push(id), ..s };
    lemma_queue_holds_pending(s, i);
    assert forall|a: int, b: int| 0 <= a < b < n.tasks.len() implies (#[trigger] n.tasks[a]).id != (
    #[trigger] n.tasks[b]).id by {
        assert(n.tasks[a].id == s.tasks[a].id && n.tasks[b].id == s.tasks[b].id);
    }
    assert forall|a: int, b: int|
        0 <= a < n.queue.len() && 0 <= b < n.queue.len() && a != b implies n.queue[a]
        != n.queue[b] by {
        if a == s.queue.len() {
            assert(s.queue[b] == n.queue[b]);
        } else if b == s.queue.len() {
            assert(s.queue[a] == n.queue[a]);
        }
    }
    assert forall|k: int| 0 <= k < n.queue.len() implies n.is_pending_id(
        #[trigger] n.queue[k],
    ) by {
        if k < s.queue.len() {
            assert(s.is_pending_id(s.queue[k]));
            let j = choose|j: int|
                0 <= j < s.tasks.len() && (#[trigger] s.tasks[j]).id == s.queue[k]
                    && s.tasks[j].status == TaskStatus::Pending;
            assert(n.tasks[j] == s.tasks[j]);
        } else {
            assert(n.tasks[i] == task);
        }
    }
    assert forall|j: int|
        0 <= j < n.tasks.len() && (#[trigger] n.tasks[j]).status
            == TaskStatus::Pending implies n.queue.contains(n.tasks[j].id) by {
        if j == i {
            assert(n.queue[s.queue.len() as int] == id);
        } else {
            assert(n.tasks[j] == s.tasks[j]);
            assert(s.queue.contains(s.tasks[j].id));
            let k = choose|k: int| 0 <= k < s.queue.len() && s.queue[k] == s.tasks[j].id;
            assert(n.queue[k] == s.tasks[j].id);
        }
    }
}

/// Passing every task through a change that keeps ids, and keeps apart the
/// tasks that are Pending from those that are not, leaves the queue
/// invariant standing.
pub proof fn lemma_change_each(s: SchedulerState, change: spec_fn(TaskView) -> TaskView)
    requires
        s.consistent(),
        forall|t: TaskView|
            (#[trigger] change(t)).id == t.id && (change(t).status == TaskStatus::Pending
                <==> t.status == TaskStatus::Pending),
    ensures
        s.with_each_task(change).consistent(),
{
    let n = s.with_each_task(change);
    assert forall|a: int, b: int| 0 <= a < b < n.tasks.len() implies (#[trigger] n.tasks[a]).id != (
    #[trigger] n.tasks[b]).id by {
        assert(n.tasks[a] == change(s.tasks[a]) && n.tasks[b] == change(s.tasks[b]));
    }
    assert forall|k: int| 0 <= k < n.queue.len() implies n.is_pending_id(
        #[trigger] n.queue[k],
    ) by {
        assert(s.is_pending_id(s.queue[k]));
        let j = choose|j: int|
            0 <= j < s.tasks.len() && (#[trigger] s.tasks[j]).id == s.queue[k]
                && s.tasks[j].status == TaskStatus::Pending;
        assert(n.tasks[j] == change(s.tasks[j]));
    }
    assert forall|j: int|
        0 <= j < n.tasks.len() && (#[trigger] n.tasks[j]).status
            == TaskStatus::Pending implies n.queue.contains(n.tasks[j].id) by {
        assert(n.tasks[j] == change(s.tasks[j]));
        assert(s.queue.contains(s.tasks[j].id));
    }
}

/// Start keeps the queue invariant.
pub proof fn law_start_keeps_queue_invariant(s: SchedulerState, id: Seq<char>, now: Seq<char>)
    requires
        s.consistent(),
    ensures
        s.start_task(id, now).next.consistent(),
{
    if s.has_task(id) {
        lemma_index_of_known(s, id);
        lemma_leave_queue(s, s.index_of(id), started_task(s.task(id), now));
    }
}

/// Pause keeps the queue invariant.
pub proof fn law_pause_keeps_queue_invariant(s: SchedulerState, id: Seq<char>)
    requires
        s.consistent(),
    ensures
        s.pause_task(id).next.consistent(),
{
    if s.has_task(id) {
        lemma_index_of_known(s, id);
        lemma_leave_queue(s, s.index_of(id), with_status(s.task(id), TaskStatus::Paused));
    }
}

/// Resume keeps the queue invariant.
pub proof fn law_resume_keeps_queue_invariant(s: SchedulerState, id: Seq<char>)
    requires
        s.consistent(),
    ensures
        s.resume_task(id).next.consistent(),
{
    if s.has_task(id) {
        lemma_index_of_known(s, id);
        lemma_leave_queue(s, s.index_of(id), with_status(s.task(id), TaskStatus::Running));
    }
}

/// Cancel keeps the queue invariant.
pub proof fn law_cancel_keeps_queue_invariant(s: SchedulerState, id: Seq<char>, now: Seq<char>)
    requires
        s.consistent(),
    ensures
        s.cancel_task(id, now).next.consistent(),
{
    if s.has_task(id) {
        lemma_index_of_known(s, id);
        lemma_leave_queue(s, s.index_of(id), canceled_task(s.task(id), now));
    }
}

/// Putting a Failed or Canceled task back keeps the queue invariant, and
/// the task is then last in the queue.
pub proof fn lemma_requeued(s: SchedulerState, id: Seq<char>)
    requires
        s.consistent(),
        s.has_task(id),
        is_retryable(s.task(id).status),
    ensures
        s.requeued(id).consistent(),
        s.requeued(id).queue == s.queue.push(id),
        s.requeued(id).has_task(id),
        s.requeued(id).task(id) == retried_task(s.task(id)),
{
    lemma_index_of_known(s, id);
    let i = s.index_of(id);
    lemma_enter_queue(s, i, retried_task(s.task(id)));
    let n = s.requeued(id);
    assert forall|j: int| 0 <= j < s.tasks.len() implies (#[trigger] s.tasks[j]).id
        == n.tasks[j].id by {}
    lemma_same_ids(s, n, id);
}

/// Retry keeps the queue invariant.
pub proof fn law_retry_keeps_queue_invariant(s: SchedulerState, id: Seq<char>, now: Seq<char>)
    requires
        s.consistent(),
    ensures
        s.retry_task(id, now).next.consistent(),
{
    if s.has_task(id) && is_retryable(s.task(id).status) {
        lemma_requeued(s, id);
        let n = s.requeued(id);
        lemma_index_of_known(n, id);
        lemma_leave_queue(n, n.index_of(id), started_task(n.task(id), now));
    }
}

/// Recording progress keeps the queue invariant.
pub proof fn law_progress_keeps_queue_invariant(s: SchedulerState, id: Seq<char>, reported: u32)
    requires
        s.consistent(),
        s.has_task(id),
    ensures
        s.progressed(id, reported).consistent(),
{
    lemma_index_of_known(s, id);
    let i = s.index_of(id);
    let n = s.progressed(id, reported);
    assert forall|a: int, b: int| 0 <= a < b < n.tasks.len() implies (#[trigger] n.tasks[a]).id != (
    #[trigger] n.tasks[b]).id by {
        assert(n.tasks[a].id == s.tasks[a].id && n.tasks[b].id == s.tasks[b].id);
    }
    assert forall|k: int| 0 <= k < n.queue.len() implies n.is_pending_id(
        #[trigger] n.queue[k],
    ) by {
        assert(s.is_pending_id(s.queue[k]));
        let j = choose|j: int|
            0 <= j < s.tasks.len() && (#[trigger] s.tasks[j]).id == s.queue[k]
                && s.tasks[j].status == TaskStatus::Pending;
        assert(n.tasks[j].id == s.tasks[j].id && n.tasks[j].status == s.tasks[j].status);
    }
    assert forall|j: int|
        0 <= j < n.tasks.len() && (#[trigger] n.tasks[j]).status
            == TaskStatus::Pending implies n.queue.contains(n.tasks[j].id) by {
        assert(n.tasks[j].id == s.tasks[j].id && n.tasks[j].status == s.tasks[j].status);
        assert(s.queue.contains(s.tasks[j].id));
    }
}

/// Applying the engine's result keeps the queue invariant.
pub proof fn lemma_settled(
    s: SchedulerState,
    id: Seq<char>,
    failure: Option<Seq<char>>,
    now: Seq<char>,
)
    requires
        s.consistent(),
    ensures
        s.settled(id, failure, now).consistent(),
{
    if s.takes_result(id) {
        lemma_index_of_known(s, id);
        match failure {
            None => lemma_leave_queue(s, s.index_of(id), completed_task(s.task(id), now)),
            Some(error) => lemma_leave_queue(
                s,
                s.index_of(id),
                failed_task(s.task(id), error, now),
            ),
        }
    }
}

/// The admission walk keeps the queue invariant.
pub proof fn lemma_admitted(s: SchedulerState, ids: Seq<Seq<char>>, now: Seq<char>)
    requires
        s.consistent(),
    ensures
        s.admitted(ids, now).consistent(),
    decreases ids.len(),
{
    if ids.len() > 0 {
        if s.admits(ids.first()) {
            law_start_keeps_queue_invariant(s, ids.first(), now);
            lemma_admitted(s.started(ids.first(), now), ids.drop_first(), now);
        } else {
            lemma_admitted(s, ids.drop_first(), now);
        }
    }
}

/// Admission keeps the queue invariant.
pub proof fn law_admission_keeps_queue_invariant(s: SchedulerState, now: Seq<char>)
    requires
        s.consistent(),
    ensures
        s.process_next_tasks(now).next.consistent(),
{
    lemma_admitted(s, s.queue, now);
}

/// Finish keeps the queue invariant.
pub proof fn law_finish_keeps_queue_invariant(
    s: SchedulerState,
    id: Seq<char>,
    failure: Option<Seq<char>>,
    now: Seq<char>,
)
    requires
        s.consistent(),
    ensures
        s.finish_task(id, failure, now).next.consistent(),
{
    lemma_settled(s, id, failure, now);
    law_admission_keeps_queue_invariant(s.settled(id, failure, now), now);
}

/// Pausing the queue keeps the queue invariant.
pub proof fn law_pause_queue_keeps_queue_invariant(s: SchedulerState)
    requires
        s.consistent(),
    ensures
        s.pause_queue().next.consistent(),
{
    let change = |t: TaskView| paused_if_running(t);
    lemma_change_each(s, change);
    let mid = s.with_each_task(change);
    let n = s.pause_queue().next;
    assert(n.tasks == mid.tasks && n.queue == mid.queue);
    lemma_same_tasks_and_queue(mid, n);
}

/// Consistency speaks of the task list and the queue alone.
pub proof fn lemma_same_tasks_and_queue(a: SchedulerState, b: SchedulerState)
    requires
        a.tasks == b.tasks,
        a.queue == b.queue,
    ensures
        a.consistent() == b.consistent(),
        a.running_count() == b.running_count(),
{
    assert forall|id: Seq<char>| a.is_pending_id(id) == b.is_pending_id(id) by {}
}

/// Resuming the queue keeps the queue invariant.
pub proof fn law_resume_queue_keeps_queue_invariant(s: SchedulerState, now: Seq<char>)
    requires
        s.consistent(),
    ensures
        s.resume_queue(now).next.consistent(),
{
    let change = |t: TaskView| resumed_if_paused(t);
    lemma_change_each(s, change);
    lemma_same_tasks_and_queue(s.with_each_task(change), s.all_resumed());
    lemma_admitted(s.all_resumed(), s.all_resumed().queue, now);
}

/// Starting the queue keeps the queue invariant.
pub proof fn law_start_queue_keeps_queue_invariant(s: SchedulerState, now: Seq<char>)
    requires
        s.consistent(),
    ensures
        s.start_queue(now).next.consistent(),
{
    law_resume_queue_keeps_queue_invariant(s, now);
    lemma_admitted(s, s.queue, now);
}

/// Canceling the queue keeps the queue invariant.
pub proof fn law_cancel_queue_keeps_queue_invariant(s: SchedulerState, now: Seq<char>)
    requires
        s.consistent(),
    ensures
        s.cancel_queue(now).next.consistent(),
{
    let n = s.cancel_queue(now).next;
    assert forall|a: int, b: int| 0 <= a < b < n.tasks.len() implies (#[trigger] n.tasks[a]).id != (
    #[trigger] n.tasks[b]).id by {
        assert(n.tasks[a].id == s.tasks[a].id && n.tasks[b].id == s.tasks[b].id);
    }
    assert forall|j: int| 0 <= j < n.tasks.len() implies (#[trigger] n.tasks[j]).status
        != TaskStatus::Pending by {
        assert(n.tasks[j] == canceled_if_active(s.tasks[j], now));
    }
}

/// Setting the limit keeps the queue invariant.
pub proof fn law_set_limit_keeps_queue_invariant(s: SchedulerState, max: usize, now: Seq<char>)
    requires
        s.consistent(),
    ensures
        s.set_max_concurrent_tasks(max, now).next.consistent(),
{
    lemma_same_tasks_and_queue(s, s.with_limit(max));
    law_admission_keeps_queue_invariant(s.with_limit(max), now);
}

/// Taking tasks out of the list, and out of the queue every id that is
/// taken out, keeps the queue invariant, where no Pending task of a removed
/// id stays.
pub proof fn lemma_filtered(
    s: SchedulerState,
    keep_task: spec_fn(TaskView) -> bool,
    keep_id: spec_fn(Seq<char>) -> bool,
)
    requires
        s.consistent(),
        forall|i: int|
            0 <= i < s.tasks.len() && (#[trigger] s.tasks[i]).status == TaskStatus::Pending
                && keep_id(s.tasks[i].id) ==> keep_task(s.tasks[i]),
        forall|i: int|
            0 <= i < s.tasks.len() && keep_task(#[trigger] s.tasks[i]) && s.tasks[i].status
                == TaskStatus::Pending ==> keep_id(s.tasks[i].id),
    ensures
        (SchedulerState {
            tasks: s.tasks.filter(keep_task),
            queue: s.queue.filter(keep_id),
            ..s
        }).consistent(),
{
    let n = SchedulerState {
        tasks: s.tasks.filter(keep_task),
        queue: s.queue.filter(keep_id),
        ..s
    };
    lemma_filter_keeps_order(s.tasks, keep_task);
    lemma_filter_keeps_order(s.queue, keep_id);
    lemma_filter_no_duplicates(s.queue, keep_id);
    assert forall|a: int, b: int| 0 <= a < b < n.tasks.len() implies (#[trigger] n.tasks[a]).id != (
    #[trigger] n.tasks[b]).id by {
        let (i, j) = choose|i: int, j: int|
            0 <= i < j < s.tasks.len() && s.tasks[i] == n.tasks[a] && s.tasks[j] == n.tasks[b];
        assert(s.tasks[i].id != s.tasks[j].id);
    }
    assert forall|k: int| 0 <= k < n.queue.len() implies n.is_pending_id(
        #[trigger] n.queue[k],
    ) by {
        let q = n.queue[k];
        assert(keep_id(q) && s.queue.contains(q));
        let m = choose|m: int| 0 <= m < s.queue.len() && s.queue[m] == q;
        assert(s.is_pending_id(s.queue[m]));
        let j = choose|j: int|
            0 <= j < s.tasks.len() && (#[trigger] s.tasks[j]).id == q && s.tasks[j].status
                == TaskStatus::Pending;
        assert(keep_task(s.tasks[j]));
        assert(n.tasks.contains(s.tasks[j]));
        let a = choose|a: int| 0 <= a < n.tasks.len() && n.tasks[a] == s.tasks[j];
        assert(n.tasks[a].id == q);
    }
    assert forall|a: int|
        0 <= a < n.tasks.len() && (#[trigger] n.tasks[a]).status
            == TaskStatus::Pending implies n.queue.contains(n.tasks[a].id) by {
        assert(keep_task(n.tasks[a]) && s.tasks.contains(n.tasks[a]));
        let i = choose|i: int| 0 <= i < s.tasks.len() && s.tasks[i] == n.tasks[a];
        assert(s.queue.contains(s.tasks[i].id));
        let m = choose|m: int| 0 <= m < s.queue.len() && s.queue[m] == s.tasks[i].id;
        assert(keep_id(s.queue[m]));
        assert(n.queue.contains(s.queue[m]));
    }
}

/// Remove keeps the queue invariant.
pub proof fn law_remove_keeps_queue_invariant(s: SchedulerState, id: Seq<char>)
    requires
        s.consistent(),
    ensures
        s.remove_task(id).next.consistent(),
{
    if s.has_task(id) && is_removable(s.task(id).status) {
        let keep_task = |t: TaskView| t.id != id;
        let keep_id = |q: Seq<char>| q != id;
        lemma_filtered(s, keep_task, keep_id);
        lemma_tasks_without_id_as_filter(s.tasks, id, keep_task);
        lemma_without_id_as_filter(s.queue, id, keep_id);
    }
}

/// Clearing the finished tasks keeps the queue invariant.
pub proof fn law_clear_keeps_queue_invariant(s: SchedulerState)
    requires
        s.consistent(),
    ensures
        s.clear_completed_tasks().next.consistent(),
{
    let keep_task = |t: TaskView| !is_clearable(t.status);
    let keep_id = |q: Seq<char>| !s.is_cleared_id(q);
    assert forall|i: int|
        0 <= i < s.tasks.len() && keep_task(#[trigger] s.tasks[i]) && s.tasks[i].status
            == TaskStatus::Pending implies keep_id(s.tasks[i].id) by {
        if s.is_cleared_id(s.tasks[i].id) {
            let j = choose|j: int|
                0 <= j < s.tasks.len() && (#[trigger] s.tasks[j]).id == s.tasks[i].id
                    && is_clearable(s.tasks[j].status);
            if j < i {
                assert(s.tasks[j].id != s.tasks[i].id);
            } else if i < j {
                assert(s.tasks[i].id != s.tasks[j].id);
            }
        }
    }
    lemma_filtered(s, keep_task, keep_id);
    lemma_tasks_kept_as_filter(s.tasks, keep_task);
    lemma_ids_not_cleared_as_filter(s, s.queue, keep_id);
}

/// Whether `order` holds the ids of the queue, each once, in any order.
pub open spec fn is_reordering(s: SchedulerState, order: Seq<Seq<char>>) -> bool {
    &&& order.no_duplicates()
    &&& forall|id: Seq<char>| order.contains(id) <==> s.queue.contains(id)
}

/// Reordering changes the order of the queue and nothing else: with the ids
/// of the queue in another order the queue becomes that order, every task
/// stays as it was, and the queue invariant holds on.
pub proof fn law_reorder_changes_order_only(s: SchedulerState, order: Seq<Seq<char>>)
    requires
        s.consistent(),
        is_reordering(s, order),
    ensures
        s.reorder_tasks(order).outcome == Ok::<Seq<TaskEventView>, TaskErrorView>(
            seq![TaskEventView::QueueReordered],
        ),
        s.reorder_tasks(order).next.queue == order,
        s.reorder_tasks(order).next.tasks == s.tasks,
        s.reorder_tasks(order).next.consistent(),
{
    assert forall|k: int| 0 <= k < order.len() implies s.is_pending_id(#[trigger] order[k]) by {
        assert(order.contains(order[k]));
        assert(s.queue.contains(order[k]));
        let m = choose|m: int| 0 <= m < s.queue.len() && s.queue[m] == order[k];
        assert(s.is_pending_id(s.queue[m]));
    }
    assert forall|k: int| 0 <= k < order.len() implies s.has_task(#[trigger] order[k]) by {
        assert(s.is_pending_id(order[k]));
    }
    let n = s.reorder_tasks(order).next;
    assert forall|id: Seq<char>| n.is_pending_id(id) == s.is_pending_id(id) by {}
}

/// Whether a command is in order. Three kinds of command are not, because
/// the queue invariant cannot outlast them: the creation of a task under an
/// id that is taken, a new order of known ids that is not the queue
/// reordered, and the loading of a snapshot that breaks the invariant
/// itself. Every other command is in order.
pub open spec fn in_order(s: SchedulerState, command: Command) -> bool {
    match command {
        Command::Create { task_id, task_type, .. } => !is_supported_type(task_type)
            || !s.has_task(task_id),
        Command::Reorder { order } => !s.knows_all(order) || is_reordering(s, order),
        Command::Load { stored } => apply(s, command).consistent(),
        _ => true,
    }
}

/// A command that is not in order breaks the queue invariant.
pub proof fn law_out_of_order_breaks_queue_invariant(s: SchedulerState, command: Command)
    requires
        s.consistent(),
        !in_order(s, command),
    ensures
        !apply(s, command).consistent(),
{
    match command {
        Command::Create { task_id, input_path, output_path, task_type, config, created_at } => {
            let n = apply(s, command);
            let i = choose|i: int| 0 <= i < s.tasks.len() && (#[trigger] s.tasks[i]).id == task_id;
            assert(n.tasks[i] == s.tasks[i]);
            assert(n.tasks[s.tasks.len() as int].id == task_id);
        },
        Command::Reorder { order } => {
            let n = apply(s, command);
            assert(n.queue == order && n.tasks == s.tasks);
            if n.consistent() {
                assert forall|id: Seq<char>| order.contains(id) <==> s.queue.contains(id) by {
                    if order.contains(id) {
                        let k = choose|k: int| 0 <= k < order.len() && order[k] == id;
                        assert(n.is_pending_id(n.queue[k]));
                        let i = choose|i: int|
                            0 <= i < n.tasks.len() && (#[trigger] n.tasks[i]).id == id
                                && n.tasks[i].status == TaskStatus::Pending;
                        assert(s.queue.contains(s.tasks[i].id));
                    }
                    if s.queue.contains(id) {
                        let k = choose|k: int| 0 <= k < s.queue.len() && s.queue[k] == id;
                        assert(s.is_pending_id(s.queue[k]));
                        let i = choose|i: int|
                            0 <= i < s.tasks.len() && (#[trigger] s.tasks[i]).id == id
                                && s.tasks[i].status == TaskStatus::Pending;
                        assert(n.queue.contains(n.tasks[i].id));
                    }
                }
            }
        },
        _ => {},
    }
}

/// One command in order keeps the queue invariant.
pub proof fn law_command_keeps_queue_invariant(s: SchedulerState, command: Command)
    requires
        s.consistent(),
        in_order(s, command),
    ensures
        apply(s, command).consistent(),
{
    match command {
        Command::Create { task_id, input_path, output_path, task_type, config, created_at } => {
            if is_supported_type(task_type) {
                law_create_keeps_queue_invariant(
                    s,
                    new_task(task_id, input_path, output_path, task_type, config, created_at),
                );
            }
        },
        Command::Start { id, now } => law_start_keeps_queue_invariant(s, id, now),
        Command::Pause { id } => law_pause_keeps_queue_invariant(s, id),
        Command::Resume { id } => law_resume_keeps_queue_invariant(s, id),
        Command::Cancel { id, now } => law_cancel_keeps_queue_invariant(s, id, now),
        Command::Retry { id, now } => law_retry_keeps_queue_invariant(s, id, now),
        Command::Remove { id } => law_remove_keeps_queue_invariant(s, id),
        Command::UpdateProgress { id, reported } => {
            if s.has_task(id) {
                law_progress_keeps_queue_invariant(s, id, reported);
            }
        },
        Command::ClearCompleted => law_clear_keeps_queue_invariant(s),
        Command::Reorder { order } => {
            if s.knows_all(order) {
                law_reorder_changes_order_only(s, order);
            }
        },
        Command::PauseQueue => law_pause_queue_keeps_queue_invariant(s),
        Command::ResumeQueue { now } => law_resume_queue_keeps_queue_invariant(s, now),
        Command::StartQueue { now } => law_start_queue_keeps_queue_invariant(s, now),
        Command::CancelQueue { now } => law_cancel_queue_keeps_queue_invariant(s, now),
        Command::SetLimit { max, now } => law_set_limit_keeps_queue_invariant(s, max, now),
        Command::ProcessNext { now } => law_admission_keeps_queue_invariant(s, now),
        Command::Finish { id, failure, now } => law_finish_keeps_queue_invariant(
            s,
            id,
            failure,
            now,
        ),
        Command::Load { stored } => {},
    }
}

/// The queue invariant holds after every sequence of commands on a new
/// manager, each command in order where it is given: every id in the queue
/// is that of a Pending task, and the id of every Pending task is in the
/// queue exactly once.
pub proof fn law_queue_invariant_always_holds(max: usize, commands: Seq<Command>)
    requires
        forall|k: int|
            0 <= k < commands.len() ==> in_order(
                run(SchedulerState::initial(max), commands.take(k)),
                #[trigger] commands[k],
            ),
    ensures
        run(SchedulerState::initial(max), commands).consistent(),
    decreases commands.len(),
{
    let start = SchedulerState::initial(max);
    if commands.len() > 0 {
        let front = commands.drop_last();
        assert forall|k: int| 0 <= k < front.len() implies in_order(
            run(start, front.take(k)),
            #[trigger] front[k],
        ) by {
            assert(front.take(k) =~= commands.take(k));
            assert(front[k] == commands[k]);
        }
        law_queue_invariant_always_holds(max, front);
        assert(commands.take(commands.len() - 1) =~= front);
        assert(in_order(run(start, front), commands[commands.len() - 1]));
        law_command_keeps_queue_invariant(run(start, front), commands.last());
    }
}

} // verus!
