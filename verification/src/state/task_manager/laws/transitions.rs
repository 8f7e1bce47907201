//! What single commands do and refuse.

use super::super::errors::TaskErrorView;
use super::super::events::TaskEventView;
use super::super::lemmas::{lemma_index_of_known, lemma_same_ids};
use super::super::model::{
    is_clearable, is_removable, is_retryable, not_pending_message, not_removable_message,
    not_retryable_message, tasks_kept, SchedulerState,
};
use super::super::task::{TaskStatus, TaskView};
use super::filters::{
    lemma_filter_all_pass, lemma_filter_keeps_order, lemma_ids_not_cleared_as_filter,
    lemma_tasks_without_id_as_filter,
};
use super::queue::lemma_requeued;
use vstd::prelude::*;

verus! {

/// Reordering with an id that no task has fails as a whole: the state stays
/// as it was and the first unknown id is reported.
pub proof fn law_reorder_unknown_id_changes_nothing(s: SchedulerState, order: Seq<Seq<char>>)
    requires
        !s.knows_all(order),
    ensures
        s.reorder_tasks(order).next == s,
        exists|k: int|
            s.is_first_unknown(order, k) && s.reorder_tasks(order).outcome == Err::<
                Seq<TaskEventView>,
                TaskErrorView,
            >(TaskErrorView::TaskNotFound(order[k])),
{
    let k = choose|k: int| 0 <= k < order.len() && !s.has_task(#[trigger] order[k]);
    lemma_first_unknown_exists(s, order, k);
    let first = choose|c: int| s.is_first_unknown(order, c);
    assert(s.is_first_unknown(order, first));
}

/// An unknown id at place `k` of `order` means a first unknown id exists.
pub proof fn lemma_first_unknown_exists(s: SchedulerState, order: Seq<Seq<char>>, k: int)
    requires
        0 <= k < order.len(),
        !s.has_task(order[k]),
    ensures
        exists|c: int| s.is_first_unknown(order, c),
    decreases k,
{
    if forall|j: int| 0 <= j < k ==> s.has_task(#[trigger] order[j]) {
        assert(s.is_first_unknown(order, k));
    } else {
        let j = choose|j: int| 0 <= j < k && !s.has_task(#[trigger] order[j]);
        lemma_first_unknown_exists(s, order, j);
    }
}

/// Start asks for a Pending task: on a task in any other status it fails
/// with `InvalidStatus` and the state stays as it was.
pub proof fn law_start_needs_pending(s: SchedulerState, id: Seq<char>, now: Seq<char>)
    requires
        s.has_task(id),
        s.task(id).status != TaskStatus::Pending,
    ensures
        s.start_task(id, now).next == s,
        s.start_task(id, now).outcome == Err::<Seq<TaskEventView>, TaskErrorView>(
            TaskErrorView::InvalidStatus(not_pending_message(id)),
        ),
{
}

/// Retry of a Failed or Canceled task succeeds, resets its progress and
/// clears its error. The task is then Pending and last in the queue, or,
/// where the queue is not paused and a slot is free, Running.
pub proof fn law_retry_resets_and_requeues(s: SchedulerState, id: Seq<char>, now: Seq<char>)
    requires
        s.consistent(),
        s.has_task(id),
        is_retryable(s.task(id).status),
    ensures
        s.retry_task(id, now).outcome is Ok,
        s.retry_task(id, now).next.has_task(id),
        s.retry_task(id, now).next.task(id).progress == 0,
        s.retry_task(id, now).next.task(id).error is None,
        s.retry_task(id, now).next.task(id).completed_at is None,
        s.requeued(id).queue == s.queue.push(id),
        if !s.is_queue_paused && s.has_free_slot() {
            s.retry_task(id, now).next.task(id).status == TaskStatus::Running
        } else {
            s.retry_task(id, now).next.task(id).status == TaskStatus::Pending && s.retry_task(
                id,
                now,
            ).next.queue == s.queue.push(id)
        },
{
    lemma_requeued(s, id);
    let mid = s.requeued(id);
    if !s.is_queue_paused && s.has_free_slot() {
        lemma_index_of_known(mid, id);
        let n = mid.started(id, now);
        assert forall|j: int| 0 <= j < mid.tasks.len() implies (#[trigger] mid.tasks[j]).id
            == n.tasks[j].id by {}
        lemma_same_ids(mid, n, id);
    }
}

/// Retry of a task that is neither Failed nor Canceled, such as a Completed
/// one, fails with `InvalidStatus` and the state stays as it was.
pub proof fn law_retry_needs_failed_or_canceled(s: SchedulerState, id: Seq<char>, now: Seq<char>)
    requires
        s.has_task(id),
        !is_retryable(s.task(id).status),
    ensures
        s.retry_task(id, now).next == s,
        s.retry_task(id, now).outcome == Err::<Seq<TaskEventView>, TaskErrorView>(
            TaskErrorView::InvalidStatus(not_retryable_message(id)),
        ),
{
}

/// Remove of a Running or Paused task fails with `InvalidStatus` and the
/// state stays as it was; of any other task it succeeds, and no task of
/// that id is left.
pub proof fn law_remove_spares_active_tasks(s: SchedulerState, id: Seq<char>)
    requires
        s.has_task(id),
    ensures
        !is_removable(s.task(id).status) ==> s.remove_task(id).next == s && s.remove_task(
            id,
        ).outcome == Err::<Seq<TaskEventView>, TaskErrorView>(
            TaskErrorView::InvalidStatus(not_removable_message(id)),
        ),
        is_removable(s.task(id).status) ==> s.remove_task(id).outcome is Ok && !s.remove_task(
            id,
        ).next.has_task(id),
{
    if is_removable(s.task(id).status) {
        let keep = |t: TaskView| t.id != id;
        lemma_filter_keeps_order(s.tasks, keep);
        lemma_tasks_without_id_as_filter(s.tasks, id, keep);
        let n = s.remove_task(id).next;
        if n.has_task(id) {
            let a = choose|a: int| 0 <= a < n.tasks.len() && (#[trigger] n.tasks[a]).id == id;
            assert(keep(n.tasks[a]));
        }
    }
}

/// Saving a state and loading what was saved into any other manager gives
/// the saved state back: task list, queue, limit and pause flag.
pub proof fn law_save_then_load_restores(saved: SchedulerState, fresh: SchedulerState)
    ensures
        fresh.loaded(saved.stored()) == saved,
{
}

/// Clearing the finished tasks of a consistent state takes exactly the
/// Completed and Canceled tasks out of the list and leaves the queue as it
/// is.
pub proof fn law_clear_leaves_queue(s: SchedulerState)
    requires
        s.consistent(),
    ensures
        s.clear_completed_tasks().next.queue == s.queue,
        s.clear_completed_tasks().next.tasks == tasks_kept(s.tasks),
{
    let keep = |q: Seq<char>| !s.is_cleared_id(q);
    assert forall|k: int| 0 <= k < s.queue.len() implies keep(#[trigger] s.queue[k]) by {
        let q = s.queue[k];
        assert(s.is_pending_id(s.queue[k]));
        let i = choose|i: int|
            0 <= i < s.tasks.len() && (#[trigger] s.tasks[i]).id == q && s.tasks[i].status
                == TaskStatus::Pending;
        if s.is_cleared_id(q) {
            let j = choose|j: int|
                0 <= j < s.tasks.len() && (#[trigger] s.tasks[j]).id == q && is_clearable(
                    s.tasks[j].status,
                );
            if j < i {
                assert(s.tasks[j].id != s.tasks[i].id);
            } else if i < j {
                assert(s.tasks[i].id != s.tasks[j].id);
            }
        }
    }
    lemma_filter_all_pass(s.queue, keep);
    lemma_ids_not_cleared_as_filter(s, s.queue, keep);
}

} // verus!
