//! Facts about the scheduler model that the executable commands and the
//! laws rest on.

use super::events::TaskEventView;
use super::model::{
    canceled_events, count_running, is_cancelable, is_clearable, paused_events, removed_events,
    resumed_events, tasks_cancelable, tasks_cleared, tasks_in, tasks_kept, tasks_without_id,
    started_task, without_id, SchedulerState,
};
use super::task::{TaskStatus, TaskView};
use vstd::prelude::*;

verus! {

/// A task with the id exists before or at place `i`, so a first one exists.
pub proof fn lemma_first_match_exists(s: SchedulerState, id: Seq<char>, i: int)
    requires
        0 <= i < s.tasks.len(),
        s.tasks[i].id == id,
    ensures
        exists|k: int| s.is_first_match(k, id),
    decreases i,
{
    if forall|j: int| 0 <= j < i ==> (#[trigger] s.tasks[j]).id != id {
        assert(s.is_first_match(i, id));
    } else {
        let j = choose|j: int| 0 <= j < i && (#[trigger] s.tasks[j]).id == id;
        lemma_first_match_exists(s, id, j);
    }
}

/// The first place of an id is the one `index_of` names.
pub proof fn lemma_first_match_is_index(s: SchedulerState, id: Seq<char>, i: int)
    requires
        s.is_first_match(i, id),
    ensures
        s.has_task(id),
        s.index_of(id) == i,
{
    let c = s.index_of(id);
    assert(s.is_first_match(c, id));
    assert(s.tasks[i].id == id);
    assert(s.tasks[c].id == id);
}

/// Where a task has the id, `index_of` names the first such task.
pub proof fn lemma_index_of_known(s: SchedulerState, id: Seq<char>)
    requires
        s.has_task(id),
    ensures
        s.is_first_match(s.index_of(id), id),
        s.task(id).id == id,
{
    let i = choose|i: int| 0 <= i < s.tasks.len() && (#[trigger] s.tasks[i]).id == id;
    lemma_first_match_exists(s, id, i);
}

/// Counting the Running tasks of a list with one more task at its end.
pub proof fn lemma_count_running_push(tasks: Seq<TaskView>, t: TaskView)
    ensures
        count_running(tasks.push(t)) == count_running(tasks) + if t.status
            == TaskStatus::Running {
            1nat
        } else {
            0nat
        },
{
    assert(tasks.push(t).drop_last() =~= tasks);
}

/// Replacing one task changes the count of Running tasks by what that one
/// task contributes.
pub proof fn lemma_count_running_update(tasks: Seq<TaskView>, i: int, t: TaskView)
    requires
        0 <= i < tasks.len(),
    ensures
        count_running(tasks.update(i, t)) + (if tasks[i].status == TaskStatus::Running {
            1nat
        } else {
            0nat
        }) == count_running(tasks) + (if t.status == TaskStatus::Running {
            1nat
        } else {
            0nat
        }),
    decreases tasks.len(),
{
    if i == tasks.len() - 1 {
        assert(tasks.update(i, t).drop_last() =~= tasks.drop_last());
    } else {
        lemma_count_running_update(tasks.drop_last(), i, t);
        assert(tasks.update(i, t).drop_last() =~= tasks.drop_last().update(i, t));
    }
}

/// What the queue holds once an id was taken out of it.
pub proof fn lemma_without_id(queue: Seq<Seq<char>>, id: Seq<char>)
    ensures
        !without_id(queue, id).contains(id),
        forall|q: Seq<char>| q != id ==> (without_id(queue, id).contains(q) <==> queue.contains(q)),
        queue.no_duplicates() ==> without_id(queue, id).no_duplicates(),
        !queue.contains(id) ==> without_id(queue, id) == queue,
    decreases queue.len(),
{
    let keep = |q: Seq<char>| q != id;
    reveal(Seq::filter);
    if queue.len() > 0 {
        let front = queue.drop_last();
        lemma_without_id(front, id);
        let out = without_id(queue, id);
        let sub = without_id(front, id);
        assert(out == if keep(queue.last()) {
            sub.push(queue.last())
        } else {
            sub
        });
        assert forall|q: Seq<char>| q != id implies (out.contains(q) <==> queue.contains(q)) by {
            if queue.contains(q) {
                let k = choose|k: int| 0 <= k < queue.len() && queue[k] == q;
                if k < queue.len() - 1 {
                    assert(front[k] == q);
                    assert(front.contains(q));
                    assert(sub.contains(q));
                    let m = choose|m: int| 0 <= m < sub.len() && sub[m] == q;
                    assert(out[m] == q);
                } else {
                    assert(out[out.len() - 1] == q);
                }
            }
            if out.contains(q) {
                let m = choose|m: int| 0 <= m < out.len() && out[m] == q;
                if m < sub.len() {
                    assert(sub[m] == q);
                    assert(sub.contains(q));
                    assert(front.contains(q));
                    let k = choose|k: int| 0 <= k < front.len() && front[k] == q;
                    assert(queue[k] == q);
                } else {
                    assert(queue[queue.len() - 1] == q);
                }
            }
        }
        if out.contains(id) {
            let m = choose|m: int| 0 <= m < out.len() && out[m] == id;
            if m < sub.len() {
                assert(sub[m] == id);
                assert(sub.contains(id));
            }
        }
        if queue.no_duplicates() {
            assert(front.no_duplicates());
            if keep(queue.last()) {
                assert forall|a: int, b: int| 0 <= a < out.len() && 0 <= b < out.len() && a
                    != b implies out[a] != out[b] by {
                    if a == sub.len() || b == sub.len() {
                        let other = if a == sub.len() {
                            b
                        } else {
                            a
                        };
                        assert(sub[other] == out[other]);
                        if sub[other] == queue.last() {
                            assert(sub.contains(queue.last()));
                            assert(front.contains(queue.last()));
                            let k = choose|k: int| 0 <= k < front.len() && front[k] == queue.last();
                            assert(queue[k] == queue[queue.len() - 1]);
                        }
                    }
                }
            }
        }
        if !queue.contains(id) {
            assert(queue[queue.len() - 1] != id);
            assert forall|k: int| 0 <= k < front.len() implies front[k] != id by {
                assert(queue[k] == front[k]);
            }
            assert(!front.contains(id));
            assert(out =~= queue);
        }
    } else {
        assert(without_id(queue, id) =~= queue);
    }
}

/// Filtering one element more of a list.
pub proof fn lemma_filter_take_step<A>(s: Seq<A>, keep: spec_fn(A) -> bool, k: int)
    requires
        0 <= k < s.len(),
    ensures
        s.take(k + 1).filter(keep) == if keep(s[k]) {
            s.take(k).filter(keep).push(s[k])
        } else {
            s.take(k).filter(keep)
        },
{
    reveal(Seq::filter);
    assert(s.take(k + 1).drop_last() =~= s.take(k));
    assert(s.take(k + 1).last() == s[k]);
}

/// Counting the Running tasks among one task more of a list.
pub proof fn lemma_count_running_take_step(tasks: Seq<TaskView>, k: int)
    requires
        0 <= k < tasks.len(),
    ensures
        count_running(tasks.take(k + 1)) == count_running(tasks.take(k)) + if tasks[k].status
            == TaskStatus::Running {
            1nat
        } else {
            0nat
        },
{
    assert(tasks.take(k + 1).drop_last() =~= tasks.take(k));
    assert(tasks.take(k + 1).last() == tasks[k]);
}

/// Two states whose task lists carry the same ids at the same places agree
/// on which ids they know and where.
pub proof fn lemma_same_ids(a: SchedulerState, b: SchedulerState, id: Seq<char>)
    requires
        a.tasks.len() == b.tasks.len(),
        forall|i: int| 0 <= i < a.tasks.len() ==> (#[trigger] a.tasks[i]).id == b.tasks[i].id,
    ensures
        a.has_task(id) == b.has_task(id),
        a.has_task(id) ==> a.index_of(id) == b.index_of(id),
{
    if a.has_task(id) {
        lemma_index_of_known(a, id);
        let i = a.index_of(id);
        assert(b.tasks[i].id == id);
        assert forall|j: int| 0 <= j < i implies (#[trigger] b.tasks[j]).id != id by {
            assert(a.tasks[j].id != id);
        }
        assert(b.is_first_match(i, id));
        lemma_first_match_is_index(b, id, i);
    }
    if b.has_task(id) {
        lemma_index_of_known(b, id);
        let i = b.index_of(id);
        assert(a.tasks[i].id == b.tasks[i].id);
    }
}

/// Dropping the tasks of one id from one task more of a list.
pub proof fn lemma_tasks_without_id_step(tasks: Seq<TaskView>, id: Seq<char>, k: int)
    requires
        0 <= k < tasks.len(),
    ensures
        tasks_without_id(tasks.take(k + 1), id) == if tasks[k].id != id {
            tasks_without_id(tasks.take(k), id).push(tasks[k])
        } else {
            tasks_without_id(tasks.take(k), id)
        },
{
    lemma_filter_take_step(tasks, |t: TaskView| t.id != id, k);
}

/// Keeping the tasks that clearing leaves, among one task more of a list.
pub proof fn lemma_tasks_kept_step(tasks: Seq<TaskView>, k: int)
    requires
        0 <= k < tasks.len(),
    ensures
        tasks_kept(tasks.take(k + 1)) == if !is_clearable(tasks[k].status) {
            tasks_kept(tasks.take(k)).push(tasks[k])
        } else {
            tasks_kept(tasks.take(k))
        },
{
    lemma_filter_take_step(tasks, |t: TaskView| !is_clearable(t.status), k);
}

/// The removal events of one task more of a list.
pub proof fn lemma_removed_events_step(tasks: Seq<TaskView>, k: int)
    requires
        0 <= k < tasks.len(),
    ensures
        removed_events(tasks_cleared(tasks.take(k + 1))) == if is_clearable(tasks[k].status) {
            removed_events(tasks_cleared(tasks.take(k))).push(
                TaskEventView::TaskRemoved(tasks[k].id),
            )
        } else {
            removed_events(tasks_cleared(tasks.take(k)))
        },
{
    lemma_filter_take_step(tasks, |t: TaskView| is_clearable(t.status), k);
    if is_clearable(tasks[k].status) {
        assert(removed_events(tasks_cleared(tasks.take(k)).push(tasks[k])) =~= removed_events(
            tasks_cleared(tasks.take(k)),
        ).push(TaskEventView::TaskRemoved(tasks[k].id)));
    }
}

/// The pause events of one task more of a list.
pub proof fn lemma_paused_events_step(tasks: Seq<TaskView>, k: int)
    requires
        0 <= k < tasks.len(),
    ensures
        paused_events(tasks_in(tasks.take(k + 1), TaskStatus::Running)) == if tasks[k].status
            == TaskStatus::Running {
            paused_events(tasks_in(tasks.take(k), TaskStatus::Running)).push(
                TaskEventView::TaskPaused(tasks[k].id),
            )
        } else {
            paused_events(tasks_in(tasks.take(k), TaskStatus::Running))
        },
{
    lemma_filter_take_step(tasks, |t: TaskView| t.status == TaskStatus::Running, k);
    if tasks[k].status == TaskStatus::Running {
        assert(paused_events(tasks_in(tasks.take(k), TaskStatus::Running).push(tasks[k]))
            =~= paused_events(tasks_in(tasks.take(k), TaskStatus::Running)).push(
            TaskEventView::TaskPaused(tasks[k].id),
        ));
    }
}

/// The resume events of one task more of a list.
pub proof fn lemma_resumed_events_step(tasks: Seq<TaskView>, k: int)
    requires
        0 <= k < tasks.len(),
    ensures
        resumed_events(tasks_in(tasks.take(k + 1), TaskStatus::Paused)) == if tasks[k].status
            == TaskStatus::Paused {
            resumed_events(tasks_in(tasks.take(k), TaskStatus::Paused)).push(
                TaskEventView::TaskResumed(tasks[k].id),
            )
        } else {
            resumed_events(tasks_in(tasks.take(k), TaskStatus::Paused))
        },
{
    lemma_filter_take_step(tasks, |t: TaskView| t.status == TaskStatus::Paused, k);
    if tasks[k].status == TaskStatus::Paused {
        assert(resumed_events(tasks_in(tasks.take(k), TaskStatus::Paused).push(tasks[k]))
            =~= resumed_events(tasks_in(tasks.take(k), TaskStatus::Paused)).push(
            TaskEventView::TaskResumed(tasks[k].id),
        ));
    }
}

/// The cancel events of one task more of a list.
pub proof fn lemma_canceled_events_step(tasks: Seq<TaskView>, k: int)
    requires
        0 <= k < tasks.len(),
    ensures
        canceled_events(tasks_cancelable(tasks.take(k + 1))) == if is_cancelable(
            tasks[k].status,
        ) {
            canceled_events(tasks_cancelable(tasks.take(k))).push(
                TaskEventView::TaskCanceled(tasks[k].id),
            )
        } else {
            canceled_events(tasks_cancelable(tasks.take(k)))
        },
{
    lemma_filter_take_step(tasks, |t: TaskView| is_cancelable(t.status), k);
    if is_cancelable(tasks[k].status) {
        assert(canceled_events(tasks_cancelable(tasks.take(k)).push(tasks[k]))
            =~= canceled_events(tasks_cancelable(tasks.take(k))).push(
            TaskEventView::TaskCanceled(tasks[k].id),
        ));
    }
}

/// Dropping the ids of cleared tasks from one entry more of a list of ids.
pub proof fn lemma_ids_not_cleared_step(s: SchedulerState, ids: Seq<Seq<char>>, k: int)
    requires
        0 <= k < ids.len(),
    ensures
        s.ids_not_cleared(ids.take(k + 1)) == if !s.is_cleared_id(ids[k]) {
            s.ids_not_cleared(ids.take(k)).push(ids[k])
        } else {
            s.ids_not_cleared(ids.take(k))
        },
{
    lemma_filter_take_step(ids, |q: Seq<char>| !s.is_cleared_id(q), k);
}

/// Starting a Pending task makes one more task Running and leaves every id
/// where it was.
pub proof fn lemma_started(s: SchedulerState, id: Seq<char>, now: Seq<char>)
    requires
        s.has_task(id),
        s.task(id).status != TaskStatus::Running,
    ensures
        s.started(id, now).running_count() == s.running_count() + 1,
        s.started(id, now).tasks.len() == s.tasks.len(),
        s.started(id, now).max_concurrent_tasks == s.max_concurrent_tasks,
        s.started(id, now).is_queue_paused == s.is_queue_paused,
        forall|i: int|
            0 <= i < s.tasks.len() ==> (#[trigger] s.started(id, now).tasks[i]).id == s.tasks[i].id,
{
    lemma_index_of_known(s, id);
    lemma_count_running_update(s.tasks, s.index_of(id), started_task(s.task(id), now));
}

/// One step of the admission walk.
pub proof fn lemma_admission_step(
    s: SchedulerState,
    ids: Seq<Seq<char>>,
    k: int,
    now: Seq<char>,
)
    requires
        0 <= k < ids.len(),
    ensures
        s.admitted(ids.skip(k), now) == if s.admits(ids[k]) {
            s.started(ids[k], now).admitted(ids.skip(k + 1), now)
        } else {
            s.admitted(ids.skip(k + 1), now)
        },
        s.admission_events(ids.skip(k), now) == if s.admits(ids[k]) {
            seq![TaskEventView::StartTask(ids[k]), TaskEventView::TaskStarted(ids[k])]
                + s.started(ids[k], now).admission_events(ids.skip(k + 1), now)
        } else {
            s.admission_events(ids.skip(k + 1), now)
        },
{
    assert(ids.skip(k).first() == ids[k]);
    assert(ids.skip(k).drop_first() =~= ids.skip(k + 1));
}

} // verus!
