//! Admission in closed form: first come, first served.

use super::super::errors::TaskErrorView;
use super::super::events::TaskEventView;
use super::super::lemmas::{lemma_index_of_known, lemma_started};
use super::super::model::{started_task, SchedulerState};
use super::super::task::TaskStatus;
use super::commands::run;
use super::filters::lemma_without_first;
use super::queue::law_start_keeps_queue_invariant;
use vstd::prelude::*;

verus! {

/// How many more tasks may run.
pub open spec fn free_slots(s: SchedulerState) -> nat {
    if s.running_count() < s.max_concurrent_tasks {
        (s.max_concurrent_tasks - s.running_count()) as nat
    } else {
        0
    }
}

/// How many tasks admission starts: as many as slots are free, and no more
/// than the queue holds.
pub open spec fn admitted_count(s: SchedulerState) -> nat {
    if free_slots(s) <= s.queue.len() {
        free_slots(s)
    } else {
        s.queue.len()
    }
}

/// The events of admission for the given ids: the signal and the start of
/// each, in order.
pub open spec fn admission_trail(ids: Seq<Seq<char>>) -> Seq<TaskEventView>
    decreases ids.len(),
{
    if ids.len() == 0 {
        Seq::empty()
    } else {
        seq![TaskEventView::StartTask(ids.first()), TaskEventView::TaskStarted(ids.first())]
            + admission_trail(ids.drop_first())
    }
}

/// Whether `next` is `s` after the first `k` tasks of the queue were
/// started at the time `now`: they left the queue, each of them went from
/// Pending to Running, and nothing else changed.
pub open spec fn is_admission_of(
    s: SchedulerState,
    next: SchedulerState,
    k: int,
    now: Seq<char>,
) -> bool {
    &&& next.queue == s.queue.skip(k)
    &&& next.tasks.len() == s.tasks.len()
    &&& forall|i: int|
        0 <= i < s.tasks.len() ==> #[trigger] next.tasks[i] == if s.queue.take(k).contains(
            s.tasks[i].id,
        ) {
            started_task(s.tasks[i], now)
        } else {
            s.tasks[i]
        }
    &&& next.max_concurrent_tasks == s.max_concurrent_tasks
    &&& next.is_queue_paused == s.is_queue_paused
}

/// With no slot free the admission walk starts nothing.
pub proof fn lemma_no_slot_no_admission(s: SchedulerState, ids: Seq<Seq<char>>, now: Seq<char>)
    requires
        !s.has_free_slot(),
    ensures
        s.admitted(ids, now) == s,
        s.admission_events(ids, now) == Seq::<TaskEventView>::empty(),
    decreases ids.len(),
{
    if ids.len() > 0 {
        lemma_no_slot_no_admission(s, ids.drop_first(), now);
    }
}

/// In a consistent state the first id of the queue is that of a Pending
/// task.
pub proof fn lemma_queue_head_is_pending(s: SchedulerState)
    requires
        s.consistent(),
        s.queue.len() > 0,
    ensures
        s.has_task(s.queue[0]),
        s.task(s.queue[0]).status == TaskStatus::Pending,
{
    let q = s.queue[0];
    assert(s.is_pending_id(s.queue[0]));
    let i = choose|i: int|
        0 <= i < s.tasks.len() && (#[trigger] s.tasks[i]).id == q && s.tasks[i].status
            == TaskStatus::Pending;
    lemma_index_of_known(s, q);
    let c = s.index_of(q);
    if c < i {
        assert(s.tasks[c].id != s.tasks[i].id);
    } else if i < c {
        assert(s.tasks[i].id != s.tasks[c].id);
    }
}

/// The admission walk over the queue of a consistent state starts the first
/// tasks of the queue, as many as `admitted_count` says.
pub proof fn lemma_admission_closed_form(s: SchedulerState, now: Seq<char>)
    requires
        s.consistent(),
    ensures
        is_admission_of(s, s.admitted(s.queue, now), admitted_count(s) as int, now),
        s.admission_events(s.queue, now) == admission_trail(
            s.queue.take(admitted_count(s) as int),
        ),
    decreases s.queue.len(),
{
    let k = admitted_count(s) as int;
    if s.queue.len() == 0 {
        assert(s.queue.skip(0) =~= s.queue);
        assert(s.queue.take(0) =~= Seq::<Seq<char>>::empty());
    } else if !s.has_free_slot() {
        lemma_no_slot_no_admission(s, s.queue, now);
        assert(s.queue.skip(0) =~= s.queue);
        assert(s.queue.take(0) =~= Seq::<Seq<char>>::empty());
    } else {
        let q = s.queue[0];
        lemma_queue_head_is_pending(s);
        lemma_index_of_known(s, q);
        let c = s.index_of(q);
        let s1 = s.started(q, now);
        lemma_without_first(s.queue);
        lemma_started(s, q, now);
        law_start_keeps_queue_invariant(s, q, now);
        assert(s.admits(s.queue.first()));
        assert(s.queue.drop_first() =~= s.queue.skip(1));
        assert(s1.queue == s.queue.skip(1));
        lemma_admission_closed_form(s1, now);
        let n = s1.admitted(s1.queue, now);
        let k1 = admitted_count(s1) as int;
        assert(k1 == k - 1);
        assert(s.admitted(s.queue, now) == n);
        assert(s.queue.skip(1).skip(k - 1) =~= s.queue.skip(k));
        assert forall|i: int| 0 <= i < s.tasks.len() implies #[trigger] n.tasks[i]
            == if s.queue.take(k).contains(s.tasks[i].id) {
            started_task(s.tasks[i], now)
        } else {
            s.tasks[i]
        } by {
            let id = s.tasks[i].id;
            assert(s1.tasks[i].id == id);
            assert(s.queue.take(k)[0] == q);
            if i == c {
                if s1.queue.take(k1).contains(q) {
                    let m = choose|m: int| 0 <= m < k1 && s1.queue.take(k1)[m] == q;
                    assert(s.queue[m + 1] == q);
                }
            } else {
                if c < i {
                    assert(s.tasks[c].id != s.tasks[i].id);
                } else {
                    assert(s.tasks[i].id != s.tasks[c].id);
                }
                assert(s1.tasks[i] == s.tasks[i]);
                if s1.queue.take(k1).contains(id) {
                    let m = choose|m: int| 0 <= m < k1 && s1.queue.take(k1)[m] == id;
                    assert(s.queue.take(k)[m + 1] == id);
                }
                if s.queue.take(k).contains(id) {
                    let m = choose|m: int| 0 <= m < k && s.queue.take(k)[m] == id;
                    assert(m != 0);
                    assert(s1.queue.take(k1)[m - 1] == id);
                }
            }
        }
        assert(s.queue.take(k).first() == q);
        assert(s.queue.take(k).drop_first() =~= s1.queue.take(k1));
    }
}

/// Admission is first come, first served. In a consistent state whose
/// queue is not paused it starts the first tasks of the queue, as many as
/// slots are free: they leave the queue in order, each goes from Pending to
/// Running, nothing else changes, and the events are the signal and the
/// start of each, in the order of the queue.
pub proof fn law_admission_is_first_come_first_served(s: SchedulerState, now: Seq<char>)
    requires
        s.consistent(),
        !s.is_queue_paused,
    ensures
        is_admission_of(
            s,
            s.process_next_tasks(now).next,
            admitted_count(s) as int,
            now,
        ),
        s.process_next_tasks(now).outcome == Ok::<Seq<TaskEventView>, TaskErrorView>(
            admission_trail(s.queue.take(admitted_count(s) as int)),
        ),
{
    lemma_admission_closed_form(s, now);
}

} // verus!
