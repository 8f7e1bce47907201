//! Facts about filtered lists that the laws rest on.

use super::super::model::{is_clearable, tasks_kept, tasks_without_id, without_id, SchedulerState};
use super::super::task::TaskView;
use vstd::prelude::*;

verus! {

/// What a filtered list holds: only elements of the list that pass, all of
/// them, in the order they had.
pub proof fn lemma_filter_keeps_order<A>(s: Seq<A>, keep: spec_fn(A) -> bool)
    ensures
        forall|a: int|
            0 <= a < s.filter(keep).len() ==> keep(#[trigger] s.filter(keep)[a]) && s.contains(
                s.filter(keep)[a],
            ),
        forall|i: int| 0 <= i < s.len() && keep(#[trigger] s[i]) ==> s.filter(keep).contains(s[i]),
        forall|a: int, b: int|
            0 <= a < b < s.filter(keep).len() ==> exists|i: int, j: int|
                0 <= i < j < s.len() && s[i] == #[trigger] s.filter(keep)[a] && s[j]
                    == #[trigger] s.filter(keep)[b],
    decreases s.len(),
{
    reveal(Seq::filter);
    let out = s.filter(keep);
    if s.len() > 0 {
        let front = s.drop_last();
        let sub = front.filter(keep);
        lemma_filter_keeps_order(front, keep);
        assert(out == if keep(s.last()) {
            sub.push(s.last())
        } else {
            sub
        });
        assert forall|a: int| 0 <= a < out.len() implies keep(#[trigger] out[a]) && s.contains(
            out[a],
        ) by {
            if a < sub.len() {
                assert(out[a] == sub[a]);
                assert(front.contains(sub[a]));
                let i = choose|i: int| 0 <= i < front.len() && front[i] == sub[a];
                assert(s[i] == out[a]);
            } else {
                assert(s[s.len() - 1] == out[a]);
            }
        }
        assert forall|i: int| 0 <= i < s.len() && keep(#[trigger] s[i]) implies out.contains(
            s[i],
        ) by {
            if i < front.len() {
                assert(front[i] == s[i]);
                assert(sub.contains(front[i]));
                let a = choose|a: int| 0 <= a < sub.len() && sub[a] == front[i];
                assert(out[a] == s[i]);
            } else {
                assert(out[out.len() - 1] == s[i]);
            }
        }
        assert forall|a: int, b: int| 0 <= a < b < out.len() implies exists|i: int, j: int|
            0 <= i < j < s.len() && s[i] == #[trigger] out[a] && s[j] == #[trigger] out[b] by {
            if b < sub.len() {
                assert(out[a] == sub[a] && out[b] == sub[b]);
                let (i, j) = choose|i: int, j: int|
                    0 <= i < j < front.len() && front[i] == sub[a] && front[j] == sub[b];
                assert(s[i] == out[a] && s[j] == out[b]);
            } else {
                assert(out[a] == sub[a]);
                assert(front.contains(sub[a]));
                let i = choose|i: int| 0 <= i < front.len() && front[i] == sub[a];
                assert(s[i] == out[a] && s[s.len() - 1] == out[b]);
            }
        }
    }
}

/// A filtered list without duplicates has none either.
pub proof fn lemma_filter_no_duplicates<A>(s: Seq<A>, keep: spec_fn(A) -> bool)
    requires
        s.no_duplicates(),
    ensures
        s.filter(keep).no_duplicates(),
{
    lemma_filter_keeps_order(s, keep);
    let out = s.filter(keep);
    assert forall|a: int, b: int| 0 <= a < out.len() && 0 <= b < out.len() && a != b implies out[a]
        != out[b] by {
        let (lo, hi) = if a < b {
            (a, b)
        } else {
            (b, a)
        };
        let (i, j) = choose|i: int, j: int|
            0 <= i < j < s.len() && s[i] == out[lo] && s[j] == out[hi];
        assert(s[i] != s[j]);
    }
}

/// `without_id` is the filter by any test that passes all ids but `id`.
pub proof fn lemma_without_id_as_filter(
    queue: Seq<Seq<char>>,
    id: Seq<char>,
    keep: spec_fn(Seq<char>) -> bool,
)
    requires
        forall|q: Seq<char>| #[trigger] keep(q) == (q != id),
    ensures
        without_id(queue, id) == queue.filter(keep),
    decreases queue.len(),
{
    reveal(Seq::filter);
    if queue.len() > 0 {
        lemma_without_id_as_filter(queue.drop_last(), id, keep);
    }
}

/// `tasks_without_id` is the filter by any test that passes all tasks but
/// those of `id`.
pub proof fn lemma_tasks_without_id_as_filter(
    tasks: Seq<TaskView>,
    id: Seq<char>,
    keep: spec_fn(TaskView) -> bool,
)
    requires
        forall|t: TaskView| #[trigger] keep(t) == (t.id != id),
    ensures
        tasks_without_id(tasks, id) == tasks.filter(keep),
    decreases tasks.len(),
{
    reveal(Seq::filter);
    if tasks.len() > 0 {
        lemma_tasks_without_id_as_filter(tasks.drop_last(), id, keep);
    }
}

/// `tasks_kept` is the filter by any test that passes the tasks that are
/// neither Completed nor Canceled.
pub proof fn lemma_tasks_kept_as_filter(tasks: Seq<TaskView>, keep: spec_fn(TaskView) -> bool)
    requires
        forall|t: TaskView| #[trigger] keep(t) == !is_clearable(t.status),
    ensures
        tasks_kept(tasks) == tasks.filter(keep),
    decreases tasks.len(),
{
    reveal(Seq::filter);
    if tasks.len() > 0 {
        lemma_tasks_kept_as_filter(tasks.drop_last(), keep);
    }
}

/// `ids_not_cleared` is the filter by any test that passes the ids of no
/// Completed or Canceled task.
pub proof fn lemma_ids_not_cleared_as_filter(
    s: SchedulerState,
    ids: Seq<Seq<char>>,
    keep: spec_fn(Seq<char>) -> bool,
)
    requires
        forall|q: Seq<char>| #[trigger] keep(q) == !s.is_cleared_id(q),
    ensures
        s.ids_not_cleared(ids) == ids.filter(keep),
    decreases ids.len(),
{
    reveal(Seq::filter);
    if ids.len() > 0 {
        lemma_ids_not_cleared_as_filter(s, ids.drop_last(), keep);
    }
}

/// Taking the first id out of a queue without duplicates leaves the rest
/// of the queue.
pub proof fn lemma_without_first(queue: Seq<Seq<char>>)
    requires
        queue.len() > 0,
        queue.no_duplicates(),
    ensures
        without_id(queue, queue[0]) == queue.skip(1),
    decreases queue.len(),
{
    reveal(Seq::filter);
    let front = queue.drop_last();
    if queue.len() == 1 {
        assert(without_id(front, queue[0]) =~= Seq::<Seq<char>>::empty());
        assert(without_id(queue, queue[0]) =~= queue.skip(1));
    } else {
        assert(front[0] == queue[0]);
        lemma_without_first(front);
        assert(queue.last() == queue[queue.len() - 1]);
        assert(queue[queue.len() - 1] != queue[0]);
        assert(front.skip(1).push(queue.last()) =~= queue.skip(1));
    }
}

/// A filter that every element passes leaves the list as it is.
pub proof fn lemma_filter_all_pass<A>(s: Seq<A>, keep: spec_fn(A) -> bool)
    requires
        forall|i: int| 0 <= i < s.len() ==> keep(#[trigger] s[i]),
    ensures
        s.filter(keep) == s,
    decreases s.len(),
{
    reveal(Seq::filter);
    if s.len() > 0 {
        let front = s.drop_last();
        assert forall|i: int| 0 <= i < front.len() implies keep(#[trigger] front[i]) by {
            assert(front[i] == s[i]);
        }
        lemma_filter_all_pass(front, keep);
        assert(keep(s[s.len() - 1]));
        assert(front.push(s.last()) =~= s);
    } else {
        assert(s.filter(keep) =~= s);
    }
}

} // verus!
