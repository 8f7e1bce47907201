//! The concurrency limit: which commands never take the number of Running
//! tasks above it.

use super::super::lemmas::{
    lemma_count_running_push, lemma_count_running_update, lemma_index_of_known, lemma_same_ids,
    lemma_started,
};
use super::super::model::{
    canceled_task, completed_task, failed_task, is_retryable, is_supported_type, new_task,
    retried_task, with_status, SchedulerState,
};
use super::super::task::{TaskStatus, TaskView};
use super::commands::{run, Command};
use vstd::prelude::*;

verus! {

/// Creation leaves the number of Running tasks as it was.
pub proof fn law_create_respects_limit(s: SchedulerState, task: TaskView)
    requires
        s.within_limit(),
        task.status == TaskStatus::Pending,
    ensures
        s.created(task).within_limit(),
        s.created(task).running_count() == s.running_count(),
{
    lemma_count_running_push(s.tasks, task);
}

/// Start never takes the number of Running tasks above the limit.
pub proof fn law_start_respects_limit(s: SchedulerState, id: Seq<char>, now: Seq<char>)
    requires
        s.within_limit(),
    ensures
        s.start_task(id, now).next.within_limit(),
{
    if s.has_task(id) && s.task(id).status == TaskStatus::Pending {
        lemma_started(s, id, now);
    }
}

/// Replacing the first task of an id by one that is not Running does not
/// raise the number of Running tasks.
pub proof fn lemma_stop_one(s: SchedulerState, id: Seq<char>, task: TaskView)
    requires
        s.has_task(id),
        task.status != TaskStatus::Running,
    ensures
        s.with_task(id, task).running_count() <= s.running_count(),
        s.task(id).status != TaskStatus::Running ==> s.with_task(id, task).running_count()
            == s.running_count(),
{
    lemma_index_of_known(s, id);
    lemma_count_running_update(s.tasks, s.index_of(id), task);
}

/// Cancel never takes the number of Running tasks above the limit.
pub proof fn law_cancel_respects_limit(s: SchedulerState, id: Seq<char>, now: Seq<char>)
    requires
        s.within_limit(),
    ensures
        s.cancel_task(id, now).next.within_limit(),
{
    if s.has_task(id) {
        lemma_stop_one(s, id, canceled_task(s.task(id), now));
    }
}

/// Pause never takes the number of Running tasks above the limit.
pub proof fn law_pause_respects_limit(s: SchedulerState, id: Seq<char>)
    requires
        s.within_limit(),
    ensures
        s.pause_task(id).next.within_limit(),
{
    if s.has_task(id) {
        lemma_stop_one(s, id, with_status(s.task(id), TaskStatus::Paused));
    }
}

/// The admission walk never takes the number of Running tasks above the
/// limit.
pub proof fn lemma_admitted_respects_limit(s: SchedulerState, ids: Seq<Seq<char>>, now: Seq<char>)
    requires
        s.within_limit(),
    ensures
        s.admitted(ids, now).within_limit(),
        s.admitted(ids, now).max_concurrent_tasks == s.max_concurrent_tasks,
    decreases ids.len(),
{
    if ids.len() > 0 {
        if s.admits(ids.first()) {
            lemma_started(s, ids.first(), now);
            lemma_admitted_respects_limit(s.started(ids.first(), now), ids.drop_first(), now);
        } else {
            lemma_admitted_respects_limit(s, ids.drop_first(), now);
        }
    }
}

/// Admission never takes the number of Running tasks above the limit.
pub proof fn law_admission_respects_limit(s: SchedulerState, now: Seq<char>)
    requires
        s.within_limit(),
    ensures
        s.process_next_tasks(now).next.within_limit(),
{
    lemma_admitted_respects_limit(s, s.queue, now);
}

/// Finish never takes the number of Running tasks above the limit: the
/// finished task frees its slot before admission fills it.
pub proof fn law_finish_respects_limit(
    s: SchedulerState,
    id: Seq<char>,
    failure: Option<Seq<char>>,
    now: Seq<char>,
)
    requires
        s.within_limit(),
    ensures
        s.finish_task(id, failure, now).next.within_limit(),
{
    if s.takes_result(id) {
        match failure {
            None => lemma_stop_one(s, id, completed_task(s.task(id), now)),
            Some(error) => lemma_stop_one(s, id, failed_task(s.task(id), error, now)),
        }
    }
    law_admission_respects_limit(s.settled(id, failure, now), now);
}

/// Retry never takes the number of Running tasks above the limit.
pub proof fn law_retry_respects_limit(s: SchedulerState, id: Seq<char>, now: Seq<char>)
    requires
        s.within_limit(),
    ensures
        s.retry_task(id, now).next.within_limit(),
{
    if s.has_task(id) && is_retryable(s.task(id).status) {
        lemma_index_of_known(s, id);
        lemma_stop_one(s, id, retried_task(s.task(id)));
        let mid = s.requeued(id);
        if !s.is_queue_paused && s.has_free_slot() {
            assert forall|j: int| 0 <= j < s.tasks.len() implies (#[trigger] s.tasks[j]).id
                == mid.tasks[j].id by {}
            lemma_same_ids(s, mid, id);
            lemma_started(mid, id, now);
        }
    }
}

/// Whether the command is one of create, start, cancel and finish.
pub open spec fn is_basic(command: Command) -> bool {
    command is Create || command is Start || command is Cancel || command is Finish
}

/// After every sequence of create, start, cancel and finish on a new
/// manager, no more tasks are Running than the limit allows.
pub proof fn law_running_never_exceeds_limit(max: usize, commands: Seq<Command>)
    requires
        forall|k: int| 0 <= k < commands.len() ==> is_basic(#[trigger] commands[k]),
    ensures
        run(SchedulerState::initial(max), commands).within_limit(),
    decreases commands.len(),
{
    let start = SchedulerState::initial(max);
    if commands.len() > 0 {
        let front = commands.drop_last();
        assert forall|k: int| 0 <= k < front.len() implies is_basic(#[trigger] front[k]) by {
            assert(front[k] == commands[k]);
        }
        law_running_never_exceeds_limit(max, front);
        let s = run(start, front);
        assert(is_basic(commands[commands.len() - 1]));
        match commands.last() {
            Command::Create { task_id, input_path, output_path, task_type, config, created_at } => {
                if is_supported_type(task_type) {
                    law_create_respects_limit(
                        s,
                        new_task(task_id, input_path, output_path, task_type, config, created_at),
                    );
                }
            },
            Command::Start { id, now } => law_start_respects_limit(s, id, now),
            Command::Cancel { id, now } => law_cancel_respects_limit(s, id, now),
            Command::Finish { id, failure, now } => law_finish_respects_limit(
                s,
                id,
                failure,
                now,
            ),
            _ => {},
        }
    }
}

} // verus!
