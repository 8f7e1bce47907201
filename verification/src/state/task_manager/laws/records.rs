//! What holds of every task record, whatever happened to the task.

use super::super::lemmas::{lemma_index_of_known, lemma_same_ids};
use super::super::model::{
    canceled_if_active, canceled_task, completed_task, failed_task, is_cancelable, is_clearable,
    is_removable, is_retryable, is_supported_type, is_well_formed, merged_progress, new_task,
    paused_if_running, resumed_if_paused, retried_task, started_task, with_status, SchedulerState,
};
use super::super::task::{TaskStatus, TaskView};
use super::commands::{apply, run, Command};
use super::filters::{
    lemma_filter_keeps_order, lemma_tasks_kept_as_filter, lemma_tasks_without_id_as_filter,
};
use vstd::prelude::*;

verus! {

/// Replacing the first task of an id by a well-formed record leaves every
/// record well formed.
pub proof fn lemma_replace_well_formed(s: SchedulerState, id: Seq<char>, task: TaskView)
    requires
        s.all_well_formed(),
        s.has_task(id),
        is_well_formed(task),
    ensures
        s.with_task(id, task).all_well_formed(),
        is_well_formed(s.task(id)),
{
    lemma_index_of_known(s, id);
    let n = s.with_task(id, task);
    assert forall|i: int| 0 <= i < n.tasks.len() implies is_well_formed(
        #[trigger] n.tasks[i],
    ) by {
        if i != s.index_of(id) {
            assert(n.tasks[i] == s.tasks[i]);
        }
    }
}

/// Passing every record through a change that keeps records well formed
/// leaves every record well formed.
pub proof fn lemma_change_each_well_formed(
    s: SchedulerState,
    change: spec_fn(TaskView) -> TaskView,
)
    requires
        s.all_well_formed(),
        forall|t: TaskView| is_well_formed(t) ==> is_well_formed(#[trigger] change(t)),
    ensures
        s.with_each_task(change).all_well_formed(),
{
    let n = s.with_each_task(change);
    assert forall|i: int| 0 <= i < n.tasks.len() implies is_well_formed(
        #[trigger] n.tasks[i],
    ) by {
        assert(n.tasks[i] == change(s.tasks[i]));
    }
}

/// Records that are left after some were taken out are well formed as
/// they were.
pub proof fn lemma_filter_well_formed(s: SchedulerState, keep: spec_fn(TaskView) -> bool)
    requires
        s.all_well_formed(),
    ensures
        forall|i: int|
            0 <= i < s.tasks.filter(keep).len() ==> is_well_formed(
                #[trigger] s.tasks.filter(keep)[i],
            ),
{
    lemma_filter_keeps_order(s.tasks, keep);
    let out = s.tasks.filter(keep);
    assert forall|i: int| 0 <= i < out.len() implies is_well_formed(#[trigger] out[i]) by {
        assert(s.tasks.contains(out[i]));
        let j = choose|j: int| 0 <= j < s.tasks.len() && s.tasks[j] == out[i];
        assert(is_well_formed(s.tasks[j]));
    }
}

/// Starting a Pending task leaves every record well formed.
pub proof fn lemma_started_well_formed(s: SchedulerState, id: Seq<char>, now: Seq<char>)
    requires
        s.all_well_formed(),
        s.has_task(id),
        s.task(id).status == TaskStatus::Pending,
    ensures
        s.started(id, now).all_well_formed(),
{
    lemma_index_of_known(s, id);
    assert(is_well_formed(s.tasks[s.index_of(id)]));
    lemma_replace_well_formed(s, id, started_task(s.task(id), now));
    let a = s.with_task(id, started_task(s.task(id), now));
    let b = s.started(id, now);
    assert(a.tasks == b.tasks);
}

/// The admission walk leaves every record well formed.
pub proof fn lemma_admitted_well_formed(s: SchedulerState, ids: Seq<Seq<char>>, now: Seq<char>)
    requires
        s.all_well_formed(),
    ensures
        s.admitted(ids, now).all_well_formed(),
    decreases ids.len(),
{
    if ids.len() > 0 {
        if s.admits(ids.first()) {
            lemma_started_well_formed(s, ids.first(), now);
            lemma_admitted_well_formed(s.started(ids.first(), now), ids.drop_first(), now);
        } else {
            lemma_admitted_well_formed(s, ids.drop_first(), now);
        }
    }
}

/// Whether the records that a command brings are well formed: the records
/// of a snapshot that is loaded. Every other command brings none, or one
/// that is new.
pub open spec fn brings_well_formed_records(s: SchedulerState, command: Command) -> bool {
    match command {
        Command::Load { stored } => apply(s, command).all_well_formed(),
        _ => true,
    }
}

/// One command leaves every task record well formed.
pub proof fn law_command_keeps_records_well_formed(s: SchedulerState, command: Command)
    requires
        s.all_well_formed(),
        brings_well_formed_records(s, command),
    ensures
        apply(s, command).all_well_formed(),
{
    let n = apply(s, command);
    match command {
        Command::Create { task_id, input_path, output_path, task_type, config, created_at } => {
            if is_supported_type(task_type) {
                let task = new_task(
                    task_id,
                    input_path,
                    output_path,
                    task_type,
                    config,
                    created_at,
                );
                assert forall|i: int| 0 <= i < n.tasks.len() implies is_well_formed(
                    #[trigger] n.tasks[i],
                ) by {
                    if i < s.tasks.len() {
                        assert(n.tasks[i] == s.tasks[i]);
                    } else {
                        assert(n.tasks[i] == task);
                    }
                }
            }
        },
        Command::Start { id, now } => {
            if s.has_task(id) && s.task(id).status == TaskStatus::Pending {
                lemma_started_well_formed(s, id, now);
            }
        },
        Command::Pause { id } => {
            if s.has_task(id) {
                lemma_index_of_known(s, id);
                assert(is_well_formed(s.tasks[s.index_of(id)]));
                if s.task(id).status == TaskStatus::Running {
                    lemma_replace_well_formed(s, id, with_status(s.task(id), TaskStatus::Paused));
                }
            }
        },
        Command::Resume { id } => {
            if s.has_task(id) {
                lemma_index_of_known(s, id);
                assert(is_well_formed(s.tasks[s.index_of(id)]));
                if s.task(id).status == TaskStatus::Paused {
                    lemma_replace_well_formed(s, id, with_status(s.task(id), TaskStatus::Running));
                }
            }
        },
        Command::Cancel { id, now } => {
            if s.has_task(id) {
                lemma_index_of_known(s, id);
                assert(is_well_formed(s.tasks[s.index_of(id)]));
                if is_cancelable(s.task(id).status) {
                    lemma_replace_well_formed(s, id, canceled_task(s.task(id), now));
                    let a = s.with_task(id, canceled_task(s.task(id), now));
                    assert(a.tasks == n.tasks);
                }
            }
        },
        Command::Retry { id, now } => {
            if s.has_task(id) {
                lemma_index_of_known(s, id);
                assert(is_well_formed(s.tasks[s.index_of(id)]));
                if is_retryable(s.task(id).status) {
                    lemma_replace_well_formed(s, id, retried_task(s.task(id)));
                    let mid = s.requeued(id);
                    assert(mid.tasks == s.with_task(id, retried_task(s.task(id))).tasks);
                    if !s.is_queue_paused && s.has_free_slot() {
                        assert forall|j: int| 0 <= j < s.tasks.len() implies (
                        #[trigger] s.tasks[j]).id == mid.tasks[j].id by {}
                        lemma_same_ids(s, mid, id);
                        lemma_started_well_formed(mid, id, now);
                    }
                }
            }
        },
        Command::Remove { id } => {
            if s.has_task(id) && is_removable(s.task(id).status) {
                let keep = |t: TaskView| t.id != id;
                lemma_filter_well_formed(s, keep);
                lemma_tasks_without_id_as_filter(s.tasks, id, keep);
            }
        },
        Command::UpdateProgress { id, reported } => {
            if s.has_task(id) {
                lemma_index_of_known(s, id);
                assert(is_well_formed(s.tasks[s.index_of(id)]));
                lemma_replace_well_formed(
                    s,
                    id,
                    TaskView {
                        progress: merged_progress(s.task(id), reported),
                        ..s.task(id)
                    },
                );
            }
        },
        Command::ClearCompleted => {
            let keep = |t: TaskView| !is_clearable(t.status);
            lemma_filter_well_formed(s, keep);
            lemma_tasks_kept_as_filter(s.tasks, keep);
        },
        Command::Reorder { order } => {},
        Command::PauseQueue => {
            lemma_change_each_well_formed(s, |t: TaskView| paused_if_running(t));
            assert(n.tasks == s.with_each_task(|t: TaskView| paused_if_running(t)).tasks);
        },
        Command::ResumeQueue { now } => {
            lemma_change_each_well_formed(s, |t: TaskView| resumed_if_paused(t));
            assert(s.all_resumed().tasks == s.with_each_task(
                |t: TaskView| resumed_if_paused(t),
            ).tasks);
            lemma_admitted_well_formed(s.all_resumed(), s.all_resumed().queue, now);
        },
        Command::StartQueue { now } => {
            lemma_change_each_well_formed(s, |t: TaskView| resumed_if_paused(t));
            assert(s.all_resumed().tasks == s.with_each_task(
                |t: TaskView| resumed_if_paused(t),
            ).tasks);
            lemma_admitted_well_formed(s.all_resumed(), s.all_resumed().queue, now);
            lemma_admitted_well_formed(s, s.queue, now);
        },
        Command::CancelQueue { now } => {
            lemma_change_each_well_formed(s, |t: TaskView| canceled_if_active(t, now));
            assert(n.tasks == s.with_each_task(|t: TaskView| canceled_if_active(t, now)).tasks);
        },
        Command::SetLimit { max, now } => {
            assert(s.with_limit(max).tasks == s.tasks);
            lemma_admitted_well_formed(s.with_limit(max), s.with_limit(max).queue, now);
        },
        Command::ProcessNext { now } => {
            lemma_admitted_well_formed(s, s.queue, now);
        },
        Command::Finish { id, failure, now } => {
            if s.takes_result(id) {
                lemma_index_of_known(s, id);
                assert(is_well_formed(s.tasks[s.index_of(id)]));
                match failure {
                    None => lemma_replace_well_formed(s, id, completed_task(s.task(id), now)),
                    Some(error) => lemma_replace_well_formed(
                        s,
                        id,
                        failed_task(s.task(id), error, now),
                    ),
                }
            }
            let settled = s.settled(id, failure, now);
            lemma_admitted_well_formed(settled, settled.queue, now);
        },
        Command::Load { stored } => {},
    }
}

/// Every task record is well formed after every sequence of commands on a
/// new manager, where every snapshot that is loaded holds well-formed
/// records: the progress stays within its range, an error is recorded
/// exactly while the task is Failed, and the times of start and completion
/// are recorded exactly when the task was started and while it is
/// finished.
pub proof fn law_records_always_well_formed(max: usize, commands: Seq<Command>)
    requires
        forall|k: int|
            0 <= k < commands.len() ==> brings_well_formed_records(
                run(SchedulerState::initial(max), commands.take(k)),
                #[trigger] commands[k],
            ),
    ensures
        run(SchedulerState::initial(max), commands).all_well_formed(),
    decreases commands.len(),
{
    let start = SchedulerState::initial(max);
    if commands.len() > 0 {
        let front = commands.drop_last();
        assert forall|k: int| 0 <= k < front.len() implies brings_well_formed_records(
            run(start, front.take(k)),
            #[trigger] front[k],
        ) by {
            assert(front.take(k) =~= commands.take(k));
            assert(front[k] == commands[k]);
        }
        law_records_always_well_formed(max, front);
        assert(commands.take(commands.len() - 1) =~= front);
        assert(brings_well_formed_records(run(start, front), commands[commands.len() - 1]));
        law_command_keeps_records_well_formed(run(start, front), commands.last());
    }
}

} // verus!
