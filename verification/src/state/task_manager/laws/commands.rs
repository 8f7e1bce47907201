//! The commands of the scheduler as values, so that laws can speak of
//! sequences of them.

use super::super::model::{is_supported_type, new_task, SchedulerState};
use super::super::snapshot::StoredStateView;
use vstd::prelude::*;

verus! {

/// A command to the scheduler, with the id and time that the outside
/// supplied where the command needs one.
pub enum Command {
    Create {
        task_id: Seq<char>,
        input_path: Seq<char>,
        output_path: Seq<char>,
        task_type: Seq<char>,
        config: Map<String, String>,
        created_at: Seq<char>,
    },
    Start { id: Seq<char>, now: Seq<char> },
    Pause { id: Seq<char> },
    Resume { id: Seq<char> },
    Cancel { id: Seq<char>, now: Seq<char> },
    Retry { id: Seq<char>, now: Seq<char> },
    Remove { id: Seq<char> },
    UpdateProgress { id: Seq<char>, reported: u32 },
    ClearCompleted,
    Reorder { order: Seq<Seq<char>> },
    PauseQueue,
    ResumeQueue { now: Seq<char> },
    StartQueue { now: Seq<char> },
    CancelQueue { now: Seq<char> },
    SetLimit { max: usize, now: Seq<char> },
    ProcessNext { now: Seq<char> },
    Finish { id: Seq<char>, failure: Option<Seq<char>>, now: Seq<char> },
    Load { stored: Option<StoredStateView> },
}

/// The state that a command leaves.
pub open spec fn apply(s: SchedulerState, command: Command) -> SchedulerState {
    match command {
        Command::Create { task_id, input_path, output_path, task_type, config, created_at } => {
            if is_supported_type(task_type) {
                s.created(
                    new_task(task_id, input_path, output_path, task_type, config, created_at),
                )
            } else {
                s
            }
        },
        Command::Start { id, now } => s.start_task(id, now).next,
        Command::Pause { id } => s.pause_task(id).next,
        Command::Resume { id } => s.resume_task(id).next,
        Command::Cancel { id, now } => s.cancel_task(id, now).next,
        Command::Retry { id, now } => s.retry_task(id, now).next,
        Command::Remove { id } => s.remove_task(id).next,
        Command::UpdateProgress { id, reported } => if s.has_task(id) {
            s.progressed(id, reported)
        } else {
            s
        },
        Command::ClearCompleted => s.clear_completed_tasks().next,
        Command::Reorder { order } => s.reorder_tasks(order).next,
        Command::PauseQueue => s.pause_queue().next,
        Command::ResumeQueue { now } => s.resume_queue(now).next,
        Command::StartQueue { now } => s.start_queue(now).next,
        Command::CancelQueue { now } => s.cancel_queue(now).next,
        Command::SetLimit { max, now } => s.set_max_concurrent_tasks(max, now).next,
        Command::ProcessNext { now } => s.process_next_tasks(now).next,
        Command::Finish { id, failure, now } => s.finish_task(id, failure, now).next,
        Command::Load { stored } => match stored {
            Some(stored) => s.loaded(stored),
            None => s,
        },
    }
}

/// The state after a sequence of commands, first one first.
pub open spec fn run(s: SchedulerState, commands: Seq<Command>) -> SchedulerState
    decreases commands.len(),
{
    if commands.len() == 0 {
        s
    } else {
        apply(run(s, commands.drop_last()), commands.last())
    }
}

} // verus!
