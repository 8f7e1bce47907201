use std::collections::HashMap;
use vid_kit_simple::state::task_manager::events::host_actions;
use vid_kit_simple::state::task_manager::{
    HostAction, StoredState, Task, TaskError, TaskEvent, TaskManager, TaskResult, TaskStatus,
    PROGRESS_COMPLETE,
};

/// The events among the actions of a command, in order.
trait Emitted {
    fn emitted(self) -> TaskResult<Vec<TaskEvent>>;
}

impl Emitted for TaskResult<Vec<HostAction>> {
    fn emitted(self) -> TaskResult<Vec<TaskEvent>> {
        self.map(|actions| {
            actions
                .into_iter()
                .filter_map(|action| match action {
                    HostAction::Emit(event) => Some(event),
                    _ => None,
                })
                .collect()
        })
    }
}

const T0: &str = "2024-01-01T00:00:00+00:00";
const T1: &str = "2024-01-01T00:00:01+00:00";
const T2: &str = "2024-01-01T00:00:02+00:00";

fn add(manager: &mut TaskManager, id: &str) -> String {
    manager
        .create_task_with(
            format!("/in/{id}.mp4"),
            format!("/out/{id}.mp4"),
            "convert".to_string(),
            HashMap::new(),
            id.to_string(),
            T0.to_string(),
        )
        .unwrap()
}

fn status(manager: &TaskManager, id: &str) -> TaskStatus {
    manager.get_task(id).unwrap().status
}

fn running(manager: &TaskManager) -> usize {
    manager
        .get_all_tasks()
        .iter()
        .filter(|t| t.status == TaskStatus::Running)
        .count()
}

/// Every id in the queue is that of a Pending task, and the id of every
/// Pending task is in the queue exactly once.
fn assert_queue_invariant(manager: &TaskManager) {
    let tasks = manager.get_all_tasks();
    let queue = manager.get_queue();
    for id in &queue {
        let found: Vec<&Task> = tasks.iter().filter(|t| &t.id == id).collect();
        assert_eq!(found.len(), 1, "queue id {id} names one task");
        assert_eq!(found[0].status, TaskStatus::Pending, "queued task {id} is pending");
    }
    for task in &tasks {
        let times = queue.iter().filter(|id| **id == task.id).count();
        if task.status == TaskStatus::Pending {
            assert_eq!(times, 1, "pending task {} is queued once", task.id);
        } else {
            assert_eq!(times, 0, "task {} is not queued", task.id);
        }
    }
}

/// What holds of every task record whatever happened to the task.
fn assert_records_well_formed(manager: &TaskManager) {
    for task in manager.get_all_tasks() {
        let terminal = matches!(
            task.status,
            TaskStatus::Completed | TaskStatus::Failed | TaskStatus::Canceled
        );
        assert!(task.progress <= PROGRESS_COMPLETE, "progress of {}", task.id);
        assert_eq!(task.error.is_some(), task.status == TaskStatus::Failed, "error of {}", task.id);
        assert_eq!(task.completed_at.is_some(), terminal, "completion of {}", task.id);
        assert_eq!(task.started_at.is_some(), task.attempts > 0, "start of {}", task.id);
        if matches!(
            task.status,
            TaskStatus::Running | TaskStatus::Paused | TaskStatus::Completed | TaskStatus::Failed
        ) {
            assert!(task.attempts > 0, "attempts of {}", task.id);
        }
    }
}

fn invalid(text: &str) -> TaskError {
    TaskError::InvalidStatus(text.to_string())
}

#[test]
fn new_manager_is_empty() {
    let manager = TaskManager::new(2);
    assert!(manager.get_all_tasks().is_empty());
    assert!(manager.get_queue().is_empty());
    assert_eq!(manager.get_max_concurrent_tasks(), 2);
    assert!(!manager.is_queue_paused());
}

#[test]
fn create_task_appends_a_pending_task() {
    let mut manager = TaskManager::new(2);
    let mut config = HashMap::new();
    config.insert("width".to_string(), "1280".to_string());
    let id = manager
        .create_task_with(
            "in.mp4".to_string(),
            "out.mp4".to_string(),
            "split".to_string(),
            config.clone(),
            "id-1".to_string(),
            T0.to_string(),
        )
        .unwrap();
    assert_eq!(id, "id-1");
    let task = manager.get_task("id-1").unwrap();
    assert_eq!(
        task,
        Task {
            id: "id-1".to_string(),
            input_path: "in.mp4".to_string(),
            output_path: "out.mp4".to_string(),
            status: TaskStatus::Pending,
            progress: 0,
            error: None,
            attempts: 0,
            created_at: T0.to_string(),
            started_at: None,
            completed_at: None,
            task_type: "split".to_string(),
            config,
        }
    );
    assert_eq!(manager.get_queue(), vec!["id-1".to_string()]);
    add(&mut manager, "id-2");
    assert_eq!(manager.get_queue(), vec!["id-1".to_string(), "id-2".to_string()]);
    assert_eq!(manager.get_all_tasks().len(), 2);
    assert_eq!(manager.get_all_tasks()[1].id, "id-2");
    assert_queue_invariant(&manager);
}

#[test]
fn create_task_takes_each_supported_type() {
    let mut manager = TaskManager::new(1);
    for (i, kind) in ["convert", "split", "edit", "sanitize"].iter().enumerate() {
        let r = manager.create_task_with(
            "a".to_string(),
            "b".to_string(),
            kind.to_string(),
            HashMap::new(),
            format!("t{i}"),
            T0.to_string(),
        );
        assert_eq!(r, Ok(format!("t{i}")));
    }
    assert_eq!(manager.get_all_tasks().len(), 4);
}

#[test]
fn create_task_refuses_an_unknown_type() {
    let mut manager = TaskManager::new(1);
    let r = manager.create_task_with(
        "a".to_string(),
        "b".to_string(),
        "transcode".to_string(),
        HashMap::new(),
        "t".to_string(),
        T0.to_string(),
    );
    assert_eq!(r, Err(TaskError::UnsupportedTaskType("transcode".to_string())));
    assert!(manager.get_all_tasks().is_empty());
    assert!(manager.get_queue().is_empty());
    let r = manager.create_task(
        "a".to_string(),
        "b".to_string(),
        "Convert".to_string(),
        HashMap::new(),
    );
    assert_eq!(r, Err(TaskError::UnsupportedTaskType("Convert".to_string())));
    assert!(manager.get_all_tasks().is_empty());
}

#[test]
fn create_task_draws_a_fresh_id_and_stamps_the_time() {
    let mut manager = TaskManager::new(1);
    let a = manager
        .create_task("a".to_string(), "b".to_string(), "edit".to_string(), HashMap::new())
        .unwrap();
    let b = manager
        .create_task("a".to_string(), "b".to_string(), "edit".to_string(), HashMap::new())
        .unwrap();
    assert_eq!(a.chars().count(), 36);
    assert_eq!(b.chars().count(), 36);
    assert_ne!(a, b);
    assert_eq!(a.matches('-').count(), 4);
    let task = manager.get_task(&a).unwrap();
    assert_eq!(task.status, TaskStatus::Pending);
    assert!(chrono::DateTime::parse_from_rfc3339(&task.created_at).is_ok());
    assert_eq!(manager.get_queue(), vec![a, b]);
}

#[test]
fn get_task_of_an_unknown_id_fails() {
    let mut manager = TaskManager::new(1);
    add(&mut manager, "a");
    assert_eq!(manager.get_task("b"), Err(TaskError::TaskNotFound("b".to_string())));
}

#[test]
fn start_moves_a_pending_task_to_running() {
    let mut manager = TaskManager::new(1);
    add(&mut manager, "a");
    let events = manager.start_task_at("a", T1).emitted().unwrap();
    assert_eq!(events, vec![TaskEvent::TaskStarted("a".to_string())]);
    let task = manager.get_task("a").unwrap();
    assert_eq!(task.status, TaskStatus::Running);
    assert_eq!(task.started_at, Some(T1.to_string()));
    assert_eq!(task.attempts, 1);
    assert_eq!(task.completed_at, None);
    assert!(manager.get_queue().is_empty());
    assert_queue_invariant(&manager);
}

#[test]
fn start_of_an_unknown_task_fails() {
    let mut manager = TaskManager::new(1);
    assert_eq!(
        manager.start_task_at("nope", T1).emitted(),
        Err(TaskError::TaskNotFound("nope".to_string()))
    );
    assert_eq!(manager.start_task("nope").emitted(), Err(TaskError::TaskNotFound("nope".to_string())));
}

#[test]
fn start_of_a_task_that_is_not_pending_changes_nothing() {
    let mut manager = TaskManager::new(3);
    add(&mut manager, "a");
    add(&mut manager, "b");
    manager.start_task_at("a", T1).emitted().unwrap();
    let before_tasks = manager.get_all_tasks();
    let before_queue = manager.get_queue();
    assert_eq!(
        manager.start_task_at("a", T2).emitted(),
        Err(invalid("Task a is not in pending state"))
    );
    assert_eq!(manager.get_all_tasks(), before_tasks);
    assert_eq!(manager.get_queue(), before_queue);

    manager.pause_task("a").emitted().unwrap();
    assert_eq!(manager.start_task("a").emitted(), Err(invalid("Task a is not in pending state")));
    manager.cancel_task_at("a", T2).emitted().unwrap();
    assert_eq!(manager.start_task("a").emitted(), Err(invalid("Task a is not in pending state")));
    manager.start_task_at("b", T1).emitted().unwrap();
    manager.finish_task_at("b", Ok(()), T2).emitted().unwrap();
    assert_eq!(manager.start_task("b").emitted(), Err(invalid("Task b is not in pending state")));
    manager.retry_task_at("a", T2).emitted().unwrap();
    manager
        .finish_task_at("a", Err(TaskError::ProcessingFailed("x".to_string())), T2).emitted()
        .unwrap();
    assert_eq!(status(&manager, "a"), TaskStatus::Failed);
    let before = manager.get_all_tasks();
    assert_eq!(manager.start_task("a").emitted(), Err(invalid("Task a is not in pending state")));
    assert_eq!(manager.get_all_tasks(), before);
}

#[test]
fn third_start_waits_until_a_slot_frees() {
    let mut manager = TaskManager::new(2);
    let a = add(&mut manager, "a");
    let b = add(&mut manager, "b");
    let c = add(&mut manager, "c");
    assert_eq!(manager.start_task(&a).emitted().unwrap(), vec![TaskEvent::TaskStarted(a.clone())]);
    assert_eq!(manager.start_task(&b).emitted().unwrap(), vec![TaskEvent::TaskStarted(b.clone())]);
    assert_eq!(manager.start_task(&c).emitted().unwrap(), vec![]);
    assert_eq!(status(&manager, "a"), TaskStatus::Running);
    assert_eq!(status(&manager, "b"), TaskStatus::Running);
    assert_eq!(status(&manager, "c"), TaskStatus::Pending);
    assert_eq!(running(&manager), 2);
    assert_eq!(manager.get_queue(), vec![c.clone()]);
    assert_eq!(manager.get_task("c").unwrap().attempts, 0);

    let events = manager.finish_task_at(&a, Ok(()), T2).emitted().unwrap();
    assert_eq!(status(&manager, "a"), TaskStatus::Completed);
    assert_eq!(status(&manager, "c"), TaskStatus::Running);
    assert_eq!(running(&manager), 2);
    assert_eq!(
        events,
        vec![
            TaskEvent::TaskUpdated(manager.get_task("a").unwrap()),
            TaskEvent::TaskCompleted(a.clone()),
            TaskEvent::StartTask(c.clone()),
            TaskEvent::TaskStarted(c.clone()),
        ]
    );
    assert!(manager.get_queue().is_empty());
    assert_queue_invariant(&manager);
}

#[test]
fn running_tasks_never_exceed_the_limit() {
    let mut manager = TaskManager::new(2);
    let ids = ["a", "b", "c", "d", "e"];
    for id in ids {
        add(&mut manager, id);
        assert!(running(&manager) <= 2);
    }
    for id in ids {
        manager.start_task_at(id, T1).emitted().unwrap();
        assert!(running(&manager) <= 2);
        assert_queue_invariant(&manager);
    }
    assert_eq!(running(&manager), 2);
    manager.cancel_task_at("a", T2).emitted().unwrap();
    assert_eq!(running(&manager), 1);
    manager.start_task_at("e", T2).emitted().unwrap();
    assert_eq!(running(&manager), 2);
    assert_eq!(status(&manager, "e"), TaskStatus::Running);
    manager.finish_task_at("b", Ok(()), T2).emitted().unwrap();
    assert_eq!(running(&manager), 2);
    assert_eq!(status(&manager, "c"), TaskStatus::Running);
    manager
        .finish_task_at("c", Err(TaskError::ProcessingFailed("boom".to_string())), T2).emitted()
        .unwrap();
    assert_eq!(running(&manager), 2);
    assert_eq!(status(&manager, "d"), TaskStatus::Running);
    manager.finish_task_at("d", Ok(()), T2).emitted().unwrap();
    manager.finish_task_at("e", Ok(()), T2).emitted().unwrap();
    assert_eq!(running(&manager), 0);
    assert_queue_invariant(&manager);
}

#[test]
fn limit_of_zero_starts_nothing() {
    let mut manager = TaskManager::new(0);
    add(&mut manager, "a");
    assert_eq!(manager.start_task_at("a", T1).emitted(), Ok(vec![]));
    assert_eq!(manager.process_next_tasks_at(T1).emitted(), Ok(vec![]));
    assert_eq!(status(&manager, "a"), TaskStatus::Pending);
    assert_eq!(manager.get_queue(), vec!["a".to_string()]);
}

#[test]
fn pause_and_resume_follow_the_status() {
    let mut manager = TaskManager::new(2);
    add(&mut manager, "a");
    assert_eq!(manager.pause_task("a").emitted(), Err(invalid("Task a is not in running state")));
    assert_eq!(manager.resume_task("a").emitted(), Err(invalid("Task a is not in paused state")));
    assert_eq!(manager.pause_task("x").emitted(), Err(TaskError::TaskNotFound("x".to_string())));
    assert_eq!(manager.resume_task("x").emitted(), Err(TaskError::TaskNotFound("x".to_string())));
    manager.start_task_at("a", T1).emitted().unwrap();
    assert_eq!(manager.resume_task("a").emitted(), Err(invalid("Task a is not in paused state")));
    assert_eq!(manager.pause_task("a").emitted(), Ok(vec![TaskEvent::TaskPaused("a".to_string())]));
    assert_eq!(status(&manager, "a"), TaskStatus::Paused);
    assert_eq!(manager.pause_task("a").emitted(), Err(invalid("Task a is not in running state")));
    assert_eq!(manager.resume_task("a").emitted(), Ok(vec![TaskEvent::TaskResumed("a".to_string())]));
    assert_eq!(status(&manager, "a"), TaskStatus::Running);
    let task = manager.get_task("a").unwrap();
    assert_eq!(task.attempts, 1);
    assert_eq!(task.started_at, Some(T1.to_string()));
    assert_queue_invariant(&manager);
}

#[test]
fn cancel_takes_pending_running_and_paused_tasks() {
    let mut manager = TaskManager::new(3);
    for id in ["a", "b", "c", "d"] {
        add(&mut manager, id);
    }
    manager.start_task_at("b", T1).emitted().unwrap();
    manager.start_task_at("c", T1).emitted().unwrap();
    manager.pause_task("c").emitted().unwrap();
    for id in ["a", "b", "c"] {
        assert_eq!(
            manager.cancel_task_at(id, T2).emitted(),
            Ok(vec![TaskEvent::TaskCanceled(id.to_string())])
        );
        let task = manager.get_task(id).unwrap();
        assert_eq!(task.status, TaskStatus::Canceled);
        assert_eq!(task.completed_at, Some(T2.to_string()));
        assert_queue_invariant(&manager);
    }
    assert_eq!(manager.get_queue(), vec!["d".to_string()]);
    assert_eq!(
        manager.cancel_task_at("a", T2).emitted(),
        Err(invalid("Task a cannot be canceled in its current state"))
    );
    assert_eq!(manager.cancel_task("zz").emitted(), Err(TaskError::TaskNotFound("zz".to_string())));
    manager.start_task_at("d", T1).emitted().unwrap();
    manager.finish_task_at("d", Ok(()), T2).emitted().unwrap();
    assert_eq!(
        manager.cancel_task("d").emitted(),
        Err(invalid("Task d cannot be canceled in its current state"))
    );
    assert_eq!(status(&manager, "d"), TaskStatus::Completed);
}

#[test]
fn retry_resets_and_requeues() {
    let mut manager = TaskManager::new(1);
    add(&mut manager, "a");
    add(&mut manager, "b");
    manager.start_task_at("a", T1).emitted().unwrap();
    manager.update_task_progress("a", 4_200).unwrap();
    manager
        .finish_task_at("a", Err(TaskError::ProcessingFailed("no codec".to_string())), T2).emitted()
        .unwrap();
    // the freed slot went to b
    assert_eq!(status(&manager, "b"), TaskStatus::Running);
    let failed = manager.get_task("a").unwrap();
    assert_eq!(failed.status, TaskStatus::Failed);
    assert_eq!(failed.error, Some("Task processing failed: no codec".to_string()));
    assert_eq!(failed.progress, 4_200);
    assert_eq!(failed.completed_at, Some(T2.to_string()));

    let events = manager.retry_task_at("a", T2).emitted().unwrap();
    assert_eq!(events, vec![TaskEvent::TaskRetried("a".to_string())]);
    let task = manager.get_task("a").unwrap();
    assert_eq!(task.status, TaskStatus::Pending);
    assert_eq!(task.progress, 0);
    assert_eq!(task.error, None);
    assert_eq!(task.completed_at, None);
    assert_eq!(task.attempts, 1);
    assert_eq!(manager.get_queue(), vec!["a".to_string()]);
    assert_queue_invariant(&manager);
}

#[test]
fn retry_starts_at_once_when_a_slot_is_free() {
    let mut manager = TaskManager::new(1);
    add(&mut manager, "a");
    manager.cancel_task_at("a", T1).emitted().unwrap();
    let events = manager.retry_task_at("a", T2).emitted().unwrap();
    assert_eq!(
        events,
        vec![TaskEvent::TaskRetried("a".to_string()), TaskEvent::TaskStarted("a".to_string())]
    );
    let task = manager.get_task("a").unwrap();
    assert_eq!(task.status, TaskStatus::Running);
    assert_eq!(task.progress, 0);
    assert_eq!(task.error, None);
    assert_eq!(task.attempts, 1);
    assert_eq!(task.started_at, Some(T2.to_string()));
    assert!(manager.get_queue().is_empty());
    assert_queue_invariant(&manager);
}

#[test]
fn retry_waits_while_the_queue_is_paused() {
    let mut manager = TaskManager::new(1);
    add(&mut manager, "a");
    manager.cancel_task_at("a", T1).emitted().unwrap();
    manager.pause_queue().emitted().unwrap();
    assert_eq!(
        manager.retry_task_at("a", T2).emitted(),
        Ok(vec![TaskEvent::TaskRetried("a".to_string())])
    );
    assert_eq!(status(&manager, "a"), TaskStatus::Pending);
    assert_eq!(manager.get_queue(), vec!["a".to_string()]);
}

#[test]
fn retry_of_a_completed_task_fails() {
    let mut manager = TaskManager::new(1);
    add(&mut manager, "a");
    manager.start_task_at("a", T1).emitted().unwrap();
    manager.finish_task_at("a", Ok(()), T2).emitted().unwrap();
    let before = manager.get_all_tasks();
    assert_eq!(
        manager.retry_task_at("a", T2).emitted(),
        Err(invalid("Task a cannot be retried in its current state"))
    );
    assert_eq!(manager.get_all_tasks(), before);
    assert!(manager.get_queue().is_empty());
    add(&mut manager, "b");
    assert_eq!(
        manager.retry_task("b").emitted(),
        Err(invalid("Task b cannot be retried in its current state"))
    );
    assert_eq!(manager.retry_task("c").emitted(), Err(TaskError::TaskNotFound("c".to_string())));
}

#[test]
fn remove_spares_running_and_paused_tasks() {
    let mut manager = TaskManager::new(1);
    for id in ["a", "b", "c"] {
        add(&mut manager, id);
    }
    manager.start_task_at("a", T1).emitted().unwrap();
    assert_eq!(
        manager.remove_task("a").emitted(),
        Err(invalid("Task a cannot be removed while running or paused"))
    );
    assert_eq!(manager.get_all_tasks().len(), 3);
    manager.pause_task("a").emitted().unwrap();
    assert_eq!(
        manager.remove_task("a").emitted(),
        Err(invalid("Task a cannot be removed while running or paused"))
    );
    manager.resume_task("a").emitted().unwrap();
    manager.finish_task_at("a", Ok(()), T2).emitted().unwrap();
    assert_eq!(manager.remove_task("a").emitted(), Ok(vec![TaskEvent::TaskRemoved("a".to_string())]));
    assert!(manager.get_all_tasks().iter().all(|t| t.id != "a"));
    assert_eq!(manager.get_task("a"), Err(TaskError::TaskNotFound("a".to_string())));
    assert_eq!(manager.remove_task("a").emitted(), Err(TaskError::TaskNotFound("a".to_string())));
    // a pending task leaves the queue with it
    assert_eq!(status(&manager, "c"), TaskStatus::Pending);
    assert_eq!(manager.remove_task("c").emitted(), Ok(vec![TaskEvent::TaskRemoved("c".to_string())]));
    assert!(manager.get_queue().is_empty());
    assert_eq!(manager.get_all_tasks().len(), 1);
    assert_queue_invariant(&manager);
}

#[test]
fn clear_drops_completed_and_canceled_tasks() {
    let mut manager = TaskManager::new(5);
    for id in ["a", "b", "c", "d", "e"] {
        add(&mut manager, id);
    }
    for id in ["a", "b", "c", "d"] {
        manager.start_task_at(id, T1).emitted().unwrap();
    }
    manager.pause_queue().emitted().unwrap();
    for id in ["a", "b", "c", "d"] {
        manager.resume_task(id).emitted().unwrap();
    }
    manager.finish_task_at("a", Ok(()), T2).emitted().unwrap();
    manager
        .finish_task_at("b", Err(TaskError::ProcessingFailed("x".to_string())), T2).emitted()
        .unwrap();
    manager.cancel_task_at("c", T2).emitted().unwrap();
    let events = manager.clear_completed_tasks().emitted().unwrap();
    assert_eq!(
        events,
        vec![TaskEvent::TaskRemoved("a".to_string()), TaskEvent::TaskRemoved("c".to_string())]
    );
    let left: Vec<String> = manager.get_all_tasks().into_iter().map(|t| t.id).collect();
    assert_eq!(left, vec!["b".to_string(), "d".to_string(), "e".to_string()]);
    assert_eq!(status(&manager, "b"), TaskStatus::Failed);
    assert_eq!(status(&manager, "d"), TaskStatus::Running);
    assert_eq!(status(&manager, "e"), TaskStatus::Pending);
    assert_eq!(manager.get_queue(), vec!["e".to_string()]);
    assert_eq!(manager.clear_completed_tasks().emitted(), Ok(vec![]));
    assert_queue_invariant(&manager);
}

#[test]
fn reorder_changes_the_order_and_nothing_else() {
    let mut manager = TaskManager::new(1);
    for id in ["a", "b", "c", "d"] {
        add(&mut manager, id);
    }
    manager.start_task_at("a", T1).emitted().unwrap();
    let before = manager.get_all_tasks();
    let order = vec!["d".to_string(), "b".to_string(), "c".to_string()];
    assert_eq!(manager.reorder_tasks(order.clone()).emitted(), Ok(vec![TaskEvent::QueueReordered]));
    assert_eq!(manager.get_queue(), order);
    assert_eq!(manager.get_all_tasks(), before);
    assert_queue_invariant(&manager);
    // admission follows the new order
    manager.finish_task_at("a", Ok(()), T2).emitted().unwrap();
    assert_eq!(status(&manager, "d"), TaskStatus::Running);
    assert_eq!(manager.get_queue(), vec!["b".to_string(), "c".to_string()]);
}

#[test]
fn reorder_with_an_unknown_id_changes_nothing() {
    let mut manager = TaskManager::new(1);
    for id in ["a", "b", "c"] {
        add(&mut manager, id);
    }
    let before = manager.get_queue();
    let order = vec!["c".to_string(), "x".to_string(), "a".to_string(), "y".to_string()];
    assert_eq!(manager.reorder_tasks(order).emitted(), Err(TaskError::TaskNotFound("x".to_string())));
    assert_eq!(manager.get_queue(), before);
}

#[test]
fn pause_queue_pauses_every_running_task() {
    let mut manager = TaskManager::new(2);
    for id in ["a", "b", "c"] {
        add(&mut manager, id);
    }
    manager.start_task_at("a", T1).emitted().unwrap();
    manager.start_task_at("b", T1).emitted().unwrap();
    let events = manager.pause_queue().emitted().unwrap();
    assert_eq!(
        events,
        vec![
            TaskEvent::TaskPaused("a".to_string()),
            TaskEvent::TaskPaused("b".to_string()),
            TaskEvent::QueuePaused,
        ]
    );
    assert!(manager.is_queue_paused());
    assert_eq!(status(&manager, "a"), TaskStatus::Paused);
    assert_eq!(status(&manager, "b"), TaskStatus::Paused);
    assert_eq!(status(&manager, "c"), TaskStatus::Pending);
    // admission does nothing while paused
    assert_eq!(manager.process_next_tasks_at(T2).emitted(), Ok(vec![]));
    assert_eq!(status(&manager, "c"), TaskStatus::Pending);

    let events = manager.resume_queue_at(T2).emitted().unwrap();
    assert_eq!(
        events,
        vec![
            TaskEvent::TaskResumed("a".to_string()),
            TaskEvent::TaskResumed("b".to_string()),
            TaskEvent::QueueResumed,
        ]
    );
    assert!(!manager.is_queue_paused());
    assert_eq!(status(&manager, "a"), TaskStatus::Running);
    assert_eq!(status(&manager, "b"), TaskStatus::Running);
    assert_eq!(status(&manager, "c"), TaskStatus::Pending);
    // admission is back
    manager.finish_task_at("a", Ok(()), T2).emitted().unwrap();
    assert_eq!(status(&manager, "c"), TaskStatus::Running);
    assert_queue_invariant(&manager);
}

#[test]
fn resume_queue_fills_free_slots() {
    let mut manager = TaskManager::new(2);
    for id in ["a", "b", "c"] {
        add(&mut manager, id);
    }
    manager.start_task_at("a", T1).emitted().unwrap();
    manager.pause_queue().emitted().unwrap();
    let events = manager.resume_queue_at(T2).emitted().unwrap();
    assert_eq!(
        events,
        vec![
            TaskEvent::TaskResumed("a".to_string()),
            TaskEvent::StartTask("b".to_string()),
            TaskEvent::TaskStarted("b".to_string()),
            TaskEvent::QueueResumed,
        ]
    );
    assert_eq!(status(&manager, "b"), TaskStatus::Running);
    assert_eq!(status(&manager, "c"), TaskStatus::Pending);
    assert_eq!(manager.get_task("b").unwrap().started_at, Some(T2.to_string()));
    assert_eq!(manager.get_queue(), vec!["c".to_string()]);
}

#[test]
fn start_queue_resumes_or_admits() {
    let mut manager = TaskManager::new(1);
    add(&mut manager, "a");
    add(&mut manager, "b");
    assert_eq!(
        manager.start_queue_at(T1).emitted(),
        Ok(vec![
            TaskEvent::StartTask("a".to_string()),
            TaskEvent::TaskStarted("a".to_string()),
            TaskEvent::QueueStarted,
        ])
    );
    assert_eq!(status(&manager, "a"), TaskStatus::Running);
    assert_eq!(status(&manager, "b"), TaskStatus::Pending);
    manager.pause_queue().emitted().unwrap();
    assert_eq!(
        manager.start_queue_at(T2).emitted(),
        Ok(vec![TaskEvent::TaskResumed("a".to_string()), TaskEvent::QueueResumed])
    );
    assert!(!manager.is_queue_paused());
    assert_eq!(manager.start_queue_at(T2).emitted(), Ok(vec![TaskEvent::QueueStarted]));
}

#[test]
fn cancel_queue_cancels_every_active_task() {
    let mut manager = TaskManager::new(2);
    for id in ["a", "b", "c", "d"] {
        add(&mut manager, id);
    }
    manager.start_task_at("a", T1).emitted().unwrap();
    manager.start_task_at("b", T1).emitted().unwrap();
    manager.pause_task("b").emitted().unwrap();
    manager.finish_task_at("a", Ok(()), T1).emitted().unwrap();
    // a is completed, b paused, c running (admitted), d pending
    assert_eq!(status(&manager, "c"), TaskStatus::Running);
    let events = manager.cancel_queue_at(T2).emitted().unwrap();
    assert_eq!(
        events,
        vec![
            TaskEvent::TaskCanceled("b".to_string()),
            TaskEvent::TaskCanceled("c".to_string()),
            TaskEvent::TaskCanceled("d".to_string()),
            TaskEvent::QueueCanceled,
        ]
    );
    assert_eq!(status(&manager, "a"), TaskStatus::Completed);
    for id in ["b", "c", "d"] {
        let task = manager.get_task(id).unwrap();
        assert_eq!(task.status, TaskStatus::Canceled);
        assert_eq!(task.completed_at, Some(T2.to_string()));
    }
    assert_eq!(manager.get_task("a").unwrap().completed_at, Some(T1.to_string()));
    assert!(manager.get_queue().is_empty());
    assert_queue_invariant(&manager);
}

#[test]
fn admission_walks_the_queue_in_order() {
    let mut manager = TaskManager::new(2);
    for id in ["a", "b", "c"] {
        add(&mut manager, id);
    }
    let events = manager.process_next_tasks_at(T1).emitted().unwrap();
    assert_eq!(
        events,
        vec![
            TaskEvent::StartTask("a".to_string()),
            TaskEvent::TaskStarted("a".to_string()),
            TaskEvent::StartTask("b".to_string()),
            TaskEvent::TaskStarted("b".to_string()),
        ]
    );
    assert_eq!(manager.get_queue(), vec!["c".to_string()]);
    assert_eq!(manager.process_next_tasks_at(T2).emitted(), Ok(vec![]));
    assert_eq!(manager.get_task("a").unwrap().attempts, 1);
    assert_queue_invariant(&manager);
}

#[test]
fn raising_the_limit_fills_the_new_slots() {
    let mut manager = TaskManager::new(1);
    for id in ["a", "b", "c"] {
        add(&mut manager, id);
    }
    manager.start_task_at("a", T1).emitted().unwrap();
    assert_eq!(
        manager.set_max_concurrent_tasks_at(2, T2).emitted(),
        Ok(vec![
            TaskEvent::MaxConcurrentTasksChanged(2),
            TaskEvent::StartTask("b".to_string()),
            TaskEvent::TaskStarted("b".to_string()),
        ])
    );
    assert_eq!(manager.get_max_concurrent_tasks(), 2);
    assert_eq!(status(&manager, "b"), TaskStatus::Running);
    // lowering starts nothing and stops nothing
    assert_eq!(
        manager.set_max_concurrent_tasks_at(1, T2).emitted(),
        Ok(vec![TaskEvent::MaxConcurrentTasksChanged(1)])
    );
    assert_eq!(running(&manager), 2);
    assert_eq!(manager.get_max_concurrent_tasks(), 1);
    assert_eq!(
        manager.set_max_concurrent_tasks_at(1, T2).emitted(),
        Ok(vec![TaskEvent::MaxConcurrentTasksChanged(1)])
    );
    assert_eq!(status(&manager, "c"), TaskStatus::Pending);
}

#[test]
fn raising_the_limit_of_a_paused_queue_starts_nothing() {
    let mut manager = TaskManager::new(0);
    add(&mut manager, "a");
    manager.pause_queue().emitted().unwrap();
    assert_eq!(
        manager.set_max_concurrent_tasks_at(4, T1).emitted(),
        Ok(vec![TaskEvent::MaxConcurrentTasksChanged(4)])
    );
    assert_eq!(status(&manager, "a"), TaskStatus::Pending);
}

#[test]
fn finish_of_a_canceled_task_is_dropped() {
    let mut manager = TaskManager::new(1);
    add(&mut manager, "a");
    add(&mut manager, "b");
    manager.start_task_at("a", T1).emitted().unwrap();
    manager.cancel_task_at("a", T1).emitted().unwrap();
    let before = manager.get_task("a").unwrap();
    // the engine reports success after the cancel: the cancel stands
    let events = manager.finish_task_at("a", Ok(()), T2).emitted().unwrap();
    assert_eq!(manager.get_task("a").unwrap(), before);
    assert_eq!(
        events,
        vec![TaskEvent::StartTask("b".to_string()), TaskEvent::TaskStarted("b".to_string())]
    );
    assert_eq!(status(&manager, "b"), TaskStatus::Running);
    // a result for a task that is gone only runs admission
    assert_eq!(manager.finish_task_at("zz", Ok(()), T2).emitted(), Ok(vec![]));
}

#[test]
fn finish_records_success_and_failure() {
    let mut manager = TaskManager::new(2);
    add(&mut manager, "a");
    add(&mut manager, "b");
    manager.start_task_at("a", T1).emitted().unwrap();
    manager.start_task_at("b", T1).emitted().unwrap();
    manager.update_task_progress("b", 2_500).unwrap();
    let events = manager.finish_task_at("a", Ok(()), T2).emitted().unwrap();
    let done = manager.get_task("a").unwrap();
    assert_eq!(done.status, TaskStatus::Completed);
    assert_eq!(done.progress, PROGRESS_COMPLETE);
    assert_eq!(done.progress, 10_000);
    assert_eq!(done.completed_at, Some(T2.to_string()));
    assert_eq!(done.error, None);
    assert_eq!(
        events,
        vec![TaskEvent::TaskUpdated(done), TaskEvent::TaskCompleted("a".to_string())]
    );
    let events = manager
        .finish_task_at("b", Err(TaskError::ProcessingFailed("disk full".to_string())), T2).emitted()
        .unwrap();
    let failed = manager.get_task("b").unwrap();
    assert_eq!(failed.status, TaskStatus::Failed);
    assert_eq!(failed.progress, 2_500);
    assert_eq!(failed.error, Some("Task processing failed: disk full".to_string()));
    assert_eq!(failed.completed_at, Some(T2.to_string()));
    assert_eq!(
        events,
        vec![
            TaskEvent::TaskUpdated(failed),
            TaskEvent::TaskFailed(
                "b".to_string(),
                "Task processing failed: disk full".to_string()
            ),
        ]
    );
    let events = manager.finish_task("b", Ok(())).emitted().unwrap();
    assert!(events.is_empty());
}

#[test]
fn finish_while_paused_starts_nothing() {
    let mut manager = TaskManager::new(1);
    add(&mut manager, "a");
    add(&mut manager, "b");
    manager.start_task_at("a", T1).emitted().unwrap();
    manager.pause_queue().emitted().unwrap();
    manager.resume_task("a").emitted().unwrap();
    let events = manager.finish_task_at("a", Ok(()), T2).emitted().unwrap();
    assert_eq!(events.len(), 2);
    assert_eq!(status(&manager, "b"), TaskStatus::Pending);
}

#[test]
fn progress_is_capped_and_never_goes_back_while_running() {
    let mut manager = TaskManager::new(1);
    add(&mut manager, "a");
    assert_eq!(
        manager.update_task_progress("zz", 5),
        Err(TaskError::TaskNotFound("zz".to_string()))
    );
    assert_eq!(manager.update_task_progress("a", 0), Ok(vec![HostAction::Persist]));
    manager.start_task_at("a", T1).emitted().unwrap();
    assert_eq!(manager.update_task_progress("a", 3_000), Ok(vec![HostAction::Persist]));
    assert_eq!(manager.get_task("a").unwrap().progress, 3_000);
    manager.update_task_progress("a", 1_000).unwrap();
    assert_eq!(manager.get_task("a").unwrap().progress, 3_000);
    manager.update_task_progress("a", 3_000).unwrap();
    assert_eq!(manager.get_task("a").unwrap().progress, 3_000);
    manager.update_task_progress("a", 20_000).unwrap();
    assert_eq!(manager.get_task("a").unwrap().progress, 10_000);
    manager.pause_task("a").emitted().unwrap();
    manager.update_task_progress("a", 10).unwrap();
    assert_eq!(manager.get_task("a").unwrap().progress, 10);
    manager.update_task_progress("a", u32::MAX).unwrap();
    assert_eq!(manager.get_task("a").unwrap().progress, 10_000);
}

#[test]
fn progress_report_says_whether_to_go_on() {
    let mut manager = TaskManager::new(1);
    add(&mut manager, "a");
    assert_eq!(
        manager.report_progress("a", 10),
        (TaskEvent::TaskProgress("a".to_string(), 10), true)
    );
    manager.start_task_at("a", T1).emitted().unwrap();
    assert_eq!(
        manager.report_progress("a", 5_000),
        (TaskEvent::TaskProgress("a".to_string(), 5_000), true)
    );
    // a report does not change the task
    assert_eq!(manager.get_task("a").unwrap().progress, 0);
    manager.pause_task("a").emitted().unwrap();
    assert!(!manager.report_progress("a", 1).1);
    manager.resume_task("a").emitted().unwrap();
    assert!(manager.report_progress("a", 1).1);
    manager.cancel_task_at("a", T2).emitted().unwrap();
    assert!(!manager.report_progress("a", 1).1);
    assert_eq!(
        manager.report_progress("gone", 7),
        (TaskEvent::TaskProgress("gone".to_string(), 7), false)
    );
}

#[test]
fn waiting_for_resume_ends_on_running_or_cancel() {
    let mut manager = TaskManager::new(1);
    add(&mut manager, "a");
    assert_eq!(manager.check_resumed("a"), Ok(false));
    manager.start_task_at("a", T1).emitted().unwrap();
    assert_eq!(manager.check_resumed("a"), Ok(true));
    manager.pause_task("a").emitted().unwrap();
    assert_eq!(manager.check_resumed("a"), Ok(false));
    manager.cancel_task_at("a", T2).emitted().unwrap();
    assert_eq!(manager.check_resumed("a"), Err(TaskError::Canceled));
    assert_eq!(manager.check_resumed("b"), Err(TaskError::TaskNotFound("b".to_string())));
}

#[test]
fn save_then_load_restores_the_state() {
    let mut manager = TaskManager::new(3);
    for id in ["a", "b", "c"] {
        add(&mut manager, id);
    }
    manager.start_task_at("a", T1).emitted().unwrap();
    manager.update_task_progress("a", 1_234).unwrap();
    manager.cancel_task_at("b", T2).emitted().unwrap();
    manager.pause_queue().emitted().unwrap();
    let stored = manager.save_state();
    assert_eq!(stored.tasks, Some(manager.get_all_tasks()));
    assert_eq!(stored.queue, Some(manager.get_queue()));
    assert_eq!(stored.max_concurrent_tasks, Some(3));
    assert_eq!(stored.is_queue_paused, Some(true));

    let mut fresh = TaskManager::new(1);
    fresh.load_state(Some(stored));
    assert_eq!(fresh.get_all_tasks(), manager.get_all_tasks());
    assert_eq!(fresh.get_queue(), manager.get_queue());
    assert_eq!(fresh.get_queue(), vec!["c".to_string()]);
    assert_eq!(fresh.get_max_concurrent_tasks(), 3);
    assert!(fresh.is_queue_paused());
    assert_eq!(fresh.save_state(), manager.save_state());
    assert_queue_invariant(&fresh);
}

#[test]
fn load_without_a_snapshot_changes_nothing() {
    let mut manager = TaskManager::new(2);
    add(&mut manager, "a");
    let before = manager.save_state();
    manager.load_state(None);
    assert_eq!(manager.save_state(), before);
    manager.load_state(Some(StoredState {
        tasks: None,
        queue: None,
        max_concurrent_tasks: None,
        is_queue_paused: None,
    }));
    assert_eq!(manager.save_state(), before);
}

#[test]
fn load_takes_only_the_values_that_are_stored() {
    let mut manager = TaskManager::new(2);
    add(&mut manager, "a");
    manager.load_state(Some(StoredState {
        tasks: None,
        queue: None,
        max_concurrent_tasks: Some(7),
        is_queue_paused: Some(true),
    }));
    assert_eq!(manager.get_max_concurrent_tasks(), 7);
    assert!(manager.is_queue_paused());
    assert_eq!(manager.get_queue(), vec!["a".to_string()]);
    assert_eq!(manager.get_all_tasks().len(), 1);
    manager.load_state(Some(StoredState {
        tasks: Some(vec![]),
        queue: Some(vec![]),
        max_concurrent_tasks: None,
        is_queue_paused: None,
    }));
    assert!(manager.get_all_tasks().is_empty());
    assert!(manager.get_queue().is_empty());
    assert_eq!(manager.get_max_concurrent_tasks(), 7);
}

#[test]
fn queue_invariant_survives_a_long_run() {
    let mut manager = TaskManager::new(2);
    let ids = ["a", "b", "c", "d", "e", "f"];
    for id in ids {
        add(&mut manager, id);
        assert_queue_invariant(&manager);
    }
    let steps: Vec<Box<dyn Fn(&mut TaskManager)>> = vec![
        Box::new(|m| drop(m.start_task_at("a", T1).emitted())),
        Box::new(|m| drop(m.start_task_at("b", T1).emitted())),
        Box::new(|m| drop(m.start_task_at("c", T1).emitted())),
        Box::new(|m| drop(m.pause_task("a").emitted())),
        Box::new(|m| drop(m.cancel_task_at("d", T1).emitted())),
        Box::new(|m| drop(m.retry_task_at("d", T2).emitted())),
        Box::new(|m| drop(m.finish_task_at("b", Ok(()), T2).emitted())),
        Box::new(|m| {
            let mut order = m.get_queue();
            order.reverse();
            assert_eq!(order, vec!["f".to_string(), "e".to_string()]);
            assert_eq!(m.reorder_tasks(order).emitted(), Ok(vec![TaskEvent::QueueReordered]));
        }),
        Box::new(|m| drop(m.pause_queue().emitted())),
        Box::new(|m| drop(m.remove_task("b").emitted())),
        Box::new(|m| drop(m.resume_queue_at(T2).emitted())),
        Box::new(|m| drop(m.set_max_concurrent_tasks_at(4, T2).emitted())),
        Box::new(|m| drop(m.finish_task_at("a", Err(TaskError::Other("x".to_string())), T2).emitted())),
        Box::new(|m| drop(m.retry_task_at("a", T2).emitted())),
        Box::new(|m| drop(m.clear_completed_tasks().emitted())),
        Box::new(|m| drop(m.update_task_progress("e", 50))),
        Box::new(|m| drop(m.process_next_tasks_at(T2).emitted())),
        Box::new(|m| drop(m.start_queue_at(T2).emitted())),
        Box::new(|m| drop(m.cancel_queue_at(T2).emitted())),
        Box::new(|m| drop(m.retry_task_at("f", T2).emitted())),
    ];
    for step in steps {
        step(&mut manager);
        assert_queue_invariant(&manager);
        assert_records_well_formed(&manager);
    }
}

#[test]
fn attempts_count_every_start() {
    let mut manager = TaskManager::new(1);
    add(&mut manager, "a");
    for round in 1..=3usize {
        manager.start_task_at("a", T1).emitted().unwrap();
        assert_eq!(manager.get_task("a").unwrap().attempts, 2 * round - 1);
        manager.cancel_task_at("a", T2).emitted().unwrap();
        // a retry with a free slot starts the task again
        manager.retry_task_at("a", T2).emitted().unwrap();
        assert_eq!(manager.get_task("a").unwrap().attempts, 2 * round);
        manager.cancel_task_at("a", T2).emitted().unwrap();
        manager.pause_queue().emitted().unwrap();
        manager.retry_task_at("a", T2).emitted().unwrap();
        assert_eq!(manager.get_task("a").unwrap().attempts, 2 * round);
        manager.load_state(Some(StoredState {
            tasks: None,
            queue: None,
            max_concurrent_tasks: None,
            is_queue_paused: Some(false),
        }));
    }
}

#[test]
fn attempts_stop_at_the_largest_count() {
    let mut manager = TaskManager::new(1);
    add(&mut manager, "a");
    let mut tasks = manager.get_all_tasks();
    tasks[0].attempts = usize::MAX - 1;
    manager.load_state(Some(StoredState {
        tasks: Some(tasks),
        queue: None,
        max_concurrent_tasks: None,
        is_queue_paused: None,
    }));
    manager.start_task_at("a", T1).emitted().unwrap();
    assert_eq!(manager.get_task("a").unwrap().attempts, usize::MAX);
    manager.cancel_task_at("a", T2).emitted().unwrap();
    manager.retry_task_at("a", T2).emitted().unwrap();
    assert_eq!(status(&manager, "a"), TaskStatus::Running);
    assert_eq!(manager.get_task("a").unwrap().attempts, usize::MAX);
}

#[test]
fn status_labels_are_lower_case() {
    assert_eq!(TaskStatus::Pending.label(), "pending");
    assert_eq!(TaskStatus::Running.label(), "running");
    assert_eq!(TaskStatus::Paused.label(), "paused");
    assert_eq!(TaskStatus::Completed.label(), "completed");
    assert_eq!(TaskStatus::Failed.label(), "failed");
    assert_eq!(TaskStatus::Canceled.label(), "canceled");
    assert!(TaskStatus::Completed.is_terminal());
    assert!(TaskStatus::Failed.is_terminal());
    assert!(TaskStatus::Canceled.is_terminal());
    assert!(!TaskStatus::Pending.is_terminal());
    assert!(!TaskStatus::Running.is_terminal());
    assert!(!TaskStatus::Paused.is_terminal());
}

#[test]
fn task_errors_have_their_texts() {
    assert_eq!(TaskError::TaskNotFound("t1".to_string()).message(), "Task t1 not found");
    assert_eq!(
        TaskError::InvalidStatus("bad".to_string()).message(),
        "Invalid task status: bad"
    );
    assert_eq!(
        TaskError::ProcessingFailed("bad".to_string()).message(),
        "Task processing failed: bad"
    );
    assert_eq!(
        TaskError::UnsupportedTaskType("zip".to_string()).message(),
        "Unsupported task type: zip"
    );
    assert_eq!(
        TaskError::StoreSaveError("full".to_string()).message(),
        "Failed to save task state: full"
    );
    assert_eq!(
        TaskError::StoreLoadError("gone".to_string()).message(),
        "Failed to load task state: gone"
    );
    assert_eq!(TaskError::Canceled.message(), "Task was canceled");
    assert_eq!(TaskError::Other("anything".to_string()).message(), "anything");
}

#[test]
fn events_have_their_names() {
    let id = || "t".to_string();
    let task = Task {
        id: id(),
        input_path: String::new(),
        output_path: String::new(),
        status: TaskStatus::Pending,
        progress: 0,
        error: None,
        attempts: 0,
        created_at: String::new(),
        started_at: None,
        completed_at: None,
        task_type: "convert".to_string(),
        config: HashMap::new(),
    };
    let cases = vec![
        (TaskEvent::TaskStarted(id()), "task-started"),
        (TaskEvent::TaskProgress(id(), 1), "task-progress"),
        (TaskEvent::TaskPaused(id()), "task-paused"),
        (TaskEvent::TaskResumed(id()), "task-resumed"),
        (TaskEvent::TaskCanceled(id()), "task-canceled"),
        (TaskEvent::TaskRetried(id()), "task-retried"),
        (TaskEvent::TaskRemoved(id()), "task-removed"),
        (TaskEvent::TaskCompleted(id()), "task-completed"),
        (TaskEvent::TaskFailed(id(), "e".to_string()), "task-failed"),
        (TaskEvent::TaskUpdated(task), "task-updated"),
        (TaskEvent::QueueStarted, "queue-started"),
        (TaskEvent::QueuePaused, "queue-paused"),
        (TaskEvent::QueueResumed, "queue-resumed"),
        (TaskEvent::QueueCanceled, "queue-canceled"),
        (TaskEvent::QueueReordered, "queue-reordered"),
        (TaskEvent::MaxConcurrentTasksChanged(3), "max-concurrent-tasks-changed"),
        (TaskEvent::StartTask(id()), "start-task"),
    ];
    for (event, name) in cases {
        assert_eq!(event.name(), name);
    }
}

#[test]
fn commands_without_a_time_use_the_clock() {
    let mut manager = TaskManager::new(1);
    add(&mut manager, "a");
    add(&mut manager, "b");
    assert_eq!(manager.start_task("a").emitted(), Ok(vec![TaskEvent::TaskStarted("a".to_string())]));
    let started = manager.get_task("a").unwrap().started_at.unwrap();
    assert!(chrono::DateTime::parse_from_rfc3339(&started).is_ok());
    assert_eq!(manager.cancel_task("a").emitted(), Ok(vec![TaskEvent::TaskCanceled("a".to_string())]));
    let ended = manager.get_task("a").unwrap().completed_at.unwrap();
    assert!(chrono::DateTime::parse_from_rfc3339(&ended).is_ok());
    assert_eq!(
        manager.process_next_tasks().emitted(),
        Ok(vec![TaskEvent::StartTask("b".to_string()), TaskEvent::TaskStarted("b".to_string())])
    );
    assert_eq!(
        manager.set_max_concurrent_tasks(2).emitted(),
        Ok(vec![TaskEvent::MaxConcurrentTasksChanged(2)])
    );
    assert_eq!(
        manager.retry_task("a").emitted(),
        Ok(vec![TaskEvent::TaskRetried("a".to_string()), TaskEvent::TaskStarted("a".to_string())])
    );
    manager.pause_queue().emitted().unwrap();
    assert_eq!(
        manager.resume_queue().emitted(),
        Ok(vec![
            TaskEvent::TaskResumed("a".to_string()),
            TaskEvent::TaskResumed("b".to_string()),
            TaskEvent::QueueResumed,
        ])
    );
    assert_eq!(manager.start_queue().emitted(), Ok(vec![TaskEvent::QueueStarted]));
    assert_eq!(
        manager.cancel_queue().emitted(),
        Ok(vec![
            TaskEvent::TaskCanceled("a".to_string()),
            TaskEvent::TaskCanceled("b".to_string()),
            TaskEvent::QueueCanceled,
        ])
    );
}

#[test]
fn host_is_told_to_persist_publish_and_dispatch() {
    let mut manager = TaskManager::new(1);
    add(&mut manager, "a");
    add(&mut manager, "b");
    assert_eq!(
        manager.start_task_at("a", T1),
        Ok(vec![
            HostAction::Persist,
            HostAction::Emit(TaskEvent::TaskStarted("a".to_string())),
            HostAction::Dispatch("a".to_string()),
        ])
    );
    // nothing changed, nothing to do
    assert_eq!(manager.start_task_at("b", T1), Ok(vec![]));
    assert_eq!(
        manager.pause_task("a"),
        Ok(vec![HostAction::Persist, HostAction::Emit(TaskEvent::TaskPaused("a".to_string()))])
    );
    assert_eq!(
        manager.resume_task("a"),
        Ok(vec![
            HostAction::Persist,
            HostAction::Emit(TaskEvent::TaskResumed("a".to_string())),
            HostAction::Wake("a".to_string()),
        ])
    );
    assert_eq!(
        manager.cancel_task_at("a", T2),
        Ok(vec![
            HostAction::Persist,
            HostAction::Emit(TaskEvent::TaskCanceled("a".to_string())),
            HostAction::Wake("a".to_string()),
        ])
    );
    assert_eq!(
        manager.process_next_tasks_at(T2),
        Ok(vec![
            HostAction::Persist,
            HostAction::Emit(TaskEvent::StartTask("b".to_string())),
            HostAction::Emit(TaskEvent::TaskStarted("b".to_string())),
            HostAction::Dispatch("b".to_string()),
        ])
    );
    assert_eq!(
        manager.retry_task_at("a", T2),
        Ok(vec![HostAction::Persist, HostAction::Emit(TaskEvent::TaskRetried("a".to_string()))])
    );
    assert_eq!(
        manager.cancel_queue_at(T2),
        Ok(vec![
            HostAction::Persist,
            HostAction::Emit(TaskEvent::TaskCanceled("a".to_string())),
            HostAction::Wake("a".to_string()),
            HostAction::Emit(TaskEvent::TaskCanceled("b".to_string())),
            HostAction::Wake("b".to_string()),
            HostAction::Emit(TaskEvent::QueueCanceled),
        ])
    );
    assert_eq!(manager.finish_task_at("b", Ok(()), T2), Ok(vec![]));
    assert_eq!(
        manager.pause_task("zz"),
        Err(TaskError::TaskNotFound("zz".to_string()))
    );
}

#[test]
fn host_actions_follow_the_events() {
    assert_eq!(host_actions(vec![]), vec![]);
    assert_eq!(
        host_actions(vec![TaskEvent::QueuePaused]),
        vec![HostAction::Persist, HostAction::Emit(TaskEvent::QueuePaused)]
    );
    assert_eq!(
        host_actions(vec![
            TaskEvent::TaskResumed("a".to_string()),
            TaskEvent::StartTask("b".to_string()),
            TaskEvent::TaskStarted("b".to_string()),
            TaskEvent::QueueResumed,
        ]),
        vec![
            HostAction::Persist,
            HostAction::Emit(TaskEvent::TaskResumed("a".to_string())),
            HostAction::Wake("a".to_string()),
            HostAction::Emit(TaskEvent::StartTask("b".to_string())),
            HostAction::Emit(TaskEvent::TaskStarted("b".to_string())),
            HostAction::Dispatch("b".to_string()),
            HostAction::Emit(TaskEvent::QueueResumed),
        ]
    );
}

#[test]
fn resuming_can_take_the_running_tasks_above_the_limit() {
    let mut manager = TaskManager::new(1);
    add(&mut manager, "a");
    add(&mut manager, "b");
    manager.start_task_at("a", T1).emitted().unwrap();
    manager.pause_task("a").emitted().unwrap();
    manager.start_task_at("b", T1).emitted().unwrap();
    manager.resume_task("a").emitted().unwrap();
    assert_eq!(running(&manager), 2);
    assert_eq!(manager.get_max_concurrent_tasks(), 1);
    // and so can lowering the limit
    let mut manager = TaskManager::new(2);
    add(&mut manager, "a");
    add(&mut manager, "b");
    manager.process_next_tasks_at(T1).emitted().unwrap();
    manager.set_max_concurrent_tasks_at(1, T1).emitted().unwrap();
    assert_eq!(running(&manager), 2);
}
