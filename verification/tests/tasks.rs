use std::sync::{Arc, Mutex};
use weiback::error::Error;
use weiback::service::notices::Told;
use weiback::service::task_manager::{
    Task, TaskError, TaskErrorType, TaskEventListener, TaskManager, TaskStatus, TaskType,
};

#[test]
fn test_start_new_task() {
    let mut manager = TaskManager::new();
    assert!(manager.get_current().unwrap().is_none());

    manager.start_task(1, TaskType::BackupUser, "Test task".into(), 10).unwrap();

    let task = manager.get_current().unwrap().unwrap();
    assert_eq!(task.id, 1);
    assert_eq!(task.description, "Test task");
    assert_eq!(task.status, TaskStatus::InProgress);
    assert_eq!(task.progress, 0);
    assert_eq!(task.total, 10);
    assert!(task.error.is_none());
}

#[test]
fn test_prevent_starting_task_when_in_progress() {
    let mut manager = TaskManager::new();
    manager.start_task(1, TaskType::BackupUser, "First task".into(), 10).unwrap();
    let result = manager.start_task(2, TaskType::BackupFavorites, "Second task".into(), 5);

    assert!(result.is_err());
    match result.unwrap_err() {
        Error::InconsistentTask(msg) => {
            assert!(msg.contains("Another task is already in progress."));
        }
        _ => panic!("Expected InconsistentTask error"),
    }
}

#[test]
fn test_update_progress() {
    let mut manager = TaskManager::new();
    manager.start_task(1, TaskType::BackupUser, "Test task".into(), 10).unwrap();

    manager.update_progress(5, 10).unwrap();
    let task = manager.get_current().unwrap().unwrap();
    assert_eq!(task.progress, 5);
    assert_eq!(task.total, 10);

    manager.update_progress(6, 10).unwrap();
    let task = manager.get_current().unwrap().unwrap();
    assert_eq!(task.progress, 6);
    assert_eq!(task.total, 10);
}

#[test]
fn test_finish_task() {
    let mut manager = TaskManager::new();
    manager.start_task(1, TaskType::BackupUser, "Test task".into(), 10).unwrap();
    manager.finish().unwrap();
    let task = manager.get_current().unwrap().unwrap();
    assert_eq!(task.status, TaskStatus::Completed);
}

#[test]
fn test_fail_task() {
    let mut manager = TaskManager::new();
    manager.start_task(1, TaskType::BackupUser, "Test task".into(), 10).unwrap();
    let error_msg = "Something went wrong".to_string();
    manager.fail(error_msg.clone()).unwrap();
    let task = manager.get_current().unwrap().unwrap();
    assert_eq!(task.status, TaskStatus::Failed);
    assert_eq!(task.error, Some(error_msg));
}

#[test]
fn test_task_error_handling() {
    let mut manager = TaskManager::new();
    assert!(manager.get_and_clear_task_errors().unwrap().is_empty());

    let error1 = TaskError {
        error_type: TaskErrorType::DownloadMedia("url1".into()),
        message: "404 Not Found".into(),
    };
    let error2 = TaskError {
        error_type: TaskErrorType::DownloadMedia("url2".into()),
        message: "Timeout".into(),
    };

    manager.report_task_error(error1.clone()).unwrap();
    manager.report_task_error(error2.clone()).unwrap();

    let errors = manager.get_and_clear_task_errors().unwrap();
    assert_eq!(errors.len(), 2);
    assert_eq!(errors[0].message, "404 Not Found");
    assert_eq!(errors[1].message, "Timeout");

    assert!(manager.get_and_clear_task_errors().unwrap().is_empty());
}

#[test]
fn test_start_new_task_after_completion() {
    let mut manager = TaskManager::new();
    manager.start_task(1, TaskType::BackupUser, "First task".into(), 10).unwrap();
    manager.finish().unwrap();

    let result = manager.start_task(2, TaskType::BackupFavorites, "Second task".into(), 5);
    assert!(result.is_ok());
    let task = manager.get_current().unwrap().unwrap();
    assert_eq!(task.id, 2);
    assert_eq!(task.status, TaskStatus::InProgress);
}

#[test]
fn test_state_machine_pause_cancel_interrupt_resume() {
    let mut manager = TaskManager::new();
    assert!(manager.interrupt_current().is_err());

    manager.start_task(1, TaskType::BackupUser, "Test".into(), 10).unwrap();

    manager.pause_current().unwrap();
    assert_eq!(manager.get_current().unwrap().unwrap().status, TaskStatus::Paused);
    manager.resume_current().unwrap();
    assert_eq!(manager.get_current().unwrap().unwrap().status, TaskStatus::InProgress);

    manager.interrupt_current().unwrap();
    assert_eq!(manager.get_current().unwrap().unwrap().status, TaskStatus::Interrupted);
    manager.resume_current().unwrap();
    assert_eq!(manager.get_current().unwrap().unwrap().status, TaskStatus::InProgress);

    manager.cancel_current().unwrap();
    assert_eq!(manager.get_current().unwrap().unwrap().status, TaskStatus::Cancelled);

    assert!(manager.pause_current().is_err());
    assert!(manager.interrupt_current().is_err());
    assert!(manager.resume_current().is_err());
}

#[test]
fn test_start_task_blocked_while_running_but_allowed_after_cancel() {
    let mut manager = TaskManager::new();
    manager.start_task(1, TaskType::BackupUser, "First".into(), 10).unwrap();
    assert!(manager.start_task(2, TaskType::BackupFavorites, "Second".into(), 5).is_err());

    manager.cancel_current().unwrap();
    assert!(manager.start_task(3, TaskType::BackupFavorites, "Third".into(), 5).is_ok());
    assert_eq!(manager.get_current().unwrap().unwrap().id, 3);
}

#[test]
fn stale_task_id_cannot_mutate_replacement_task() {
    let mut manager = TaskManager::new();
    manager.start_task(1, TaskType::CollectUserPosts, "First".into(), 10).unwrap();
    manager.cancel_current().unwrap();
    manager.start_task(2, TaskType::CollectComments, "Second".into(), 20).unwrap();

    assert!(manager.update_progress_for(1, 7, 10).is_err());
    assert!(manager.finish_for(1).is_err());
    assert!(manager.fail_for(1, "stale failure".into()).is_err());

    let current = manager.get_current().unwrap().unwrap();
    assert_eq!(current.id, 2);
    assert_eq!(current.status, TaskStatus::InProgress);
    assert_eq!(current.progress, 0);
    assert!(current.error.is_none());
}

struct Recorder {
    seen: Arc<Mutex<Vec<String>>>,
}

impl TaskEventListener for Recorder {
    fn on_task_updated(&self, task: &Task, _told: &mut Told) {
        self.seen.lock().unwrap().push(format!("{}:{:?}:{}", task.id, task.status, task.progress));
    }

    fn on_task_error(&self, error: &TaskError, _told: &mut Told) {
        self.seen.lock().unwrap().push(error.message.clone());
    }
}

#[test]
fn settled_and_paused_tasks_are_neither_finished_nor_failed() {
    let mut manager = TaskManager::new();
    manager.start_task(1, TaskType::BackupUser, "t".into(), 10).unwrap();
    manager.cancel_current().unwrap();
    assert!(matches!(manager.finish(), Err(Error::InconsistentTask(_))));
    assert!(matches!(manager.fail("late".into()), Err(Error::InconsistentTask(_))));
    let task = manager.get_current().unwrap().unwrap();
    assert_eq!((task.status, task.error), (TaskStatus::Cancelled, None));
    manager.start_task(2, TaskType::BackupUser, "t".into(), 10).unwrap();
    manager.pause_current().unwrap();
    assert!(matches!(manager.finish(), Err(Error::InconsistentTask(_))));
    manager.resume_current().unwrap();
    manager.finish().unwrap();
    assert!(matches!(manager.finish(), Err(Error::InconsistentTask(_))));
    assert!(matches!(manager.fail("late".into()), Err(Error::InconsistentTask(_))));
    assert_eq!(manager.get_current().unwrap().unwrap().status, TaskStatus::Completed);
}

#[test]
fn a_new_listener_takes_the_place_of_the_earlier_one() {
    let first = Arc::new(Mutex::new(Vec::new()));
    let second = Arc::new(Mutex::new(Vec::new()));
    let mut manager = TaskManager::new();
    manager.set_listener(Box::new(Recorder { seen: first.clone() })).unwrap();
    manager.start_task(1, TaskType::Export, "export".into(), 2).unwrap();
    assert_eq!(first.lock().unwrap().len(), 1);
    manager.set_listener(Box::new(Recorder { seen: second.clone() })).unwrap();
    assert!(second.lock().unwrap().is_empty());
    manager.finish().unwrap();
    assert!(manager.finish().is_err());
    assert_eq!((first.lock().unwrap().len(), second.lock().unwrap().len()), (1, 1));
}

#[test]
fn listener_hears_every_change_and_error() {
    let seen = Arc::new(Mutex::new(Vec::new()));
    let mut manager = TaskManager::new();
    manager.set_listener(Box::new(Recorder { seen: seen.clone() })).unwrap();
    manager.start_task(4, TaskType::Export, "export".into(), 2).unwrap();
    manager.update_progress_for(4, 1, 2).unwrap();
    assert!(manager.start_task(5, TaskType::Export, "again".into(), 2).is_err());
    manager
        .report_task_error(TaskError {
            error_type: TaskErrorType::DownloadMedia("u".into()),
            message: "lost".into(),
        })
        .unwrap();
    manager.finish_for(4).unwrap();
    assert_eq!(
        *seen.lock().unwrap(),
        vec!["4:InProgress:0", "4:InProgress:1", "lost", "4:Completed:1"]
    );
}

#[test]
fn refusals_name_the_operation_and_the_task() {
    let mut manager = TaskManager::new();
    assert_eq!(
        manager.finish_for(9).unwrap_err().message(),
        Error::InconsistentTask("Cannot finish: no active task.".into()).message()
    );
    assert!(manager.update_progress(1, 2).is_err());
    manager.start_task(1, TaskType::Export, "x".into(), 0).unwrap();
    assert!(manager.has_active_task());
    match manager.cancel_for(9) {
        Err(Error::InconsistentTask(m)) => {
            assert_eq!(m, "Cannot cancel: task 9 is not the active in-progress task.")
        }
        _ => panic!("accepted a stale identifier"),
    }
    manager.pause_for(1).unwrap();
    assert!(!manager.has_active_task());
    match manager.update_progress(1, 2) {
        Err(Error::InconsistentTask(m)) => {
            assert_eq!(m, "Cannot update progress: no task is in progress.")
        }
        _ => panic!("progress of a paused task"),
    }
}
