//! The lifecycle of the one long-running task that may be active at a time.
use vstd::prelude::*;

use crate::error;
use crate::error::{Error, Result};
use crate::service::notices::{Notice, Told};
use crate::text;

verus! {

/// The general category of an asynchronous task.
#[derive(Debug, Clone, Copy, PartialEq, Eq, Structural)]
pub enum TaskType {
    /// Backup posts from a specific user.
    BackupUser,
    /// Backup favorited posts.
    BackupFavorites,
    /// Unfavorite posts that are stored locally but still favorited remotely.
    UnfavoritePosts,
    /// Export posts from local storage to external formats.
    Export,
    /// Clean up redundant or low-resolution images.
    CleanupPictures,
    /// Clean up invalid or outdated avatars.
    CleanupAvatars,
    /// Clean up invalid posts.
    CleanupInvalidPosts,
    /// Re-backup posts based on a query.
    RebackupPosts,
    /// Re-backup posts that have missing images.
    RebackupMissingImages,
    /// Clean up invalid pictures.
    CleanupInvalidPictures,
    /// Collect a user's posts through the sidecar.
    CollectUserPosts,
    /// Collect first-level comments through the sidecar.
    CollectComments,
    /// Collect replies to a comment through the sidecar.
    CollectCommentReplies,
}

/// The current execution state of a task.
///
/// A pending task starts running (`InProgress`). A running task completes, fails, is cancelled,
/// is paused or is interrupted by process exit; a paused or interrupted task can run again.
#[derive(Debug, Clone, Copy, PartialEq, Eq, Structural)]
pub enum TaskStatus {
    /// The task has been created but not yet started.
    Pending,
    /// The task is currently running.
    InProgress,
    /// The task has finished successfully.
    Completed,
    /// The task has stopped due to a fatal error.
    Failed,
    /// The task was temporarily paused and can be resumed.
    Paused,
    /// The task was cancelled by the user.
    Cancelled,
    /// The task was interrupted by process exit and can be resumed.
    Interrupted,
}

/// The name of a status.
pub open spec fn status_name_of(status: TaskStatus) -> Seq<char> {
    match status {
        TaskStatus::Pending => "Pending"@,
        TaskStatus::InProgress => "InProgress"@,
        TaskStatus::Completed => "Completed"@,
        TaskStatus::Failed => "Failed"@,
        TaskStatus::Paused => "Paused"@,
        TaskStatus::Cancelled => "Cancelled"@,
        TaskStatus::Interrupted => "Interrupted"@,
    }
}

fn status_name(status: TaskStatus) -> (r: &'static str)
    ensures
        r@ == status_name_of(status),
{
    match status {
        TaskStatus::Pending => "Pending",
        TaskStatus::InProgress => "InProgress",
        TaskStatus::Completed => "Completed",
        TaskStatus::Failed => "Failed",
        TaskStatus::Paused => "Paused",
        TaskStatus::Cancelled => "Cancelled",
        TaskStatus::Interrupted => "Interrupted",
    }
}

/// A single unit of work being performed by the application.
#[derive(Debug)]
pub struct Task {
    /// The unique task ID.
    pub id: u64,
    /// The general category of the task.
    pub task_type: TaskType,
    /// A human-readable summary of the task.
    pub description: String,
    /// The current state of the task.
    pub status: TaskStatus,
    /// Current completion progress, such as the number of pages fetched.
    pub progress: u64,
    /// The total estimated progress for completion.
    pub total: u64,
    /// An error message if the task failed.
    pub error: Option<String>,
}

impl Clone for Task {
    fn clone(&self) -> (r: Self)
        ensures
            r == *self,
    {
        Task {
            id: self.id,
            task_type: self.task_type,
            description: self.description.clone(),
            status: self.status,
            progress: self.progress,
            total: self.total,
            error: match &self.error {
                Some(e) => Some(e.clone()),
                None => None,
            },
        }
    }
}

/// Types of errors that can occur within a task.
#[derive(Debug)]
pub enum TaskErrorType {
    /// Failed to download a specific media file. Contains the URL.
    DownloadMedia(String),
}

/// A non-fatal error record for a specific operation within a larger task.
#[derive(Debug)]
pub struct TaskError {
    /// The category of the error.
    pub error_type: TaskErrorType,
    /// A detailed error message.
    pub message: String,
}

impl Clone for TaskError {
    fn clone(&self) -> (r: Self)
        ensures
            r == *self,
    {
        let error_type = match &self.error_type {
            TaskErrorType::DownloadMedia(url) => TaskErrorType::DownloadMedia(url.clone()),
        };
        TaskError { error_type, message: self.message.clone() }
    }
}

/// Receives updates when a task's state changes or when task errors occur. Each call is on the record
/// that it is handed; a listener need not look at it.
pub trait TaskEventListener: Send + Sync {
    /// Called when a task's state or progress is updated.
    fn on_task_updated(&self, task: &Task, told: &mut Told)
        ensures
            final(told).log() == old(told).log().push(Notice::Updated(*task)),
    ;

    /// Called when a non-fatal task error is recorded.
    fn on_task_error(&self, error: &TaskError, told: &mut Told)
        ensures
            final(told).log() == old(told).log().push(Notice::Reported(*error)),
    ;
}

/// Whether a task may start beside the registered one.
pub open spec fn may_start(current: Option<Task>) -> bool {
    match current {
        Some(t) => t.status != TaskStatus::InProgress,
        None => true,
    }
}

/// A task that has just started.
pub open spec fn started(id: u64, task_type: TaskType, description: String, total: u64) -> Task {
    Task {
        id,
        task_type,
        description,
        status: TaskStatus::InProgress,
        progress: 0,
        total,
        error: None,
    }
}

/// The registered task moved from one status to another, if it has the first one.
pub open spec fn moved(current: Option<Task>, from: TaskStatus, to: TaskStatus) -> Option<Task> {
    match current {
        Some(t) => if t.status == from {
            Some(Task { status: to, ..t })
        } else {
            None
        },
        None => None,
    }
}

/// The registered task cancelled, if it is in progress or paused.
pub open spec fn cancelled(current: Option<Task>) -> Option<Task> {
    match current {
        Some(t) => if t.status == TaskStatus::InProgress || t.status == TaskStatus::Paused {
            Some(Task { status: TaskStatus::Cancelled, ..t })
        } else {
            None
        },
        None => None,
    }
}

/// The registered task running again, if it was paused or interrupted.
pub open spec fn resumed(current: Option<Task>) -> Option<Task> {
    match current {
        Some(t) => if t.status == TaskStatus::Paused || t.status == TaskStatus::Interrupted {
            Some(Task { status: TaskStatus::InProgress, ..t })
        } else {
            None
        },
        None => None,
    }
}

/// The registered task, if it is in progress and has the given identifier.
pub open spec fn active(current: Option<Task>, task_id: u64) -> Option<Task> {
    match current {
        Some(t) => if t.id == task_id && t.status == TaskStatus::InProgress {
            Some(t)
        } else {
            None
        },
        None => None,
    }
}

/// The identified active task with a new status and error.
pub open spec fn settled_for(
    current: Option<Task>,
    task_id: u64,
    status: TaskStatus,
    error: Option<String>,
) -> Option<Task> {
    match active(current, task_id) {
        Some(t) => Some(Task { status, error, ..t }),
        None => None,
    }
}

/// The identified active task with new progress figures.
pub open spec fn progressed_for(
    current: Option<Task>,
    task_id: u64,
    progress: u64,
    total: u64,
) -> Option<Task> {
    match active(current, task_id) {
        Some(t) => Some(Task { progress, total, ..t }),
        None => None,
    }
}

/// Why an operation on an identified task is refused.
pub open spec fn refusal_for(current: Option<Task>, task_id: u64, operation: Seq<char>) -> Seq<
    char,
> {
    if current is None {
        "Cannot "@ + operation + ": no active task."@
    } else {
        "Cannot "@ + operation + ": task "@ + text::decimal(task_id as nat)
            + " is not the active in-progress task."@
    }
}

/// The registered task failed with a message, if it is in progress.
pub open spec fn failed(current: Option<Task>, error: String) -> Option<Task> {
    match moved(current, TaskStatus::InProgress, TaskStatus::Failed) {
        Some(t) => Some(Task { error: Some(error), ..t }),
        None => None,
    }
}

/// Whether `after` is `before` with `task` as its registered task, of which the listener, if there is
/// one, was told once.
pub open spec fn announces(before: TaskManager, after: TaskManager, task: Task) -> bool {
    &&& after.current() == Some(task)
    &&& after.errors() == before.errors()
    &&& after.heard_by() == before.heard_by()
    &&& after.told() == if before.listening() {
        before.told().push(Notice::Updated(task))
    } else {
        before.told()
    }
}

/// What an operation that moves the registered task does: the task becomes `to`, or the operation
/// is refused with the given message and changes nothing.
pub open spec fn moves(
    before: TaskManager,
    after: TaskManager,
    r: Result<()>,
    to: Option<Task>,
    refusal: Seq<char>,
) -> bool {
    match to {
        Some(task) => r is Ok && announces(before, after, task),
        None => after == before && (r matches Err(e) && error::is_inconsistent(e, refusal)),
    }
}

/// Tracks the current task and its non-fatal errors, and keeps a second task from starting while
/// one is in progress.
pub struct TaskManager {
    current_task: Option<Task>,
    task_errors: Vec<TaskError>,
    listener: Option<Box<dyn TaskEventListener>>,
    told: Told,
}

/// A value as one that is there.
fn some_of<T>(value: T) -> (r: Option<T>)
    ensures
        r == Some(value),
{
    Some(value)
}

impl TaskManager {
    /// The registered task.
    pub closed spec fn current(&self) -> Option<Task> {
        self.current_task
    }

    /// The recorded errors, oldest first.
    pub closed spec fn errors(&self) -> Seq<TaskError> {
        self.task_errors@
    }

    /// The listener that is told of changes, if one is set.
    pub closed spec fn heard_by(&self) -> Option<Box<dyn TaskEventListener>> {
        self.listener
    }

    /// Whether a listener is set.
    pub open spec fn listening(&self) -> bool {
        self.heard_by() is Some
    }

    /// What the listener of the time has been told so far, oldest first.
    pub closed spec fn told(&self) -> Seq<Notice> {
        self.told.log()
    }

    /// Creates a manager without a task, errors or a listener.
    pub fn new() -> (r: Self)
        ensures
            r.current() is None,
            r.errors() == Seq::<TaskError>::empty(),
            r.heard_by() is None,
            r.told() == Seq::<Notice>::empty(),
    {
        TaskManager {
            current_task: None,
            task_errors: Vec::new(),
            listener: None,
            told: Told::new(),
        }
    }

    /// Sets the task event listener: from now on it, and no earlier one, is told of changes. It is told
    /// nothing yet.
    pub fn set_listener(&mut self, listener: Box<dyn TaskEventListener>) -> (r: Result<()>)
        ensures
            r is Ok,
            final(self).heard_by() == Some(listener),
            final(self).current() == old(self).current(),
            final(self).errors() == old(self).errors(),
            final(self).told() == old(self).told(),
    {
        let heard_by = some_of(listener);
        self.listener = heard_by;
        Ok(())
    }

    /// Hands the task to the listener, if one is set.
    fn notify(&mut self, task: &Task) -> (r: Result<()>)
        requires
            old(self).current() == Some(*task),
        ensures
            r is Ok,
            announces(*old(self), *final(self), *task),
    {
        if let Some(listener) = &self.listener {
            listener.on_task_updated(task, &mut self.told);
        }
        Ok(())
    }

    /// Replaces the registered task and announces it.
    fn register(&mut self, task: Task) -> (r: Result<()>)
        ensures
            r is Ok,
            announces(*old(self), *final(self), task),
    {
        let announced = task.clone();
        self.current_task = Some(task);
        self.notify(&announced)
    }

    /// Registers and starts a new task; refused while another task is in progress.
    pub fn start_task(
        &mut self,
        id: u64,
        task_type: TaskType,
        description: String,
        total: u64,
    ) -> (r: Result<()>)
        ensures
            moves(
                *old(self),
                *final(self),
                r,
                if may_start(old(self).current()) {
                    Some(started(id, task_type, description, total))
                } else {
                    None
                },
                "Another task is already in progress."@,
            ),
    {
        if let Some(task) = &self.current_task {
            if task.status == TaskStatus::InProgress {
                return Err(error::inconsistent("Another task is already in progress."));
            }
        }
        self.register(
            Task {
                id,
                task_type,
                description,
                status: TaskStatus::InProgress,
                progress: 0,
                total,
                error: None,
            },
        )
    }

    /// Sets the progress and total of the task in progress; refused when none is in progress.
    pub fn update_progress(&mut self, progress: u64, total: u64) -> (r: Result<()>)
        ensures
            moves(
                *old(self),
                *final(self),
                r,
                match old(self).current() {
                    Some(t) => progressed_for(Some(t), t.id, progress, total),
                    None => None,
                },
                "Cannot update progress: no task is in progress."@,
            ),
    {
        if let Some(task) = &self.current_task {
            if task.status == TaskStatus::InProgress {
                let mut task = task.clone();
                task.progress = progress;
                task.total = total;
                return self.register(task);
            }
        }
        Err(error::inconsistent("Cannot update progress: no task is in progress."))
    }

    /// Updates progress only when `task_id` still identifies the active task.
    pub fn update_progress_for(&mut self, task_id: u64, progress: u64, total: u64) -> (r: Result<()>)
        ensures
            moves(
                *old(self),
                *final(self),
                r,
                progressed_for(old(self).current(), task_id, progress, total),
                refusal_for(old(self).current(), task_id, "update progress"@),
            ),
    {
        let task = match Self::active_task_for(&mut self.current_task, task_id, "update progress") {
            Ok(task) => {
                task.progress = progress;
                task.total = total;
                task.clone()
            },
            Err(e) => return Err(e),
        };
        self.notify(&task)
    }

    /// Marks the task in progress as completed; refused when none is in progress.
    pub fn finish(&mut self) -> (r: Result<()>)
        ensures
            moves(
                *old(self),
                *final(self),
                r,
                moved(old(self).current(), TaskStatus::InProgress, TaskStatus::Completed),
                "Cannot finish task: no task is in progress."@,
            ),
    {
        if let Some(task) = &self.current_task {
            if task.status == TaskStatus::InProgress {
                let mut task = task.clone();
                task.status = TaskStatus::Completed;
                return self.register(task);
            }
        }
        Err(error::inconsistent("Cannot finish task: no task is in progress."))
    }

    /// Marks the matching active task as completed.
    pub fn finish_for(&mut self, task_id: u64) -> (r: Result<()>)
        ensures
            moves(
                *old(self),
                *final(self),
                r,
                settled_for(old(self).current(), task_id, TaskStatus::Completed, None),
                refusal_for(old(self).current(), task_id, "finish"@),
            ),
    {
        self.transition_for(task_id, TaskStatus::Completed, None, "finish")
    }

    /// Marks the task in progress as failed with a message; refused when none is in progress.
    pub fn fail(&mut self, error: String) -> (r: Result<()>)
        ensures
            moves(
                *old(self),
                *final(self),
                r,
                failed(old(self).current(), error),
                "Cannot fail task: no task is in progress."@,
            ),
    {
        if let Some(task) = &self.current_task {
            if task.status == TaskStatus::InProgress {
                let mut task = task.clone();
                task.status = TaskStatus::Failed;
                task.error = Some(error);
                return self.register(task);
            }
        }
        Err(error::inconsistent("Cannot fail task: no task is in progress."))
    }

    /// Marks the matching active task as failed.
    pub fn fail_for(&mut self, task_id: u64, error: String) -> (r: Result<()>)
        ensures
            moves(
                *old(self),
                *final(self),
                r,
                settled_for(old(self).current(), task_id, TaskStatus::Failed, Some(error)),
                refusal_for(old(self).current(), task_id, "fail"@),
            ),
    {
        self.transition_for(task_id, TaskStatus::Failed, Some(error), "fail")
    }

    /// Records a non-fatal error, which does not stop the task, and hands it to the listener.
    pub fn report_task_error(&mut self, error: TaskError) -> (r: Result<()>)
        ensures
            r is Ok,
            final(self).errors() == old(self).errors().push(error),
            final(self).told() == if old(self).listening() {
                old(self).told().push(Notice::Reported(error))
            } else {
                old(self).told()
            },
            final(self).current() == old(self).current(),
            final(self).heard_by() == old(self).heard_by(),
    {
        self.task_errors.push(error.clone());
        if let Some(listener) = &self.listener {
            listener.on_task_error(&error, &mut self.told);
        }
        Ok(())
    }

    /// Hands out the recorded errors, oldest first, and forgets them.
    pub fn get_and_clear_task_errors(&mut self) -> (r: Result<Vec<TaskError>>)
        ensures
            r matches Ok(errors) && errors@ == old(self).errors(),
            final(self).errors() == Seq::<TaskError>::empty(),
            final(self).current() == old(self).current(),
            final(self).told() == old(self).told(),
            final(self).heard_by() == old(self).heard_by(),
    {
        let mut errors: Vec<TaskError> = Vec::new();
        std::mem::swap(&mut errors, &mut self.task_errors);
        Ok(errors)
    }

    /// A copy of the registered task, if any.
    pub fn get_current(&self) -> (r: Result<Option<Task>>)
        ensures
            r == Ok::<Option<Task>, Error>(self.current()),
    {
        match &self.current_task {
            Some(task) => Ok(Some(task.clone())),
            None => Ok(None),
        }
    }

    /// Pauses the task in progress.
    pub fn pause_current(&mut self) -> (r: Result<()>)
        ensures
            moves(
                *old(self),
                *final(self),
                r,
                moved(old(self).current(), TaskStatus::InProgress, TaskStatus::Paused),
                if old(self).current() is None {
                    "Cannot transition task: no active task."@
                } else {
                    "Cannot pause task: it is not in progress."@
                },
            ),
    {
        self.transition_if(
            TaskStatus::InProgress,
            TaskStatus::Paused,
            "Cannot pause task: it is not in progress.",
        )
    }

    /// Pauses the matching active task.
    pub fn pause_for(&mut self, task_id: u64) -> (r: Result<()>)
        ensures
            moves(
                *old(self),
                *final(self),
                r,
                settled_for(old(self).current(), task_id, TaskStatus::Paused, None),
                refusal_for(old(self).current(), task_id, "pause"@),
            ),
    {
        self.transition_for(task_id, TaskStatus::Paused, None, "pause")
    }

    /// Cancels the task that is in progress or paused.
    pub fn cancel_current(&mut self) -> (r: Result<()>)
        ensures
            moves(
                *old(self),
                *final(self),
                r,
                cancelled(old(self).current()),
                match old(self).current() {
                    Some(t) => "Cannot cancel task: current status is "@ + status_name_of(t.status)
                        + "."@,
                    None => "Cannot cancel task: no active task."@,
                },
            ),
    {
        match &self.current_task {
            None => Err(error::inconsistent("Cannot cancel task: no active task.")),
            Some(task) => {
                if task.status != TaskStatus::InProgress && task.status != TaskStatus::Paused {
                    return Err(
                        Error::InconsistentTask(
                            text::join3(
                                "Cannot cancel task: current status is ",
                                status_name(task.status),
                                ".",
                            ),
                        ),
                    );
                }
                let mut task = task.clone();
                task.status = TaskStatus::Cancelled;
                self.register(task)
            },
        }
    }

    /// Cancels the matching active task.
    pub fn cancel_for(&mut self, task_id: u64) -> (r: Result<()>)
        ensures
            moves(
                *old(self),
                *final(self),
                r,
                settled_for(old(self).current(), task_id, TaskStatus::Cancelled, None),
                refusal_for(old(self).current(), task_id, "cancel"@),
            ),
    {
        self.transition_for(task_id, TaskStatus::Cancelled, None, "cancel")
    }

    /// Marks the task in progress as interrupted, so that it can be resumed after a restart.
    pub fn interrupt_current(&mut self) -> (r: Result<()>)
        ensures
            moves(
                *old(self),
                *final(self),
                r,
                moved(old(self).current(), TaskStatus::InProgress, TaskStatus::Interrupted),
                if old(self).current() is None {
                    "Cannot transition task: no active task."@
                } else {
                    "Cannot interrupt task: it is not in progress."@
                },
            ),
    {
        self.transition_if(
            TaskStatus::InProgress,
            TaskStatus::Interrupted,
            "Cannot interrupt task: it is not in progress.",
        )
    }

    /// Marks the matching active task as interrupted.
    pub fn interrupt_for(&mut self, task_id: u64) -> (r: Result<()>)
        ensures
            moves(
                *old(self),
                *final(self),
                r,
                settled_for(old(self).current(), task_id, TaskStatus::Interrupted, None),
                refusal_for(old(self).current(), task_id, "interrupt"@),
            ),
    {
        self.transition_for(task_id, TaskStatus::Interrupted, None, "interrupt")
    }

    /// Resumes a paused or interrupted task.
    pub fn resume_current(&mut self) -> (r: Result<()>)
        ensures
            moves(
                *old(self),
                *final(self),
                r,
                resumed(old(self).current()),
                match old(self).current() {
                    Some(t) => "Cannot resume task: current status is "@ + status_name_of(t.status)
                        + "."@,
                    None => "Cannot resume task: no active task."@,
                },
            ),
    {
        match &self.current_task {
            None => Err(error::inconsistent("Cannot resume task: no active task.")),
            Some(task) => {
                if task.status != TaskStatus::Paused && task.status != TaskStatus::Interrupted {
                    return Err(
                        Error::InconsistentTask(
                            text::join3(
                                "Cannot resume task: current status is ",
                                status_name(task.status),
                                ".",
                            ),
                        ),
                    );
                }
                let mut task = task.clone();
                task.status = TaskStatus::InProgress;
                self.register(task)
            },
        }
    }

    /// Whether a task is in progress.
    pub fn has_active_task(&self) -> (r: bool)
        ensures
            r == !may_start(self.current()),
    {
        match &self.current_task {
            Some(task) => task.status == TaskStatus::InProgress,
            None => false,
        }
    }

    /// Moves the registered task from one status to another and announces it.
    fn transition_if(&mut self, from: TaskStatus, to: TaskStatus, err_msg: &str) -> (r: Result<()>)
        ensures
            moves(
                *old(self),
                *final(self),
                r,
                moved(old(self).current(), from, to),
                if old(self).current() is None {
                    "Cannot transition task: no active task."@
                } else {
                    err_msg@
                },
            ),
    {
        match &self.current_task {
            None => Err(error::inconsistent("Cannot transition task: no active task.")),
            Some(task) => {
                if task.status != from {
                    return Err(error::inconsistent(err_msg));
                }
                let mut task = task.clone();
                task.status = to;
                self.register(task)
            },
        }
    }

    /// The registered task for modification, if it is the identified active one.
    fn active_task_for<'a>(
        task_guard: &'a mut Option<Task>,
        task_id: u64,
        operation: &str,
    ) -> (r: Result<&'a mut Task>)
        ensures
            match r {
                Ok(t) => active(*old(task_guard), task_id) == Some(*t) && *final(task_guard)
                    == Some(*final(t)),
                Err(e) => active(*old(task_guard), task_id) is None && *final(task_guard) == *old(
                    task_guard,
                ) && error::is_inconsistent(
                    e,
                    refusal_for(*old(task_guard), task_id, operation@),
                ),
            },
    {
        match task_guard {
            None => {
                Err(
                    Error::InconsistentTask(
                        text::join3("Cannot ", operation, ": no active task."),
                    ),
                )
            },
            Some(task) => {
                if task.id != task_id || task.status != TaskStatus::InProgress {
                    let mut message = text::join3("Cannot ", operation, ": task ");
                    message.append(text::u64_text(task_id).as_str());
                    message.append(" is not the active in-progress task.");
                    return Err(Error::InconsistentTask(message));
                }
                Ok(task)
            },
        }
    }

    /// Gives the identified active task a new status and error, and announces it.
    fn transition_for(
        &mut self,
        task_id: u64,
        status: TaskStatus,
        error: Option<String>,
        operation: &str,
    ) -> (r: Result<()>)
        ensures
            moves(
                *old(self),
                *final(self),
                r,
                settled_for(old(self).current(), task_id, status, error),
                refusal_for(old(self).current(), task_id, operation@),
            ),
    {
        let task = match Self::active_task_for(&mut self.current_task, task_id, operation) {
            Ok(task) => {
                task.status = status;
                task.error = error;
                task.clone()
            },
            Err(e) => return Err(e),
        };
        self.notify(&task)
    }
}

/// A task identifier that is not that of the registered task reaches nothing: whatever status,
/// error or progress is meant for it, there is no task to receive it.
pub proof fn stale_identifier_reaches_nothing(
    task: Task,
    stale: u64,
    status: TaskStatus,
    error: Option<String>,
    progress: u64,
    total: u64,
)
    requires
        task.id != stale,
    ensures
        settled_for(Some(task), stale, status, error) is None,
        progressed_for(Some(task), stale, progress, total) is None,
{
}

/// Resuming after a pause or an interruption gives back the task that was in progress.
pub proof fn resume_undoes_pause_and_interruption(task: Task)
    requires
        task.status == TaskStatus::InProgress,
    ensures
        resumed(moved(Some(task), TaskStatus::InProgress, TaskStatus::Paused)) == Some(task),
        resumed(moved(Some(task), TaskStatus::InProgress, TaskStatus::Interrupted)) == Some(task),
{
}

/// A completed, failed or cancelled task can be neither completed, failed, paused, interrupted,
/// cancelled nor resumed, and leaves room for a new task.
pub proof fn settled_tasks_stay_settled(task: Task, error: String)
    requires
        task.status == TaskStatus::Completed || task.status == TaskStatus::Failed || task.status
            == TaskStatus::Cancelled,
    ensures
        moved(Some(task), TaskStatus::InProgress, TaskStatus::Completed) is None,
        failed(Some(task), error) is None,
        moved(Some(task), TaskStatus::InProgress, TaskStatus::Paused) is None,
        moved(Some(task), TaskStatus::InProgress, TaskStatus::Interrupted) is None,
        cancelled(Some(task)) is None,
        resumed(Some(task)) is None,
        may_start(Some(task)),
{
}

/// No task starts beside a running one: a start, a pause, an interruption, a resumption and a
/// cancellation leave at most the one registered task in progress, and a second start is refused
/// as long as that task is in progress.
pub proof fn one_task_at_a_time(task: Task)
    ensures
        may_start(Some(task)) <==> task.status != TaskStatus::InProgress,
        resumed(Some(task)) matches Some(t) ==> !may_start(Some(t)) && may_start(Some(task)),
        moved(Some(task), TaskStatus::InProgress, TaskStatus::Paused) matches Some(t) ==> may_start(
            Some(t),
        ),
        cancelled(Some(task)) matches Some(t) ==> may_start(Some(t)),
{
}

/// Whether an operation keeps the listener and tells it, if there is one, this and nothing else.
pub open spec fn tells(before: TaskManager, after: TaskManager, notice: Option<Notice>) -> bool {
    &&& after.heard_by() == before.heard_by()
    &&& after.told() == match notice {
        Some(notice) => if before.listening() {
            before.told().push(notice)
        } else {
            before.told()
        },
        None => before.told(),
    }
}

/// The notices among what operations tell.
pub open spec fn notices_of(operations: Seq<Option<Notice>>) -> Seq<Notice>
    decreases operations.len(),
{
    if operations.len() == 0 {
        Seq::empty()
    } else {
        let before = notices_of(operations.drop_last());
        match operations.last() {
            Some(notice) => before.push(notice),
            None => before,
        }
    }
}

/// An operation that takes effect tells the task as it is after the change, once, and a refused one
/// tells nothing.
pub proof fn effective_operations_tell_once(
    before: TaskManager,
    after: TaskManager,
    r: Result<()>,
    to: Option<Task>,
    refusal: Seq<char>,
)
    requires
        moves(before, after, r, to, refusal),
    ensures
        tells(
            before,
            after,
            match to {
                Some(task) => Some(Notice::Updated(task)),
                None => None,
            },
        ),
        r is Ok == to is Some,
{
}

/// After a listener has been set it, and none that was set before, is told of what happens: whatever
/// operations follow, it stays the listener, and beyond what was on record when it was set there is
/// what each of them tells, exactly once and in order, and nothing else.
pub proof fn only_the_new_listener_is_told(
    managers: Seq<TaskManager>,
    operations: Seq<Option<Notice>>,
)
    requires
        managers.len() == operations.len() + 1,
        managers[0].listening(),
        forall|i: int|
            0 <= i < operations.len() ==> tells(
                managers[i],
                managers[i + 1],
                #[trigger] operations[i],
            ),
    ensures
        managers.last().heard_by() == managers[0].heard_by(),
        managers.last().told() == managers[0].told() + notices_of(operations),
    decreases operations.len(),
{
    let told = managers[0].told();
    if operations.len() == 0 {
        assert(told + notices_of(operations) == told);
    } else {
        let n = operations.len() - 1;
        let earlier = managers.drop_last();
        let before = operations.drop_last();
        assert forall|i: int| 0 <= i < before.len() implies tells(
            earlier[i],
            earlier[i + 1],
            #[trigger] before[i],
        ) by {
            assert(operations[i] == before[i]);
        }
        only_the_new_listener_is_told(earlier, before);
        assert(operations[n] == operations.last());
        assert(managers[n] == earlier.last());
        assert(managers[n + 1] == managers.last());
        if let Some(notice) = operations.last() {
            assert(told + notices_of(operations) == (told + notices_of(before)).push(notice));
        }
    }
}

} // verus!
