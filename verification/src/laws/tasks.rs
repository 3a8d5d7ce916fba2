//! Tasks: which one is registered, what becomes of it, and who hears of it.
use vstd::prelude::*;

use crate::error::{Error, Result};
use crate::service::notices::Notice;
use crate::service::task_manager::{Task, TaskError, TaskManager, TaskStatus, TaskType};
use crate::text;

verus! {

/// Whether a result refuses an operation with the given words.
pub open spec fn refused(r: Result<()>, words: Seq<char>) -> bool {
    r matches Err(Error::InconsistentTask(m)) && m@ == words
}

/// Whether a task is the registered one and in progress.
pub open spec fn runs(registered: Result<Option<Task>>) -> bool {
    registered matches Ok(Some(t)) && t.status == TaskStatus::InProgress
}

/// A new manager has no task, no errors and nobody to tell.
pub proof fn new_managers_are_idle(
    manager: &mut TaskManager,
    made: TaskManager,
    current: Result<Option<Task>>,
    active: bool,
    errors: Result<Vec<TaskError>>,
)
    requires
        call_ensures(TaskManager::new, (), made),
        call_ensures(TaskManager::get_current, (&made,), current),
        call_ensures(TaskManager::has_active_task, (&made,), active),
        *old(manager) == made,
        call_ensures(TaskManager::get_and_clear_task_errors, (manager,), errors),
    ensures
        current matches Ok(None),
        !active,
        errors matches Ok(list) && list@.len() == 0,
        !made.listening(),
        made.told().len() == 0,
{
}

/// A task that starts is registered under its own identifier, type, description and total, in
/// progress, without progress or an error. While another one is in progress nothing starts and that
/// one stays as it is.
pub proof fn started_tasks_are_registered(
    manager: &mut TaskManager,
    id: u64,
    task_type: TaskType,
    description: String,
    total: u64,
    before: Result<Option<Task>>,
    r: Result<()>,
    after: Result<Option<Task>>,
    active: bool,
)
    requires
        call_ensures(TaskManager::get_current, (&*old(manager),), before),
        call_ensures(TaskManager::start_task, (manager, id, task_type, description, total), r),
        call_ensures(TaskManager::get_current, (&*final(manager),), after),
        call_ensures(TaskManager::has_active_task, (&*final(manager),), active),
    ensures
        active,
        runs(before) ==> refused(r, "Another task is already in progress."@) && after == before,
        !runs(before) ==> r is Ok && (after matches Ok(Some(t)) && t.id == id && t.task_type
            == task_type && t.description == description && t.status == TaskStatus::InProgress
            && t.progress == 0 && t.total == total && t.error is None),
{
}

/// A task is active exactly while it is in progress.
pub proof fn active_tasks_are_in_progress(
    manager: TaskManager,
    current: Result<Option<Task>>,
    active: bool,
)
    requires
        call_ensures(TaskManager::get_current, (&manager,), current),
        call_ensures(TaskManager::has_active_task, (&manager,), active),
    ensures
        current is Ok,
        active == runs(current),
{
}

/// The progress of a task in progress is registered as told, and nothing else of the task changes; without
/// such a task it is refused.
pub proof fn progress_is_registered(
    manager: &mut TaskManager,
    progress: u64,
    total: u64,
    before: Result<Option<Task>>,
    r: Result<()>,
    after: Result<Option<Task>>,
)
    requires
        call_ensures(TaskManager::get_current, (&*old(manager),), before),
        call_ensures(TaskManager::update_progress, (manager, progress, total), r),
        call_ensures(TaskManager::get_current, (&*final(manager),), after),
    ensures
        r is Ok <==> (before matches Ok(Some(t)) && t.status == TaskStatus::InProgress),
        r is Err ==> after == before,
        r is Ok ==> (before matches Ok(Some(t)) && (after matches Ok(Some(u)) && u.id == t.id && u.task_type == t.task_type && u.description == t.description && u.status == t.status && u.error == t.error && u.progress == progress && u.total == total)),
        r is Err ==> refused(r, "Cannot update progress: no task is in progress."@),
{
}

/// Finishing completes the task in progress and changes nothing else of it.
pub proof fn finished_tasks_are_completed(
    manager: &mut TaskManager,
    before: Result<Option<Task>>,
    r: Result<()>,
    after: Result<Option<Task>>,
)
    requires
        call_ensures(TaskManager::get_current, (&*old(manager),), before),
        call_ensures(TaskManager::finish, (manager,), r),
        call_ensures(TaskManager::get_current, (&*final(manager),), after),
    ensures
        r is Ok <==> (before matches Ok(Some(t)) && t.status == TaskStatus::InProgress),
        r is Err ==> after == before,
        r is Ok ==> (before matches Ok(Some(t)) && (after matches Ok(Some(u)) && u.id == t.id && u.task_type == t.task_type && u.description == t.description && u.progress == t.progress && u.total == t.total && u.status == TaskStatus::Completed && u.error == t.error)),
        r is Err ==> refused(r, "Cannot finish task: no task is in progress."@),
{
}

/// Failing fails the task in progress with the message that was given.
pub proof fn failed_tasks_keep_their_message(
    manager: &mut TaskManager,
    error: String,
    before: Result<Option<Task>>,
    r: Result<()>,
    after: Result<Option<Task>>,
)
    requires
        call_ensures(TaskManager::get_current, (&*old(manager),), before),
        call_ensures(TaskManager::fail, (manager, error), r),
        call_ensures(TaskManager::get_current, (&*final(manager),), after),
    ensures
        r is Ok <==> (before matches Ok(Some(t)) && t.status == TaskStatus::InProgress),
        r is Err ==> after == before,
        r is Ok ==> (before matches Ok(Some(t)) && (after matches Ok(Some(u)) && u.id == t.id && u.task_type == t.task_type && u.description == t.description && u.progress == t.progress && u.total == t.total && u.status == TaskStatus::Failed && u.error == Some(error))),
        r is Err ==> refused(r, "Cannot fail task: no task is in progress."@),
{
}

/// Pausing pauses the task in progress.
pub proof fn paused_tasks_are_paused(
    manager: &mut TaskManager,
    before: Result<Option<Task>>,
    r: Result<()>,
    after: Result<Option<Task>>,
)
    requires
        call_ensures(TaskManager::get_current, (&*old(manager),), before),
        call_ensures(TaskManager::pause_current, (manager,), r),
        call_ensures(TaskManager::get_current, (&*final(manager),), after),
    ensures
        r is Ok <==> (before matches Ok(Some(t)) && t.status == TaskStatus::InProgress),
        r is Err ==> after == before,
        r is Ok ==> (before matches Ok(Some(t)) && (after matches Ok(Some(u)) && u.id == t.id && u.task_type == t.task_type && u.description == t.description && u.progress == t.progress && u.total == t.total && u.status == TaskStatus::Paused && u.error == t.error)),
        before matches Ok(None) ==> refused(r, "Cannot transition task: no active task."@),
        before matches Ok(Some(t)) ==> r is Err ==> refused(r, "Cannot pause task: it is not in progress."@),
{
}

/// Interrupting interrupts the task in progress.
pub proof fn interrupted_tasks_are_interrupted(
    manager: &mut TaskManager,
    before: Result<Option<Task>>,
    r: Result<()>,
    after: Result<Option<Task>>,
)
    requires
        call_ensures(TaskManager::get_current, (&*old(manager),), before),
        call_ensures(TaskManager::interrupt_current, (manager,), r),
        call_ensures(TaskManager::get_current, (&*final(manager),), after),
    ensures
        r is Ok <==> (before matches Ok(Some(t)) && t.status == TaskStatus::InProgress),
        r is Err ==> after == before,
        r is Ok ==> (before matches Ok(Some(t)) && (after matches Ok(Some(u)) && u.id == t.id && u.task_type == t.task_type && u.description == t.description && u.progress == t.progress && u.total == t.total && u.status == TaskStatus::Interrupted && u.error == t.error)),
        before matches Ok(None) ==> refused(r, "Cannot transition task: no active task."@),
        before matches Ok(Some(t)) ==> r is Err ==> refused(r, "Cannot interrupt task: it is not in progress."@),
{
}

/// Cancelling cancels the task that is in progress or paused; any other one is named as it is.
pub proof fn running_and_paused_tasks_can_be_cancelled(
    manager: &mut TaskManager,
    before: Result<Option<Task>>,
    r: Result<()>,
    after: Result<Option<Task>>,
)
    requires
        call_ensures(TaskManager::get_current, (&*old(manager),), before),
        call_ensures(TaskManager::cancel_current, (manager,), r),
        call_ensures(TaskManager::get_current, (&*final(manager),), after),
    ensures
        r is Ok <==> (before matches Ok(Some(t)) && (t.status == TaskStatus::InProgress || t.status == TaskStatus::Paused)),
        r is Err ==> after == before,
        r is Ok ==> (before matches Ok(Some(t)) && (after matches Ok(Some(u)) && u.id == t.id && u.task_type == t.task_type && u.description == t.description && u.progress == t.progress && u.total == t.total && u.status == TaskStatus::Cancelled && u.error == t.error)),
        before matches Ok(None) ==> refused(r, "Cannot cancel task: no active task."@),
        (before matches Ok(Some(t)) && t.status == TaskStatus::Pending) ==> refused(
            r,
            "Cannot cancel task: current status is "@ + "Pending"@ + "."@,
        ),
        (before matches Ok(Some(t)) && t.status == TaskStatus::Completed) ==> refused(
            r,
            "Cannot cancel task: current status is "@ + "Completed"@ + "."@,
        ),
        (before matches Ok(Some(t)) && t.status == TaskStatus::Failed) ==> refused(
            r,
            "Cannot cancel task: current status is "@ + "Failed"@ + "."@,
        ),
        (before matches Ok(Some(t)) && t.status == TaskStatus::Cancelled) ==> refused(
            r,
            "Cannot cancel task: current status is "@ + "Cancelled"@ + "."@,
        ),
        (before matches Ok(Some(t)) && t.status == TaskStatus::Interrupted) ==> refused(
            r,
            "Cannot cancel task: current status is "@ + "Interrupted"@ + "."@,
        ),
{
}

/// Resuming sets a paused or interrupted task going again; any other one is named as it is.
pub proof fn paused_and_interrupted_tasks_can_be_resumed(
    manager: &mut TaskManager,
    before: Result<Option<Task>>,
    r: Result<()>,
    after: Result<Option<Task>>,
)
    requires
        call_ensures(TaskManager::get_current, (&*old(manager),), before),
        call_ensures(TaskManager::resume_current, (manager,), r),
        call_ensures(TaskManager::get_current, (&*final(manager),), after),
    ensures
        r is Ok <==> (before matches Ok(Some(t)) && (t.status == TaskStatus::Paused || t.status == TaskStatus::Interrupted)),
        r is Err ==> after == before,
        r is Ok ==> (before matches Ok(Some(t)) && (after matches Ok(Some(u)) && u.id == t.id && u.task_type == t.task_type && u.description == t.description && u.progress == t.progress && u.total == t.total && u.status == TaskStatus::InProgress && u.error == t.error)),
        before matches Ok(None) ==> refused(r, "Cannot resume task: no active task."@),
        (before matches Ok(Some(t)) && t.status == TaskStatus::Pending) ==> refused(
            r,
            "Cannot resume task: current status is "@ + "Pending"@ + "."@,
        ),
        (before matches Ok(Some(t)) && t.status == TaskStatus::InProgress) ==> refused(
            r,
            "Cannot resume task: current status is "@ + "InProgress"@ + "."@,
        ),
        (before matches Ok(Some(t)) && t.status == TaskStatus::Completed) ==> refused(
            r,
            "Cannot resume task: current status is "@ + "Completed"@ + "."@,
        ),
        (before matches Ok(Some(t)) && t.status == TaskStatus::Failed) ==> refused(
            r,
            "Cannot resume task: current status is "@ + "Failed"@ + "."@,
        ),
        (before matches Ok(Some(t)) && t.status == TaskStatus::Cancelled) ==> refused(
            r,
            "Cannot resume task: current status is "@ + "Cancelled"@ + "."@,
        ),
{
}

/// Progress that is told for an identified task reaches that one only, and only while it is in progress.
pub proof fn progress_belongs_to_its_task(
    manager: &mut TaskManager,
    task_id: u64,
    progress: u64,
    total: u64,
    before: Result<Option<Task>>,
    r: Result<()>,
    after: Result<Option<Task>>,
)
    requires
        call_ensures(TaskManager::get_current, (&*old(manager),), before),
        call_ensures(TaskManager::update_progress_for, (manager, task_id, progress, total), r),
        call_ensures(TaskManager::get_current, (&*final(manager),), after),
    ensures
        r is Ok <==> (before matches Ok(Some(t)) && t.id == task_id && t.status == TaskStatus::InProgress),
        r is Err ==> after == before,
        r is Ok ==> (before matches Ok(Some(t)) && (after matches Ok(Some(u)) && u.id == t.id && u.task_type == t.task_type && u.description == t.description && u.status == t.status && u.error == t.error && u.progress == progress && u.total == total)),
        before matches Ok(None) ==> refused(r, "Cannot "@ + "update progress"@ + ": no active task."@),
        before matches Ok(Some(t)) ==> r is Err ==> refused(
            r,
            "Cannot "@ + "update progress"@ + ": task "@ + text::decimal(task_id as nat)
                + " is not the active in-progress task."@,
        ),
{
}

/// Finishing an identified task completes that one only, while it is in progress.
pub proof fn identified_tasks_are_completed(
    manager: &mut TaskManager,
    task_id: u64,
    before: Result<Option<Task>>,
    r: Result<()>,
    after: Result<Option<Task>>,
)
    requires
        call_ensures(TaskManager::get_current, (&*old(manager),), before),
        call_ensures(TaskManager::finish_for, (manager, task_id), r),
        call_ensures(TaskManager::get_current, (&*final(manager),), after),
    ensures
        r is Ok <==> (before matches Ok(Some(t)) && t.id == task_id && t.status == TaskStatus::InProgress),
        r is Err ==> after == before,
        r is Ok ==> (before matches Ok(Some(t)) && (after matches Ok(Some(u)) && u.id == t.id && u.task_type == t.task_type && u.description == t.description && u.progress == t.progress && u.total == t.total && u.status == TaskStatus::Completed && u.error is None)),
        before matches Ok(None) ==> refused(r, "Cannot "@ + "finish"@ + ": no active task."@),
        before matches Ok(Some(t)) ==> r is Err ==> refused(
            r,
            "Cannot "@ + "finish"@ + ": task "@ + text::decimal(task_id as nat)
                + " is not the active in-progress task."@,
        ),
{
}

/// Failing an identified task fails that one only, while it is in progress, with the message given.
pub proof fn identified_tasks_fail(
    manager: &mut TaskManager,
    task_id: u64,
    error: String,
    before: Result<Option<Task>>,
    r: Result<()>,
    after: Result<Option<Task>>,
)
    requires
        call_ensures(TaskManager::get_current, (&*old(manager),), before),
        call_ensures(TaskManager::fail_for, (manager, task_id, error), r),
        call_ensures(TaskManager::get_current, (&*final(manager),), after),
    ensures
        r is Ok <==> (before matches Ok(Some(t)) && t.id == task_id && t.status == TaskStatus::InProgress),
        r is Err ==> after == before,
        r is Ok ==> (before matches Ok(Some(t)) && (after matches Ok(Some(u)) && u.id == t.id && u.task_type == t.task_type && u.description == t.description && u.progress == t.progress && u.total == t.total && u.status == TaskStatus::Failed && u.error == Some(error))),
        before matches Ok(None) ==> refused(r, "Cannot "@ + "fail"@ + ": no active task."@),
        before matches Ok(Some(t)) ==> r is Err ==> refused(
            r,
            "Cannot "@ + "fail"@ + ": task "@ + text::decimal(task_id as nat)
                + " is not the active in-progress task."@,
        ),
{
}

/// Pausing an identified task pauses that one only, while it is in progress.
pub proof fn identified_tasks_are_paused(
    manager: &mut TaskManager,
    task_id: u64,
    before: Result<Option<Task>>,
    r: Result<()>,
    after: Result<Option<Task>>,
)
    requires
        call_ensures(TaskManager::get_current, (&*old(manager),), before),
        call_ensures(TaskManager::pause_for, (manager, task_id), r),
        call_ensures(TaskManager::get_current, (&*final(manager),), after),
    ensures
        r is Ok <==> (before matches Ok(Some(t)) && t.id == task_id && t.status == TaskStatus::InProgress),
        r is Err ==> after == before,
        r is Ok ==> (before matches Ok(Some(t)) && (after matches Ok(Some(u)) && u.id == t.id && u.task_type == t.task_type && u.description == t.description && u.progress == t.progress && u.total == t.total && u.status == TaskStatus::Paused && u.error is None)),
        before matches Ok(None) ==> refused(r, "Cannot "@ + "pause"@ + ": no active task."@),
        before matches Ok(Some(t)) ==> r is Err ==> refused(
            r,
            "Cannot "@ + "pause"@ + ": task "@ + text::decimal(task_id as nat)
                + " is not the active in-progress task."@,
        ),
{
}

/// Cancelling an identified task cancels that one only, while it is in progress.
pub proof fn identified_tasks_are_cancelled(
    manager: &mut TaskManager,
    task_id: u64,
    before: Result<Option<Task>>,
    r: Result<()>,
    after: Result<Option<Task>>,
)
    requires
        call_ensures(TaskManager::get_current, (&*old(manager),), before),
        call_ensures(TaskManager::cancel_for, (manager, task_id), r),
        call_ensures(TaskManager::get_current, (&*final(manager),), after),
    ensures
        r is Ok <==> (before matches Ok(Some(t)) && t.id == task_id && t.status == TaskStatus::InProgress),
        r is Err ==> after == before,
        r is Ok ==> (before matches Ok(Some(t)) && (after matches Ok(Some(u)) && u.id == t.id && u.task_type == t.task_type && u.description == t.description && u.progress == t.progress && u.total == t.total && u.status == TaskStatus::Cancelled && u.error is None)),
        before matches Ok(None) ==> refused(r, "Cannot "@ + "cancel"@ + ": no active task."@),
        before matches Ok(Some(t)) ==> r is Err ==> refused(
            r,
            "Cannot "@ + "cancel"@ + ": task "@ + text::decimal(task_id as nat)
                + " is not the active in-progress task."@,
        ),
{
}

/// Interrupting an identified task interrupts that one only, while it is in progress.
pub proof fn identified_tasks_are_interrupted(
    manager: &mut TaskManager,
    task_id: u64,
    before: Result<Option<Task>>,
    r: Result<()>,
    after: Result<Option<Task>>,
)
    requires
        call_ensures(TaskManager::get_current, (&*old(manager),), before),
        call_ensures(TaskManager::interrupt_for, (manager, task_id), r),
        call_ensures(TaskManager::get_current, (&*final(manager),), after),
    ensures
        r is Ok <==> (before matches Ok(Some(t)) && t.id == task_id && t.status == TaskStatus::InProgress),
        r is Err ==> after == before,
        r is Ok ==> (before matches Ok(Some(t)) && (after matches Ok(Some(u)) && u.id == t.id && u.task_type == t.task_type && u.description == t.description && u.progress == t.progress && u.total == t.total && u.status == TaskStatus::Interrupted && u.error is None)),
        before matches Ok(None) ==> refused(r, "Cannot "@ + "interrupt"@ + ": no active task."@),
        before matches Ok(Some(t)) ==> r is Err ==> refused(
            r,
            "Cannot "@ + "interrupt"@ + ": task "@ + text::decimal(task_id as nat)
                + " is not the active in-progress task."@,
        ),
{
}

/// Errors are handed out once, all of them and in the order in which they came; reporting one
/// changes no task.
pub proof fn reported_errors_are_handed_out(
    manager: &mut TaskManager,
    clearing: &mut TaskManager,
    again: &mut TaskManager,
    error: TaskError,
    before: Result<Option<Task>>,
    after: Result<Option<Task>>,
    r: Result<()>,
    first: Result<Vec<TaskError>>,
    second: Result<Vec<TaskError>>,
)
    requires
        call_ensures(TaskManager::get_current, (&*old(manager),), before),
        call_ensures(TaskManager::report_task_error, (manager, error), r),
        call_ensures(TaskManager::get_current, (&*final(manager),), after),
        *old(clearing) == *final(manager),
        call_ensures(TaskManager::get_and_clear_task_errors, (clearing,), first),
        *old(again) == *final(clearing),
        call_ensures(TaskManager::get_and_clear_task_errors, (again,), second),
    ensures
        r is Ok,
        after == before,
        first matches Ok(list) && list@.len() == old(manager).errors().len() + 1 && list@.last()
            == error && list@.drop_last() == old(manager).errors(),
        second matches Ok(list) && list@.len() == 0,
        old(manager).listening() ==> final(manager).told() == old(manager).told().push(
            Notice::Reported(error),
        ),
        !old(manager).listening() ==> final(manager).told() == old(manager).told(),
{
}

/// A listener hears of a change, and of the task as it is after it, once; of what is refused it
/// hears nothing.
pub proof fn listeners_hear_of_changes(
    manager: &mut TaskManager,
    id: u64,
    task_type: TaskType,
    description: String,
    total: u64,
    r: Result<()>,
    after: Result<Option<Task>>,
)
    requires
        old(manager).listening(),
        call_ensures(TaskManager::start_task, (manager, id, task_type, description, total), r),
        call_ensures(TaskManager::get_current, (&*final(manager),), after),
    ensures
        final(manager).heard_by() == old(manager).heard_by(),
        r is Ok ==> (after matches Ok(Some(t)) && final(manager).told() == old(
            manager,
        ).told().push(Notice::Updated(t))),
        r is Err ==> final(manager).told() == old(manager).told(),
{
}

/// A task that was paused or interrupted and is resumed goes on as the same task, and the other way
/// round a completed one cannot be resumed.
pub proof fn pauses_are_undone(
    manager: &mut TaskManager,
    resuming: &mut TaskManager,
    finishing: &mut TaskManager,
    late: &mut TaskManager,
    before: Result<Option<Task>>,
    r: Result<()>,
    s: Result<()>,
    after: Result<Option<Task>>,
    f: Result<()>,
    l: Result<()>,
)
    requires
        runs(before),
        call_ensures(TaskManager::get_current, (&*old(manager),), before),
        call_ensures(TaskManager::pause_current, (manager,), r) || call_ensures(
            TaskManager::interrupt_current,
            (manager,),
            r,
        ),
        *old(resuming) == *final(manager),
        call_ensures(TaskManager::resume_current, (resuming,), s),
        call_ensures(TaskManager::get_current, (&*final(resuming),), after),
        *old(finishing) == *final(resuming),
        call_ensures(TaskManager::finish, (finishing,), f),
        *old(late) == *final(finishing),
        call_ensures(TaskManager::resume_current, (late,), l),
    ensures
        r is Ok,
        s is Ok,
        after == before,
        f is Ok,
        l is Err,
{
}

} // verus!
