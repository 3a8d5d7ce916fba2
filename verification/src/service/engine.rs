//! The engine that coordinates tasks, workers and writers, and what it admits when.
use vstd::prelude::*;

use crate::error;
use crate::error::{Error, Result};
use crate::media_downloader::DownloaderWorkerSummary;
use crate::media_pipeline::MediaWorkerSummary;
use crate::models::user::User;
use crate::paths;
use crate::service::shutdown;
use crate::service::shutdown::{
    JoinOutcome, PersistentShutdownSummary, SchedulerShutdownStatus, ShutdownAdmission,
};
use crate::service::task_manager;
use crate::service::task_manager::{TaskManager, TaskType};
use crate::storage::internal::entities::{AccountDto, MonitoredUserDto, SyncJobDto};
use crate::sync_executor;
use crate::sync_executor::{SessionProbe, WorkerRegistry, WorkerShutdownSummary};
use crate::text;

verus! {

/// The engine: its tasks, workers and background work, and who is admitted.
pub struct Core {
    /// The identifier of the next task.
    pub next_task_id: u64,
    pub task_manager: TaskManager,
    pub persistent_workers: WorkerRegistry,
    pub shutdown_admission: ShutdownAdmission,
    /// Whether the scheduler has a task.
    pub persistent_scheduler: bool,
    /// Whether a collection that a user started has a task.
    pub ad_hoc_collection: bool,
    /// Whether the media downloader has a worker.
    pub media_worker: bool,
    /// Whether the ordinary downloader has a worker.
    pub legacy_media_worker: bool,
    /// The long-running task.
    pub long_task: Option<u64>,
}

/// What was running when the shutdown began.
#[derive(Debug)]
pub struct ShutdownPlan {
    pub scheduler: bool,
    pub ad_hoc: bool,
    pub media: bool,
    pub legacy_media: bool,
    pub long_task: Option<u64>,
    /// The jobs whose workers have to be shut down.
    pub workers: Vec<i64>,
}

/// How the waits of a shutdown ended. What was not running is ignored.
pub struct ShutdownJoins {
    pub scheduler: JoinOutcome,
    pub ad_hoc: JoinOutcome,
    pub long_task: JoinOutcome,
    pub workers: std::result::Result<WorkerShutdownSummary, String>,
    pub media: MediaWorkerSummary,
    pub legacy_media: DownloaderWorkerSummary,
}

/// Whether everything but the task manager, the identifiers and one slot stayed as it was.
pub open spec fn same_background(a: Core, b: Core) -> bool {
    &&& a.persistent_workers == b.persistent_workers
    &&& a.shutdown_admission == b.shutdown_admission
    &&& a.persistent_scheduler == b.persistent_scheduler
    &&& a.media_worker == b.media_worker
    &&& a.legacy_media_worker == b.legacy_media_worker
}

/// The identifier after another one. Identifiers wrap around.
pub open spec fn next_id(id: u64) -> u64 {
    if id == u64::MAX {
        0
    } else {
        (id + 1) as u64
    }
}

/// Whether a task was started under an identifier, or refused because one is in progress.
pub open spec fn starts_task(
    before: TaskManager,
    after: TaskManager,
    r: Result<u64>,
    id: u64,
    task_type: TaskType,
    description: String,
    total: u64,
) -> bool {
    if task_manager::may_start(before.current()) {
        r == Ok::<u64, Error>(id) && task_manager::announces(
            before,
            after,
            task_manager::started(id, task_type, description, total),
        )
    } else {
        after == before && (r matches Err(e) && error::is_inconsistent(
            e,
            "Another task is already in progress."@,
        ))
    }
}

impl Core {
    /// The registry of workers is in order.
    pub open spec fn wf(&self) -> bool {
        self.persistent_workers.wf()
    }

    /// An engine whose ordinary downloader runs and nothing else.
    pub fn new() -> (r: Self)
        ensures
            r.wf(),
            r.next_task_id == 1,
            r.task_manager.current() is None,
            !r.task_manager.listening(),
            r.persistent_workers.slots() == Map::<i64, sync_executor::SlotView>::empty(),
            !r.persistent_workers.closing(),
            r.shutdown_admission == (ShutdownAdmission { shutting_down: false, active_writers: 0 }),
            !r.persistent_scheduler,
            !r.ad_hoc_collection,
            !r.media_worker,
            r.legacy_media_worker,
            r.long_task is None,
    {
        Core {
            next_task_id: 1,
            task_manager: TaskManager::new(),
            persistent_workers: WorkerRegistry::new(),
            shutdown_admission: ShutdownAdmission { shutting_down: false, active_writers: 0 },
            persistent_scheduler: false,
            ad_hoc_collection: false,
            media_worker: false,
            legacy_media_worker: true,
            long_task: None,
        }
    }

    /// Starts the scheduler and the media downloader. The first result tells whether a media worker
    /// has to be spawned, in place of one that has finished or where there is none; the second one
    /// whether the scheduler has to be spawned. Nothing starts during a shutdown, and a scheduler
    /// that runs is left alone.
    pub fn start_persistent_scheduler(
        &mut self,
        media_worker_finished: bool,
        options: std::result::Result<(), String>,
    ) -> (r: (bool, Result<bool>))
        ensures
            if old(self).shutdown_admission.shutting_down {
                *final(self) == *old(self) && r == (false, Ok::<bool, Error>(false))
            } else {
                &&& r.0 == (!old(self).media_worker || media_worker_finished)
                &&& if old(self).persistent_scheduler {
                    r.1 == Ok::<bool, Error>(false)
                } else {
                    match options {
                        Ok(_) => r.1 == Ok::<bool, Error>(true),
                        Err(why) => r.1 matches Err(e) && error::is_format_error(e, why@),
                    }
                }
                &&& *final(self) == (Core {
                    media_worker: true,
                    persistent_scheduler: old(self).persistent_scheduler || options is Ok,
                    ..*old(self)
                })
            },
    {
        if self.shutdown_admission.enter().is_err() {
            return (false, Ok(false));
        }
        let spawn_media = !self.media_worker || media_worker_finished;
        self.media_worker = true;
        if self.persistent_scheduler {
            return (spawn_media, Ok(false));
        }
        match options {
            Ok(_) => {
                self.persistent_scheduler = true;
                (spawn_media, Ok(true))
            },
            Err(why) => (spawn_media, Err(Error::FormatError(why))),
        }
    }

    /// Begins the shutdown: nothing is admitted any more, no worker can register, the long-running
    /// task is cancelled, and the background work is handed over to be waited for.
    pub fn begin_persistent_shutdown(&mut self) -> (r: ShutdownPlan)
        requires
            old(self).wf(),
        ensures
            final(self).wf(),
            final(self).shutdown_admission == (ShutdownAdmission {
                shutting_down: true,
                ..old(self).shutdown_admission
            }),
            final(self).next_task_id == old(self).next_task_id,
            final(self).persistent_workers.closing(),
            final(self).persistent_workers.slots() == old(self).persistent_workers.slots(),
            !final(self).persistent_scheduler,
            !final(self).ad_hoc_collection,
            !final(self).media_worker,
            !final(self).legacy_media_worker,
            final(self).long_task is None,
            r.scheduler == old(self).persistent_scheduler,
            r.ad_hoc == old(self).ad_hoc_collection,
            r.media == old(self).media_worker,
            r.legacy_media == old(self).legacy_media_worker,
            r.long_task == old(self).long_task,
            r.workers@.no_duplicates(),
            forall|job_id: i64|
                r.workers@.contains(job_id) <==> old(self).persistent_workers.slots().contains_key(job_id),
            match old(self).long_task {
                None => final(self).task_manager == old(self).task_manager,
                Some(id) => match task_manager::settled_for(
                    old(self).task_manager.current(),
                    id,
                    task_manager::TaskStatus::Cancelled,
                    None,
                ) {
                    Some(task) => task_manager::announces(
                        old(self).task_manager,
                        final(self).task_manager,
                        task,
                    ),
                    None => final(self).task_manager == old(self).task_manager,
                },
            },
    {
        self.shutdown_admission.begin_shutdown();
        let scheduler = self.persistent_scheduler;
        let ad_hoc = self.ad_hoc_collection;
        let media = self.media_worker;
        let legacy_media = self.legacy_media_worker;
        let long_task: Option<u64> = self.long_task;
        self.persistent_scheduler = false;
        self.ad_hoc_collection = false;
        self.media_worker = false;
        self.legacy_media_worker = false;
        self.long_task = None;
        let workers = self.persistent_workers.begin_shutdown();
        if let Some(id) = long_task {
            let _ = self.task_manager.cancel_for(id);
        }
        ShutdownPlan { scheduler, ad_hoc, media, legacy_media, long_task, workers }
    }

    /// Ends the shutdown: sums up what stopped, and keeps hold of what did not stop in time.
    pub fn shutdown_persistent_tasks(&mut self, plan: ShutdownPlan, joins: ShutdownJoins) -> (r:
        PersistentShutdownSummary)
        requires
            old(self).wf(),
        ensures
            final(self).wf(),
            r.scheduler == shutdown::status_of(plan.scheduler, joins.scheduler),
            r.ad_hoc == shutdown::status_of(plan.ad_hoc, joins.ad_hoc),
            r.long_task == shutdown::aborted_status_of(plan.long_task is Some, joins.long_task),
            r.database_failures@.len() == 0,
            match joins.workers {
                Ok(summary) => r.workers == summary,
                Err(why) => r.workers.workers@ == seq![
                    sync_executor::WorkerShutdownOutcome {
                        job_id: 0,
                        worker_stop: sync_executor::ControlStopResult::StopFailed(why),
                    },
                ],
            },
            r.media == if plan.media {
                joins.media
            } else {
                MediaWorkerSummary { stopped: true, join_failed: None }
            },
            r.legacy_media == if plan.legacy_media {
                joins.legacy_media
            } else {
                DownloaderWorkerSummary { stopped: true, join_failed: None }
            },
            final(self).persistent_scheduler == (old(self).persistent_scheduler || r.scheduler
                == SchedulerShutdownStatus::TimedOut),
            final(self).ad_hoc_collection == (old(self).ad_hoc_collection || r.ad_hoc
                == SchedulerShutdownStatus::TimedOut),
            final(self).legacy_media_worker == (old(self).legacy_media_worker
                || !r.legacy_media.stopped),
            final(self).long_task == if r.long_task == SchedulerShutdownStatus::TimedOut {
                plan.long_task
            } else {
                old(self).long_task
            },
            final(self).media_worker == old(self).media_worker,
            final(self).task_manager == old(self).task_manager,
            final(self).persistent_workers == old(self).persistent_workers,
            final(self).shutdown_admission == old(self).shutdown_admission,
            final(self).next_task_id == old(self).next_task_id,
            !shutdown::shutdown_degraded(r) ==> final(self).persistent_scheduler == old(self).persistent_scheduler && final(self).ad_hoc_collection == old(self).ad_hoc_collection
                && final(self).legacy_media_worker == old(self).legacy_media_worker && final(self).long_task == old(self).long_task,
    {
        let workers = shutdown::worker_summary(joins.workers);
        let scheduler = shutdown::shutdown_status(plan.scheduler, joins.scheduler);
        if scheduler == SchedulerShutdownStatus::TimedOut {
            self.persistent_scheduler = true;
        }
        let ad_hoc = shutdown::shutdown_status(plan.ad_hoc, joins.ad_hoc);
        if ad_hoc == SchedulerShutdownStatus::TimedOut {
            self.ad_hoc_collection = true;
        }
        let media = if plan.media {
            joins.media
        } else {
            MediaWorkerSummary { stopped: true, join_failed: None }
        };
        let legacy_media = if plan.legacy_media {
            joins.legacy_media
        } else {
            DownloaderWorkerSummary { stopped: true, join_failed: None }
        };
        if !legacy_media.stopped {
            self.legacy_media_worker = true;
        }
        let long_task = shutdown::aborted_status(plan.long_task.is_some(), joins.long_task);
        if long_task == SchedulerShutdownStatus::TimedOut {
            self.long_task = plan.long_task;
        }
        PersistentShutdownSummary {
            scheduler,
            ad_hoc,
            workers,
            database_failures: Vec::new(),
            media,
            legacy_media,
            long_task,
        }
    }

    /// Stops admissions for a restore, unless somebody is writing or a task is in progress.
    pub fn restore_user_backup(&mut self) -> (r: Result<()>)
        ensures
            if old(self).shutdown_admission.active_writers != 0 || !task_manager::may_start(
                old(self).task_manager.current(),
            ) {
                *final(self) == (Core {
                    shutdown_admission: ShutdownAdmission {
                        shutting_down: false,
                        ..old(self).shutdown_admission
                    },
                    ..*old(self)
                }) && (r matches Err(e) && error::is_inconsistent(
                    e,
                    "cannot restore while an ordinary task or writer is active; cancel it and wait for completion"@,
                ))
            } else {
                r is Ok && *final(self) == (Core {
                    shutdown_admission: ShutdownAdmission {
                        shutting_down: true,
                        ..old(self).shutdown_admission
                    },
                    ..*old(self)
                })
            },
    {
        self.shutdown_admission.begin_shutdown();
        if self.shutdown_admission.has_active_writers() || self.task_manager.has_active_task() {
            self.shutdown_admission.end_shutdown();
            return Err(
                error::inconsistent(
                    "cannot restore while an ordinary task or writer is active; cancel it and wait for completion",
                ),
            );
        }
        Ok(())
    }

    /// Lets a restore go on once everything has stopped, and admits work again where it has not.
    pub fn restore_after_shutdown(&mut self, summary: &PersistentShutdownSummary) -> (r: Result<()>)
        ensures
            if shutdown::shutdown_degraded(*summary) {
                *final(self) == (Core {
                    shutdown_admission: ShutdownAdmission {
                        shutting_down: false,
                        ..old(self).shutdown_admission
                    },
                    ..*old(self)
                }) && (r matches Err(e) && error::is_inconsistent(
                    e,
                    "cannot restore while persistent workers are still stopping"@,
                ))
            } else {
                r is Ok && *final(self) == *old(self)
            },
    {
        if summary.degraded() {
            self.shutdown_admission.end_shutdown();
            return Err(
                error::inconsistent("cannot restore while persistent workers are still stopping"),
            );
        }
        Ok(())
    }

    /// Starts the task of a collection. Refused during a shutdown, while an earlier collection still
    /// runs, and while another task is in progress.
    pub fn start_sidecar_collection(
        &mut self,
        earlier_finished: bool,
        task_type: TaskType,
        description: String,
    ) -> (r: Result<u64>)
        ensures
            if old(self).shutdown_admission.shutting_down {
                *final(self) == *old(self) && (r matches Err(e) && error::is_inconsistent(
                    e,
                    "core is shutting down"@,
                ))
            } else if old(self).ad_hoc_collection && !earlier_finished {
                *final(self) == *old(self) && (r matches Err(e) && error::is_inconsistent(
                    e,
                    "sidecar collection is already running"@,
                ))
            } else {
                &&& same_background(*old(self), *final(self))
                &&& final(self).long_task == old(self).long_task
                &&& final(self).next_task_id == next_id(old(self).next_task_id)
                &&& final(self).ad_hoc_collection == (r is Ok)
                &&& starts_task(
                    old(self).task_manager,
                    final(self).task_manager,
                    r,
                    old(self).next_task_id,
                    task_type,
                    description,
                    0,
                )
            },
    {
        if let Err(e) = self.shutdown_admission.enter() {
            return Err(e);
        }
        if self.ad_hoc_collection && !earlier_finished {
            return Err(error::inconsistent("sidecar collection is already running"));
        }
        self.ad_hoc_collection = false;
        let id: u64 = self.next_task_id;
        self.next_task_id = if id == u64::MAX {
            0
        } else {
            id + 1
        };
        if let Err(e) = self.task_manager.start_task(id, task_type, description, 0) {
            return Err(e);
        }
        self.ad_hoc_collection = true;
        Ok(id)
    }

    /// Starts a long-running task. Refused during a shutdown, while an earlier one still runs, and
    /// while another task is in progress.
    pub fn start_long_task(
        &mut self,
        earlier_finished: bool,
        task_type: TaskType,
        description: String,
        total: u64,
    ) -> (r: Result<u64>)
        ensures
            if old(self).shutdown_admission.shutting_down {
                *final(self) == *old(self) && (r matches Err(e) && error::is_inconsistent(
                    e,
                    "core is shutting down"@,
                ))
            } else if old(self).long_task is Some && !earlier_finished {
                *final(self) == *old(self) && (r matches Err(e) && error::is_inconsistent(
                    e,
                    "a long-running task is already running"@,
                ))
            } else {
                &&& same_background(*old(self), *final(self))
                &&& final(self).ad_hoc_collection == old(self).ad_hoc_collection
                &&& final(self).next_task_id == next_id(old(self).next_task_id)
                &&& final(self).long_task == if r is Ok {
                    Some(old(self).next_task_id)
                } else {
                    None
                }
                &&& starts_task(
                    old(self).task_manager,
                    final(self).task_manager,
                    r,
                    old(self).next_task_id,
                    task_type,
                    description,
                    total,
                )
            },
    {
        if let Err(e) = self.shutdown_admission.enter() {
            return Err(e);
        }
        if self.long_task.is_some() && !earlier_finished {
            return Err(error::inconsistent("a long-running task is already running"));
        }
        self.long_task = None;
        let id: u64 = self.next_task_id;
        self.next_task_id = if id == u64::MAX {
            0
        } else {
            id + 1
        };
        if let Err(e) = self.task_manager.start_task(id, task_type, description, total) {
            return Err(e);
        }
        self.long_task = Some(id);
        Ok(id)
    }

    /// The jobs of a disabled account whose workers have to be stopped: those that have a worker, in
    /// the order of the list.
    pub fn jobs_to_stop(&self, account_id: i64, jobs: &Vec<SyncJobDto>) -> (r: Vec<i64>)
        requires
            self.wf(),
        ensures
            r@ == workers_of_account(jobs@, account_id, self.persistent_workers.slots().dom()),
    {
        let mut r: Vec<i64> = Vec::new();
        let mut i: usize = 0;
        let ghost running = self.persistent_workers.slots().dom();
        while i < jobs.len()
            invariant
                self.wf(),
                i <= jobs@.len(),
                running == self.persistent_workers.slots().dom(),
                r@ == workers_of_account(jobs@.subrange(0, i as int), account_id, running),
            decreases jobs@.len() - i,
        {
            let ghost next = jobs@.subrange(0, i + 1);
            assert(next.drop_last() == jobs@.subrange(0, i as int));
            assert(next.last() == jobs@[i as int]);
            if jobs[i].account_id == account_id && self.persistent_workers.contains(jobs[i].id) {
                r.push(jobs[i].id);
            }
            i = i + 1;
        }
        assert(jobs@.subrange(0, i as int) == jobs@);
        r
    }
}

/// The jobs of an account that have a worker, in order.
pub open spec fn workers_of_account(
    jobs: Seq<SyncJobDto>,
    account_id: i64,
    running: Set<i64>,
) -> Seq<i64>
    decreases jobs.len(),
{
    if jobs.len() == 0 {
        Seq::empty()
    } else {
        let before = workers_of_account(jobs.drop_last(), account_id, running);
        if jobs.last().account_id == account_id && running.contains(jobs.last().id) {
            before.push(jobs.last().id)
        } else {
            before
        }
    }
}

/// The error of a restore that failed when the database was closed already.
pub fn restore_error(why: &str) -> (e: Error)
    ensures
        error::is_inconsistent(
            e,
            "restore failed after the live database pool was closed; restart required: "@ + why@,
        ),
{
    Error::InconsistentTask(
        text::join2(
            "restore failed after the live database pool was closed; restart required: ",
            why,
        ),
    )
}

/// The directory that holds the sessions, by the path of the configured session.
pub fn session_root(session_path: &str) -> (r: Result<String>)
    ensures
        match paths::parent_of(session_path@) {
            Some(root) => r matches Ok(s) && s@ == root,
            None => r matches Err(e) && error::is_format_error(
                e,
                "configured session root is invalid"@,
            ),
        },
{
    match paths::parent(session_path) {
        Some(root) => Ok(root),
        None => Err(error::format_error("configured session root is invalid")),
    }
}

/// An account as it is saved: its session must be found within the session root, its creation keeps
/// its time, and its change gets the present one.
pub fn save_account(
    account: AccountDto,
    session_path: &str,
    probe: &SessionProbe,
    now: &str,
) -> (r: Result<AccountDto>)
    ensures
        match paths::parent_of(session_path@) {
            None => r matches Err(e) && error::is_format_error(
                e,
                "configured session root is invalid"@,
            ),
            Some(_) => match sync_executor::session_fault(account.session_ref@, *probe) {
                Some(why) => r matches Err(e) && error::is_format_error(e, why),
                None => {
                    &&& r matches Ok(saved)
                    &&& saved.created_at@ == if account.created_at@.len() == 0 {
                        now@
                    } else {
                        account.created_at@
                    }
                    &&& text::opt_view(saved.updated_at) == Some(now@)
                    &&& saved == (AccountDto {
                        created_at: saved.created_at,
                        updated_at: saved.updated_at,
                        ..account
                    })
                },
            },
        },
{
    if let Err(e) = session_root(session_path) {
        return Err(e);
    }
    if let Err(e) = sync_executor::validate_account_session(&account, probe) {
        return Err(e);
    }
    let mut account = account;
    if account.created_at.as_str().is_empty() {
        account.created_at = now.to_owned();
    }
    account.updated_at = Some(now.to_owned());
    Ok(account)
}

/// Whether an account is enabled and its session is usable: its reference leads to a file within the
/// session root.
pub fn account_session_ready(account: &AccountDto, session_path: &str, probe: &SessionProbe) -> (r:
    Result<bool>)
    ensures
        match paths::parent_of(session_path@) {
            None => r matches Err(e) && error::is_format_error(
                e,
                "configured session root is invalid"@,
            ),
            Some(_) => r == Ok::<bool, Error>(
                account.enabled && sync_executor::session_fault(
                    account.session_ref@,
                    *probe,
                ) is None,
            ),
        },
{
    match session_root(session_path) {
        Err(e) => Err(e),
        Ok(_) => {
            let valid = sync_executor::validate_account_session(account, probe).is_ok();
            Ok(account.enabled && valid)
        },
    }
}

/// A monitored user as they are saved: their creation keeps its time, and their change gets the
/// present one.
pub fn save_monitored_user(user: MonitoredUserDto, now: &str) -> (r: MonitoredUserDto)
    ensures
        r.created_at@ == if user.created_at@.len() == 0 {
            now@
        } else {
            user.created_at@
        },
        text::opt_view(r.updated_at) == Some(now@),
        r == (MonitoredUserDto { created_at: r.created_at, updated_at: r.updated_at, ..user }),
{
    let mut user = user;
    if user.created_at.as_str().is_empty() {
        user.created_at = now.to_owned();
    }
    user.updated_at = Some(now.to_owned());
    user
}

/// Whether a request for the bytes of a media row can be answered at all.
pub fn get_media_blob(owner_type: &str, owner_id: i64, media_id: i64) -> (r: bool)
    ensures
        r == (media_id > 0 && owner_id > 0 && (owner_type@ == "post"@ || owner_type@ == "user"@
            || owner_type@ == "comment"@)),
{
    media_id > 0 && owner_id > 0 && (text::same_text(owner_type, "post") || text::same_text(
        owner_type,
        "user",
    ) || text::same_text(owner_type, "comment"))
}

/// How many runs of a history are read at most.
pub fn history_limit(limit: u64) -> (r: u64)
    ensures
        r == if limit <= 1000 {
            limit
        } else {
            1000
        },
{
    if limit <= 1000 {
        limit
    } else {
        1000
    }
}

/// A job that must exist.
pub fn require_sync_job(job_id: i64, job: Option<SyncJobDto>) -> (r: Result<SyncJobDto>)
    ensures
        match job {
            Some(job) => r == Ok::<SyncJobDto, Error>(job),
            None => r matches Err(e) && error::is_inconsistent(
                e,
                "sync job "@ + text::signed_decimal(job_id as int) + " not found"@,
            ),
        },
{
    match job {
        Some(job) => Ok(job),
        None => Err(
            Error::InconsistentTask(
                text::join3("sync job ", text::i64_text(job_id).as_str(), " not found"),
            ),
        ),
    }
}

/// Where the login with the service stands.
#[derive(Debug, Clone, Copy, PartialEq, Eq, Structural)]
pub enum LoginState {
    Init,
    WaitingForCode,
    LoggedIn,
}

/// Whether a login has to be sent to the service: yes when a code is awaited, no when somebody is
/// logged in already. Without a requested code a login is refused.
pub fn login(state: LoginState) -> (r: Result<bool>)
    ensures
        match state {
            LoginState::WaitingForCode => r == Ok::<bool, Error>(true),
            LoginState::LoggedIn => r == Ok::<bool, Error>(false),
            LoginState::Init => r matches Err(e) && error::is_inconsistent(
                e,
                "FATAL: wrong login state to login"@,
            ),
        },
{
    match state {
        LoginState::WaitingForCode => Ok(true),
        LoginState::LoggedIn => Ok(false),
        LoginState::Init => Err(error::inconsistent("FATAL: wrong login state to login")),
    }
}

/// The account that stands for a logged-in user: it points to the configured session.
pub fn ensure_sync_account(user: &User, session_path: &str) -> (r: Result<AccountDto>)
    ensures
        match paths::file_name_of(session_path@) {
            None => r matches Err(e) && error::is_format_error(
                e,
                "configured session path has no file name"@,
            ),
            Some(name) => {
                &&& r matches Ok(account)
                &&& account.id == 0
                &&& account.provider@ == "weibo"@
                &&& account.uid@ == text::signed_decimal(user.id as int)
                &&& account.display_name == Some(user.screen_name)
                &&& account.session_ref@ == name
                &&& account.enabled
                &&& account.created_at@.len() == 0
                &&& account.updated_at is None
            },
        },
{
    match paths::file_name(session_path) {
        None => Err(error::format_error("configured session path has no file name")),
        Some(name) => Ok(
            AccountDto {
                id: 0,
                provider: "weibo".to_owned(),
                uid: text::i64_text(user.id),
                display_name: Some(user.screen_name.clone()),
                session_ref: name,
                enabled: true,
                created_at: String::new(),
                updated_at: None,
            },
        ),
    }
}

/// What a long-running task is asked to do.
#[derive(Debug, Clone, Copy, PartialEq, Eq, Structural)]
pub enum TaskRequest {
    BackupUser,
    UnfavoritePosts,
    BackupFavorites,
    RebackupPosts,
    RebackupMissingImages,
    CleanupInvalidPictures,
    Export,
    CleanupPictures,
    CleanupOutdatedAvatars,
    CleanupInvalidPosts,
}

/// Checks that a request asks for an export.
pub fn export_posts(request: TaskRequest) -> (r: Result<(TaskType, String)>)
    ensures
        if request == TaskRequest::Export {
            r matches Ok((t, d)) && t == TaskType::Export && d@ == "导出帖子"@
        } else {
            r matches Err(e) && error::is_inconsistent(e, "Invalid task request for export_posts"@)
        },
{
    if request == TaskRequest::Export {
        Ok((TaskType::Export, "导出帖子".to_owned()))
    } else {
        Err(error::inconsistent("Invalid task request for export_posts"))
    }
}

/// Checks that a request asks for a cleanup of pictures.
pub fn cleanup_pictures(request: TaskRequest) -> (r: Result<(TaskType, String)>)
    ensures
        if request == TaskRequest::CleanupPictures {
            r matches Ok((t, d)) && t == TaskType::CleanupPictures && d@ == "清理重复图片"@
        } else {
            r matches Err(e) && error::is_inconsistent(
                e,
                "Invalid task request for cleanup_pictures"@,
            )
        },
{
    if request == TaskRequest::CleanupPictures {
        Ok((TaskType::CleanupPictures, "清理重复图片".to_owned()))
    } else {
        Err(error::inconsistent("Invalid task request for cleanup_pictures"))
    }
}

/// Checks that a request asks for a cleanup of posts.
pub fn cleanup_invalid_posts(request: TaskRequest) -> (r: Result<(TaskType, String)>)
    ensures
        if request == TaskRequest::CleanupInvalidPosts {
            r matches Ok((t, d)) && t == TaskType::CleanupInvalidPosts && d@ == "清理失效帖子"@
        } else {
            r matches Err(e) && error::is_inconsistent(
                e,
                "Invalid task request for cleanup_invalid_posts"@,
            )
        },
{
    if request == TaskRequest::CleanupInvalidPosts {
        Ok((TaskType::CleanupInvalidPosts, "清理失效帖子".to_owned()))
    } else {
        Err(error::inconsistent("Invalid task request for cleanup_invalid_posts"))
    }
}

/// A task that is in progress is not disturbed by anything that asks to start.
pub proof fn running_task_is_not_replaced(
    before: TaskManager,
    after: TaskManager,
    r: Result<u64>,
    id: u64,
    task_type: TaskType,
    description: String,
    total: u64,
)
    requires
        !task_manager::may_start(before.current()),
        starts_task(before, after, r, id, task_type, description, total),
    ensures
        r is Err,
        after == before,
{
}

} // verus!
