//! The service: what the engine admits, how it shuts down, and what it reports.
use vstd::prelude::*;

use crate::config::{
    config_file_candidates, find_config_file, get_config, init, init_default, save_config,
    save_path, Config, ConfigCell,
};
use crate::error::{Error, Result};
use crate::json;
use crate::json::{Json, JsonView, NumberView};
use crate::laws::media::faulted;
use crate::laws::tasks::{refused, runs};
use crate::models::user::User;
use crate::paths;
use crate::service::collection::{
    bounded_max_pages, collect_comment_replies, collect_comments, collect_user_posts,
    fail_collection_task, finish_collection_task, handle_task_request, handshake_failure,
    publish_collection_progress, CollectionStart,
};
use crate::service::diagnostics;
use crate::service::diagnostics::{get_sync_diagnostics, RateLimitGateDto, SidecarProbe};
use crate::service::engine;
use crate::service::engine::{
    account_session_ready, cleanup_invalid_posts, cleanup_pictures, ensure_sync_account,
    export_posts, get_media_blob, history_limit, login, require_sync_job, restore_error,
    save_account, session_root, Core, LoginState, ShutdownJoins, ShutdownPlan, TaskRequest,
};
use crate::service::shutdown::{
    aborted_status, shutdown_status, shutdown_wait_ms, worker_summary, JoinOutcome,
    PersistentShutdownSummary, SchedulerShutdownStatus, ShutdownAdmission,
};
use crate::service::task_manager::{Task, TaskManager, TaskStatus, TaskType};
use crate::sidecar::collector::{CollectionStatus, CollectionSummary};
use crate::sidecar::protocol::CommandType;
use crate::sidecar::supervisor::SidecarError;
use crate::storage::internal::entities::{AccountDto, MonitoredUserDto, SyncJobDto};
use crate::sync_executor::{
    validate_account_session, ControlStopResult, SessionProbe, WorkerRegistry,
    WorkerShutdownSummary,
};
use crate::text;

verus! {

/// Once a shutdown has begun nothing is admitted, neither work nor a writer, until it is taken back.
pub proof fn shutdowns_admit_nothing(
    admission: &mut ShutdownAdmission,
    writing: &mut ShutdownAdmission,
    ended: &mut ShutdownAdmission,
    r: Result<()>,
    w: Result<()>,
    again: Result<()>,
)
    requires
        call_ensures(ShutdownAdmission::begin_shutdown, (admission,), ()),
        call_ensures(ShutdownAdmission::enter, (&*final(admission),), r),
        *old(writing) == *final(admission),
        call_ensures(ShutdownAdmission::begin_write, (writing,), w),
        *old(ended) == *final(writing),
        call_ensures(ShutdownAdmission::end_shutdown, (ended,), ()),
        call_ensures(ShutdownAdmission::enter, (&*final(ended),), again),
    ensures
        refused(r, "core is shutting down"@),
        refused(w, "core is shutting down"@),
        *final(writing) == *final(admission),
        again is Ok,
        final(ended).active_writers == old(admission).active_writers,
{
}

/// A writer who was admitted is counted until they leave.
pub proof fn writers_are_counted(
    admission: &mut ShutdownAdmission,
    leaving: &mut ShutdownAdmission,
    r: Result<()>,
    busy: bool,
    before: bool,
    after: bool,
)
    requires
        !old(admission).shutting_down,
        old(admission).active_writers < u64::MAX,
        call_ensures(ShutdownAdmission::has_active_writers, (&*old(admission),), before),
        call_ensures(ShutdownAdmission::begin_write, (admission,), r),
        call_ensures(ShutdownAdmission::has_active_writers, (&*final(admission),), busy),
        *old(leaving) == *final(admission),
        call_ensures(ShutdownAdmission::end_write, (leaving,), ()),
        call_ensures(ShutdownAdmission::has_active_writers, (&*final(leaving),), after),
    ensures
        r is Ok,
        busy,
        after == before,
        *final(leaving) == *old(admission),
{
}

/// How a background task was shut down: as its wait ended. A long-running one was aborted, so that
/// any end of it is a stop; what was not running is not running.
pub proof fn background_tasks_end_as_their_wait(
    join: JoinOutcome,
    idle: SchedulerShutdownStatus,
    r: SchedulerShutdownStatus,
    aborted_idle: SchedulerShutdownStatus,
    aborted: SchedulerShutdownStatus,
)
    requires
        call_ensures(shutdown_status, (false, join), idle),
        call_ensures(shutdown_status, (true, join), r),
        call_ensures(aborted_status, (false, join), aborted_idle),
        call_ensures(aborted_status, (true, join), aborted),
    ensures
        idle == SchedulerShutdownStatus::NotRunning,
        aborted_idle == SchedulerShutdownStatus::NotRunning,
        r == SchedulerShutdownStatus::Stopped <==> join == JoinOutcome::Finished,
        r == SchedulerShutdownStatus::JoinFailed <==> join == JoinOutcome::Failed,
        r == SchedulerShutdownStatus::TimedOut <==> join == JoinOutcome::TimedOut,
        aborted == SchedulerShutdownStatus::TimedOut <==> join == JoinOutcome::TimedOut,
        aborted == SchedulerShutdownStatus::Stopped <==> join != JoinOutcome::TimedOut,
{
}

/// A shutdown is given a handshake and three seconds at least, and more where more is given.
pub proof fn shutdowns_outlast_a_handshake(a: u64, b: u64, r: u64, s: u64)
    requires
        a <= b,
        call_ensures(shutdown_wait_ms, (a,), r),
        call_ensures(shutdown_wait_ms, (b,), s),
    ensures
        13_000 <= r <= s,
        a >= 13_000 ==> r == a,
        a <= 13_000 ==> r == 13_000,
{
}

/// When the shutdown of the workers itself failed, the reason is what is known of them.
pub proof fn failed_shutdowns_are_reported(
    why: String,
    summary: WorkerShutdownSummary,
    f: WorkerShutdownSummary,
    r: WorkerShutdownSummary,
    degraded: bool,
)
    requires
        call_ensures(worker_summary, (Err(why),), f),
        call_ensures(worker_summary, (Ok(summary),), r),
        call_ensures(WorkerShutdownSummary::degraded, (&f,), degraded),
    ensures
        r == summary,
        f.workers@.len() == 1 && f.workers@[0].job_id == 0 && f.workers@[0].worker_stop
            == ControlStopResult::StopFailed(why),
        degraded,
{
}

/// Whether a background task may still be running.
pub open spec fn may_linger(status: SchedulerShutdownStatus) -> bool {
    status == SchedulerShutdownStatus::TimedOut || status == SchedulerShutdownStatus::JoinFailed
}

/// A shutdown is complete exactly if nothing lingers: no background task, no worker, no downloader,
/// and no record is left behind.
pub proof fn complete_shutdowns_leave_nothing(
    s: PersistentShutdownSummary,
    workers: bool,
    r: bool,
)
    requires
        call_ensures(WorkerShutdownSummary::degraded, (&s.workers,), workers),
        call_ensures(PersistentShutdownSummary::degraded, (&s,), r),
    ensures
        !r <==> !may_linger(s.scheduler) && !may_linger(s.ad_hoc) && !may_linger(s.long_task)
            && !workers && s.database_failures@.len() == 0 && s.media.stopped
            && s.legacy_media.stopped,
{
}

/// A new engine has no task, admits work, and runs its ordinary downloader only; its first task has
/// the number one.
pub proof fn new_engines_are_idle(
    core: Core,
    current: Result<Option<Task>>,
    entered: Result<()>,
    started: &mut Core,
    task_type: TaskType,
    description: String,
    first: Result<u64>,
)
    requires
        call_ensures(Core::new, (), core),
        call_ensures(TaskManager::get_current, (&core.task_manager,), current),
        call_ensures(ShutdownAdmission::enter, (&core.shutdown_admission,), entered),
        *old(started) == core,
        call_ensures(
            Core::start_sidecar_collection,
            (started, false, task_type, description),
            first,
        ),
    ensures
        current matches Ok(None),
        entered is Ok,
        !core.persistent_scheduler && !core.ad_hoc_collection && !core.media_worker
            && core.legacy_media_worker && core.long_task is None
            && core.shutdown_admission.active_writers == 0,
        first == Ok::<u64, Error>(1),
{
}

/// The scheduler starts once: the second start leaves it alone. Nothing starts during a shutdown,
/// and a scheduler without options does not start.
pub proof fn schedulers_start_once(
    core: &mut Core,
    again: &mut Core,
    finished: bool,
    options: std::result::Result<(), String>,
    r: (bool, Result<bool>),
    s: (bool, Result<bool>),
)
    requires
        call_ensures(Core::start_persistent_scheduler, (core, finished, options), r),
        *old(again) == *final(core),
        call_ensures(Core::start_persistent_scheduler, (again, false, options), s),
    ensures
        old(core).shutdown_admission.shutting_down ==> r == (false, Ok::<bool, Error>(false))
            && *final(core) == *old(core),
        !old(core).shutdown_admission.shutting_down ==> final(core).media_worker && (r.0
            <==> !old(core).media_worker || finished) && !s.0,
        !old(core).shutdown_admission.shutting_down && !old(core).persistent_scheduler
            && options is Ok ==> r.1 == Ok::<bool, Error>(true) && final(core).persistent_scheduler
            && s.1 == Ok::<bool, Error>(false),
        !old(core).shutdown_admission.shutting_down && !old(core).persistent_scheduler
            && options is Err ==> faulted(r.1, options->Err_0@)
            && !final(core).persistent_scheduler,
        !old(core).shutdown_admission.shutting_down && old(core).persistent_scheduler ==> r.1
            == Ok::<bool, Error>(false) && final(core).persistent_scheduler,
        final(core).shutdown_admission == old(core).shutdown_admission,
        final(core).long_task == old(core).long_task,
        final(core).ad_hoc_collection == old(core).ad_hoc_collection,
{
}

/// A shutdown takes hold of everything that runs, and of every worker; after it nothing runs and
/// nothing is admitted, and what was running is told.
pub proof fn shutdowns_take_hold_of_everything(
    core: &mut Core,
    job_id: i64,
    held: bool,
    plan: ShutdownPlan,
    entered: Result<()>,
    closing: bool,
)
    requires
        old(core).wf(),
        call_ensures(WorkerRegistry::contains, (&old(core).persistent_workers, job_id), held),
        call_ensures(Core::begin_persistent_shutdown, (core,), plan),
        call_ensures(ShutdownAdmission::enter, (&final(core).shutdown_admission,), entered),
        call_ensures(WorkerRegistry::is_shutting_down, (&final(core).persistent_workers,), closing),
    ensures
        entered is Err,
        closing,
        plan.scheduler == old(core).persistent_scheduler,
        plan.ad_hoc == old(core).ad_hoc_collection,
        plan.media == old(core).media_worker,
        plan.legacy_media == old(core).legacy_media_worker,
        plan.long_task == old(core).long_task,
        held <==> plan.workers@.contains(job_id),
        !final(core).persistent_scheduler && !final(core).ad_hoc_collection
            && !final(core).media_worker && !final(core).legacy_media_worker
            && final(core).long_task is None,
        final(core).next_task_id == old(core).next_task_id,
{
}

/// A shutdown cancels the long-running task, if it is in progress, and no other task.
pub proof fn shutdowns_cancel_the_long_task(
    core: &mut Core,
    plan: ShutdownPlan,
    before: Result<Option<Task>>,
    after: Result<Option<Task>>,
)
    requires
        call_ensures(TaskManager::get_current, (&old(core).task_manager,), before),
        call_ensures(Core::begin_persistent_shutdown, (core,), plan),
        call_ensures(TaskManager::get_current, (&final(core).task_manager,), after),
    ensures
        (before matches Ok(Some(t)) && old(core).long_task == Some(t.id) && t.status
            == TaskStatus::InProgress) ==> (after matches Ok(Some(u)) && u.status
            == TaskStatus::Cancelled && Some(u.id) == old(core).long_task),
        !(before matches Ok(Some(t)) && old(core).long_task == Some(t.id) && t.status
            == TaskStatus::InProgress) ==> after == before,
{
}

/// What a shutdown could not stop in time is kept hold of, and only that; the summary says of each
/// part how it ended, and of what was not running that it had stopped.
pub proof fn lingering_work_is_kept_hold_of(
    core: &mut Core,
    plan: ShutdownPlan,
    joins: ShutdownJoins,
    r: PersistentShutdownSummary,
    scheduler: SchedulerShutdownStatus,
    ad_hoc: SchedulerShutdownStatus,
    long_task: SchedulerShutdownStatus,
)
    requires
        !old(core).persistent_scheduler && !old(core).ad_hoc_collection
            && !old(core).legacy_media_worker && old(core).long_task is None,
        call_ensures(Core::shutdown_persistent_tasks, (core, plan, joins), r),
        call_ensures(shutdown_status, (plan.scheduler, joins.scheduler), scheduler),
        call_ensures(shutdown_status, (plan.ad_hoc, joins.ad_hoc), ad_hoc),
        call_ensures(aborted_status, (plan.long_task is Some, joins.long_task), long_task),
    ensures
        r.scheduler == scheduler && r.ad_hoc == ad_hoc && r.long_task == long_task,
        final(core).persistent_scheduler <==> plan.scheduler && joins.scheduler
            == JoinOutcome::TimedOut,
        final(core).ad_hoc_collection <==> plan.ad_hoc && joins.ad_hoc == JoinOutcome::TimedOut,
        plan.long_task is Some && joins.long_task == JoinOutcome::TimedOut ==> final(core).long_task
            == plan.long_task,
        plan.long_task is None || joins.long_task != JoinOutcome::TimedOut ==> final(core).long_task is None,
        plan.media ==> r.media == joins.media,
        !plan.media ==> r.media.stopped && r.media.join_failed is None,
        plan.legacy_media ==> r.legacy_media == joins.legacy_media,
        !plan.legacy_media ==> r.legacy_media.stopped && r.legacy_media.join_failed is None,
        final(core).legacy_media_worker <==> plan.legacy_media && !joins.legacy_media.stopped,
        joins.workers matches Ok(w) ==> r.workers == w,
        joins.workers matches Err(why) ==> r.workers.workers@.len() == 1
            && r.workers.workers@[0].job_id == 0 && r.workers.workers@[0].worker_stop
            == ControlStopResult::StopFailed(why),
        r.database_failures@.len() == 0,
        final(core).shutdown_admission == old(core).shutdown_admission,
{
}

/// A restore begins only while nobody writes and no task is in progress; otherwise work is admitted
/// as before.
pub proof fn restores_wait_for_writers_and_tasks(
    core: &mut Core,
    writing: bool,
    active: bool,
    r: Result<()>,
    entered: Result<()>,
)
    requires
        call_ensures(
            ShutdownAdmission::has_active_writers,
            (&old(core).shutdown_admission,),
            writing,
        ),
        call_ensures(TaskManager::has_active_task, (&old(core).task_manager,), active),
        call_ensures(Core::restore_user_backup, (core,), r),
        call_ensures(ShutdownAdmission::enter, (&final(core).shutdown_admission,), entered),
    ensures
        r is Ok <==> !writing && !active,
        r is Ok ==> entered is Err,
        r is Err ==> entered is Ok,
        final(core).task_manager == old(core).task_manager,
        final(core).shutdown_admission.active_writers == old(core).shutdown_admission.active_writers,
{
}

/// A restore goes on only after a complete shutdown; after any other one work is admitted again.
pub proof fn restores_need_a_complete_shutdown(
    core: &mut Core,
    summary: PersistentShutdownSummary,
    degraded: bool,
    r: Result<()>,
    entered: Result<()>,
    why: &str,
    closed: Error,
)
    requires
        call_ensures(PersistentShutdownSummary::degraded, (&summary,), degraded),
        call_ensures(Core::restore_after_shutdown, (core, &summary), r),
        call_ensures(ShutdownAdmission::enter, (&final(core).shutdown_admission,), entered),
        call_ensures(restore_error, (why,), closed),
    ensures
        r is Ok <==> !degraded,
        r is Ok ==> *final(core) == *old(core),
        r is Err ==> entered is Ok,
        closed matches Error::InconsistentTask(m) && m@
            == "restore failed after the live database pool was closed; restart required: "@ + why@,
{
}

/// One collection at a time: a second one is refused while the first one runs, and the first one has
/// the task with the next number. Nothing starts during a shutdown or beside another task.
pub proof fn collections_run_one_at_a_time(
    core: &mut Core,
    again: &mut Core,
    finished: bool,
    task_type: TaskType,
    description: String,
    before: Result<Option<Task>>,
    r: Result<u64>,
    after: Result<Option<Task>>,
    s: Result<u64>,
)
    requires
        call_ensures(TaskManager::get_current, (&old(core).task_manager,), before),
        call_ensures(Core::start_sidecar_collection, (core, finished, task_type, description), r),
        call_ensures(TaskManager::get_current, (&final(core).task_manager,), after),
        *old(again) == *final(core),
        call_ensures(Core::start_sidecar_collection, (again, false, task_type, description), s),
    ensures
        r is Ok <==> !old(core).shutdown_admission.shutting_down && (!old(core).ad_hoc_collection
            || finished) && !runs(before),
        r matches Ok(id) ==> id == old(core).next_task_id && final(core).ad_hoc_collection && (
        after matches Ok(Some(t)) && t.id == id && t.task_type == task_type && t.description
            == description && t.status == TaskStatus::InProgress && t.progress == 0 && t.total
            == 0) && (old(core).next_task_id < u64::MAX ==> final(core).next_task_id == id + 1),
        r is Err ==> after == before,
        r is Ok ==> s is Err,
        final(core).long_task == old(core).long_task,
        final(core).shutdown_admission == old(core).shutdown_admission,
        final(core).persistent_scheduler == old(core).persistent_scheduler,
{
}

/// One long-running task at a time: a second one is refused while the first one runs, and the first
/// one is known by its number. Nothing starts during a shutdown or beside another task.
pub proof fn long_tasks_run_one_at_a_time(
    core: &mut Core,
    again: &mut Core,
    finished: bool,
    task_type: TaskType,
    description: String,
    total: u64,
    before: Result<Option<Task>>,
    r: Result<u64>,
    after: Result<Option<Task>>,
    s: Result<u64>,
)
    requires
        call_ensures(TaskManager::get_current, (&old(core).task_manager,), before),
        call_ensures(Core::start_long_task, (core, finished, task_type, description, total), r),
        call_ensures(TaskManager::get_current, (&final(core).task_manager,), after),
        *old(again) == *final(core),
        call_ensures(Core::start_long_task, (again, false, task_type, description, total), s),
    ensures
        r is Ok <==> !old(core).shutdown_admission.shutting_down && (old(core).long_task is None
            || finished) && !runs(before),
        r matches Ok(id) ==> id == old(core).next_task_id && final(core).long_task == Some(id) && (
        after matches Ok(Some(t)) && t.id == id && t.task_type == task_type && t.description
            == description && t.status == TaskStatus::InProgress && t.progress == 0 && t.total
            == total) && (old(core).next_task_id < u64::MAX ==> final(core).next_task_id == id
            + 1),
        r is Err ==> after == before,
        r is Ok ==> s is Err,
        final(core).ad_hoc_collection == old(core).ad_hoc_collection,
        final(core).shutdown_admission == old(core).shutdown_admission,
{
}

/// Whether a job with the given number is among the jobs of an account.
pub open spec fn has_job(jobs: Seq<SyncJobDto>, account_id: i64, id: i64) -> bool {
    exists|i: int|
        0 <= i < jobs.len() && (#[trigger] jobs[i]).id == id && jobs[i].account_id == account_id
}

proof fn lemma_workers(jobs: Seq<SyncJobDto>, account_id: i64, running: Set<i64>, id: i64)
    ensures
        engine::workers_of_account(jobs, account_id, running).contains(id) <==> (running.contains(
            id,
        ) && has_job(jobs, account_id, id)),
    decreases jobs.len(),
{
    if jobs.len() > 0 {
        let before = jobs.drop_last();
        lemma_workers(before, account_id, running, id);
        let shorter = engine::workers_of_account(before, account_id, running);
        let whole = engine::workers_of_account(jobs, account_id, running);
        let n = jobs.len() - 1;
        if has_job(before, account_id, id) {
            let i = choose|i: int|
                0 <= i < before.len() && (#[trigger] before[i]).id == id && before[i].account_id
                    == account_id;
            assert(jobs[i].id == id && jobs[i].account_id == account_id);
        }
        if has_job(jobs, account_id, id) && !has_job(before, account_id, id) {
            let i = choose|i: int|
                0 <= i < jobs.len() && (#[trigger] jobs[i]).id == id && jobs[i].account_id
                    == account_id;
            if i < n {
                assert(before[i].id == id && before[i].account_id == account_id);
            }
            assert(i == n);
        }
        if shorter.contains(id) {
            let k = choose|k: int| 0 <= k < shorter.len() && shorter[k] == id;
            assert(whole[k] == id);
        }
        if whole.contains(id) && !shorter.contains(id) {
            let k = choose|k: int| 0 <= k < whole.len() && whole[k] == id;
            if k < shorter.len() {
                assert(shorter[k] == id);
            }
            assert(jobs[n].id == id && jobs[n].account_id == account_id);
        }
        if jobs[n].id == id && jobs[n].account_id == account_id && running.contains(id) {
            assert(whole[whole.len() - 1] == id);
        }
    }
}

/// When an account is disabled, the workers of its own jobs are stopped: all of them, and no other.
pub proof fn disabled_accounts_lose_their_workers(
    core: Core,
    account_id: i64,
    jobs: Vec<SyncJobDto>,
    job: int,
    held: bool,
    r: Vec<i64>,
)
    requires
        core.wf(),
        0 <= job < jobs@.len(),
        call_ensures(WorkerRegistry::contains, (&core.persistent_workers, jobs@[job].id), held),
        call_ensures(Core::jobs_to_stop, (&core, account_id, &jobs), r),
    ensures
        jobs@[job].account_id == account_id && held ==> r@.contains(jobs@[job].id),
        !held ==> !r@.contains(jobs@[job].id),
        (forall|i: int|
            0 <= i < jobs@.len() && (#[trigger] jobs@[i]).id == jobs@[job].id
                ==> jobs@[i].account_id != account_id) ==> !r@.contains(jobs@[job].id),
{
    lemma_workers(
        jobs@,
        account_id,
        core.persistent_workers.slots().dom(),
        jobs@[job].id,
    );
}

/// The sessions lie in the directory of the configured one; an account is saved only with a usable
/// session, keeps the time of its creation, and gets the present one for its change.
pub proof fn saved_accounts_have_a_session(
    account: AccountDto,
    session_path: &str,
    probe: SessionProbe,
    now: &str,
    root: Option<String>,
    found: Result<String>,
    v: Result<()>,
    r: Result<AccountDto>,
    ready: Result<bool>,
)
    requires
        call_ensures(paths::parent, (session_path,), root),
        call_ensures(session_root, (session_path,), found),
        call_ensures(validate_account_session, (&account, &probe), v),
        call_ensures(save_account, (account, session_path, &probe, now), r),
        call_ensures(account_session_ready, (&account, session_path, &probe), ready),
    ensures
        root matches Some(d) ==> (found matches Ok(f) && f@ == d@),
        root is None ==> faulted(found, "configured session root is invalid"@) && r is Err
            && ready is Err,
        root is Some ==> (r is Ok <==> v is Ok) && (ready matches Ok(b) && (b <==> account.enabled
            && v is Ok)),
        r matches Ok(a) ==> a.id == account.id && a.provider == account.provider && a.uid
            == account.uid && a.display_name == account.display_name && a.session_ref
            == account.session_ref && a.enabled == account.enabled && (a.updated_at matches Some(t)
            && t@ == now@),
        r matches Ok(a) ==> account.created_at@.len() > 0 ==> a.created_at@ == account.created_at@,
        r matches Ok(a) ==> account.created_at@.len() == 0 ==> a.created_at@ == now@,
{
}

/// A monitored user who is saved keeps the time of their creation, and gets the present one for the
/// change; saving them again changes that time only.
pub proof fn saved_users_keep_the_time_of_their_creation(
    user: MonitoredUserDto,
    now: &str,
    later: &str,
    r: MonitoredUserDto,
    s: MonitoredUserDto,
)
    requires
        now@.len() > 0,
        call_ensures(engine::save_monitored_user, (user, now), r),
        call_ensures(engine::save_monitored_user, (r, later), s),
    ensures
        user.created_at@.len() > 0 ==> r.created_at@ == user.created_at@,
        user.created_at@.len() == 0 ==> r.created_at@ == now@,
        r.updated_at matches Some(t) && t@ == now@,
        s.created_at@ == r.created_at@,
        s.updated_at matches Some(t) && t@ == later@,
        r.account_id == user.account_id && r.uid == user.uid && r.screen_name == user.screen_name
            && r.enabled == user.enabled && r.tier == user.tier && r.interval_secs
            == user.interval_secs && r.jitter_secs == user.jitter_secs && r.next_refresh_epoch
            == user.next_refresh_epoch && r.last_refresh_epoch == user.last_refresh_epoch,
{
}

/// Only posts, users and comments own media, and only what is identified can be asked for. A
/// history is read up to a thousand runs.
pub proof fn requests_are_bounded(
    owner_type: &str,
    owner_id: i64,
    media_id: i64,
    limit: u64,
    b: bool,
    h: u64,
)
    requires
        call_ensures(get_media_blob, (owner_type, owner_id, media_id), b),
        call_ensures(history_limit, (limit,), h),
    ensures
        b <==> owner_id >= 1 && media_id >= 1 && (owner_type@ == "post"@ || owner_type@ == "user"@
            || owner_type@ == "comment"@),
        h <= 1000 && h <= limit,
        limit <= 1000 ==> h == limit,
        limit >= 1000 ==> h == 1000,
{
}

/// A job that is there is handed out; of one that is not, its number is told.
pub proof fn missing_jobs_are_named(
    job_id: i64,
    job: SyncJobDto,
    number: String,
    r: Result<SyncJobDto>,
    n: Result<SyncJobDto>,
)
    requires
        call_ensures(text::i64_text, (job_id,), number),
        call_ensures(require_sync_job, (job_id, Some(job)), r),
        call_ensures(require_sync_job, (job_id, None), n),
    ensures
        r == Ok::<SyncJobDto, Error>(job),
        n matches Err(Error::InconsistentTask(m)) && m@ == "sync job "@ + number@ + " not found"@,
{
}

/// A login is sent only while a code is awaited, is not needed by who is logged in, and is refused
/// before a code was asked for.
pub proof fn logins_need_a_code(waiting: Result<bool>, done: Result<bool>, early: Result<bool>)
    requires
        call_ensures(login, (LoginState::WaitingForCode,), waiting),
        call_ensures(login, (LoginState::LoggedIn,), done),
        call_ensures(login, (LoginState::Init,), early),
    ensures
        waiting == Ok::<bool, Error>(true),
        done == Ok::<bool, Error>(false),
        early matches Err(Error::InconsistentTask(m)) && m@
            == "FATAL: wrong login state to login"@,
{
}

/// The account of who is logged in is theirs: their number, their name and the file of the configured
/// session.
pub proof fn logged_in_users_have_an_account(
    user: User,
    session_path: &str,
    name: Option<String>,
    number: String,
    r: Result<AccountDto>,
)
    requires
        call_ensures(paths::file_name, (session_path,), name),
        call_ensures(text::i64_text, (user.id,), number),
        call_ensures(ensure_sync_account, (&user, session_path), r),
    ensures
        r is Ok <==> name is Some,
        r is Err ==> faulted(r, "configured session path has no file name"@),
        r matches Ok(a) ==> a.id == 0 && a.provider@ == "weibo"@ && a.uid@ == number@
            && a.display_name == Some(user.screen_name) && a.session_ref@ == name->Some_0@
            && a.enabled && a.created_at@.len() == 0 && a.updated_at is None,
{
}

/// Each long-running operation takes its own request and no other.
pub proof fn operations_take_their_own_request(
    request: TaskRequest,
    e: Result<(TaskType, String)>,
    p: Result<(TaskType, String)>,
    i: Result<(TaskType, String)>,
)
    requires
        call_ensures(export_posts, (request,), e),
        call_ensures(cleanup_pictures, (request,), p),
        call_ensures(cleanup_invalid_posts, (request,), i),
    ensures
        e is Ok <==> request == TaskRequest::Export,
        p is Ok <==> request == TaskRequest::CleanupPictures,
        i is Ok <==> request == TaskRequest::CleanupInvalidPosts,
        e matches Ok((t, _)) ==> t == TaskType::Export,
        p matches Ok((t, _)) ==> t == TaskType::CleanupPictures,
        i matches Ok((t, _)) ==> t == TaskType::CleanupInvalidPosts,
{
}

/// A collection asks for at least one page and for a thousand at most.
pub proof fn pages_are_bounded(a: u32, b: u32, r: u32, s: u32)
    requires
        a <= b,
        call_ensures(bounded_max_pages, (a,), r),
        call_ensures(bounded_max_pages, (b,), s),
    ensures
        1 <= r <= s <= 1000,
        1 <= a <= 1000 ==> r == a,
{
}

/// Whether a request asks for so many pages.
pub open spec fn asks_pages(payload: JsonView, pages: u32) -> bool {
    json::field(payload, "max_pages"@) == Some(
        JsonView::Number(NumberView::Integer(pages as int)),
    )
}

/// A collection asks for what the user named, under its own command and on a stream of its own.
pub proof fn collections_ask_for_what_was_named(
    uid: i64,
    post: i64,
    root: i64,
    max_pages: u32,
    pages: u32,
    user_text: String,
    post_text: String,
    root_text: String,
    p: CollectionStart,
    c: CollectionStart,
    r: CollectionStart,
)
    requires
        call_ensures(bounded_max_pages, (max_pages,), pages),
        call_ensures(text::i64_text, (uid,), user_text),
        call_ensures(text::i64_text, (post,), post_text),
        call_ensures(text::i64_text, (root,), root_text),
        call_ensures(collect_user_posts, (uid, max_pages), p),
        call_ensures(collect_comments, (post, max_pages), c),
        call_ensures(collect_comment_replies, (post, root, max_pages), r),
    ensures
        p.task_type == TaskType::CollectUserPosts && p.request.command_type
            == CommandType::CollectUserPosts,
        c.task_type == TaskType::CollectComments && c.request.command_type
            == CommandType::CollectComments,
        r.task_type == TaskType::CollectCommentReplies && r.request.command_type
            == CommandType::CollectCommentReplies,
        p.request.stream@ == "user:"@ + user_text@ + ":posts"@,
        c.request.stream@ == "post:"@ + post_text@ + ":comments"@,
        r.request.stream@ == "post:"@ + post_text@ + ":comment:"@ + root_text@ + ":replies"@,
        json::field(p.request.payload@, "uid"@) == Some(JsonView::Text(user_text@)),
        json::field(c.request.payload@, "post_id"@) == Some(JsonView::Text(post_text@)),
        json::field(r.request.payload@, "post_id"@) == Some(JsonView::Text(post_text@)),
        json::field(r.request.payload@, "root_comment_id"@) == Some(JsonView::Text(root_text@)),
        asks_pages(p.request.payload@, pages) && asks_pages(c.request.payload@, pages)
            && asks_pages(r.request.payload@, pages),
{
    reveal_strlit("uid");
    reveal_strlit("post_id");
    reveal_strlit("root_comment_id");
    reveal_strlit("max_pages");
    assert("uid"@.len() == 3);
    assert("post_id"@.len() == 7);
    assert("root_comment_id"@.len() == 15);
    assert("max_pages"@.len() == 9);
}

/// The task of a collection ends as the collection did: completed, paused, cancelled where it was
/// stopped, interrupted where it can go on later, and failed with its message. A task that is not the
/// active one stays as it is.
pub proof fn tasks_end_as_their_collection(
    manager: &mut TaskManager,
    task_id: u64,
    status: CollectionStatus,
    message: Option<String>,
    before: Result<Option<Task>>,
    r: Result<()>,
    after: Result<Option<Task>>,
)
    requires
        call_ensures(TaskManager::get_current, (&*old(manager),), before),
        call_ensures(finish_collection_task, (manager, task_id, status, message), r),
        call_ensures(TaskManager::get_current, (&*final(manager),), after),
    ensures
        r is Ok <==> (before matches Ok(Some(t)) && t.id == task_id && t.status
            == TaskStatus::InProgress),
        r is Err ==> after == before,
        r is Ok ==> (before matches Ok(Some(t)) && (after matches Ok(Some(u)) && u.id == t.id
            && u.task_type == t.task_type && u.description == t.description && u.progress
            == t.progress && u.total == t.total && ({
            &&& status == CollectionStatus::Completed <==> u.status == TaskStatus::Completed
            &&& status == CollectionStatus::Paused <==> u.status == TaskStatus::Paused
            &&& status == CollectionStatus::Failed <==> u.status == TaskStatus::Failed
            &&& (status == CollectionStatus::Stopped || status == CollectionStatus::Cancelled)
                <==> u.status == TaskStatus::Cancelled
            &&& (status == CollectionStatus::RateLimited || status == CollectionStatus::Interrupted
                || status == CollectionStatus::Shutdown) <==> u.status == TaskStatus::Interrupted
            &&& status != CollectionStatus::Failed ==> u.error is None
            &&& status == CollectionStatus::Failed ==> (u.error matches Some(e) && (
            message matches Some(m) ==> e@ == m@) && (message is None ==> e@
                == "sidecar collection failed"@))
        }))),
{
}

/// The progress and the failure of a collection reach its own task only.
pub proof fn collections_report_to_their_task(
    manager: &mut TaskManager,
    failing: &mut TaskManager,
    task_id: u64,
    committed: u64,
    total: u64,
    message: String,
    before: Result<Option<Task>>,
    r: Result<()>,
    after: Result<Option<Task>>,
    f: Result<()>,
    failed: Result<Option<Task>>,
)
    requires
        call_ensures(TaskManager::get_current, (&*old(manager),), before),
        call_ensures(publish_collection_progress, (manager, task_id, committed, total), r),
        call_ensures(TaskManager::get_current, (&*final(manager),), after),
        *old(failing) == *final(manager),
        call_ensures(fail_collection_task, (failing, task_id, message), f),
        call_ensures(TaskManager::get_current, (&*final(failing),), failed),
    ensures
        r is Ok <==> (before matches Ok(Some(t)) && t.id == task_id && t.status
            == TaskStatus::InProgress),
        r is Err ==> after == before && f is Err && failed == before,
        r is Ok ==> (after matches Ok(Some(u)) && u.id == task_id && u.progress == committed
            && u.total == total && u.status == TaskStatus::InProgress),
        r is Ok ==> f is Ok && (failed matches Ok(Some(u)) && u.id == task_id && u.progress
            == committed && u.total == total && u.status == TaskStatus::Failed && u.error == Some(
            message,
        )),
{
}

/// A greeting that was cancelled ends its collection as a shutdown; any other failure of it is told
/// as it reads.
pub proof fn cancelled_greetings_are_shutdowns(
    error: SidecarError,
    words: String,
    c: Result<CollectionSummary>,
    r: Result<CollectionSummary>,
)
    requires
        !(error is HandshakeCancelled),
        call_ensures(SidecarError::message, (&error,), words),
        call_ensures(handshake_failure, (&SidecarError::HandshakeCancelled,), c),
        call_ensures(handshake_failure, (&error,), r),
    ensures
        c matches Ok(s) && s.status == CollectionStatus::Shutdown && s.fetched_count == 0 && s.pages
            == 0 && s.rate_limit is None && (s.error matches Some(e) && e@
            == "application shutdown during sidecar handshake"@),
        faulted(r, words@),
{
}

/// A long-running request completes its task, or fails it with the reason.
pub proof fn requests_settle_their_task(
    manager: &mut TaskManager,
    outcome: std::result::Result<(), String>,
    before: Result<Option<Task>>,
    r: Result<()>,
    after: Result<Option<Task>>,
)
    requires
        call_ensures(TaskManager::get_current, (&*old(manager),), before),
        call_ensures(handle_task_request, (manager, outcome), r),
        call_ensures(TaskManager::get_current, (&*final(manager),), after),
    ensures
        r is Ok <==> runs(before),
        r is Err ==> after == before,
        r is Ok && outcome is Ok ==> (after matches Ok(Some(u)) && u.status
            == TaskStatus::Completed),
        r is Ok && (outcome matches Err(why)) ==> (after matches Ok(Some(u)) && u.status
            == TaskStatus::Failed && u.error == Some(outcome->Err_0)),
{
}

/// The report says of the sidecar whether it is healthy, and of its browser what the sidecar said.
pub proof fn greetings_make_the_report(
    ready: Json,
    capabilities: Json,
    shut_down: bool,
    missing: (Json, Json),
    sick: (Json, Json),
    r: (Json, Json),
)
    requires
        call_ensures(diagnostics::sidecar_diagnostics, (&SidecarProbe::Missing,), missing),
        call_ensures(diagnostics::sidecar_diagnostics, (&SidecarProbe::Unhealthy,), sick),
        call_ensures(
            diagnostics::sidecar_diagnostics,
            (&SidecarProbe::Greeted { ready, capabilities, shut_down },),
            r,
        ),
    ensures
        json::field(missing.0@, "healthy"@) == Some(JsonView::Bool(false)),
        json::field(missing.0@, "status"@) == Some(JsonView::Text("missing"@)),
        json::field(missing.1@, "installed"@) == Some(JsonView::Bool(false)),
        json::field(missing.1@, "status"@) == Some(JsonView::Text("unavailable"@)),
        json::field(sick.0@, "healthy"@) == Some(JsonView::Bool(false)),
        json::field(sick.0@, "status"@) == Some(JsonView::Text("unhealthy"@)),
        json::field(sick.1@, "status"@) == Some(JsonView::Text("unknown"@)),
        json::field(r.0@, "healthy"@) == Some(JsonView::Bool(shut_down)),
        shut_down ==> json::field(r.0@, "status"@) == Some(JsonView::Text("ok"@)),
        !shut_down ==> json::field(r.0@, "status"@) == Some(JsonView::Text("degraded"@)),
        json::field(ready@, "sidecar_version"@) matches Some(v) ==> json::field(r.0@, "version"@)
            == Some(v),
        json::field(ready@, "sidecar_version"@) is None ==> (json::field(
            capabilities@,
            "sidecar_version"@,
        ) matches Some(v) ==> json::field(r.0@, "version"@) == Some(v)),
        json::field(ready@, "protocol_version"@) matches Some(v) ==> json::field(
            r.0@,
            "protocol_version"@,
        ) == Some(v),
        json::field(capabilities@, "browser_version"@) matches Some(v) ==> json::field(
            r.1@,
            "version"@,
        ) == Some(v),
        json::field(capabilities@, "browser_version"@) is None ==> json::field(r.1@, "version"@)
            == Some(JsonView::Null),
        json::field(capabilities@, "browser_installed"@) == Some(JsonView::Bool(true))
            ==> json::field(r.1@, "installed"@) == Some(JsonView::Bool(true)) && json::field(
            r.1@,
            "status"@,
        ) == Some(JsonView::Text("ok"@)),
        json::field(capabilities@, "browser_installed"@) != Some(JsonView::Bool(true))
            ==> json::field(r.1@, "installed"@) == Some(JsonView::Bool(false)) && json::field(
            r.1@,
            "status"@,
        ) == Some(JsonView::Text("missing"@)),
{
    reveal_strlit("healthy");
    reveal_strlit("status");
    reveal_strlit("version");
    reveal_strlit("protocol_version");
    reveal_strlit("installed");
    assert("healthy"@.len() == 7);
    assert("status"@.len() == 6);
    assert("version"@.len() == 7);
    assert("protocol_version"@.len() == 16);
    assert("installed"@.len() == 9);
    assert("healthy"@[0] != "version"@[0]);
}

/// Whether a value has a whole number under a key.
pub open spec fn counts(v: JsonView, key: Seq<char>, n: int) -> bool {
    json::field(v, key) == Some(JsonView::Number(NumberView::Integer(n)))
}

/// The report on no accounts, media or limits counts none; a logged-in user is counted as ready, and
/// the sidecar is reported as it was found.
pub proof fn reports_have_all_their_parts(
    version: &str,
    accounts: Vec<AccountDto>,
    sessions: Vec<SessionProbe>,
    media: Vec<(String, i64)>,
    gates: Vec<RateLimitGateDto>,
    probe: SidecarProbe,
    authenticated: bool,
    s: (Json, Json),
    r: Json,
)
    requires
        accounts@.len() == sessions@.len(),
        call_ensures(diagnostics::sidecar_diagnostics, (&probe,), s),
        call_ensures(
            get_sync_diagnostics,
            (version, &accounts, &sessions, &media, &gates, &probe, authenticated),
            r,
        ),
    ensures
        json::field(r@, "app"@) matches Some(app) && json::field(app, "version"@) == Some(
            JsonView::Text(version@),
        ) && json::field(app, "health"@) == Some(JsonView::Text("ok"@)),
        json::field(r@, "sidecar"@) == Some(s.0@),
        json::field(r@, "browser"@) == Some(s.1@),
        json::field(r@, "chromium"@) == Some(s.1@),
        json::field(r@, "auth"@) matches Some(auth) && counts(
            auth,
            "ready"@,
            if authenticated {
                1
            } else {
                0
            },
        ) && counts(
            auth,
            "not_ready"@,
            if authenticated {
                0
            } else {
                1
            },
        ),
        json::field(r@, "accounts"@) matches Some(a) && counts(
            a,
            "total"@,
            accounts@.len() as int,
        ) && json::field(a, "enabled"@) is Some && json::field(a, "session_ready"@) is Some,
        json::field(r@, "rate_gates"@) matches Some(JsonView::Array(g)) && g.len() == gates@.len()
            && (forall|i: int|
            0 <= i < g.len() ==> counts(
                #[trigger] g[i],
                "next_allowed"@,
                gates@[i].next_allowed_epoch as int,
            ) && counts(g[i], "backoff"@, gates@[i].backoff_level as int) && json::field(
                g[i],
                "endpoint"@,
            ) == Some(JsonView::Text(gates@[i].endpoint_key@)) && json::field(g[i], "account_id"@)
                == Some(JsonView::Text(text::signed_decimal(gates@[i].account_id as int)))),
{
    reveal_strlit("app");
    reveal_strlit("sidecar");
    reveal_strlit("chromium");
    reveal_strlit("browser");
    reveal_strlit("accounts");
    reveal_strlit("media");
    reveal_strlit("rate_gates");
    reveal_strlit("auth");
    reveal_strlit("version");
    reveal_strlit("health");
    reveal_strlit("ready");
    reveal_strlit("not_ready");
    reveal_strlit("total");
    reveal_strlit("enabled");
    reveal_strlit("session_ready");
    reveal_strlit("next_allowed");
    reveal_strlit("backoff");
    reveal_strlit("endpoint");
    reveal_strlit("account_id");
    assert("app"@.len() == 3 && "sidecar"@.len() == 7 && "chromium"@.len() == 8 && "browser"@.len()
        == 7 && "accounts"@.len() == 8 && "media"@.len() == 5 && "rate_gates"@.len() == 10
        && "auth"@.len() == 4);
    assert("sidecar"@[0] != "browser"@[0]);
    assert("chromium"@[0] != "accounts"@[0]);
    assert("version"@.len() == 7 && "health"@.len() == 6);
    assert("ready"@.len() == 5 && "not_ready"@.len() == 9);
    assert("total"@.len() == 5 && "enabled"@.len() == 7 && "session_ready"@.len() == 13);
    assert("next_allowed"@.len() == 12 && "backoff"@.len() == 7 && "endpoint"@.len() == 8
        && "account_id"@.len() == 10);
}

/// One more account is counted as enabled if it is, and as ready if its session is usable as well.
pub proof fn accounts_are_counted(
    version: &str,
    accounts: Vec<AccountDto>,
    sessions: Vec<SessionProbe>,
    more: Vec<AccountDto>,
    more_sessions: Vec<SessionProbe>,
    account: AccountDto,
    session: SessionProbe,
    media: Vec<(String, i64)>,
    gates: Vec<RateLimitGateDto>,
    probe: SidecarProbe,
    authenticated: bool,
    v: Result<()>,
    a: Json,
    b: Json,
    enabled: int,
    ready: int,
)
    requires
        accounts@.len() == sessions@.len(),
        more@ == accounts@.push(account),
        more_sessions@ == sessions@.push(session),
        call_ensures(validate_account_session, (&account, &session), v),
        call_ensures(
            get_sync_diagnostics,
            (version, &accounts, &sessions, &media, &gates, &probe, authenticated),
            a,
        ),
        call_ensures(
            get_sync_diagnostics,
            (version, &more, &more_sessions, &media, &gates, &probe, authenticated),
            b,
        ),
        json::field(a@, "accounts"@) matches Some(x) ==> counts(x, "enabled"@, enabled) && counts(
            x,
            "session_ready"@,
            ready,
        ),
    ensures
        json::field(b@, "accounts"@) matches Some(y) && counts(
            y,
            "enabled"@,
            if account.enabled {
                enabled + 1
            } else {
                enabled
            },
        ) && counts(
            y,
            "session_ready"@,
            if account.enabled && v is Ok {
                ready + 1
            } else {
                ready
            },
        ),
        accounts@.len() == 0 ==> enabled == 0 && ready == 0,
{
    reveal_strlit("app");
    reveal_strlit("sidecar");
    reveal_strlit("chromium");
    reveal_strlit("browser");
    reveal_strlit("accounts");
    reveal_strlit("media");
    reveal_strlit("rate_gates");
    reveal_strlit("auth");
    reveal_strlit("total");
    reveal_strlit("enabled");
    reveal_strlit("session_ready");
    assert("app"@.len() == 3 && "sidecar"@.len() == 7 && "chromium"@.len() == 8 && "browser"@.len()
        == 7 && "accounts"@.len() == 8 && "media"@.len() == 5 && "rate_gates"@.len() == 10
        && "auth"@.len() == 4);
    assert("chromium"@[0] != "accounts"@[0]);
    assert("total"@.len() == 5 && "enabled"@.len() == 7 && "session_ready"@.len() == 13);
    lemma_counted(accounts@, sessions@, more@, more_sessions@, accounts@.len() as int);
}

proof fn lemma_counted(
    a: Seq<AccountDto>,
    s: Seq<SessionProbe>,
    b: Seq<AccountDto>,
    t: Seq<SessionProbe>,
    n: int,
)
    requires
        0 <= n <= a.len() == s.len(),
        a.len() < b.len() == t.len(),
        forall|i: int| 0 <= i < a.len() ==> b[i] == a[i] && t[i] == s[i],
    ensures
        diagnostics::enabled_accounts(b, n) == diagnostics::enabled_accounts(a, n),
        diagnostics::ready_accounts(b, t, n) == diagnostics::ready_accounts(a, s, n),
    decreases n,
{
    if n > 0 {
        lemma_counted(a, s, b, t, n - 1);
    }
}

/// The media of each status are reported under that status, and as none where none are known.
pub proof fn media_are_reported_by_status(
    version: &str,
    accounts: Vec<AccountDto>,
    sessions: Vec<SessionProbe>,
    media: Vec<(String, i64)>,
    gates: Vec<RateLimitGateDto>,
    probe: SidecarProbe,
    authenticated: bool,
    status: Seq<char>,
    r: Json,
)
    requires
        accounts@.len() == sessions@.len(),
        media@.len() <= 1,
        status == "pending"@ || status == "downloading"@ || status == "failed"@ || status
            == "downloaded"@,
        call_ensures(
            get_sync_diagnostics,
            (version, &accounts, &sessions, &media, &gates, &probe, authenticated),
            r,
        ),
    ensures
        json::field(r@, "media"@) matches Some(m) && counts(
            m,
            status,
            if media@.len() == 1 && media@[0].0@ == status {
                media@[0].1 as int
            } else {
                0
            },
        ),
{
    reveal_strlit("app");
    reveal_strlit("sidecar");
    reveal_strlit("chromium");
    reveal_strlit("browser");
    reveal_strlit("accounts");
    reveal_strlit("media");
    reveal_strlit("rate_gates");
    reveal_strlit("auth");
    reveal_strlit("pending");
    reveal_strlit("downloading");
    reveal_strlit("failed");
    reveal_strlit("downloaded");
    assert("app"@.len() == 3 && "sidecar"@.len() == 7 && "chromium"@.len() == 8 && "browser"@.len()
        == 7 && "accounts"@.len() == 8 && "media"@.len() == 5 && "rate_gates"@.len() == 10
        && "auth"@.len() == 4);
    assert("pending"@.len() == 7 && "downloading"@.len() == 11 && "failed"@.len() == 6
        && "downloaded"@.len() == 10);
    reveal_with_fuel(diagnostics::count_of, 2);
    if media@.len() == 1 {
        assert(media@.subrange(1, 1).len() == 0);
    }
}

/// The files of the application lie below its own directory: data below the root of data, the session
/// below that of configuration. The settings begin with their defaults.
pub proof fn files_lie_below_their_root(
    config_root: &str,
    data_root: &str,
    config_dir: String,
    data_dir: String,
    config_text: &str,
    data_text: &str,
    media: String,
    media_text: &str,
    db: String,
    session: String,
    pictures: String,
    videos: String,
    r: Config,
)
    requires
        call_ensures(paths::join, (config_root, "weiback-next"), config_dir),
        call_ensures(paths::join, (data_root, "weiback-next"), data_dir),
        config_text@ == config_dir@,
        data_text@ == data_dir@,
        call_ensures(paths::join, (data_text, "media"), media),
        media_text@ == media@,
        call_ensures(paths::join, (data_text, "weiback.db"), db),
        call_ensures(paths::join, (config_text, "session.json"), session),
        call_ensures(paths::join, (media_text, "pictures"), pictures),
        call_ensures(paths::join, (media_text, "videos"), videos),
        call_ensures(Config::from_roots, (config_root, data_root), r),
    ensures
        r.db_path@ == db@,
        r.session_path@ == session@,
        r.picture_path@ == pictures@,
        r.video_path@ == videos@,
        r.download_pictures && !r.static_html,
        r.backup_task_interval_secs == 3 && r.other_task_interval_secs == 1 && r.posts_per_html
            == 200 && r.posts_count == 20,
{
}

/// The configuration is looked for below the local root, the root and the program, in this order; the
/// first one that exists is used, and it is written where it was found, or below the local root.
pub proof fn configurations_are_looked_for_in_order(
    local: &str,
    root: &str,
    exe: &str,
    inner: String,
    inner_text: &str,
    own: String,
    own_text: &str,
    a: String,
    b: String,
    c: String,
    fresh: String,
    candidates: [String; 3],
    exist: [bool; 3],
    found: Option<String>,
    saved: String,
)
    requires
        call_ensures(paths::join, ("weiback-next", "config.toml"), inner),
        inner_text@ == inner@,
        call_ensures(paths::join, (local, inner_text), a),
        call_ensures(paths::join, (root, inner_text), b),
        call_ensures(paths::join, (exe, inner_text), c),
        call_ensures(paths::join, (local, "weiback-next"), own),
        own_text@ == own@,
        call_ensures(paths::join, (own_text, "config.toml"), fresh),
        call_ensures(config_file_candidates, (local, root, exe), candidates),
        call_ensures(find_config_file, (&candidates, &exist), found),
        call_ensures(save_path, (found, local), saved),
    ensures
        candidates@[0]@ == a@ && candidates@[1]@ == b@ && candidates@[2]@ == c@,
        exist@[0] ==> (found matches Some(f) && f@ == a@),
        !exist@[0] && exist@[1] ==> (found matches Some(f) && f@ == b@),
        !exist@[0] && !exist@[1] && exist@[2] ==> (found matches Some(f) && f@ == c@),
        !exist@[0] && !exist@[1] && !exist@[2] ==> found is None,
        found matches Some(f) ==> saved@ == f@,
        found is None ==> saved@ == fresh@,
{
}

/// The configuration that took effect first stays in effect: neither another load nor a later look
/// replaces it. What is saved replaces it, and so does the default when it is put into effect.
pub proof fn configurations_stay_in_effect(
    cell: &mut ConfigCell,
    asked: &mut ConfigCell,
    saving: &mut ConfigCell,
    resetting: &mut ConfigCell,
    loaded: Config,
    found: Result<Option<Config>>,
    default: Config,
    changed: Config,
    r: Result<()>,
    c: Config,
)
    requires
        call_ensures(init, (cell, Ok(loaded)), r),
        *old(asked) == *final(cell),
        call_ensures(get_config, (asked, found, default), c),
        *old(saving) == *final(asked),
        call_ensures(save_config, (saving, changed), ()),
        *old(resetting) == *final(saving),
        call_ensures(init_default, (resetting, default), ()),
    ensures
        r is Ok,
        old(cell).current is None ==> c == loaded,
        old(cell).current matches Some(before) ==> c == before,
        final(asked).current == Some(c),
        final(saving).current == Some(changed),
        final(resetting).current == Some(default),
{
}

/// Without a configuration in effect the one that was found takes effect, and the default one where
/// none was found or it could not be read; a failed load and a save change nothing then.
pub proof fn there_always_is_a_configuration(
    cell: &mut ConfigCell,
    failing: &mut ConfigCell,
    saving: &mut ConfigCell,
    found: Result<Option<Config>>,
    default: Config,
    changed: Config,
    e: Error,
    f: Result<()>,
    c: Config,
)
    requires
        old(cell).current is None,
        call_ensures(get_config, (cell, found, default), c),
        *old(failing) == *old(cell),
        call_ensures(init, (failing, Err(e)), f),
        *old(saving) == *old(cell),
        call_ensures(save_config, (saving, changed), ()),
    ensures
        final(cell).current == Some(c),
        found matches Ok(Some(x)) ==> c == x,
        found matches Ok(None) ==> c == default,
        found is Err ==> c == default,
        f == Err::<(), Error>(e) && final(failing).current is None,
        final(saving).current is None,
{
}

} // verus!
