use weiback::error::Error;
use weiback::json::Json;
use weiback::media_downloader::DownloaderWorkerSummary;
use weiback::media_pipeline::MediaWorkerSummary;
use weiback::models::user::User;
use weiback::service::collection::{
    bounded_max_pages, collect_comment_replies, collect_comments, collect_user_posts,
    fail_collection_task, finish_collection_task, handle_task_request, handshake_failure,
    publish_collection_progress,
};
use weiback::service::diagnostics::{get_sync_diagnostics, RateLimitGateDto, SidecarProbe};
use weiback::service::engine::{
    account_session_ready, cleanup_invalid_posts, cleanup_pictures, ensure_sync_account,
    export_posts, get_media_blob, history_limit, login, require_sync_job, restore_error,
    save_account, save_monitored_user, Core, LoginState, ShutdownJoins, TaskRequest,
};
use weiback::service::shutdown::{
    shutdown_wait_ms, JoinOutcome, PersistentShutdownFailure, PersistentShutdownSummary,
    SchedulerShutdownStatus, ShutdownAdmission, SyncJobControlOutcome,
};
use weiback::service::task_manager::{TaskManager, TaskStatus, TaskType};
use weiback::sidecar::collector::CollectionStatus;
use weiback::sidecar::protocol::CommandType;
use weiback::sidecar::supervisor::SidecarError;
use weiback::storage::internal::entities::{
    AccountDto, MonitoredUserDto, RefreshTier, SyncJobDto,
};
use weiback::sync_executor::{
    ControlStopResult, SessionProbe, WorkerShutdownOutcome, WorkerShutdownSummary,
};

fn inconsistent<T>(r: Result<T, Error>) -> String {
    match r {
        Err(Error::InconsistentTask(m)) => m,
        _ => panic!("expected an inconsistency"),
    }
}

fn format_error<T>(r: Result<T, Error>) -> String {
    match r {
        Err(Error::FormatError(m)) => m,
        _ => panic!("expected a format error"),
    }
}

fn job(id: i64, account_id: i64) -> SyncJobDto {
    SyncJobDto {
        id,
        resource_key: format!("account:{account_id}:user:1:posts"),
        name: "n".into(),
        kind: "collect_user_posts".into(),
        status: "pending".into(),
        priority: 1,
        schedule_config: None,
        enabled: true,
        recovery_count: 0,
        max_recovery_attempts: 3,
        available_at: None,
        available_at_epoch: 0,
        claimed_at: None,
        current_run_id: None,
        created_at: "t".into(),
        updated_at: None,
        account_id,
        endpoint_key: "posts".into(),
        payload_json: None,
        generation: 0,
    }
}

fn session(path: &str) -> SessionProbe {
    SessionProbe { root: Ok("/c".into()), path: Ok(path.into()) }
}

fn account(session_ref: &str, enabled: bool) -> AccountDto {
    AccountDto {
        id: 3,
        provider: "weibo".into(),
        uid: "7".into(),
        display_name: None,
        session_ref: session_ref.into(),
        enabled,
        created_at: String::new(),
        updated_at: None,
    }
}

fn joins() -> ShutdownJoins {
    ShutdownJoins {
        scheduler: JoinOutcome::Finished,
        ad_hoc: JoinOutcome::Finished,
        long_task: JoinOutcome::Finished,
        workers: Ok(WorkerShutdownSummary::default()),
        media: MediaWorkerSummary { stopped: true, join_failed: None },
        legacy_media: DownloaderWorkerSummary { stopped: true, join_failed: None },
    }
}

#[test]
fn shutdown_admission_rejects_new_starts_after_shutdown_begins() {
    let mut admission = ShutdownAdmission::default();
    admission.begin_shutdown();
    assert!(admission.enter().is_err());
}

#[test]
fn collection_progress_preserves_unknown_total_until_sidecar_knows_it() {
    let mut manager = TaskManager::new();
    manager.start_task(7, TaskType::CollectComments, "comments".into(), 0).unwrap();

    publish_collection_progress(&mut manager, 7, 20, 0).unwrap();
    let task = manager.get_current().unwrap().unwrap();
    assert_eq!(task.progress, 20);
    assert_eq!(task.total, 0);
    assert_eq!(task.status, TaskStatus::InProgress);

    publish_collection_progress(&mut manager, 7, 25, 40).unwrap();
    let task = manager.get_current().unwrap().unwrap();
    assert_eq!(task.progress, 25);
    assert_eq!(task.total, 40);
}

#[test]
fn shutdown_is_degraded_when_legacy_downloader_does_not_stop() {
    let summary = PersistentShutdownSummary {
        scheduler: SchedulerShutdownStatus::NotRunning,
        ad_hoc: SchedulerShutdownStatus::NotRunning,
        workers: WorkerShutdownSummary::default(),
        database_failures: Vec::new(),
        media: MediaWorkerSummary { stopped: true, join_failed: None },
        legacy_media: DownloaderWorkerSummary {
            stopped: false,
            join_failed: Some("timed out".into()),
        },
        long_task: SchedulerShutdownStatus::NotRunning,
    };

    assert!(summary.degraded());
}

#[test]
fn every_part_can_degrade_a_shutdown() {
    let clean = || PersistentShutdownSummary {
        scheduler: SchedulerShutdownStatus::Stopped,
        ad_hoc: SchedulerShutdownStatus::NotRunning,
        workers: WorkerShutdownSummary::default(),
        database_failures: Vec::new(),
        media: MediaWorkerSummary { stopped: true, join_failed: None },
        legacy_media: DownloaderWorkerSummary { stopped: true, join_failed: None },
        long_task: SchedulerShutdownStatus::Stopped,
    };
    assert!(!clean().degraded());
    let mut s = clean();
    s.scheduler = SchedulerShutdownStatus::TimedOut;
    assert!(s.degraded());
    let mut s = clean();
    s.ad_hoc = SchedulerShutdownStatus::JoinFailed;
    assert!(s.degraded());
    let mut s = clean();
    s.long_task = SchedulerShutdownStatus::TimedOut;
    assert!(s.degraded());
    let mut s = clean();
    s.media.stopped = false;
    assert!(s.degraded());
    let mut s = clean();
    s.database_failures.push(PersistentShutdownFailure { job_id: 1, error: "x".into() });
    assert!(s.degraded());
    let mut s = clean();
    s.workers.workers.push(WorkerShutdownOutcome {
        job_id: 1,
        worker_stop: ControlStopResult::StopTimedOut { pid: 9 },
    });
    assert!(s.degraded());
    let outcome = SyncJobControlOutcome {
        job: job(1, 1),
        worker_stop: ControlStopResult::WorkerStarting,
    };
    assert!(outcome.degraded());
}

#[test]
fn writers_are_counted_and_refused_during_shutdown() {
    let mut admission = ShutdownAdmission::default();
    admission.begin_write().unwrap();
    admission.begin_write().unwrap();
    assert!(admission.has_active_writers());
    admission.end_write();
    admission.begin_shutdown();
    assert_eq!(inconsistent(admission.begin_write()), "core is shutting down");
    admission.end_write();
    assert!(!admission.has_active_writers());
    admission.end_shutdown();
    assert!(admission.begin_write().is_ok());
}

#[test]
fn shutdown_takes_everything_over_and_keeps_what_hangs() {
    let mut core = Core::new();
    assert_eq!(core.start_persistent_scheduler(false, Ok(())).1.unwrap(), true);
    assert_eq!(started(core.start_persistent_scheduler(false, Ok(()))), (false, false));
    assert_eq!(core.start_persistent_scheduler(true, Ok(())).0, true);
    let id = core.start_long_task(false, TaskType::Export, "x".into(), 0).unwrap();
    core.persistent_workers.reserve(5, "token", 1).unwrap();

    let plan = core.begin_persistent_shutdown();
    assert!(plan.scheduler && plan.media && plan.legacy_media && !plan.ad_hoc);
    assert_eq!(plan.long_task, Some(id));
    assert_eq!(plan.workers, vec![5]);
    assert_eq!(core.task_manager.get_current().unwrap().unwrap().status, TaskStatus::Cancelled);
    assert_eq!(
        inconsistent(core.start_sidecar_collection(
            false,
            TaskType::CollectComments,
            "c".into()
        )),
        "core is shutting down"
    );
    assert_eq!(started(core.start_persistent_scheduler(false, Ok(()))), (false, false));
    assert!(core.persistent_workers.reserve(6, "t", 1).is_err());

    let mut outcome = joins();
    outcome.scheduler = JoinOutcome::TimedOut;
    outcome.long_task = JoinOutcome::Failed;
    outcome.workers = Err("panicked".into());
    let summary = core.shutdown_persistent_tasks(plan, outcome);
    assert_eq!(summary.scheduler, SchedulerShutdownStatus::TimedOut);
    assert_eq!(summary.ad_hoc, SchedulerShutdownStatus::NotRunning);
    assert_eq!(summary.long_task, SchedulerShutdownStatus::Stopped);
    assert_eq!(
        summary.workers.workers,
        vec![WorkerShutdownOutcome {
            job_id: 0,
            worker_stop: ControlStopResult::StopFailed("panicked".into()),
        }]
    );
    assert!(summary.degraded());
    assert!(core.persistent_scheduler);
    assert_eq!(core.long_task, None);

    let plan = core.begin_persistent_shutdown();
    let summary = core.shutdown_persistent_tasks(plan, joins());
    assert!(!summary.degraded());
    assert!(!core.persistent_scheduler && !core.legacy_media_worker);
}

fn started(outcome: (bool, Result<bool, Error>)) -> (bool, bool) {
    (outcome.0, outcome.1.unwrap())
}

#[test]
fn shutdown_waits_at_least_for_a_handshake() {
    assert_eq!(shutdown_wait_ms(5_000), 13_000);
    assert_eq!(shutdown_wait_ms(20_000), 20_000);
}

#[test]
fn starts_are_refused_while_an_earlier_one_runs() {
    let mut core = Core::new();
    let first =
        core.start_sidecar_collection(false, TaskType::CollectUserPosts, "a".into()).unwrap();
    assert_eq!(first, 1);
    assert_eq!(
        inconsistent(core.start_sidecar_collection(false, TaskType::CollectComments, "b".into())),
        "sidecar collection is already running"
    );
    assert_eq!(
        inconsistent(core.start_long_task(false, TaskType::Export, "b".into(), 1)),
        "Another task is already in progress."
    );
    core.task_manager.finish_for(first).unwrap();
    let second = core.start_long_task(false, TaskType::Export, "b".into(), 1).unwrap();
    assert_eq!(second, 3);
    assert_eq!(
        inconsistent(core.start_long_task(false, TaskType::Export, "c".into(), 1)),
        "a long-running task is already running"
    );
}

#[test]
fn restore_needs_a_quiet_engine() {
    let mut core = Core::new();
    core.shutdown_admission.begin_write().unwrap();
    assert_eq!(
        inconsistent(core.restore_user_backup()),
        "cannot restore while an ordinary task or writer is active; cancel it and wait for completion"
    );
    assert!(!core.shutdown_admission.shutting_down);
    core.shutdown_admission.end_write();
    core.restore_user_backup().unwrap();
    assert!(core.shutdown_admission.shutting_down);
    let plan = core.begin_persistent_shutdown();
    let mut outcome = joins();
    outcome.legacy_media.stopped = false;
    let summary = core.shutdown_persistent_tasks(plan, outcome);
    assert_eq!(
        inconsistent(core.restore_after_shutdown(&summary)),
        "cannot restore while persistent workers are still stopping"
    );
    assert!(!core.shutdown_admission.shutting_down);
    match restore_error("disk full") {
        Error::InconsistentTask(m) => assert_eq!(
            m,
            "restore failed after the live database pool was closed; restart required: disk full"
        ),
        _ => panic!("wrong error"),
    }
}

#[test]
fn disabled_accounts_lose_their_workers() {
    let mut core = Core::new();
    core.persistent_workers.reserve(1, "a", 1).unwrap();
    core.persistent_workers.reserve(3, "a", 1).unwrap();
    let jobs = vec![job(1, 7), job(2, 7), job(3, 8), job(4, 7)];
    assert_eq!(core.jobs_to_stop(7, &jobs), vec![1]);
    assert_eq!(core.jobs_to_stop(8, &jobs), vec![3]);
}

#[test]
fn accounts_are_saved_with_their_times() {
    let saved = save_account(account("sessions/a.json", true), "/c/s.json", &session("/c/a"), "now").unwrap();
    assert_eq!(saved.created_at, "now");
    assert_eq!(saved.updated_at.as_deref(), Some("now"));
    let mut old = account("a.json", true);
    old.created_at = "then".into();
    assert_eq!(save_account(old, "/c/s.json", &session("/c/a"), "now").unwrap().created_at, "then");
    assert_eq!(
        format_error(save_account(account("../a", true), "/c/s.json", &session("/c/a"), "now")),
        "session reference escapes root"
    );
    assert_eq!(
        format_error(save_account(account("a", true), "/c/s.json", &session("/d/a"), "now")),
        "session reference escapes root"
    );
    assert_eq!(
        format_error(save_account(account("a", true), "", &session("/c/a"), "now")),
        "configured session root is invalid"
    );
    let missing = SessionProbe { root: Ok("/c".into()), path: Err("gone".into()) };
    assert_eq!(
        format_error(save_account(account("a", true), "/c/s.json", &missing, "now")),
        "session file is unavailable: gone"
    );
    let rootless = SessionProbe { root: Err("gone".into()), path: Err("gone".into()) };
    assert_eq!(
        format_error(save_account(account("a", true), "/c/s.json", &rootless, "now")),
        "session root is unavailable: gone"
    );
}

#[test]
fn readiness_needs_enabled_valid_and_present() {
    let path = "config/weiback-next/session.json";
    assert!(account_session_ready(&account("a.json", true), path, &session("/c/a")).unwrap());
    assert!(!account_session_ready(&account("a.json", false), path, &session("/c/a")).unwrap());
    assert!(!account_session_ready(&account("/a.json", true), path, &session("/c/a")).unwrap());
    assert!(!account_session_ready(&account("a.json", true), path, &session("/d/a")).unwrap());
    assert_eq!(
        format_error(account_session_ready(&account("a.json", true), "", &session("/c/a"))),
        "configured session root is invalid"
    );
}

#[test]
fn monitored_users_are_saved_with_their_times() {
    let user = MonitoredUserDto {
        account_id: 1,
        uid: 2,
        screen_name: None,
        refresh_strategy: "hot".into(),
        enabled: true,
        last_refreshed_at: None,
        created_at: String::new(),
        updated_at: None,
        tier: RefreshTier::Hot,
        interval_secs: 60,
        jitter_secs: 5,
        next_refresh_epoch: 9,
        last_refresh_epoch: None,
    };
    let saved = save_monitored_user(user, "now");
    assert_eq!(saved.created_at, "now");
    assert_eq!(saved.updated_at.as_deref(), Some("now"));
    assert_eq!(saved.next_refresh_epoch, 9);
}

#[test]
fn small_decisions_of_the_engine() {
    assert!(get_media_blob("post", 1, 1));
    assert!(!get_media_blob("emoji", 1, 1));
    assert!(!get_media_blob("user", 0, 1));
    assert!(!get_media_blob("comment", 1, -1));
    assert_eq!(history_limit(5), 5);
    assert_eq!(history_limit(5000), 1000);
    assert_eq!(require_sync_job(4, Some(job(4, 1))).unwrap().id, 4);
    assert_eq!(inconsistent(require_sync_job(-4, None)), "sync job -4 not found");
    assert!(login(LoginState::WaitingForCode).unwrap());
    assert!(!login(LoginState::LoggedIn).unwrap());
    assert_eq!(inconsistent(login(LoginState::Init)), "FATAL: wrong login state to login");
    assert_eq!(export_posts(TaskRequest::Export).unwrap().0, TaskType::Export);
    assert_eq!(
        inconsistent(export_posts(TaskRequest::BackupUser)),
        "Invalid task request for export_posts"
    );
    assert_eq!(cleanup_pictures(TaskRequest::CleanupPictures).unwrap().1, "清理重复图片");
    assert!(cleanup_pictures(TaskRequest::Export).is_err());
    assert!(cleanup_invalid_posts(TaskRequest::CleanupInvalidPosts).is_ok());
    assert!(cleanup_invalid_posts(TaskRequest::Export).is_err());
}

#[test]
fn login_makes_an_account_for_the_configured_session() {
    let user = User {
        id: 10001,
        screen_name: "小明".into(),
        domain: String::new(),
        avatar_hd: String::new(),
        avatar_large: String::new(),
        profile_image_url: String::new(),
        following: false,
        follow_me: false,
    };
    let made = ensure_sync_account(&user, "/home/u/session.json").unwrap();
    assert_eq!(made.uid, "10001");
    assert_eq!(made.display_name.as_deref(), Some("小明"));
    assert_eq!(made.session_ref, "session.json");
    assert_eq!(made.provider, "weibo");
    assert!(made.enabled);
    assert_eq!(
        format_error(ensure_sync_account(&user, "/")),
        "configured session path has no file name"
    );
}

#[test]
fn collections_are_requested_with_bounded_pages() {
    assert_eq!(bounded_max_pages(0), 1);
    assert_eq!(bounded_max_pages(17), 17);
    assert_eq!(bounded_max_pages(5000), 1000);
    let posts = collect_user_posts(123, 3);
    assert_eq!(posts.task_type, TaskType::CollectUserPosts);
    assert_eq!(posts.request.command_type, CommandType::CollectUserPosts);
    assert_eq!(posts.request.stream, "user:123:posts");
    assert_eq!(posts.request.payload.str_field("uid"), Some("123"));
    assert_eq!(posts.request.payload.u64_field("max_pages"), Some(3));
    let comments = collect_comments(9, 0);
    assert_eq!(comments.request.stream, "post:9:comments");
    assert_eq!(comments.request.payload.u64_field("max_pages"), Some(1));
    let replies = collect_comment_replies(9, 42, 2000);
    assert_eq!(replies.request.stream, "post:9:comment:42:replies");
    assert_eq!(replies.request.payload.str_field("root_comment_id"), Some("42"));
    assert_eq!(replies.request.payload.u64_field("max_pages"), Some(1000));
    assert_eq!(replies.description, "采集评论回复");
}

#[test]
fn collections_settle_their_task_by_how_they_end() {
    let cases = vec![
        (CollectionStatus::Completed, TaskStatus::Completed),
        (CollectionStatus::Stopped, TaskStatus::Cancelled),
        (CollectionStatus::Cancelled, TaskStatus::Cancelled),
        (CollectionStatus::Paused, TaskStatus::Paused),
        (CollectionStatus::RateLimited, TaskStatus::Interrupted),
        (CollectionStatus::Interrupted, TaskStatus::Interrupted),
        (CollectionStatus::Shutdown, TaskStatus::Interrupted),
        (CollectionStatus::Failed, TaskStatus::Failed),
    ];
    for (status, expected) in cases {
        let mut manager = TaskManager::new();
        manager.start_task(1, TaskType::CollectComments, "c".into(), 0).unwrap();
        finish_collection_task(&mut manager, 1, status, None).unwrap();
        let task = manager.get_current().unwrap().unwrap();
        assert_eq!(task.status, expected);
        if expected == TaskStatus::Failed {
            assert_eq!(task.error.as_deref(), Some("sidecar collection failed"));
        }
        assert!(finish_collection_task(&mut manager, 2, status, None).is_err());
    }
    let mut manager = TaskManager::new();
    manager.start_task(1, TaskType::CollectComments, "c".into(), 0).unwrap();
    fail_collection_task(&mut manager, 1, "boom".into()).unwrap();
    assert_eq!(manager.get_current().unwrap().unwrap().error.as_deref(), Some("boom"));
}

#[test]
fn requests_settle_their_task_by_their_outcome() {
    let mut manager = TaskManager::new();
    assert!(handle_task_request(&mut manager, Ok(())).is_err());
    manager.start_task(1, TaskType::Export, "e".into(), 0).unwrap();
    handle_task_request(&mut manager, Err("no space".into())).unwrap();
    let task = manager.get_current().unwrap().unwrap();
    assert_eq!(task.status, TaskStatus::Failed);
    assert_eq!(task.error.as_deref(), Some("no space"));
}

#[test]
fn cancelled_greeting_is_a_shutdown() {
    let summary = handshake_failure(&SidecarError::HandshakeCancelled).unwrap();
    assert_eq!(summary.status, CollectionStatus::Shutdown);
    assert_eq!(summary.error.as_deref(), Some("application shutdown during sidecar handshake"));
    assert!(format_error(handshake_failure(&SidecarError::SidecarNotFound)).len() > 0);
}

#[test]
fn diagnostics_report_counts_and_no_sessions() {
    let accounts = vec![account("a.json", true), account("../a", true), account("b", false)];
    let counts = vec![("failed".to_string(), 2), ("pending".to_string(), 5)];
    let gates = vec![RateLimitGateDto {
        account_id: 3,
        endpoint_key: "posts".into(),
        next_allowed_epoch: -7,
        backoff_level: 2,
    }];
    let probe = SidecarProbe::Greeted {
        ready: Json::parse(r#"{"sidecar_version":"0.3.1"}"#).unwrap(),
        capabilities: Json::parse(
            r#"{"browser_installed":true,"browser_version":"1","protocol_version":1}"#,
        )
        .unwrap(),
        shut_down: false,
    };
    let report = get_sync_diagnostics(
        "9.9",
        &accounts,
        &vec![session("/c/a"), session("/c/b"), session("/c/c")],
        &counts,
        &gates,
        &probe,
        true,
    );
    let expected = Json::parse(
        r#"{"app":{"version":"9.9","health":"ok"},
        "sidecar":{"healthy":false,"status":"degraded","version":"0.3.1","protocol_version":1},
        "chromium":{"installed":true,"version":"1","status":"ok"},
        "browser":{"installed":true,"version":"1","status":"ok"},
        "accounts":{"total":3,"enabled":2,"session_ready":1},
        "media":{"pending":5,"downloading":0,"failed":2,"downloaded":0},
        "rate_gates":[{"account_id":"3","endpoint":"posts","next_allowed":-7,"backoff":2}],
        "auth":{"ready":1,"not_ready":0}}"#,
    )
    .unwrap();
    assert_eq!(report.to_text(), expected.to_text());
    let missing = get_sync_diagnostics(
        "1",
        &Vec::new(),
        &Vec::new(),
        &Vec::new(),
        &Vec::new(),
        &SidecarProbe::Missing,
        false,
    );
    assert_eq!(missing.get("sidecar").unwrap().str_field("status"), Some("missing"));
    assert_eq!(missing.get("browser").unwrap().str_field("status"), Some("unavailable"));
    assert_eq!(missing.get("auth").unwrap().u64_field("not_ready"), Some(1));
}
