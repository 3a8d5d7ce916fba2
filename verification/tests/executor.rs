use weiback::error::Error;
use weiback::sidecar::collector::{
    CollectionStatus, CollectionSummary, ExecutionControl, RateLimitInfo, RateLimitScope,
};
use weiback::sidecar::protocol::CommandType;
use weiback::sidecar::supervisor::{SidecarError, SpawnOptions};
use weiback::storage::internal::entities::{AccountDto, SyncJobDto, SyncJobStatus};
use weiback::sync_executor::job::{
    claim_request, request_from_job, JobExecutionResult, JobExecutor, JobRun, JobStep, SpawnSource,
};
use weiback::sync_executor::{
    account_session_resolver, secure_account_session_resolver, session_reference_path, stop_outcome,
    validate_account_session, ActivationOutcome, ControlReply, ControlStopResult,
    FinalizationBarrier, SessionProbe, ShutdownStep, StopStep, WorkerRegistry, WorkerShutdownOutcome, WorkerShutdownSummary,
};

fn job(kind: &str, key: &str, payload: Option<&str>) -> SyncJobDto {
    SyncJobDto {
        id: 5,
        resource_key: key.into(),
        name: "n".into(),
        kind: kind.into(),
        status: "running".into(),
        priority: 1,
        schedule_config: None,
        enabled: true,
        recovery_count: 0,
        max_recovery_attempts: 3,
        available_at: None,
        available_at_epoch: 0,
        claimed_at: None,
        current_run_id: None,
        created_at: "c".into(),
        updated_at: None,
        account_id: 1,
        endpoint_key: "posts".into(),
        payload_json: payload.map(str::to_owned),
        generation: 4,
    }
}

fn posts_job() -> SyncJobDto {
    job("collect_user_posts", "account:1:user:2:posts", Some(r#"{"uid":"2"}"#))
}

fn options() -> SpawnOptions {
    SpawnOptions {
        program: "p".into(),
        args: vec!["a".into()],
        env: Vec::new(),
        cwd: None,
        handshake_timeout_ms: 10,
    }
}

fn account(session_ref: &str, enabled: bool) -> AccountDto {
    AccountDto {
        id: 1,
        provider: "weibo".into(),
        uid: "2".into(),
        display_name: None,
        session_ref: session_ref.into(),
        enabled,
        created_at: String::new(),
        updated_at: None,
    }
}

fn message<T>(r: Result<T, Error>) -> String {
    match r {
        Err(e) => e.message(),
        Ok(_) => panic!("expected an error"),
    }
}

fn probe(root: &str, path: &str) -> SessionProbe {
    SessionProbe { root: Ok(root.into()), path: Ok(path.into()) }
}

#[test]
fn requests_come_from_jobs() {
    let request = request_from_job(&posts_job()).unwrap();
    assert_eq!(request.command_type, CommandType::CollectUserPosts);
    assert_eq!(request.stream, "user:2:posts");
    let request =
        request_from_job(&job("collect_comments", "account:1:x", Some(r#"{"post_id":9}"#)))
            .unwrap();
    assert_eq!(request.stream, "post:9:comments");
    let request = request_from_job(&job(
        "collect_comment_replies",
        "account:1:x",
        Some(r#"{"post_id":"9","root_comment_id":"7"}"#),
    ))
    .unwrap();
    assert_eq!(request.stream, "post:9:comment:7:replies");
    let request = request_from_job(&job("collect_comments", "post:1:comments", None)).unwrap();
    assert_eq!(request.stream, "post:1:comments");
    assert!(request.payload.is_object());
    assert_eq!(
        message(request_from_job(&job("sing", "k", None))),
        "unsupported persistent sync job kind: sing"
    );
    assert!(matches!(
        request_from_job(&job("collect_comments", "k", Some("{"))),
        Err(Error::Json(_))
    ));
    assert_eq!(
        message(request_from_job(&job("collect_user_posts", "account:1:x", Some("{}")))),
        "persistent job payload has no protocol stream"
    );
}

#[test]
fn session_references_stay_below_their_root() {
    assert_eq!(session_reference_path("a/b.json").unwrap(), "a/b.json");
    assert_eq!(session_reference_path("a\\b.json").unwrap(), "a/b.json");
    let found = probe("/root", "/root/a");
    for bad in ["", "/a", "../a", "a/../b", "\\a", "C:a"] {
        assert!(session_reference_path(bad).is_err(), "{bad:?}");
        assert!(validate_account_session(&account(bad, true), &found).is_err(), "{bad:?}");
    }
    assert!(validate_account_session(&account("a", false), &found).is_ok());
    assert_eq!(
        message(validate_account_session(&account("a", true), &probe("/root", "/other"))),
        "session reference escapes root"
    );
}

#[test]
fn sessions_resolve_to_options_inside_the_root() {
    let resolver = account_session_resolver("/config/session.json", options()).unwrap();
    assert_eq!(resolver.session_root, "/config");
    assert_eq!(resolver.session_file(&account("s/a.json", true)).unwrap(), "s/a.json");
    assert_eq!(message(resolver.session_file(&account("a", false))), "account is disabled");
    let resolved =
        resolver.resolve(probe("/real", "/real/s/a.json")).unwrap();
    assert_eq!(resolved.program, "p");
    assert!(resolved
        .env
        .contains(&("WEIBACK_COLLECTOR_SESSION_PATH".to_string(), "/real/s/a.json".to_string())));
    let secure = || secure_account_session_resolver("/root".into(), options());
    assert_eq!(
        message(secure().resolve(probe("/root", "/other/a.json"))),
        "session reference escapes root"
    );
    assert_eq!(
        message(secure().resolve(SessionProbe { root: Err("gone".into()), ..probe("", "/a") })),
        "session root is unavailable: gone"
    );
    assert_eq!(
        message(secure().resolve(SessionProbe { path: Err("gone".into()), ..probe("/root", "") })),
        "session file is unavailable: gone"
    );
    assert!(account_session_resolver("", options()).is_err());
}

#[test]
fn workers_are_reserved_once_and_fenced() {
    let mut registry = WorkerRegistry::new();
    registry.reserve(5, "a", 1).unwrap();
    assert!(registry.contains(5));
    assert_eq!(registry.pid(5), None);
    assert!(registry.reserve(5, "b", 1).is_err());
    assert!(registry.activate(5, "b", 1, 99).is_err());
    assert!(registry.activate(5, "a", 2, 99).is_err());
    assert!(registry.activate(6, "a", 1, 99).is_err());
    assert_eq!(registry.activate(5, "a", 1, 99).unwrap(), ActivationOutcome::Active);
    assert_eq!(registry.pid(5), Some(99));
    registry.unregister(5);
    assert!(!registry.contains(5));
    registry.reserve(5, "a", 2).unwrap();
    assert_eq!(registry.shutdown_all(100).jobs, vec![5]);
    assert!(registry.is_shutting_down());
    assert!(registry.reserve(7, "a", 1).is_err());
    assert_eq!(registry.activate(5, "a", 2, 98).unwrap(), ActivationOutcome::Shutdown);
    assert_eq!(registry.begin_shutdown(), vec![5]);
}

#[test]
fn stopping_waits_for_a_starting_worker() {
    let mut registry = WorkerRegistry::new();
    let cancel = ExecutionControl::Cancel;
    assert_eq!(
        registry.stop(1, cancel, 0, 100),
        StopStep::Done(ControlStopResult::WorkerNotFound)
    );
    registry.reserve(1, "a", 1).unwrap();
    assert_eq!(registry.stop(1, cancel, 30, 100), StopStep::Wait(70));
    assert_eq!(
        registry.stop(1, cancel, 100, 100),
        StopStep::Done(ControlStopResult::WorkerStarting)
    );
    registry.activate(1, "a", 1, 42).unwrap();
    assert_eq!(
        registry.stop(1, cancel, 30, 100),
        StopStep::Send { pid: 42, action: cancel, left_ms: 70 }
    );
    assert_eq!(
        registry.stop_fenced_job(1, 300, 100),
        StopStep::Send { pid: 42, action: ExecutionControl::Pause, left_ms: 0 }
    );
    assert_eq!(
        stop_outcome(42, ControlReply::Confirmed),
        ControlStopResult::Stopped { pid: 42 }
    );
    assert_eq!(
        stop_outcome(42, ControlReply::Silent),
        ControlStopResult::StopTimedOut { pid: 42 }
    );
    assert_eq!(
        stop_outcome(42, ControlReply::Refused("no".into())),
        ControlStopResult::StopFailed("no".into())
    );
    assert!(!ControlStopResult::Stopped { pid: 1 }.is_degraded());
    assert!(!ControlStopResult::WorkerNotFound.is_degraded());
    assert!(ControlStopResult::WorkerStarting.is_degraded());
    let summary = WorkerShutdownSummary {
        workers: vec![WorkerShutdownOutcome {
            job_id: 1,
            worker_stop: ControlStopResult::StopFailed("x".into()),
        }],
    };
    assert!(summary.degraded());
    assert!(!WorkerShutdownSummary::default().degraded());
}

#[test]
fn all_workers_are_shut_down_within_one_timeout() {
    let mut registry = WorkerRegistry::new();
    assert_eq!(registry.shutdown_all(50).finish().workers, Vec::new());
    let mut registry = WorkerRegistry::new();
    registry.reserve(1, "a", 1).unwrap();
    registry.reserve(2, "b", 1).unwrap();
    registry.activate(2, "b", 1, 42).unwrap();
    let mut shutdown = registry.shutdown_all(100);
    assert!(registry.reserve(3, "c", 1).is_err());
    for elapsed in [10, 100] {
        match shutdown.next(&registry, elapsed) {
            ShutdownStep::Stop { job_id: 1, step: StopStep::Wait(left) } => {
                assert_eq!((elapsed, left), (10, 90));
            }
            ShutdownStep::Stop { job_id: 1, step: StopStep::Done(result) } => {
                assert_eq!((elapsed, &result), (100, &ControlStopResult::WorkerStarting));
                shutdown.record(result);
            }
            other => panic!("unexpected step {other:?}"),
        }
    }
    assert_eq!(
        shutdown.next(&registry, 100),
        ShutdownStep::Stop {
            job_id: 2,
            step: StopStep::Send { pid: 42, action: ExecutionControl::Shutdown, left_ms: 0 },
        }
    );
    shutdown.record(stop_outcome(42, ControlReply::Confirmed));
    assert_eq!(shutdown.next(&registry, 100), ShutdownStep::Finish);
    let summary = shutdown.finish();
    let jobs: Vec<i64> = summary.workers.iter().map(|w| w.job_id).collect();
    assert_eq!(jobs, vec![1, 2]);
    assert!(summary.degraded());
}

#[test]
fn finalization_latch_waits_until_released() {
    let mut latch = FinalizationBarrier::new();
    assert!(latch.wait_until_entered());
    assert!(latch.enter_and_wait());
    assert!(!latch.wait_until_entered());
    latch.release();
    assert!(!latch.enter_and_wait());
}

#[test]
fn executors_find_their_options() {
    let plain = JobExecutor::new();
    assert!(plain.resolve_spawn_options(5, Some(&posts_job()), None).is_err());
    let fixed = JobExecutor::with_spawn_options(options()).with_minimum_interval_secs(3);
    assert_eq!(fixed.minimum_interval_secs, 3);
    assert_eq!(fixed.resolve_spawn_options(5, Some(&posts_job()), None).unwrap(), SpawnSource::Fixed);
    assert_eq!(message(fixed.resolve_spawn_options(5, None, None)), "sync job 5 not found");
    let resolving = JobExecutor::new()
        .with_account_resolver(secure_account_session_resolver("/root".into(), options()));
    assert_eq!(
        resolving
            .resolve_spawn_options(5, Some(&posts_job()), Some(&account("a.json", true)))
            .unwrap(),
        SpawnSource::Session("a.json".into())
    );
    assert!(resolving
        .resolve_spawn_options(5, Some(&posts_job()), Some(&account("a.json", false)))
        .is_err());
    assert!(resolving.resolve_spawn_options(5, Some(&posts_job()), None).is_err());
    let claim = claim_request("me".into(), 100, "t".into());
    assert_eq!(claim.lease_until_epoch, 130);
}

fn collecting() -> JobRun {
    let mut run = JobRun::claimed("me".into(), posts_job());
    assert!(matches!(run.on_created(Some(6)), JobStep::EnsureOwned));
    assert!(matches!(run.on_owned(1), JobStep::ResolveOptions));
    assert!(matches!(run.on_options(Ok(()), "now"), JobStep::Reserve));
    assert!(matches!(run.on_reserved(Ok(()), false, "now"), JobStep::Handshake));
    assert!(matches!(run.on_handshake(Ok(()), "now"), JobStep::EnsureOwned));
    assert!(matches!(run.on_owned(1), JobStep::Activate));
    match run.on_activated(Ok(ActivationOutcome::Active), "now") {
        JobStep::Collect(request, execution) => {
            assert_eq!(request.stream, "user:2:posts");
            assert_eq!(execution.job_id, 5);
            assert_eq!(execution.run_id, 6);
            assert_eq!(execution.generation, 4);
            assert_eq!(execution.checkpoint_stream, "account:1:user:2:posts");
        }
        _ => panic!("no collection"),
    }
    run
}

fn summary(status: CollectionStatus) -> CollectionSummary {
    CollectionSummary { status, fetched_count: 20, pages: 2, error: None, rate_limit: None }
}

fn collected(status: CollectionStatus) -> JobRun {
    let mut run = collecting();
    assert!(matches!(run.on_collected(Ok(summary(status)), "now"), JobStep::TakeControl));
    run
}

fn done(step: JobStep) -> JobExecutionResult {
    match step {
        JobStep::Done(result) => result,
        _ => panic!("not done"),
    }
}

fn aborted(step: JobStep) -> (String, bool) {
    match step {
        JobStep::Abort { error, kill } => (error.message(), kill),
        _ => panic!("not aborted"),
    }
}

#[test]
fn completed_jobs_are_recorded() {
    let mut run = collected(CollectionStatus::Completed);
    match run.on_final_control(None, "later") {
        JobStep::Finish(request) => {
            assert_eq!(request.next_status, SyncJobStatus::Completed);
            assert_eq!(request.job_id, 5);
            assert_eq!(request.run_id, 6);
            assert_eq!(request.owner_token, "me");
            assert_eq!(request.generation, 4);
            assert_eq!(request.finished_at, "later");
            assert_eq!(
                request.stats_json.as_deref(),
                Some(r#"{"fetched_count":20,"pages":2}"#)
            );
        }
        _ => panic!("not finished"),
    }
    assert_eq!(
        done(run.on_finished(true)),
        JobExecutionResult { job_id: 5, run_id: 6, status: "completed".into() }
    );
}

#[test]
fn unaccepted_ends_need_an_explanation() {
    let mut run = collected(CollectionStatus::Failed);
    assert!(matches!(run.on_final_control(None, "now"), JobStep::Finish(_)));
    assert!(matches!(run.on_finished(false), JobStep::ReadStatus));
    assert!(matches!(
        run.on_status(Some("paused".into())),
        JobStep::AwaitControl { seconds: 1 }
    ));
    let late = run.on_late_control(Some(ExecutionControl::Pause));
    assert_eq!(done(late).status, "paused");
    let mut run = collected(CollectionStatus::Completed);
    run.on_final_control(None, "now");
    run.on_finished(false);
    assert!(matches!(
        run.on_status(Some("cancelled".into())),
        JobStep::AwaitControl { .. }
    ));
    assert_eq!(done(run.on_late_control(None)).status, "cancelled");
    let mut run = collected(CollectionStatus::Stopped);
    match run.on_final_control(None, "now") {
        JobStep::Finish(request) => assert_eq!(request.next_status, SyncJobStatus::Cancelled),
        _ => panic!("not finished"),
    }
    run.on_finished(false);
    assert_eq!(
        aborted(run.on_status(Some("running".into()))).0,
        "sync finish lost ownership"
    );
}

#[test]
fn interrupted_jobs_are_recovered() {
    let mut run = collected(CollectionStatus::Interrupted);
    assert!(matches!(run.on_final_control(None, "now"), JobStep::Recover(_)));
    assert_eq!(done(run.on_recovered(Some(SyncJobStatus::Pending))).status, "pending");
    let mut run = collected(CollectionStatus::Interrupted);
    run.on_final_control(None, "now");
    assert!(matches!(run.on_recovered(None), JobStep::ReadStatus));
    assert_eq!(aborted(run.on_status(None)).0, "sync job disappeared");
}

#[test]
fn controls_must_show_in_the_job() {
    let mut run = collected(CollectionStatus::Completed);
    assert!(matches!(
        run.on_final_control(Some(ExecutionControl::Pause), "now"),
        JobStep::ReadStatus
    ));
    assert_eq!(done(run.on_status(Some("paused".into()))).status, "paused");
    let mut run = collected(CollectionStatus::Completed);
    run.on_final_control(Some(ExecutionControl::Cancel), "now");
    assert_eq!(
        aborted(run.on_status(Some("running".into()))).0,
        "control cancelled acknowledged with job status running"
    );
    let mut run = collected(CollectionStatus::Paused);
    assert!(matches!(run.on_final_control(None, "now"), JobStep::ReadStatus));
    assert_eq!(done(run.on_status(Some("paused".into()))).status, "paused");
}

#[test]
fn shutdown_makes_jobs_pending_again() {
    let mut run = collected(CollectionStatus::Completed);
    match run.on_final_control(Some(ExecutionControl::Shutdown), "now") {
        JobStep::Interrupt { request, kill } => {
            assert!(!kill);
            assert_eq!(request.next_status, SyncJobStatus::Interrupted);
            assert_eq!(request.error.as_deref(), Some("application shutdown"));
        }
        _ => panic!("not interrupted"),
    }
    assert_eq!(done(run.on_interrupted(true)).status, "pending");
    let mut run = JobRun::claimed("me".into(), posts_job());
    run.on_created(Some(6));
    run.on_owned(1);
    run.on_options(Ok(()), "now");
    match run.on_reserved(Err(Error::InconsistentTask("x".into())), true, "now") {
        JobStep::Interrupt { request, kill: false } => assert_eq!(
            request.error.as_deref(),
            Some("application shutdown before sidecar startup")
        ),
        _ => panic!("not interrupted"),
    }
    assert!(matches!(run.on_interrupted(false), JobStep::ReadStatus));
    assert_eq!(done(run.on_status(Some("pending".into()))).status, "pending");
}

#[test]
fn limited_jobs_carry_their_limit() {
    let mut run = collecting();
    let mut limited = summary(CollectionStatus::RateLimited);
    limited.rate_limit =
        Some(RateLimitInfo { scope: RateLimitScope::Account, retry_after_ms: Some(5) });
    run.on_collected(Ok(limited), "now");
    match run.on_final_control(None, "now") {
        JobStep::RateLimit { request, info } => {
            assert_eq!(request.error.as_deref(), Some("rate limited"));
            assert_eq!(info.retry_after_ms, Some(5));
        }
        _ => panic!("no limit"),
    }
    assert_eq!(done(run.on_rate_limited(77)).status, "pending");
    let mut run = collected(CollectionStatus::RateLimited);
    assert_eq!(
        aborted(run.on_final_control(None, "now")).0,
        "rate-limited summary missing structured info"
    );
}

#[test]
fn failures_before_the_collection_are_recorded() {
    let mut run = JobRun::claimed("me".into(), posts_job());
    assert_eq!(aborted(run.on_created(None)).0, "failed to create owned sync run");
    let mut run = JobRun::claimed("me".into(), posts_job());
    run.on_created(Some(6));
    assert_eq!(
        aborted(run.on_owned(0)),
        ("sync job 5 ownership was fenced".to_string(), false)
    );
    let mut run = JobRun::claimed("me".into(), posts_job());
    run.on_created(Some(6));
    run.on_owned(1);
    match run.on_options(Err(Error::FormatError("no session".into())), "now") {
        JobStep::FailRun { request, error } => {
            assert_eq!(request.next_status, SyncJobStatus::Failed);
            assert_eq!(request.error.as_deref(), Some("no session"));
            assert_eq!(error.message(), "no session");
        }
        _ => panic!("not failed"),
    }
    let handshaking = || {
        let mut run = JobRun::claimed("me".into(), posts_job());
        run.on_created(Some(6));
        run.on_owned(1);
        run.on_options(Ok(()), "now");
        run.on_reserved(Ok(()), false, "now");
        run
    };
    match handshaking().on_handshake(Err(SidecarError::SidecarNotFound), "now") {
        JobStep::FailRun { request, .. } => {
            assert_eq!(request.error.as_deref(), Some("sidecar executable not found"))
        }
        _ => panic!("not failed"),
    }
    assert!(matches!(
        handshaking().on_handshake(Err(SidecarError::HandshakeCancelled), "now"),
        JobStep::Interrupt { kill: false, .. }
    ));
    let mut run = handshaking();
    run.on_handshake(Ok(()), "now");
    assert_eq!(aborted(run.on_owned(2)).1, true);
    let mut run = handshaking();
    run.on_handshake(Ok(()), "now");
    run.on_owned(1);
    assert!(matches!(
        run.on_activated(Ok(ActivationOutcome::Shutdown), "now"),
        JobStep::Interrupt { kill: true, .. }
    ));
    let mut run = collecting();
    assert!(matches!(
        run.on_collected(Err(Error::DbError("x".into())), "now"),
        JobStep::FailRun { .. }
    ));
}
