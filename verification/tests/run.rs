use weiback::error::Error;
use weiback::json::Json;
use weiback::sidecar::collector::{
    CollectionRequest, CollectionStatus, CollectionSummary, ExecutionControl,
    ExecutionControlRequest, PersistentExecution, RateLimitScope,
};
use weiback::sidecar::protocol::{
    new_uuid_v7, parse_command_line, CommandEnvelope, CommandType, EventEnvelope, EventType,
    MAX_MESSAGE_BYTES,
};
use weiback::sidecar::run::{
    control_status, controlled_status_from_db, run_collection, run_collection_cancellable,
    run_collection_interruptible, run_collection_persistent, CollectionRun, RunAction,
};
use weiback::sidecar::supervisor::{
    bundled_sidecar_name, collection_spawn_options, command_line_for, duration_text, exit_step,
    handshake_receive_error, hello_command, resolve_sidecar_command, shutdown_command, sort_line,
    ExitStep, Handshake, HandshakeFailure, HandshakeStep, LineOutcome, SidecarError,
};
use weiback::storage::internal::entities::CheckpointOwner;
use weiback::storage::internal::transactional::CommitPlan;

fn json(text: &str) -> Json {
    Json::parse(text).unwrap()
}

fn request() -> CollectionRequest {
    CollectionRequest {
        command_type: CommandType::CollectUserPosts,
        stream: "user:1:posts".into(),
        payload: json(r#"{"uid":"1"}"#),
    }
}

fn execution() -> PersistentExecution {
    PersistentExecution {
        job_id: 5,
        run_id: 6,
        generation: 7,
        owner_token: "me".into(),
        checkpoint_stream: "account:1:user:1:posts".into(),
        poll_interval_ms: 100,
        heartbeat_interval_ms: 1000,
        lease_secs: 10,
    }
}

fn event(kind: EventType, sequence: u64, payload: &str) -> EventEnvelope {
    EventEnvelope {
        protocol_version: 1,
        request_id: Some("r".into()),
        event_id: format!("e{sequence}"),
        event_type: kind,
        stream: Some("user:1:posts".into()),
        sequence: Some(sequence),
        total_expected: Some(40),
        occurred_at: "t".into(),
        payload: json(payload),
    }
}

fn plain() -> CollectionRun {
    run_collection(request(), None, "r".into(), 5000, 1000).0
}

fn durable() -> CollectionRun {
    run_collection_persistent(request(), None, "r".into(), execution(), 5000, 1000).0
}

fn receiving(mut run: CollectionRun) -> CollectionRun {
    let mut action = run.on_tick(false, None, 1000);
    if let RunAction::RenewLease = action {
        action = run.on_heartbeat(true, 1000);
    }
    assert!(matches!(action, RunAction::Receive { .. }));
    run
}

fn send(run: &mut CollectionRun, kind: EventType, sequence: u64, payload: &str) -> RunAction {
    run.on_event(event(kind, sequence, payload), "now", 1100)
}

fn finished(action: RunAction) -> CollectionSummary {
    match action {
        RunAction::Finish(summary) => summary,
        RunAction::Fail(e) => panic!("failed: {}", e.message()),
        _ => panic!("not finished"),
    }
}

fn failure(action: RunAction) -> String {
    match action {
        RunAction::Fail(Error::FormatError(m)) => m,
        _ => panic!("not failed"),
    }
}

fn committed(action: RunAction) -> CommitPlan {
    match action {
        RunAction::Commit(plan) => plan,
        _ => panic!("not a commit"),
    }
}

const PAGE: &str =
    r#"{"cursor":{"max_id":"p1","max_id_type":0},"fetched_count":20,"has_more":true}"#;

#[test]
fn commands_carry_the_checkpoint() {
    let (run, command) = run_collection(
        request(),
        Some(json(r#"{"max_id":"p","fetched_count":12}"#)),
        "r".into(),
        5000,
        1000,
    );
    assert_eq!(command.request_id, "r");
    assert_eq!(command.payload.str_field("uid"), Some("1"));
    assert_eq!(command.payload.get("checkpoint").unwrap().str_field("max_id"), Some("p"));
    assert_eq!(run.summary.fetched_count, 12);
    assert_eq!(run.deadline_ms, 6000);
    let mut bare = request();
    bare.payload = Json::Null;
    let (_, command) = run_collection(bare, Some(json("{}")), "r".into(), 1, 1);
    assert!(command.payload.get("checkpoint").unwrap().is_object());
}

#[test]
fn pages_are_committed_and_counted() {
    let mut run = receiving(plain());
    assert!(matches!(send(&mut run, EventType::User, 1, r#"{"id":"1"}"#), RunAction::Poll));
    run = receiving(run);
    assert!(matches!(
        send(&mut run, EventType::Post, 2, r#"{"id":"9","uid":"1"}"#),
        RunAction::Poll
    ));
    run = receiving(run);
    send(&mut run, EventType::Comment, 3, r#"{"id":"4","post_id":"9"}"#);
    run = receiving(run);
    send(&mut run, EventType::MediaReference, 4, r#"{"url":"https://a.example/x.jpg"}"#);
    assert!(!run.batch.is_empty());
    run = receiving(run);
    let plan = committed(send(&mut run, EventType::Checkpoint, 5, PAGE));
    assert_eq!(
        (plan.users.len(), plan.posts.len(), plan.comments.len(), plan.media.len()),
        (1, 1, 1, 1)
    );
    assert_eq!(plan.sequence, 5);
    assert_eq!(plan.event_id, "e5");
    assert_eq!(plan.checkpoint.fetched_count, 20);
    assert_eq!(plan.checkpoint.owner, CheckpointOwner::AdHoc);
    assert!(run.batch.is_empty());
    assert!(matches!(
        run.on_committed(Ok(())),
        RunAction::Report { fetched_count: 20, total: 40 }
    ));
    run = receiving(run);
    let summary = finished(send(&mut run, EventType::Done, 6, r#"{"status":"completed"}"#));
    assert_eq!(summary.status, CollectionStatus::Completed);
    assert_eq!((summary.fetched_count, summary.pages), (20, 1));
}

#[test]
fn durable_checkpoints_name_their_owner() {
    let mut run = receiving(durable());
    let plan = committed(send(&mut run, EventType::Checkpoint, 1, PAGE));
    assert_eq!(plan.stream, "account:1:user:1:posts");
    assert_eq!(plan.checkpoint.job_id, Some(5));
    assert_eq!(
        plan.checkpoint.owner,
        CheckpointOwner::Persistent { run_id: 6, generation: 7, owner_token: "me".into() }
    );
    assert!(matches!(run.on_committed(Err(Error::DbError("x".into()))), RunAction::ReadJob));
    assert!(matches!(run.on_job(Some("paused")), RunAction::Kill { ticket: None }));
    assert_eq!(finished(run.on_killed(Ok(()))).status, CollectionStatus::Paused);
    let mut run = receiving(durable());
    committed(send(&mut run, EventType::Checkpoint, 1, PAGE));
    run.on_committed(Err(Error::DbError("x".into())));
    assert!(matches!(run.on_job(Some("running")), RunAction::Fail(Error::DbError(_))));
    let mut run = receiving(plain());
    committed(send(&mut run, EventType::Checkpoint, 1, PAGE));
    assert!(matches!(
        run.on_committed(Err(Error::DbError("x".into()))),
        RunAction::Fail(Error::DbError(_))
    ));
}

#[test]
fn foreign_and_reordered_events_fail_the_run() {
    let refuse = |change: fn(&mut EventEnvelope)| {
        let mut run = receiving(plain());
        let mut e = event(EventType::Progress, 1, "{}");
        change(&mut e);
        failure(run.on_event(e, "now", 1100))
    };
    assert_eq!(refuse(|e| e.request_id = None), "sidecar event request_id mismatch");
    assert_eq!(
        refuse(|e| e.request_id = Some("x".into())),
        "sidecar event request_id mismatch"
    );
    assert_eq!(refuse(|e| e.stream = None), "sidecar event stream missing");
    assert_eq!(
        refuse(|e| e.stream = Some("s".into())),
        "sidecar event stream mismatch: expected user:1:posts, got s"
    );
    assert_eq!(refuse(|e| e.sequence = None), "sidecar event sequence missing");
    assert_eq!(
        refuse(|e| e.sequence = Some(2)),
        "sidecar event sequence gap or reordering: expected 1, got 2"
    );
    let mut run = receiving(plain());
    assert!(matches!(send(&mut run, EventType::Progress, 1, "{}"), RunAction::Poll));
    run = receiving(run);
    assert_eq!(
        failure(send(&mut run, EventType::Progress, 1, "{}")),
        "sidecar event sequence gap or reordering: expected 2, got 1"
    );
}

#[test]
fn broken_payloads_fail_the_run() {
    let broken = |kind: EventType, payload: &str| {
        let mut run = receiving(plain());
        failure(send(&mut run, kind, 1, payload))
    };
    assert_eq!(broken(EventType::User, "{}"), "invalid user event e1");
    assert_eq!(broken(EventType::Post, "{}"), "post.id missing");
    assert_eq!(broken(EventType::Comment, "{}"), "comment.id missing");
    assert_eq!(broken(EventType::Comment, r#"{"id":1}"#), "comment.post_id missing");
    assert_eq!(broken(EventType::MediaReference, "{}"), "media_reference.url missing");
    assert_eq!(broken(EventType::Checkpoint, "{}"), "invalid checkpoint cursor");
    assert_eq!(broken(EventType::Done, "{}"), "sidecar done status missing");
    assert_eq!(
        broken(EventType::Done, r#"{"status":"x"}"#),
        "invalid sidecar done status: x"
    );
    assert_eq!(broken(EventType::RateLimited, "{}"), "rate-limit scope missing");
    assert_eq!(
        broken(EventType::RateLimited, r#"{"scope":"x"}"#),
        "unknown rate-limit scope: x"
    );
}

#[test]
fn done_with_uncommitted_data_fails() {
    let mut run = receiving(plain());
    send(&mut run, EventType::User, 1, r#"{"id":"1"}"#);
    run = receiving(run);
    assert_eq!(
        failure(send(&mut run, EventType::Done, 2, r#"{"status":"completed"}"#)),
        "sidecar completed with uncommitted data after the last checkpoint"
    );
}

#[test]
fn sidecars_can_end_a_run() {
    let end = |kind: EventType, payload: &str| {
        let mut run = receiving(plain());
        finished(send(&mut run, kind, 1, payload))
    };
    assert_eq!(end(EventType::Cancelled, "{}").status, CollectionStatus::Stopped);
    let summary = end(EventType::Error, r#"{"code":"X","message":"m"}"#);
    assert_eq!(summary.status, CollectionStatus::Failed);
    assert_eq!(summary.error.as_deref(), Some("X: m"));
    let summary = end(EventType::Error, r#"{"code":"REQUEST_CANCELLED"}"#);
    assert_eq!(summary.status, CollectionStatus::Stopped);
    assert_eq!(summary.error.as_deref(), Some("REQUEST_CANCELLED: "));
    assert_eq!(end(EventType::Error, "{}").error.as_deref(), Some("UNKNOWN: "));
    let summary = end(EventType::AuthRequired, "{}");
    assert_eq!(summary.status, CollectionStatus::Failed);
    assert_eq!(summary.error.as_deref(), Some("auth required"));
}

#[test]
fn limits_end_durable_runs_only() {
    let limit = r#"{"scope":"endpoint","retry_after_ms":1500}"#;
    let mut run = receiving(plain());
    assert!(matches!(send(&mut run, EventType::RateLimited, 1, limit), RunAction::Poll));
    assert_eq!(run.summary.rate_limit.unwrap().retry_after_ms, Some(1500));
    let mut run = receiving(durable());
    assert!(matches!(
        send(&mut run, EventType::RateLimited, 1, limit),
        RunAction::Kill { ticket: None }
    ));
    let summary = finished(run.on_killed(Ok(())));
    assert_eq!(summary.status, CollectionStatus::RateLimited);
    assert_eq!(summary.rate_limit.unwrap().scope, RateLimitScope::Endpoint);
}

#[test]
fn stop_flags_and_controls_kill_the_sidecar() {
    let mut run = run_collection_cancellable(request(), None, "r".into(), 5000, 1000).0;
    assert!(matches!(run.on_tick(true, None, 1000), RunAction::Kill { ticket: None }));
    assert_eq!(finished(run.on_killed(Ok(()))).status, CollectionStatus::Cancelled);
    let mut run = run_collection_interruptible(request(), None, "r".into(), 5000, 1000).0;
    assert!(matches!(run.on_tick(true, None, 1000), RunAction::Kill { ticket: None }));
    assert_eq!(finished(run.on_killed(Ok(()))).status, CollectionStatus::Interrupted);
    let mut run = plain();
    assert!(matches!(
        run.on_tick(true, None, 1000),
        RunAction::Receive { timeout_ms: 5000 }
    ));
    let mut run = durable();
    let control = ExecutionControlRequest { action: ExecutionControl::Pause, ticket: 3 };
    assert!(matches!(
        run.on_tick(false, Some(control), 1000),
        RunAction::Kill { ticket: Some(3) }
    ));
    assert_eq!(finished(run.on_killed(Ok(()))).status, CollectionStatus::Paused);
    let mut run = durable();
    run.on_tick(false, Some(control), 1000);
    assert_eq!(failure(run.on_killed(Err("stuck".into()))), "stuck");
    assert_eq!(control_status(ExecutionControl::Cancel), CollectionStatus::Cancelled);
    assert_eq!(control_status(ExecutionControl::Shutdown), CollectionStatus::Shutdown);
}

#[test]
fn lost_leases_end_by_the_job() {
    let mut run = durable();
    assert!(matches!(run.on_tick(false, None, 1000), RunAction::RenewLease));
    assert!(matches!(run.on_heartbeat(true, 1000), RunAction::Receive { timeout_ms: 100 }));
    assert_eq!(run.next_heartbeat_ms, 2000);
    let mut run = durable();
    run.on_tick(false, None, 1000);
    assert!(matches!(run.on_heartbeat(false, 1000), RunAction::AwaitControl));
    assert!(matches!(run.on_control(None), RunAction::Kill { ticket: None }));
    assert!(matches!(run.on_killed(Ok(())), RunAction::ReadJob));
    assert_eq!(finished(run.on_job(Some("cancelled"))).status, CollectionStatus::Cancelled);
    let mut run = durable();
    run.on_tick(false, None, 1000);
    run.on_heartbeat(false, 1000);
    let control = ExecutionControlRequest { action: ExecutionControl::Shutdown, ticket: 8 };
    assert!(matches!(run.on_control(Some(control)), RunAction::Kill { ticket: Some(8) }));
    assert_eq!(finished(run.on_killed(Ok(()))).status, CollectionStatus::Shutdown);
    assert_eq!(
        controlled_status_from_db(1, Some("running")).unwrap(),
        CollectionStatus::Interrupted
    );
    assert!(matches!(
        controlled_status_from_db(1, None),
        Err(Error::InconsistentTask(m)) if m == "sync job 1 not found"
    ));
}

#[test]
fn silence_interrupts_a_run() {
    let mut run = plain();
    let summary = finished(run.on_tick(false, None, 6000));
    assert_eq!(summary.status, CollectionStatus::Interrupted);
    assert_eq!(summary.error.as_deref(), Some("sidecar event receive timed out"));
    let mut run = receiving(plain());
    let summary = finished(run.on_receive_failure(&SidecarError::RecvTimeout(5)));
    assert_eq!(summary.status, CollectionStatus::Interrupted);
    let mut run = receiving(durable());
    assert!(matches!(
        run.on_receive_failure(&SidecarError::RecvTimeout(5)),
        RunAction::Poll
    ));
    let mut run = receiving(plain());
    let exited = SidecarError::Exited { code: Some(3), detail: "d".into() };
    assert_eq!(
        finished(run.on_receive_failure(&exited)).error.as_deref(),
        Some("sidecar exited with code Some(3)")
    );
    let mut run = receiving(plain());
    assert_eq!(
        finished(run.on_receive_failure(&SidecarError::StdoutClosed)).error.as_deref(),
        Some("sidecar error: sidecar stdout closed")
    );
}

#[test]
fn events_move_the_deadline() {
    let mut run = receiving(plain());
    run.on_event(event(EventType::Progress, 1, "{}"), "now", 4000);
    assert_eq!(run.deadline_ms, 9000);
    assert!(matches!(
        run.on_tick(false, None, 8000),
        RunAction::Receive { timeout_ms: 1000 }
    ));
}

#[test]
fn sidecar_programs_are_found_in_order() {
    let some = |s: &str| Some(s.to_string());
    assert_eq!(resolve_sidecar_command(some("c"), true, some("b"), true), some("c"));
    assert_eq!(resolve_sidecar_command(some("c"), false, some("b"), true), some("b"));
    assert_eq!(resolve_sidecar_command(some("c"), false, some("b"), false), None);
    assert_eq!(resolve_sidecar_command(None, true, some("b"), true), some("b"));
    assert_eq!(bundled_sidecar_name(true), "weiback-collector.exe");
    assert_eq!(bundled_sidecar_name(false), "weiback-collector");
}

#[test]
fn sessions_go_by_environment_only() {
    let options =
        collection_spawn_options(Some("p".into()), Some(" -m  weiback "), "/s.json").unwrap();
    assert_eq!(options.args, vec!["-m", "weiback"]);
    assert_eq!(
        options.env,
        vec![
            ("PYTHONUTF8".to_string(), "1".to_string()),
            ("WEIBACK_COLLECTOR_SESSION_PATH".to_string(), "/s.json".to_string()),
        ]
    );
    assert_eq!(options.handshake_timeout_ms, 10_000);
    assert!(matches!(
        collection_spawn_options(None, None, "/s"),
        Err(SidecarError::SidecarNotFound)
    ));
}

#[test]
fn output_lines_are_sorted() {
    assert!(matches!(sort_line("  "), LineOutcome::Discarded));
    assert!(matches!(sort_line("Traceback"), LineOutcome::Discarded));
    assert!(matches!(sort_line("[1]"), LineOutcome::Discarded));
    assert!(matches!(
        sort_line(r#"{"protocol_version":2}"#),
        LineOutcome::Broken(SidecarError::Protocol(_))
    ));
    let line = format!(
        r#"{{"protocol_version":1,"event_id":"{}","type":"ready","occurred_at":"t","payload":{{}}}}"#,
        new_uuid_v7()
    );
    assert!(matches!(sort_line(&line), LineOutcome::Event(_)));
}

#[test]
fn commands_are_framed_as_lines() {
    let hello = hello_command(new_uuid_v7());
    let line = command_line_for(&hello).unwrap();
    assert_eq!(parse_command_line(&line).unwrap(), hello);
    assert_eq!(hello.payload.str_field("client_name"), Some("weiback-next"));
    assert_eq!(shutdown_command("x".into(), 250).payload.u64_field("grace_ms"), Some(250));
    let mut payload = Json::empty_object();
    payload.insert("x", Json::Text("a".repeat(MAX_MESSAGE_BYTES)));
    let large = CommandEnvelope::new(new_uuid_v7(), CommandType::Health, payload);
    assert!(matches!(command_line_for(&large), Err(SidecarError::CommandTooLarge)));
}

#[test]
fn sidecars_are_killed_after_their_grace() {
    assert_eq!(exit_step(true, 0, 5000), ExitStep::Exited);
    assert_eq!(exit_step(false, 6999, 5000), ExitStep::Wait(50));
    assert_eq!(exit_step(false, 7000, 5000), ExitStep::Kill);
    assert_eq!(exit_step(false, 100, u64::MAX), ExitStep::Wait(50));
}

#[test]
fn handshakes_need_both_payloads() {
    let (mut handshake, step) = Handshake::start(500).next(100);
    assert!(matches!(step, HandshakeStep::Wait(400)));
    assert!(handshake.receive(event(EventType::Ready, 1, r#"{"a":1}"#)).is_none());
    assert!(handshake.receive(event(EventType::Warning, 2, "{}")).is_none());
    let (mut handshake, step) = handshake.next(200);
    assert!(matches!(step, HandshakeStep::Wait(300)));
    assert!(handshake.receive(event(EventType::Capabilities, 3, r#"{"b":2}"#)).is_none());
    match handshake.next(9000).1 {
        HandshakeStep::Complete(ready, capabilities) => {
            assert_eq!(ready.u64_field("a"), Some(1));
            assert_eq!(capabilities.u64_field("b"), Some(2));
        }
        _ => panic!("not complete"),
    }
    match Handshake::start(500).next(500).1 {
        HandshakeStep::Fail { error: SidecarError::HandshakeTimeout(500), kill: true } => {}
        _ => panic!("no timeout"),
    }
    let mut handshake = Handshake::start(500);
    let failure = handshake.receive(event(EventType::Error, 1, r#"{"code":"X"}"#)).unwrap();
    assert!(failure.kill);
    assert_eq!(
        failure.error.message(),
        r#"sidecar handshake failed: sidecar reported error: {"code":"X"}"#
    );
    assert!(matches!(
        handshake_receive_error(SidecarError::RecvTimeout(1), 500),
        HandshakeFailure { error: SidecarError::HandshakeTimeout(500), kill: true }
    ));
    assert!(matches!(
        handshake_receive_error(SidecarError::StdoutClosed, 500),
        HandshakeFailure { error: SidecarError::StdoutClosed, kill: false }
    ));
}

#[test]
fn durations_read_like_those_of_the_standard_library() {
    for ms in [0, 1, 9, 10, 100, 999, 1000, 1001, 1010, 1050, 1100, 1234, 1500, 10_000, 61_090] {
        assert_eq!(duration_text(ms), format!("{:?}", std::time::Duration::from_millis(ms)));
    }
    let most = u64::MAX;
    assert_eq!(duration_text(most), format!("{:?}", std::time::Duration::from_millis(most)));
}

#[test]
fn sidecar_errors_read_well() {
    assert_eq!(
        SidecarError::HandshakeTimeout(10_000).message(),
        "sidecar handshake timed out after 10s"
    );
    assert_eq!(
        SidecarError::RecvTimeout(150).message(),
        "sidecar event receive timed out after 150ms"
    );
    assert_eq!(
        SidecarError::Exited { code: None, detail: "gone".into() }.message(),
        "sidecar exited with code None: gone"
    );
    assert_eq!(SidecarError::Io("x".into()).message(), "io error: x");
    assert_eq!(
        SidecarError::CommandTooLarge.message(),
        "command line exceeds 131072 bytes"
    );
}
