use weiback::commands::backend::{
    perform_init_backend, setup, sidecar_diagnostics, BackendStatus, GreetingOutcome, InitOutcome,
};
use weiback::commands::error::{sync_core_error, INVALID_SYNC_INPUT, SYNC_OPERATION_FAILED};
use weiback::commands::sync::{
    account_wire, enqueue_sync_job, monitored_user_wire, safe_worker_stop, save_monitored_user,
    save_sync_account, sync_control_wire, sync_job_wire, sync_run_wire, validate_account_input,
    validate_job_spec, validate_monitor_input, validate_session_ref, AccountWireDto,
    ControlStopWireResult, SaveMonitoredUserInput, SaveSyncAccountInput, SyncJobCommandSpec,
    SyncJobControlWireOutcome, SyncJobWireDto, SyncRunWireDto, WeiboId,
};
use weiback::json::Json;
use weiback::service::shutdown::SyncJobControlOutcome;
use weiback::sidecar::supervisor::SidecarError;
use weiback::storage::internal::entities::{
    AccountDto, MonitoredUserDto, RefreshTier, SyncJobDto, SyncJobSpec, SyncRunDto,
};
use weiback::sync_executor::ControlStopResult;

fn wire_job() -> SyncJobWireDto {
    SyncJobWireDto {
        id: i64::MAX.to_string(),
        resource_key: "user:1".into(),
        name: "Collect".into(),
        kind: "collect_user_posts".into(),
        status: "pending".into(),
        priority: "1".into(),
        schedule_config: None,
        enabled: true,
        recovery_count: "0".into(),
        max_recovery_attempts: "3".into(),
        available_at: None,
        available_at_epoch: "0".into(),
        claimed_at: None,
        current_run_id: Some(i64::MAX.to_string()),
        created_at: "2026-01-01T00:00:00Z".into(),
        updated_at: None,
        account_id: i64::MAX.to_string(),
        endpoint_key: "posts".into(),
    }
}

#[test]
fn sync_wire_dtos_stringify_large_ids_and_exclude_sensitive_fields() {
    let account = AccountWireDto {
        id: i64::MAX.to_string(),
        provider: "weibo".into(),
        uid: i64::MAX.to_string(),
        display_name: Some("Alice".into()),
        enabled: true,
        has_session: true,
        created_at: "2026-01-01T00:00:00Z".into(),
        updated_at: None,
    };
    let run = SyncRunWireDto {
        id: i64::MAX.to_string(),
        job_id: i64::MAX.to_string(),
        status: "running".into(),
        started_at: "2026-01-01T00:00:00Z".into(),
        finished_at: None,
        stats_json: None,
        attempt: "1".into(),
        updated_at: None,
    };

    let account_json = account.to_wire();
    let job_json = wire_job().to_wire();
    let run_json = run.to_wire();
    let largest = i64::MAX.to_string();
    assert_eq!(account_json.str_field("id"), Some(largest.as_str()));
    assert_eq!(job_json.str_field("current_run_id"), Some(largest.as_str()));
    assert_eq!(run_json.str_field("job_id"), Some(largest.as_str()));
    for value in [&account_json, &job_json, &run_json] {
        assert!(value.is_object());
        for forbidden in [
            "session_ref",
            "owner_token",
            "lease_until_epoch",
            "generation",
            "endpoint_gate_revision",
            "account_gate_revision",
            "payload_json",
            "error",
        ] {
            assert!(value.get(forbidden).is_none(), "found {forbidden}");
        }
    }

    let control_json = SyncJobControlWireOutcome {
        job: wire_job(),
        worker_stop: ControlStopWireResult::WorkerStarting,
    }
    .to_wire();
    assert_eq!(
        control_json.get("worker_stop").unwrap().str_field("status"),
        Some("worker_starting")
    );
    assert_eq!(control_json.get("job").unwrap().str_field("id"), Some(largest.as_str()));
}

#[test]
fn sync_inputs_have_only_public_editable_fields() {
    let account = SaveSyncAccountInput {
        id: Some(WeiboId(9_007_199_254_740_993)),
        provider: "weibo".into(),
        uid: "123".into(),
        display_name: Some("Alice".into()),
        session_ref: Some("sessions/alice.json".into()),
        enabled: true,
    };
    assert_eq!(i64::from(account.id.unwrap()), 9_007_199_254_740_993_i64);

    let patch = SaveSyncAccountInput {
        id: Some(WeiboId(1)),
        provider: "weibo".into(),
        uid: "123".into(),
        display_name: Some("Renamed".into()),
        session_ref: None,
        enabled: false,
    };
    assert!(patch.session_ref.is_none());

    let user = SaveMonitoredUserInput {
        account_id: WeiboId(1),
        uid: WeiboId(9_007_199_254_740_993),
        screen_name: Some("Alice".into()),
        refresh_strategy: "scheduled".into(),
        enabled: true,
        tier: RefreshTier::Hot,
        interval_secs: 60,
        jitter_secs: 5,
    };
    assert_eq!(i64::from(user.uid), 9_007_199_254_740_993_i64);
}

fn monitor() -> SaveMonitoredUserInput {
    SaveMonitoredUserInput {
        account_id: WeiboId(1),
        uid: WeiboId(2),
        screen_name: None,
        refresh_strategy: "hot".into(),
        enabled: true,
        tier: RefreshTier::Hot,
        interval_secs: 60,
        jitter_secs: 5,
    }
}

fn new_account() -> SaveSyncAccountInput {
    SaveSyncAccountInput {
        id: None,
        provider: "weibo".into(),
        uid: "2".into(),
        display_name: None,
        session_ref: Some("sessions/alice.json".into()),
        enabled: true,
    }
}

#[test]
fn sync_boundary_validation_rejects_unsafe_paths_and_bad_ranges() {
    for path in ["../session.json", "/session.json", "C:\\session.json", "\\\\host\\session.json"] {
        assert!(validate_session_ref(path).is_err(), "accepted {path}");
    }
    assert!(validate_session_ref("sessions/alice.json").is_ok());
    let mut account = new_account();
    assert!(validate_account_input(&account).is_ok());
    account.provider.clear();
    assert!(validate_account_input(&account).is_err());

    let mut monitor = monitor();
    assert!(validate_monitor_input(&monitor).is_ok());
    monitor.refresh_strategy = "scheduled".into();
    assert!(validate_monitor_input(&monitor).is_err());
    monitor.refresh_strategy = "hot".into();
    monitor.jitter_secs = 61;
    assert!(validate_monitor_input(&monitor).is_err());

    let spec = SyncJobCommandSpec::CollectUserPosts {
        account_id: WeiboId(1),
        uid: WeiboId(2),
        max_pages: Some(1001),
        priority: 1,
    };
    assert!(validate_job_spec(&spec).is_err());
    let negative = SyncJobCommandSpec::CollectComments {
        account_id: WeiboId(-1),
        post_id: WeiboId(2),
        max_pages: Some(1),
        priority: 1,
    };
    assert!(validate_job_spec(&negative).is_err());
}

#[test]
fn sync_worker_failure_is_mapped_without_detail() {
    let mapped = safe_worker_stop(ControlStopResult::StopFailed("secret db path".into()));
    let json = mapped.to_wire();
    assert_eq!(json.str_field("detail"), Some(SYNC_OPERATION_FAILED));
    assert!(!json.to_text().contains("secret db path"));
}

#[test]
fn session_references_at_the_edges() {
    for path in ["", "a\0b", "a/..", "a\\..\\b", "\u{e9}:x", "x:"] {
        let refused = validate_session_ref(path).is_err();
        assert_eq!(refused, path != "\u{e9}:x", "{path:?}");
    }
    for path in ["a", "..a", "a/..b/c", "a.json", "ab:"] {
        assert!(validate_session_ref(path).is_ok(), "{path:?}");
    }
}

#[test]
fn lengths_of_account_inputs_are_bounded() {
    let mut input = new_account();
    input.provider = "p".repeat(64);
    input.uid = "u".repeat(128);
    assert!(validate_account_input(&input).is_ok());
    input.uid = "u".repeat(129);
    assert_eq!(validate_account_input(&input).unwrap_err().0, INVALID_SYNC_INPUT);
    input.uid = " \t".into();
    assert!(validate_account_input(&input).is_err());
}

#[test]
fn jobs_are_queued_as_asked() {
    let spec = SyncJobCommandSpec::CollectCommentReplies {
        account_id: WeiboId(1),
        post_id: WeiboId(2),
        root_comment_id: WeiboId(3),
        max_pages: Some(1000),
        priority: 1000,
    };
    assert_eq!(
        enqueue_sync_job(spec).unwrap(),
        SyncJobSpec::CollectCommentReplies {
            account_id: 1,
            post_id: 2,
            root_comment_id: 3,
            max_pages: Some(1000),
            priority: 1000,
        }
    );
    let spec = SyncJobCommandSpec::CollectCommentReplies {
        account_id: WeiboId(1),
        post_id: WeiboId(2),
        root_comment_id: WeiboId(0),
        max_pages: None,
        priority: 0,
    };
    assert_eq!(enqueue_sync_job(spec).unwrap_err().0, "Invalid sync input");
    let spec = SyncJobCommandSpec::CollectUserPosts {
        account_id: WeiboId(1),
        uid: WeiboId(2),
        max_pages: None,
        priority: -1,
    };
    assert!(enqueue_sync_job(spec).is_err());
}

fn stored() -> AccountDto {
    AccountDto {
        id: 5,
        provider: "weibo".into(),
        uid: "2".into(),
        display_name: Some("old".into()),
        session_ref: "old.json".into(),
        enabled: true,
        created_at: "then".into(),
        updated_at: Some("later".into()),
    }
}

#[test]
fn accounts_are_created_once_and_edited_in_place() {
    let existing = vec![stored()];
    let made = save_sync_account(new_account(), &Vec::new()).unwrap();
    assert_eq!(made.id, 0);
    assert_eq!(made.session_ref, "sessions/alice.json");
    assert_eq!(
        save_sync_account(new_account(), &existing).unwrap_err().0,
        "An account with this provider and uid already exists"
    );
    let mut bare = new_account();
    bare.session_ref = None;
    assert_eq!(
        save_sync_account(bare, &Vec::new()).unwrap_err().0,
        "A session reference is required when creating an account"
    );
    let mut edit = new_account();
    edit.id = Some(WeiboId(5));
    edit.session_ref = None;
    edit.enabled = false;
    let edited = save_sync_account(edit, &existing).unwrap();
    assert_eq!(edited.session_ref, "old.json");
    assert_eq!(edited.display_name, None);
    assert_eq!(edited.created_at, "then");
    assert!(!edited.enabled);
    let mut edit = new_account();
    edit.id = Some(WeiboId(5));
    edit.uid = "3".into();
    assert_eq!(
        save_sync_account(edit, &existing).unwrap_err().0,
        "Account provider and uid cannot be changed"
    );
    let mut edit = new_account();
    edit.id = Some(WeiboId(6));
    assert_eq!(save_sync_account(edit, &existing).unwrap_err().0, "Account not found");
}

#[test]
fn monitored_users_keep_their_history() {
    let known = MonitoredUserDto {
        account_id: 1,
        uid: 2,
        screen_name: Some("old".into()),
        refresh_strategy: "cold".into(),
        enabled: false,
        last_refreshed_at: Some("r".into()),
        created_at: "c".into(),
        updated_at: Some("u".into()),
        tier: RefreshTier::Cold,
        interval_secs: 9,
        jitter_secs: 1,
        next_refresh_epoch: 77,
        last_refresh_epoch: Some(66),
    };
    let fresh = save_monitored_user(monitor(), &Vec::new(), 123).unwrap();
    assert_eq!(fresh.next_refresh_epoch, 123);
    assert_eq!(fresh.created_at, "");
    let edited = save_monitored_user(monitor(), &vec![known], 123).unwrap();
    assert_eq!(edited.next_refresh_epoch, 77);
    assert_eq!(edited.last_refresh_epoch, Some(66));
    assert_eq!(edited.tier, RefreshTier::Hot);
    assert_eq!(edited.screen_name, None);
    let wire = monitored_user_wire(edited);
    assert_eq!(wire.next_refresh_epoch, "77");
    assert_eq!(wire.last_refresh_epoch.as_deref(), Some("66"));
    let mut bad = monitor();
    bad.interval_secs = 604_801;
    assert!(save_monitored_user(bad, &Vec::new(), 0).is_err());
}

#[test]
fn rows_reach_the_window_without_secrets() {
    let wire = account_wire(stored());
    assert_eq!(wire.id, "5");
    assert!(wire.has_session);
    assert!(!wire.to_wire().to_text().contains("old.json"));
    let run = sync_run_wire(SyncRunDto {
        id: -3,
        job_id: 4,
        status: "failed".into(),
        started_at: "s".into(),
        finished_at: None,
        stats_json: None,
        error: Some("secret".into()),
        attempt: 2,
        updated_at: None,
    });
    assert_eq!(run.id, "-3");
    assert!(!run.to_wire().to_text().contains("secret"));
    let job = SyncJobDto {
        id: 1,
        resource_key: "k".into(),
        name: "n".into(),
        kind: "collect_comments".into(),
        status: "paused".into(),
        priority: 2,
        schedule_config: None,
        enabled: true,
        recovery_count: 0,
        max_recovery_attempts: 3,
        available_at: None,
        available_at_epoch: 4,
        claimed_at: None,
        current_run_id: None,
        created_at: "c".into(),
        updated_at: None,
        account_id: 5,
        endpoint_key: "e".into(),
        payload_json: Some("secret".into()),
        generation: 6,
    };
    let outcome = sync_control_wire(SyncJobControlOutcome {
        job,
        worker_stop: ControlStopResult::StopTimedOut { pid: 12 },
    });
    let text = outcome.to_wire().to_text();
    assert!(!text.contains("secret"));
    assert_eq!(outcome.worker_stop, ControlStopWireResult::StopTimedOut { pid: 12 });
    assert_eq!(outcome.job, SyncJobWireDto { priority: "2".into(), ..sync_job_again() });
}

fn sync_job_again() -> SyncJobWireDto {
    sync_job_wire(SyncJobDto {
        id: 1,
        resource_key: "k".into(),
        name: "n".into(),
        kind: "collect_comments".into(),
        status: "paused".into(),
        priority: 9,
        schedule_config: None,
        enabled: true,
        recovery_count: 0,
        max_recovery_attempts: 3,
        available_at: None,
        available_at_epoch: 4,
        claimed_at: None,
        current_run_id: None,
        created_at: "c".into(),
        updated_at: None,
        account_id: 5,
        endpoint_key: "e".into(),
        payload_json: None,
        generation: 7,
    })
}

#[test]
fn causes_stay_in_the_log() {
    assert_eq!(sync_core_error("constraint failed: /home/a").0, SYNC_OPERATION_FAILED);
}

#[test]
fn backend_starts_and_exits_once() {
    let mut state = setup();
    assert_eq!(state.status, BackendStatus::Uninitialized);
    perform_init_backend(
        &mut state,
        InitOutcome { config_loaded: true, core_built: true, scheduler_started: true },
    );
    assert_eq!(state.status, BackendStatus::Running { warning: None });
    perform_init_backend(
        &mut state,
        InitOutcome { config_loaded: true, core_built: false, scheduler_started: true },
    );
    assert_eq!(state.status, BackendStatus::Running { warning: None });
    assert!(!state.request_exit(true));
    assert!(state.request_exit(false));
    assert!(!state.request_exit(false));
    assert!(!state.after_shutdown(true));
    assert!(state.request_exit(false));
    assert!(state.after_shutdown(false));
}

#[test]
fn backend_runs_with_a_warning_or_not_at_all() {
    let start = |config_loaded: bool, core_built: bool, scheduler_started: bool| {
        let mut state = setup();
        perform_init_backend(
            &mut state,
            InitOutcome { config_loaded, core_built, scheduler_started },
        );
        match state.status {
            BackendStatus::Running { warning } => warning.unwrap_or_default(),
            BackendStatus::Error { message } => message,
            BackendStatus::Uninitialized => "uninitialized".into(),
        }
    };
    assert_eq!(start(true, true, true), "");
    assert_eq!(
        start(false, true, true),
        "Configuration could not be loaded; defaults are in use"
    );
    assert_eq!(
        start(true, true, false),
        "Persistent scheduler is unavailable; see the application log"
    );
    assert_eq!(
        start(false, true, false),
        "Configuration could not be loaded; defaults are in use; persistent scheduler unavailable"
    );
    assert_eq!(
        start(true, false, true),
        "Backend initialization failed; see the application log"
    );
}

#[test]
fn sidecar_report_says_what_to_do() {
    assert_eq!(
        sidecar_diagnostics(GreetingOutcome::NotFound).unwrap_err().0,
        "Sidecar not found: set WEIBACK_COLLECTOR_CMD or place weiback-collector(.exe) next to the app"
    );
    let failed = GreetingOutcome::Failed(SidecarError::HandshakeTimeout(1500));
    assert_eq!(
        sidecar_diagnostics(failed).unwrap_err().0,
        "sidecar handshake failed: sidecar handshake timed out after 1.5s (set WEIBACK_COLLECTOR_CMD to the collector executable)"
    );
    let report = sidecar_diagnostics(GreetingOutcome::Greeted {
        ready: Json::parse(r#"{"a":1}"#).unwrap(),
        capabilities: Json::Null,
    })
    .unwrap();
    assert_eq!(report.bool_field("ok"), Some(true));
    assert_eq!(report.get("ready").unwrap().u64_field("a"), Some(1));
    assert!(report.get("capabilities").unwrap().is_null());
}

#[test]
fn refresh_tiers_are_found_by_name() {
    for tier in [RefreshTier::Hot, RefreshTier::Warm, RefreshTier::Cold] {
        assert_eq!(RefreshTier::parse(tier.as_str()), Some(tier));
    }
    assert_eq!(RefreshTier::parse("Hot"), None);
}
