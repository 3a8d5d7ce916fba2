use weiback::error::Error;
use weiback::rate_limit::{
    apply_rate_limit_to_pending_job, backoff_delay_secs, combined_gate_epoch,
    finish_rate_limited_run, gate_key, limited_gate, pending_limit_applied,
    rate_limit_delay_secs, request_limit_epoch, requeued_job, retry_after_epoch, shift,
    updated_gate, GateUpdate, PendingRateLimitBarrier, RateGate, BACKOFF_CAP_SECS,
};
use weiback::refresh_scheduler::{
    deterministic_refresh_jitter, plan_refresh, refresh_resource_key, scan_due_monitored_users,
    scan_summary, tick_summary, DueUser, PersistentScheduler, RefreshScanSummary,
    RefreshScheduleConfig,
};
use weiback::sidecar::collector::{RateLimitInfo, RateLimitScope};
use weiback::sqlite_write::{
    after_commit, begin_immediate, is_busy, vacuum_into, with_immediate_transaction,
    TransactionEnd, BUSY_RETRIES,
};
use weiback::storage::internal::entities::{RefreshTier, SyncJobDto, SyncJobSpec};
use weiback::sync_executor::job::JobExecutionResult;

fn inconsistent<T>(r: Result<T, Error>) -> String {
    match r {
        Err(Error::InconsistentTask(m)) => m,
        _ => panic!("expected an inconsistency"),
    }
}

#[test]
fn times_stop_at_their_limits() {
    assert_eq!(shift(5, -7), -2);
    assert_eq!(shift(i64::MAX, 1), i64::MAX);
    assert_eq!(shift(i64::MIN, -1), i64::MIN);
    assert_eq!(retry_after_epoch(100, 0), 100);
    assert_eq!(retry_after_epoch(100, 1), 101);
    assert_eq!(retry_after_epoch(100, 1000), 101);
    assert_eq!(retry_after_epoch(100, 1001), 102);
    assert_eq!(retry_after_epoch(i64::MAX - 1, 5000), i64::MAX);
    assert_eq!(retry_after_epoch(0, u64::MAX), 18_446_744_073_709_551);
}

#[test]
fn backoff_doubles_to_its_cap_with_a_fixed_jitter() {
    assert_eq!(backoff_delay_secs(1, "posts", 0, 3600), 1);
    assert_eq!(backoff_delay_secs(1, "posts", 5, 3600), 32);
    assert_eq!(backoff_delay_secs(1, "posts", 12, 3600), 3600);
    assert_eq!(backoff_delay_secs(7, "comments", 8, 3600), 260);
    assert_eq!(backoff_delay_secs(1, "posts", -3, 0), 1);
    for level in -2..30 {
        let delay = backoff_delay_secs(9, "replies", level, BACKOFF_CAP_SECS);
        let base = (1i64 << level.clamp(0, 20)).min(BACKOFF_CAP_SECS);
        assert!(base <= delay && delay <= BACKOFF_CAP_SECS, "{level}: {delay}");
        assert_eq!(delay, backoff_delay_secs(9, "replies", level, BACKOFF_CAP_SECS));
    }
}

#[test]
fn longer_waits_of_the_source_are_respected() {
    assert_eq!(rate_limit_delay_secs(1, "posts", 5, None, 3600), 32);
    assert_eq!(rate_limit_delay_secs(1, "posts", 5, Some(10_000), 3600), 32);
    assert_eq!(rate_limit_delay_secs(1, "posts", 5, Some(90_500), 3600), 91);
    assert_eq!(rate_limit_delay_secs(1, "posts", 0, Some(7_200_000), 3600), 7200);
}

fn info(retry_after_ms: Option<u64>) -> RateLimitInfo {
    RateLimitInfo { scope: RateLimitScope::Endpoint, retry_after_ms }
}

#[test]
fn gates_close_further_and_never_move_back() {
    assert_eq!(gate_key(RateLimitScope::Account, "posts"), "__account__");
    assert_eq!(gate_key(RateLimitScope::Endpoint, "posts"), "posts");
    let first = limited_gate(None, 1, "posts", info(Some(60_000)), 1000, "t1");
    assert_eq!(
        first,
        RateGate {
            next_allowed_epoch: 1060,
            backoff_level: 1,
            retry_after_epoch: Some(1060),
            updated_at: "t1".into(),
            updated_at_epoch: 1000,
            revision: 1,
        }
    );
    let second = limited_gate(Some(first), 1, "posts", info(None), 900, "t2");
    assert_eq!(second.next_allowed_epoch, 1060);
    assert_eq!(second.backoff_level, 2);
    assert_eq!(second.retry_after_epoch, None);
    assert_eq!(second.updated_at_epoch, 1000);
    assert_eq!(second.revision, 2);
    let update = |next: i64| GateUpdate {
        next_allowed_epoch: next,
        backoff_level: 1,
        retry_after_epoch: Some(next),
        updated_at: "t3".into(),
        updated_at_epoch: 1,
    };
    let kept = updated_gate(Some(second), update(500));
    assert_eq!(kept.next_allowed_epoch, 1060);
    assert_eq!(kept.retry_after_epoch, None);
    assert_eq!(kept.backoff_level, 2);
    let moved = updated_gate(Some(kept), update(2000));
    assert_eq!(moved.next_allowed_epoch, 2000);
    assert_eq!(moved.retry_after_epoch, Some(2000));
    assert_eq!(updated_gate(None, update(7)).revision, 0);
}

#[test]
fn both_gates_must_be_open() {
    assert_eq!(combined_gate_epoch(Some(5), Some(9)), 9);
    assert_eq!(combined_gate_epoch(Some(5), None), 5);
    assert_eq!(combined_gate_epoch(None, Some(-5)), -5);
    assert_eq!(combined_gate_epoch(None, None), 0);
}

#[test]
fn limited_jobs_wait_or_fail() {
    let job = SyncJobDto {
        id: 1,
        resource_key: "k".into(),
        name: "n".into(),
        kind: "collect_user_posts".into(),
        status: "running".into(),
        priority: 1,
        schedule_config: None,
        enabled: true,
        recovery_count: 0,
        max_recovery_attempts: 3,
        available_at: None,
        available_at_epoch: 0,
        claimed_at: None,
        current_run_id: None,
        created_at: "c".into(),
        updated_at: None,
        account_id: 1,
        endpoint_key: "posts".into(),
        payload_json: None,
        generation: 1,
    };
    assert_eq!(request_limit_epoch(&job, 5, info(None), 1000), 1032);
    assert_eq!(request_limit_epoch(&job, 0, info(Some(2500)), 1000), 1003);
    assert_eq!(requeued_job(0, 3, 10, 50), (1, false, 50));
    assert_eq!(requeued_job(2, 3, 60, 50), (3, true, 60));
    assert_eq!(finish_rate_limited_run(Some(false), 1, 50).unwrap(), 50);
    assert_eq!(finish_rate_limited_run(Some(true), 1, 50).unwrap(), -1);
    assert_eq!(
        inconsistent(finish_rate_limited_run(None, 1, 50)),
        "rate-limit finish lost ownership"
    );
    assert_eq!(
        inconsistent(finish_rate_limited_run(Some(false), 0, 50)),
        "rate-limit finish lost run ownership"
    );
    assert!(apply_rate_limit_to_pending_job(4, Some("pending")).is_ok());
    assert_eq!(inconsistent(apply_rate_limit_to_pending_job(4, None)), "sync job 4 not found");
    assert_eq!(
        inconsistent(apply_rate_limit_to_pending_job(4, Some("running"))),
        "rate-limit target is not pending"
    );
    assert_eq!(pending_limit_applied(1, 9).unwrap(), 9);
    assert_eq!(inconsistent(pending_limit_applied(0, 9)), "rate-limit pending CAS lost");
}

#[test]
fn pending_limit_latch_waits_until_released() {
    let mut latch = PendingRateLimitBarrier::new();
    assert!(latch.wait_until_entered());
    assert!(latch.enter_and_wait());
    assert!(!latch.wait_until_entered());
    latch.release();
    assert!(!latch.enter_and_wait());
}

fn due(uid: i64, tier: RefreshTier) -> DueUser {
    DueUser { account_id: 1, uid, tier, interval_secs: 0, jitter_secs: 0 }
}

#[test]
fn refresh_jitter_is_fixed_by_user_and_slot() {
    assert_eq!(deterministic_refresh_jitter(1, 42, RefreshTier::Hot, 100, 60), 13);
    assert_eq!(deterministic_refresh_jitter(1, 42, RefreshTier::Warm, 100, 600), 531);
    assert_eq!(deterministic_refresh_jitter(2, 43, RefreshTier::Cold, -1, 1800), -1722);
    assert_eq!(deterministic_refresh_jitter(1, 42, RefreshTier::Hot, 100, 0), 0);
    assert_eq!(deterministic_refresh_jitter(1, 42, RefreshTier::Hot, 100, -5), 0);
    for slot in 0..50 {
        let jitter = deterministic_refresh_jitter(3, 9, RefreshTier::Cold, slot, 7);
        assert!((-7..=7).contains(&jitter));
    }
}

#[test]
fn due_users_are_planned_unless_their_job_is_held() {
    let config = RefreshScheduleConfig::default();
    assert_eq!(refresh_resource_key(1, 42), "account:1:user:42:posts");
    let plan = plan_refresh(due(42, RefreshTier::Hot), 1_000_000, config);
    assert_eq!(config.interval_secs(RefreshTier::Hot), 900);
    assert_eq!(config.jitter_secs(RefreshTier::Hot), 60);
    assert_eq!(plan.next_refresh_epoch, 1_000_000 + 900 + 58);
    assert_eq!(
        plan.spec,
        SyncJobSpec::CollectUserPosts { account_id: 1, uid: 42, max_pages: None, priority: 30 }
    );
    let users = vec![
        due(1, RefreshTier::Hot),
        due(2, RefreshTier::Warm),
        due(3, RefreshTier::Cold),
        due(4, RefreshTier::Cold),
    ];
    let statuses = vec![
        None,
        Some("paused".to_string()),
        Some("running".to_string()),
        Some("interrupted".to_string()),
    ];
    let plans = scan_due_monitored_users(&users, &statuses, 1_000_000, config);
    let keys: Vec<&str> = plans.iter().map(|p| p.resource_key.as_str()).collect();
    assert_eq!(keys, vec!["account:1:user:1:posts", "account:1:user:3:posts"]);
    for plan in &plans {
        assert!(plan.next_refresh_epoch > 1_000_000);
    }
    assert_eq!(scan_summary(&vec![true, false, true]).enqueued, 2);
}

#[test]
fn users_own_interval_comes_first() {
    let config = RefreshScheduleConfig::default();
    let mut user = due(42, RefreshTier::Cold);
    user.interval_secs = 1;
    user.jitter_secs = 1_000;
    for now in [0, 17, 1_000_000] {
        let plan = plan_refresh(user, now, config);
        assert!(plan.next_refresh_epoch > now && plan.next_refresh_epoch <= now + 1_001);
    }
}

#[test]
fn ticks_slow_down_after_failures() {
    let mut scheduler = PersistentScheduler::new(10, RefreshScheduleConfig::default());
    assert_eq!(scheduler.interval_ms, 100);
    assert_eq!(scheduler.tick_at(true), 100);
    assert_eq!(scheduler.tick_at(false), 200);
    assert_eq!(scheduler.tick_at(false), 400);
    for _ in 0..10 {
        scheduler.tick_at(false);
    }
    assert_eq!(scheduler.tick_at(false), 6_400);
    assert_eq!(scheduler.tick_at(true), 100);
    let mut slow = PersistentScheduler::new(50_000, RefreshScheduleConfig::default());
    assert_eq!(slow.tick_at(false), 60_000);
    let summary = tick_summary(
        RefreshScanSummary { enqueued: 3 },
        Some(JobExecutionResult { job_id: 1, run_id: 2, status: "completed".into() }),
    );
    assert_eq!(summary.refresh_enqueued, 3);
    assert_eq!(summary.executed.unwrap().run_id, 2);
}

#[test]
fn busy_databases_are_tried_again() {
    assert!(is_busy(Some("5"), ""));
    assert!(is_busy(Some("6"), ""));
    assert!(is_busy(None, "error: database is locked (code 5)"));
    assert!(is_busy(Some("517"), "database table is locked"));
    assert!(!is_busy(Some("19"), "constraint failed"));
    assert_eq!(begin_immediate(0, true), Some(5));
    assert_eq!(begin_immediate(7, true), Some(40));
    assert_eq!(begin_immediate(BUSY_RETRIES, true), None);
    assert_eq!(begin_immediate(0, false), None);
}

#[test]
fn connections_return_only_after_their_transaction() {
    assert_eq!(with_immediate_transaction(true), TransactionEnd::Commit);
    assert_eq!(with_immediate_transaction(false), TransactionEnd::RollBack);
    assert_eq!(after_commit(true, None), TransactionEnd::Release);
    assert_eq!(after_commit(false, None), TransactionEnd::RollBack);
    assert_eq!(after_commit(false, Some(true)), TransactionEnd::Release);
    assert_eq!(after_commit(false, Some(false)), TransactionEnd::Close);
    assert_eq!(vacuum_into("/a'b/c.db"), "VACUUM INTO '/a''b/c.db'");
}
