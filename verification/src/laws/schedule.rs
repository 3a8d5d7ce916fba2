//! When users are refreshed, and how long a limit of the source is respected.
use vstd::prelude::*;

use crate::error::Result;
use crate::hash;
use crate::rate_limit;
use crate::rate_limit::{
    apply_rate_limit_to_pending_job, backoff_delay_secs, combined_gate_epoch,
    finish_rate_limited_run, gate_key, limited_gate, pending_limit_applied, rate_limit_delay_secs,
    request_limit_epoch, requeued_job, retry_after_epoch, updated_gate, GateUpdate, RateGate,
};
use crate::refresh_scheduler;
use crate::refresh_scheduler::{
    deterministic_refresh_jitter, plan_refresh, refresh_resource_key, scan_due_monitored_users,
    scan_summary, DueUser, PersistentScheduler, RefreshPlan, RefreshScanSummary,
    RefreshScheduleConfig,
};
use crate::sidecar::collector::{RateLimitInfo, RateLimitScope};
use crate::storage::internal::entities::{RefreshTier, SyncJobDto, SyncJobSpec};
use crate::text;

verus! {

/// The interval that a configuration gives to a tier.
pub open spec fn configured_interval(config: RefreshScheduleConfig, tier: RefreshTier) -> i64 {
    match tier {
        RefreshTier::Hot => config.hot_interval_secs,
        RefreshTier::Warm => config.warm_interval_secs,
        RefreshTier::Cold => config.cold_interval_secs,
    }
}

/// The jitter that a configuration gives to a tier.
pub open spec fn configured_jitter(config: RefreshScheduleConfig, tier: RefreshTier) -> i64 {
    match tier {
        RefreshTier::Hot => config.hot_jitter_secs,
        RefreshTier::Warm => config.warm_jitter_secs,
        RefreshTier::Cold => config.cold_jitter_secs,
    }
}

/// A user with an interval of their own is due again after it, give or take the jitter.
pub proof fn own_intervals_are_kept(
    user: DueUser,
    now_epoch: i64,
    config: RefreshScheduleConfig,
    r: RefreshPlan,
)
    requires
        user.interval_secs > 0,
        0 < user.jitter_secs < user.interval_secs,
        now_epoch + user.interval_secs + user.jitter_secs <= i64::MAX,
        call_ensures(plan_refresh, (user, now_epoch, config), r),
    ensures
        now_epoch + user.interval_secs - user.jitter_secs <= r.next_refresh_epoch <= now_epoch
            + user.interval_secs + user.jitter_secs,
{
    reveal(refresh_scheduler::is_plan_for);
}

/// A user without an interval of their own is due again after that of their tier, give or take the
/// jitter: their own, or else that of the tier.
pub proof fn tiers_set_the_pace_otherwise(
    user: DueUser,
    now_epoch: i64,
    config: RefreshScheduleConfig,
    jitter: i64,
    r: RefreshPlan,
)
    requires
        user.interval_secs <= 0,
        jitter == if user.jitter_secs > 0 {
            user.jitter_secs
        } else {
            configured_jitter(config, user.tier)
        },
        0 <= jitter < configured_interval(config, user.tier),
        now_epoch + configured_interval(config, user.tier) + jitter <= i64::MAX,
        call_ensures(plan_refresh, (user, now_epoch, config), r),
    ensures
        now_epoch + configured_interval(config, user.tier) - jitter <= r.next_refresh_epoch
            <= now_epoch + configured_interval(config, user.tier) + jitter,
{
    reveal(refresh_scheduler::is_plan_for);
}

/// The configuration plays no part for a user who has an interval and a jitter of their own; and for
/// one who has neither, having those of their tier makes no difference.
pub proof fn own_settings_replace_those_of_the_tier(
    user: DueUser,
    now_epoch: i64,
    config: RefreshScheduleConfig,
    other: RefreshScheduleConfig,
    a: RefreshPlan,
    b: RefreshPlan,
    c: RefreshPlan,
)
    requires
        call_ensures(plan_refresh, (user, now_epoch, config), a),
        call_ensures(plan_refresh, (user, now_epoch, other), b),
        call_ensures(
            plan_refresh,
            (
                DueUser {
                    interval_secs: configured_interval(config, user.tier),
                    jitter_secs: configured_jitter(config, user.tier),
                    ..user
                },
                now_epoch,
                config,
            ),
            c,
        ),
    ensures
        user.interval_secs > 0 && user.jitter_secs > 0 ==> a.next_refresh_epoch
            == b.next_refresh_epoch,
        user.interval_secs <= 0 && user.jitter_secs <= 0 ==> a.next_refresh_epoch
            == c.next_refresh_epoch,
{
    reveal(refresh_scheduler::is_plan_for);
}

/// A refresh is due again only after now, whatever interval and jitter are.
pub proof fn refreshes_lie_ahead(
    user: DueUser,
    now_epoch: i64,
    config: RefreshScheduleConfig,
    r: RefreshPlan,
)
    requires
        now_epoch < i64::MAX,
        call_ensures(plan_refresh, (user, now_epoch, config), r),
    ensures
        r.next_refresh_epoch > now_epoch,
{
    reveal(refresh_scheduler::is_plan_for);
}

/// A refresh collects all posts of that user for that account, under the one key of the two, and
/// users of a hotter tier come first.
pub proof fn refreshes_collect_their_user(
    user: DueUser,
    now_epoch: i64,
    config: RefreshScheduleConfig,
    r: RefreshPlan,
    key: String,
)
    requires
        call_ensures(plan_refresh, (user, now_epoch, config), r),
        call_ensures(refresh_resource_key, (user.account_id, user.uid), key),
    ensures
        r.spec matches SyncJobSpec::CollectUserPosts { account_id, uid, max_pages, priority }
            && account_id == user.account_id && uid == user.uid && max_pages is None && (user.tier
            == RefreshTier::Hot ==> priority == 30) && (user.tier == RefreshTier::Warm ==> priority
            == 20) && (user.tier == RefreshTier::Cold ==> priority == 10),
        r.resource_key@ == key@,
        key@ == "account:"@ + text::signed_decimal(user.account_id as int) + ":user:"@
            + text::signed_decimal(user.uid as int) + ":posts"@,
{
    reveal(refresh_scheduler::is_plan_for);
}

/// A jitter stays within its bounds, and account, user, tier and time slot determine it by the hash
/// of their names.
pub proof fn jitters_come_from_their_seed(
    account_id: i64,
    uid: i64,
    tier: RefreshTier,
    slot: i64,
    jitter_secs: i64,
    r: i64,
)
    requires
        0 < jitter_secs < 0x3fff_ffff_ffff_ffff,
        call_ensures(deterministic_refresh_jitter, (account_id, uid, tier, slot, jitter_secs), r),
    ensures
        -jitter_secs <= r <= jitter_secs,
        ({
            let name = if tier == RefreshTier::Hot {
                "hot"@
            } else if tier == RefreshTier::Warm {
                "warm"@
            } else {
                "cold"@
            };
            let seed = text::signed_decimal(account_id as int) + ":"@ + text::signed_decimal(
                uid as int,
            ) + ":"@ + name + ":"@ + text::signed_decimal(slot as int);
            r + jitter_secs == hash::fnv1a_of(vstd::utf8::encode_utf8(seed)) as int % (2
                * jitter_secs + 1)
        }),
{
}

/// One more due user adds exactly their own refresh at the end, unless their live job is paused or
/// interrupted; and nobody else's refresh changes.
pub proof fn due_users_are_refreshed_one_by_one(
    due: Vec<DueUser>,
    statuses: Vec<Option<String>>,
    more: Vec<DueUser>,
    more_statuses: Vec<Option<String>>,
    user: DueUser,
    status: Option<String>,
    now_epoch: i64,
    config: RefreshScheduleConfig,
    r: Vec<RefreshPlan>,
    s: Vec<RefreshPlan>,
)
    requires
        due@.len() == statuses@.len(),
        more@ == due@.push(user),
        more_statuses@ == statuses@.push(status),
        call_ensures(scan_due_monitored_users, (&due, &statuses, now_epoch, config), r),
        call_ensures(scan_due_monitored_users, (&more, &more_statuses, now_epoch, config), s),
    ensures
        (status matches Some(said) && (said@ == "paused"@ || said@ == "interrupted"@)) ==> s@.len()
            == r@.len(),
        !(status matches Some(said) && (said@ == "paused"@ || said@ == "interrupted"@)) ==> s@.len()
            == r@.len() + 1 && (s@.last().spec matches SyncJobSpec::CollectUserPosts {
            account_id,
            uid,
            ..
        } && account_id == user.account_id && uid == user.uid),
        due@.len() == 0 ==> r@.len() == 0,
{
    reveal(refresh_scheduler::is_plan_for);
    lemma_counts_agree(statuses@, more_statuses@, due@.len() as int);
    let n = due@.len() as int;
    assert(more@[n] == user);
    assert(more_statuses@[n] == status);
}

proof fn lemma_counts_agree(a: Seq<Option<String>>, b: Seq<Option<String>>, n: int)
    requires
        0 <= n <= a.len(),
        n <= b.len(),
        forall|i: int| 0 <= i < n ==> a[i] == b[i],
    ensures
        refresh_scheduler::refreshed_before(a, n) == refresh_scheduler::refreshed_before(b, n),
    decreases n,
{
    if n > 0 {
        lemma_counts_agree(a, b, n - 1);
    }
}

/// A scan counts each user whom it advanced, once.
pub proof fn advanced_users_are_counted(
    advanced: Vec<bool>,
    more: Vec<bool>,
    last: bool,
    r: RefreshScanSummary,
    s: RefreshScanSummary,
)
    requires
        more@ == advanced@.push(last),
        call_ensures(scan_summary, (&advanced,), r),
        call_ensures(scan_summary, (&more,), s),
    ensures
        advanced@.len() == 0 ==> r.enqueued == 0,
        last ==> s.enqueued == r.enqueued + 1,
        !last ==> s.enqueued == r.enqueued,
{
    assert(more@.drop_last() == advanced@);
}

/// After a success the scheduler ticks at its interval; each failure doubles the wait up to six
/// times, and no wait is longer than a minute.
pub proof fn failures_slow_the_scheduler(
    scheduler: &mut PersistentScheduler,
    after: &mut PersistentScheduler,
    succeeded: bool,
    again: bool,
    wait: u64,
    next_wait: u64,
)
    requires
        call_ensures(PersistentScheduler::tick_at, (scheduler, succeeded), wait),
        *old(after) == *final(scheduler),
        call_ensures(PersistentScheduler::tick_at, (after, again), next_wait),
        old(scheduler).interval_ms <= 60_000,
        old(scheduler).consecutive_failures < 1000,
    ensures
        succeeded ==> wait == old(scheduler).interval_ms && final(scheduler).consecutive_failures
            == 0,
        wait <= 60_000,
        wait >= old(scheduler).interval_ms,
        !succeeded ==> final(scheduler).consecutive_failures
            == old(scheduler).consecutive_failures + 1,
        !again && final(scheduler).consecutive_failures < 6 && 2 * wait <= 60_000 ==> next_wait == 2
            * wait,
        !again && final(scheduler).consecutive_failures >= 6 ==> next_wait == wait,
        !again && 2 * wait > 60_000 ==> next_wait == 60_000 || next_wait == wait,
        final(scheduler).interval_ms == old(scheduler).interval_ms,
        final(scheduler).refresh_config == old(scheduler).refresh_config,
{
    reveal_with_fuel(rate_limit::power_of_two, 8);
    let i = old(scheduler).interval_ms as int;
    let f = refresh_scheduler::failure_factor(final(scheduler).consecutive_failures);
    let g = refresh_scheduler::failure_factor(final(after).consecutive_failures);
    assert(1 <= f <= 64);
    assert(1 <= g <= 64);
    assert(i * 1 == i);
    assert(i * f >= i) by (nonlinear_arith)
        requires
            f >= 1,
            i >= 0,
    ;
    if !again && final(scheduler).consecutive_failures < 6 {
        assert(g == 2 * f);
        assert(i * g == 2 * (i * f)) by (nonlinear_arith)
            requires
                g == 2 * f,
        ;
    }
}

/// A scheduler ticks at the interval that it was given, but not faster than ten times a second.
pub proof fn schedulers_keep_their_interval(
    interval_ms: u64,
    config: RefreshScheduleConfig,
    r: PersistentScheduler,
)
    requires
        call_ensures(PersistentScheduler::new, (interval_ms, config), r),
    ensures
        interval_ms >= 100 ==> r.interval_ms == interval_ms,
        interval_ms < 100 ==> r.interval_ms == 100,
        r.consecutive_failures == 0,
        r.refresh_config == config,
{
}

/// A limit is respected for as long as the source asks, and for as long as the backoff of its level:
/// two to the level, up to the cap, with at most a quarter more.
pub proof fn limits_are_respected(
    account_id: i64,
    endpoint_key: &str,
    level: i64,
    retry_after_ms: Option<u64>,
    cap: i64,
    own: i64,
    r: i64,
)
    requires
        1 <= cap,
        call_ensures(backoff_delay_secs, (account_id, endpoint_key, level, cap), own),
        call_ensures(
            rate_limit_delay_secs,
            (account_id, endpoint_key, level, retry_after_ms, cap),
            r,
        ),
    ensures
        1 <= own <= cap,
        r >= own,
        retry_after_ms is None ==> r == own,
        retry_after_ms matches Some(ms) ==> ms <= u64::MAX - 999 ==> r * 1000 >= ms && (r == own || r
            * 1000 < ms + 1000),
        level <= 0 ==> own == 1,
        0 <= level <= 20 ==> {
            let wait = vstd::arithmetic::power2::pow2(level as nat);
            &&& own >= wait || own == cap
            &&& own <= wait + wait / 4
        },
        level >= 20 && cap <= 0x10_0000 ==> own == cap,
{
    rate_limit::backoff_stays_between_base_and_cap(account_id, endpoint_key@, level, cap);
    if 0 <= level <= 20 {
        lemma_powers_agree(level as nat);
    }
    reveal_with_fuel(rate_limit::power_of_two, 22);
}

proof fn lemma_powers_agree(n: nat)
    ensures
        rate_limit::power_of_two(n as int) == vstd::arithmetic::power2::pow2(n),
    decreases n,
{
    if n > 0 {
        lemma_powers_agree((n - 1) as nat);
        vstd::arithmetic::power2::lemma_pow2_unfold(n);
    } else {
        vstd::arithmetic::power2::lemma2_to64();
    }
}

/// A backoff grows from level to level: below the cap the wait at the next one is longer by three
/// fifths at least.
pub proof fn backoffs_grow_with_their_level(
    account_id: i64,
    endpoint_key: &str,
    level: i64,
    cap: i64,
    a: i64,
    b: i64,
)
    requires
        0 <= level < 20,
        call_ensures(backoff_delay_secs, (account_id, endpoint_key, level, cap), a),
        call_ensures(backoff_delay_secs, (account_id, endpoint_key, (level + 1) as i64, cap), b),
    ensures
        a <= b,
        b < cap ==> 5 * b >= 8 * a,
{
    reveal_with_fuel(rate_limit::power_of_two, 2);
    rate_limit::backoff_stays_between_base_and_cap(account_id, endpoint_key@, level, cap);
    rate_limit::backoff_stays_between_base_and_cap(
        account_id,
        endpoint_key@,
        (level + 1) as i64,
        cap,
    );
    assert(rate_limit::power_of_two(level + 1) == 2 * rate_limit::power_of_two(level as int));
}

/// A time that the source names lies that far ahead, rounded up to whole seconds.
pub proof fn retry_times_lie_ahead(now_epoch: i64, retry_after_ms: u64, r: i64)
    requires
        now_epoch <= i64::MAX - 0x50_0000_0000_0000,
        retry_after_ms <= u64::MAX - 999,
        call_ensures(retry_after_epoch, (now_epoch, retry_after_ms), r),
    ensures
        (r - now_epoch) * 1000 >= retry_after_ms,
        (r - now_epoch) * 1000 < retry_after_ms + 1000,
{
}

/// A limit closes a gate, that of the account or of the endpoint, as its scope says. A closed gate never
/// opens earlier than it would have, nor earlier than the source asked.
pub proof fn limited_gates_stay_closed(
    gate: Option<RateGate>,
    account_id: i64,
    key: &str,
    info: RateLimitInfo,
    now_epoch: i64,
    at: &str,
    r: RateGate,
)
    requires
        0 <= now_epoch <= i64::MAX - 0x50_0000_0000_0000,
        gate matches Some(g) ==> g.backoff_level < i64::MAX && g.revision < i64::MAX,
        call_ensures(limited_gate, (gate, account_id, key, info, now_epoch, at), r),
    ensures
        gate matches Some(g) ==> r.next_allowed_epoch >= g.next_allowed_epoch && r.backoff_level
            == g.backoff_level + 1 && r.revision == g.revision + 1,
        gate is None ==> r.backoff_level == 1 && r.revision == 1,
        r.next_allowed_epoch > now_epoch,
        info.retry_after_ms matches Some(ms) ==> ms <= u64::MAX - 999 ==> (r.next_allowed_epoch
            - now_epoch) * 1000 >= ms,
        r.retry_after_epoch is Some <==> info.retry_after_ms is Some,
        r.retry_after_epoch matches Some(t) ==> now_epoch < t <= r.next_allowed_epoch,
        gate is None && info.retry_after_ms is None ==> r.next_allowed_epoch <= now_epoch + 3600,
        r.updated_at@ == at@,
        r.updated_at_epoch >= now_epoch,
{
    rate_limit::backoff_stays_between_base_and_cap(
        account_id,
        key@,
        rate_limit::next_level(gate) as i64,
        3600,
    );
}

/// A limit of an account closes one gate for all of its endpoints, and another limit only that of
/// the endpoint.
pub proof fn account_limits_have_one_gate(
    scope: RateLimitScope,
    a: &str,
    b: &str,
    key_a: String,
    key_b: String,
)
    requires
        call_ensures(gate_key, (scope, a), key_a),
        call_ensures(gate_key, (scope, b), key_b),
    ensures
        scope == RateLimitScope::Account ==> key_a@ == key_b@ && key_a@ == "__account__"@,
        scope != RateLimitScope::Account ==> key_a@ == a@ && key_b@ == b@,
{
}

/// Requests wait for both gates.
pub proof fn both_gates_count(account: Option<i64>, endpoint: Option<i64>, r: i64)
    requires
        call_ensures(combined_gate_epoch, (account, endpoint), r),
    ensures
        account matches Some(a) ==> r >= a,
        endpoint matches Some(b) ==> r >= b,
        account == Some(r) || endpoint == Some(r) || account is None && endpoint is None && r == 0,
{
}

/// A change of a gate moves neither its time nor its level back, and leaves its revision alone.
pub proof fn gates_never_move_back(gate: RateGate, update: GateUpdate, r: RateGate)
    requires
        call_ensures(updated_gate, (Some(gate), update), r),
    ensures
        r.next_allowed_epoch >= gate.next_allowed_epoch,
        r.next_allowed_epoch >= update.next_allowed_epoch,
        r.next_allowed_epoch == gate.next_allowed_epoch || r.next_allowed_epoch
            == update.next_allowed_epoch,
        r.backoff_level >= gate.backoff_level,
        r.backoff_level >= update.backoff_level,
        r.backoff_level == gate.backoff_level || r.backoff_level == update.backoff_level,
        r.updated_at_epoch >= gate.updated_at_epoch,
        r.updated_at_epoch >= update.updated_at_epoch,
        r.revision == gate.revision,
        update.next_allowed_epoch > gate.next_allowed_epoch ==> r.retry_after_epoch
            == update.retry_after_epoch,
        update.next_allowed_epoch < gate.next_allowed_epoch ==> r.retry_after_epoch
            == gate.retry_after_epoch,
{
}

/// A gate that is new is what the change says.
pub proof fn new_gates_are_as_said(update: GateUpdate, r: RateGate)
    requires
        call_ensures(updated_gate, (None::<RateGate>, update), r),
    ensures
        r.next_allowed_epoch == update.next_allowed_epoch,
        r.backoff_level == update.backoff_level,
        r.retry_after_epoch == update.retry_after_epoch,
        r.updated_at@ == update.updated_at@,
{
}

/// A job that hit a limit uses up one attempt, waits for its gate, and fails with its last attempt
/// and no earlier.
pub proof fn limited_jobs_wait_or_fail(
    used: i64,
    allowed: i64,
    available: i64,
    gate: i64,
    r: (i64, bool, i64),
)
    requires
        used < i64::MAX,
        call_ensures(requeued_job, (used, allowed, available, gate), r),
    ensures
        r.0 == used + 1,
        r.1 <==> used + 1 >= allowed,
        r.2 >= available && r.2 >= gate,
        r.2 == available || r.2 == gate,
{
}

/// A limited run is over only for its owner: then its job is due when its gate opens, or has failed.
pub proof fn limited_runs_end_for_their_owner(
    failed: Option<bool>,
    rows: u64,
    gate: i64,
    r: Result<i64>,
)
    requires
        gate >= 0,
        call_ensures(finish_rate_limited_run, (failed, rows, gate), r),
    ensures
        r is Ok <==> failed is Some && rows == 1,
        r matches Ok(next) ==> (next < 0 <==> failed == Some(true)) && (failed == Some(false)
            ==> next == gate),
{
}

/// Only a job that waits can be made to wait longer.
pub proof fn limits_reach_waiting_jobs_only(
    job_id: i64,
    status: Option<&str>,
    rows: u64,
    gate: i64,
    r: Result<()>,
    s: Result<i64>,
)
    requires
        call_ensures(apply_rate_limit_to_pending_job, (job_id, status), r),
        call_ensures(pending_limit_applied, (rows, gate), s),
    ensures
        r is Ok <==> (status matches Some(said) && said@ == "pending"@),
        s is Ok <==> rows == 1,
        s matches Ok(due) ==> due == gate,
{
}

/// A job that was limited on its own waits from now on, and at least as long as the source asks.
pub proof fn limited_requests_wait(
    job: SyncJobDto,
    level: i64,
    info: RateLimitInfo,
    now_epoch: i64,
    r: i64,
)
    requires
        now_epoch <= i64::MAX - 0x50_0000_0000_0000,
        call_ensures(request_limit_epoch, (&job, level, info, now_epoch), r),
    ensures
        r > now_epoch,
        info.retry_after_ms matches Some(ms) ==> ms <= u64::MAX - 999 ==> (r - now_epoch) * 1000
            >= ms,
        info.retry_after_ms is None ==> r <= now_epoch + 3600,
{
    rate_limit::backoff_stays_between_base_and_cap(
        job.account_id,
        job.endpoint_key@,
        level,
        3600,
    );
}

} // verus!
