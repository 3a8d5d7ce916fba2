//! Refreshing monitored users on a schedule, and driving the queue of durable jobs.
use vstd::prelude::*;

use crate::hash;
use crate::rate_limit;
use crate::storage::internal::entities;
use crate::storage::internal::entities::{RefreshTier, SyncJobSpec};
use crate::sync_executor::job::JobExecutionResult;
use crate::text;

verus! {

/// The shortest interval between two ticks, in milliseconds.
pub const MIN_TICK_INTERVAL_MS: u64 = 100;

/// The longest wait between two ticks, in milliseconds.
pub const MAX_TICK_DELAY_MS: u64 = 60_000;

/// How often the users of each tier are refreshed, and how far apart.
#[derive(Debug, Clone, Copy, PartialEq, Eq, Structural)]
pub struct RefreshScheduleConfig {
    pub hot_interval_secs: i64,
    pub warm_interval_secs: i64,
    pub cold_interval_secs: i64,
    pub hot_jitter_secs: i64,
    pub warm_jitter_secs: i64,
    pub cold_jitter_secs: i64,
}

impl Default for RefreshScheduleConfig {
    fn default() -> (r: Self)
        ensures
            r == (RefreshScheduleConfig {
                hot_interval_secs: 900,
                warm_interval_secs: 21600,
                cold_interval_secs: 86400,
                hot_jitter_secs: 60,
                warm_jitter_secs: 600,
                cold_jitter_secs: 1800,
            }),
    {
        RefreshScheduleConfig {
            hot_interval_secs: 15 * 60,
            warm_interval_secs: 6 * 60 * 60,
            cold_interval_secs: 24 * 60 * 60,
            hot_jitter_secs: 60,
            warm_jitter_secs: 10 * 60,
            cold_jitter_secs: 30 * 60,
        }
    }
}

/// The interval of a tier.
pub open spec fn tier_interval(config: RefreshScheduleConfig, tier: RefreshTier) -> i64 {
    match tier {
        RefreshTier::Hot => config.hot_interval_secs,
        RefreshTier::Warm => config.warm_interval_secs,
        RefreshTier::Cold => config.cold_interval_secs,
    }
}

/// The jitter of a tier.
pub open spec fn tier_jitter(config: RefreshScheduleConfig, tier: RefreshTier) -> i64 {
    match tier {
        RefreshTier::Hot => config.hot_jitter_secs,
        RefreshTier::Warm => config.warm_jitter_secs,
        RefreshTier::Cold => config.cold_jitter_secs,
    }
}

impl RefreshScheduleConfig {
    /// The interval of a tier.
    pub fn interval_secs(self, tier: RefreshTier) -> (r: i64)
        ensures
            r == tier_interval(self, tier),
    {
        match tier {
            RefreshTier::Hot => self.hot_interval_secs,
            RefreshTier::Warm => self.warm_interval_secs,
            RefreshTier::Cold => self.cold_interval_secs,
        }
    }

    /// The jitter of a tier.
    pub fn jitter_secs(self, tier: RefreshTier) -> (r: i64)
        ensures
            r == tier_jitter(self, tier),
    {
        match tier {
            RefreshTier::Hot => self.hot_jitter_secs,
            RefreshTier::Warm => self.warm_jitter_secs,
            RefreshTier::Cold => self.cold_jitter_secs,
        }
    }
}

/// How many refreshes a scan enqueued.
#[derive(Debug, Clone, Copy, PartialEq, Eq, Structural)]
pub struct RefreshScanSummary {
    pub enqueued: u64,
}

/// What a tick did.
#[derive(Debug, PartialEq, Eq)]
pub struct SchedulerTickSummary {
    pub refresh_enqueued: u64,
    pub executed: Option<JobExecutionResult>,
}

/// The text that seeds the jitter of a refresh.
pub open spec fn jitter_seed(account_id: i64, uid: i64, tier: RefreshTier, slot: i64) -> Seq<char> {
    text::signed_decimal(account_id as int) + ":"@ + text::signed_decimal(uid as int) + ":"@
        + entities::tier_name(tier) + ":"@ + text::signed_decimal(slot as int)
}

/// How many values a jitter can take.
pub open spec fn jitter_values(jitter_secs: i64) -> int {
    if 2 * jitter_secs + 1 <= i64::MAX {
        2 * jitter_secs + 1
    } else {
        i64::MAX as int
    }
}

/// The jitter of a refresh, which account, user, tier and time slot determine.
pub open spec fn refresh_jitter(
    account_id: i64,
    uid: i64,
    tier: RefreshTier,
    slot: i64,
    jitter_secs: i64,
) -> int {
    if jitter_secs <= 0 {
        0
    } else {
        let h = hash::fnv1a_of(vstd::utf8::encode_utf8(jitter_seed(account_id, uid, tier, slot)));
        h as int % jitter_values(jitter_secs) - jitter_secs
    }
}

/// The jitter of a refresh in seconds.
pub fn deterministic_refresh_jitter(
    account_id: i64,
    uid: i64,
    tier: RefreshTier,
    slot: i64,
    jitter_secs: i64,
) -> (r: i64)
    ensures
        r == refresh_jitter(account_id, uid, tier, slot, jitter_secs),
{
    if jitter_secs <= 0 {
        return 0;
    }
    let mut seed = text::join3(
        text::i64_text(account_id).as_str(),
        ":",
        text::i64_text(uid).as_str(),
    );
    seed.append(":");
    seed.append(tier.as_str());
    seed.append(":");
    seed.append(text::i64_text(slot).as_str());
    let h: u64 = hash::stable_hash(seed.as_str());
    let width: u64 = if jitter_secs <= 0x3fff_ffff_ffff_ffff {
        2 * (jitter_secs as u64) + 1
    } else {
        0x7fff_ffff_ffff_ffff
    };
    (h % width) as i64 - jitter_secs
}

/// A jitter stays within its bounds on both sides.
pub proof fn jitter_stays_within_bounds(
    account_id: i64,
    uid: i64,
    tier: RefreshTier,
    slot: i64,
    jitter_secs: i64,
)
    ensures
        jitter_secs > 0 ==> -jitter_secs <= refresh_jitter(account_id, uid, tier, slot, jitter_secs)
            <= jitter_secs,
        jitter_secs <= 0 ==> refresh_jitter(account_id, uid, tier, slot, jitter_secs) == 0,
{
}

/// A monitored user who is due.
#[derive(Debug, Clone, Copy, PartialEq, Eq, Structural)]
pub struct DueUser {
    pub account_id: i64,
    pub uid: i64,
    pub tier: RefreshTier,
    pub interval_secs: i64,
    pub jitter_secs: i64,
}

/// The refresh of a due user.
#[derive(Debug, PartialEq, Eq)]
pub struct RefreshPlan {
    /// When the user is due again.
    pub next_refresh_epoch: i64,
    /// The key of the job, which at most one live job has.
    pub resource_key: String,
    /// The job to enqueue once the user has been advanced.
    pub spec: SyncJobSpec,
}

/// The interval of a user: their own where they have one, that of their tier otherwise.
pub open spec fn user_interval(user: DueUser, config: RefreshScheduleConfig) -> i64 {
    if user.interval_secs > 0 {
        user.interval_secs
    } else {
        tier_interval(config, user.tier)
    }
}

/// The jitter of a user: their own where they have one, that of their tier otherwise.
pub open spec fn user_jitter(user: DueUser, config: RefreshScheduleConfig) -> i64 {
    if user.jitter_secs > 0 {
        user.jitter_secs
    } else {
        tier_jitter(config, user.tier)
    }
}

/// The time slot of a refresh: the number of whole intervals since the epoch.
pub open spec fn refresh_slot(now_epoch: i64, interval: i64) -> int {
    if interval <= 0 {
        now_epoch as int
    } else if now_epoch >= 0 {
        now_epoch as int / interval as int
    } else {
        -((-now_epoch) / interval as int)
    }
}

/// When a user is due again: after interval and jitter, but at least a second from now.
pub open spec fn next_refresh(user: DueUser, now_epoch: i64, config: RefreshScheduleConfig) -> i64 {
    let interval = user_interval(user, config);
    let jitter = refresh_jitter(
        user.account_id,
        user.uid,
        user.tier,
        refresh_slot(now_epoch, interval) as i64,
        user_jitter(user, config),
    );
    rate_limit::latest(
        rate_limit::shifted(rate_limit::shifted(now_epoch, interval as int), jitter),
        rate_limit::shifted(now_epoch, 1),
    )
}

/// The priority of a refresh by tier.
pub open spec fn refresh_priority(tier: RefreshTier) -> i64 {
    match tier {
        RefreshTier::Hot => 30,
        RefreshTier::Warm => 20,
        RefreshTier::Cold => 10,
    }
}

/// The key of the job that refreshes a user.
pub open spec fn refresh_key(account_id: i64, uid: i64) -> Seq<char> {
    "account:"@ + text::signed_decimal(account_id as int) + ":user:"@ + text::signed_decimal(
        uid as int,
    ) + ":posts"@
}

/// Whether a plan refreshes a user.
#[verifier::opaque]
pub open spec fn is_plan_for(
    plan: RefreshPlan,
    user: DueUser,
    now_epoch: i64,
    config: RefreshScheduleConfig,
) -> bool {
    &&& plan.next_refresh_epoch == next_refresh(user, now_epoch, config)
    &&& plan.resource_key@ == refresh_key(user.account_id, user.uid)
    &&& plan.spec == SyncJobSpec::CollectUserPosts {
        account_id: user.account_id,
        uid: user.uid,
        max_pages: None,
        priority: refresh_priority(user.tier),
    }
}

fn slot_of_refresh(now_epoch: i64, interval: i64) -> (r: i64)
    ensures
        r == refresh_slot(now_epoch, interval),
{
    if interval <= 0 {
        now_epoch
    } else if now_epoch >= 0 {
        now_epoch / interval
    } else {
        let magnitude: u64 = (-(now_epoch + 1)) as u64 + 1;
        let slots: u64 = magnitude / (interval as u64);
        proof {
            assert(slots <= magnitude) by (nonlinear_arith)
                requires
                    slots == magnitude / (interval as u64),
                    interval > 0,
            ;
        }
        if slots == 0x8000_0000_0000_0000 {
            i64::MIN
        } else {
            -(slots as i64)
        }
    }
}

/// The key of the job that refreshes a user.
pub fn refresh_resource_key(account_id: i64, uid: i64) -> (r: String)
    ensures
        r@ == refresh_key(account_id, uid),
{
    let mut key = text::join3("account:", text::i64_text(account_id).as_str(), ":user:");
    key.append(text::i64_text(uid).as_str());
    key.append(":posts");
    key
}

/// The refresh of a due user.
pub fn plan_refresh(user: DueUser, now_epoch: i64, config: RefreshScheduleConfig) -> (r: RefreshPlan)
    ensures
        is_plan_for(r, user, now_epoch, config),
{
    reveal(is_plan_for);
    let interval: i64 = if user.interval_secs > 0 {
        user.interval_secs
    } else {
        config.interval_secs(user.tier)
    };
    let jitter: i64 = if user.jitter_secs > 0 {
        user.jitter_secs
    } else {
        config.jitter_secs(user.tier)
    };
    let slot: i64 = slot_of_refresh(now_epoch, interval);
    let moved: i64 = deterministic_refresh_jitter(
        user.account_id,
        user.uid,
        user.tier,
        slot,
        jitter,
    );
    let due: i64 = rate_limit::shift(rate_limit::shift(now_epoch, interval), moved);
    let soonest: i64 = rate_limit::shift(now_epoch, 1);
    RefreshPlan {
        next_refresh_epoch: if due >= soonest {
            due
        } else {
            soonest
        },
        resource_key: refresh_resource_key(user.account_id, user.uid),
        spec: SyncJobSpec::CollectUserPosts {
            account_id: user.account_id,
            uid: user.uid,
            max_pages: None,
            priority: match user.tier {
                RefreshTier::Hot => 30,
                RefreshTier::Warm => 20,
                RefreshTier::Cold => 10,
            },
        },
    }
}

/// Whether the live job of a user keeps the user from being refreshed.
pub open spec fn refresh_held(status: Option<String>) -> bool {
    status matches Some(s) && (s@ == "paused"@ || s@ == "interrupted"@)
}

/// How many of the first `n` users are refreshed.
pub open spec fn refreshed_before(statuses: Seq<Option<String>>, n: int) -> int
    decreases n,
{
    if n <= 0 {
        0
    } else {
        refreshed_before(statuses, n - 1) + if refresh_held(statuses[n - 1]) {
            0int
        } else {
            1int
        }
    }
}

proof fn lemma_refreshed_grows(statuses: Seq<Option<String>>, a: int, b: int)
    requires
        0 <= a <= b,
    ensures
        0 <= refreshed_before(statuses, a) <= refreshed_before(statuses, b) <= b,
    decreases b,
{
    if a < b {
        lemma_refreshed_grows(statuses, a, b - 1);
    } else if b > 0 {
        lemma_refreshed_grows(statuses, a - 1, b - 1);
    }
}

/// The refreshes of the due users, in their order. A user whose live job is paused or interrupted is
/// passed over.
pub fn scan_due_monitored_users(
    due: &Vec<DueUser>,
    statuses: &Vec<Option<String>>,
    now_epoch: i64,
    config: RefreshScheduleConfig,
) -> (r: Vec<RefreshPlan>)
    requires
        due@.len() == statuses@.len(),
    ensures
        r@.len() == refreshed_before(statuses@, due@.len() as int),
        forall|i: int|
            0 <= i < due@.len() && !refresh_held(#[trigger] statuses@[i]) ==> is_plan_for(
                r@[refreshed_before(statuses@, i)],
                due@[i],
                now_epoch,
                config,
            ),
{
    let mut r: Vec<RefreshPlan> = Vec::new();
    let mut i: usize = 0;
    while i < due.len()
        invariant
            i <= due@.len() == statuses@.len(),
            r@.len() == refreshed_before(statuses@, i as int),
            forall|j: int|
                0 <= j < i && !refresh_held(#[trigger] statuses@[j]) ==> is_plan_for(
                    r@[refreshed_before(statuses@, j)],
                    due@[j],
                    now_epoch,
                    config,
                ),
        decreases due@.len() - i,
    {
        let held = match &statuses[i] {
            Some(s) => text::same_text(s.as_str(), "paused") || text::same_text(
                s.as_str(),
                "interrupted",
            ),
            None => false,
        };
        let ghost before = r@;
        if !held {
            r.push(plan_refresh(due[i], now_epoch, config));
        }
        proof {
            assert forall|j: int| 0 <= j < i + 1 && !refresh_held(
                #[trigger] statuses@[j],
            ) implies is_plan_for(
                r@[refreshed_before(statuses@, j)],
                due@[j],
                now_epoch,
                config,
            ) by {
                if j < i {
                    lemma_refreshed_grows(statuses@, j + 1, i as int);
                    lemma_refreshed_grows(statuses@, j, j);
                    assert(r@[refreshed_before(statuses@, j)] == before[refreshed_before(
                        statuses@,
                        j,
                    )]);
                }
            }
        }
        i = i + 1;
    }
    r
}

/// How many users a scan advanced, and with it how many refreshes it enqueued.
pub open spec fn count_true(flags: Seq<bool>) -> nat
    decreases flags.len(),
{
    if flags.len() == 0 {
        0
    } else {
        count_true(flags.drop_last()) + if flags.last() {
            1nat
        } else {
            0nat
        }
    }
}

/// Sums up a scan by which of its users could be advanced.
pub fn scan_summary(advanced: &Vec<bool>) -> (r: RefreshScanSummary)
    ensures
        r.enqueued == count_true(advanced@),
{
    let mut n: u64 = 0;
    let mut i: usize = 0;
    while i < advanced.len()
        invariant
            i <= advanced@.len(),
            n <= i,
            n == count_true(advanced@.subrange(0, i as int)),
        decreases advanced@.len() - i,
    {
        assert(advanced@.subrange(0, i + 1).drop_last() == advanced@.subrange(0, i as int));
        if advanced[i] {
            n = n + 1;
        }
        i = i + 1;
    }
    assert(advanced@.subrange(0, i as int) == advanced@);
    RefreshScanSummary { enqueued: n }
}

/// A refreshed user is due again only after now.
pub proof fn next_refresh_lies_ahead(user: DueUser, now_epoch: i64, config: RefreshScheduleConfig)
    requires
        now_epoch < i64::MAX,
    ensures
        next_refresh(user, now_epoch, config) > now_epoch,
{
}

/// The pace of the scheduler: the interval between ticks and the failures since the last success.
#[derive(Debug, Clone, Copy, PartialEq, Eq, Structural)]
pub struct PersistentScheduler {
    pub interval_ms: u64,
    pub consecutive_failures: u32,
    pub refresh_config: RefreshScheduleConfig,
}

/// The factor by which failures stretch the interval.
pub open spec fn failure_factor(failures: u32) -> int {
    rate_limit::power_of_two(
        if failures <= 6 {
            failures as int
        } else {
            6
        },
    )
}

impl PersistentScheduler {
    /// A scheduler that ticks at the given interval, but not faster than the shortest one.
    pub fn new(interval_ms: u64, refresh_config: RefreshScheduleConfig) -> (r: Self)
        ensures
            r == (PersistentScheduler {
                interval_ms: if interval_ms >= MIN_TICK_INTERVAL_MS {
                    interval_ms
                } else {
                    MIN_TICK_INTERVAL_MS
                },
                consecutive_failures: 0,
                refresh_config,
            }),
    {
        PersistentScheduler {
            interval_ms: if interval_ms >= MIN_TICK_INTERVAL_MS {
                interval_ms
            } else {
                MIN_TICK_INTERVAL_MS
            },
            consecutive_failures: 0,
            refresh_config,
        }
    }

    /// Takes the outcome of a tick and gives the wait until the next one: the interval, doubled for
    /// each failure in a row up to six, and no longer than the longest wait.
    pub fn tick_at(&mut self, succeeded: bool) -> (r: u64)
        ensures
            final(self).interval_ms == old(self).interval_ms,
            final(self).refresh_config == old(self).refresh_config,
            final(self).consecutive_failures == if succeeded {
                0
            } else if old(self).consecutive_failures == u32::MAX {
                u32::MAX
            } else {
                (old(self).consecutive_failures + 1) as u32
            },
            r == if old(self).interval_ms * failure_factor(final(self).consecutive_failures)
                <= MAX_TICK_DELAY_MS {
                (old(self).interval_ms * failure_factor(final(self).consecutive_failures)) as u64
            } else {
                MAX_TICK_DELAY_MS
            },
    {
        if succeeded {
            self.consecutive_failures = 0;
        } else {
            self.consecutive_failures = self.consecutive_failures.saturating_add(1);
        }
        let mut factor: u64 = 1;
        let mut k: u32 = 0;
        let ghost failures = self.consecutive_failures;
        while k < self.consecutive_failures && k < 6
            invariant
                self.consecutive_failures == failures,
                k <= failures,
                k <= 6,
                factor == rate_limit::power_of_two(k as int),
                1 <= factor <= 64,
                k < 6 ==> factor <= 32,
            decreases 6 - k,
        {
            proof {
                reveal_with_fuel(rate_limit::power_of_two, 7);
            }
            factor = factor * 2;
            k = k + 1;
        }
        proof {
            let interval = self.interval_ms;
            assert(interval as u128 * factor as u128 <= u128::MAX) by (nonlinear_arith)
                requires
                    interval <= u64::MAX,
                    factor <= 64,
            ;
        }
        let product: u128 = (self.interval_ms as u128) * (factor as u128);
        if product <= 60_000 {
            product as u64
        } else {
            MAX_TICK_DELAY_MS
        }
    }
}

/// Sums up a tick.
pub fn tick_summary(scan: RefreshScanSummary, executed: Option<JobExecutionResult>) -> (r:
    SchedulerTickSummary)
    ensures
        r == (SchedulerTickSummary { refresh_enqueued: scan.enqueued, executed }),
{
    SchedulerTickSummary { refresh_enqueued: scan.enqueued, executed }
}

} // verus!
