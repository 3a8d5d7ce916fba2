//! Durable rate limits of accounts and endpoints: how long to wait, and what a limit does to the
//! gates and jobs that are stored.
use vstd::prelude::*;

use crate::error;
use crate::error::{Error, Result};
use crate::hash;
use crate::sidecar::collector::{RateLimitInfo, RateLimitScope};
use crate::storage::internal::entities::SyncJobDto;
use crate::text;

verus! {

/// The longest wait that the backoff imposes, in seconds.
pub const BACKOFF_CAP_SECS: i64 = 3600;

/// A time moved by some seconds, within the range of times.
pub open spec fn shifted(epoch: i64, seconds: int) -> i64 {
    if epoch + seconds > i64::MAX {
        i64::MAX
    } else if epoch + seconds < i64::MIN {
        i64::MIN
    } else {
        (epoch + seconds) as i64
    }
}

/// Moves a time by some seconds, within the range of times.
pub fn shift(epoch: i64, seconds: i64) -> (r: i64)
    ensures
        r == shifted(epoch, seconds as int),
{
    let sum: i128 = epoch as i128 + seconds as i128;
    if sum > i64::MAX as i128 {
        i64::MAX
    } else if sum < i64::MIN as i128 {
        i64::MIN
    } else {
        sum as i64
    }
}

/// The larger of two times.
pub open spec fn latest(a: i64, b: i64) -> i64 {
    if a >= b {
        a
    } else {
        b
    }
}

/// Milliseconds as whole seconds, rounded up.
pub open spec fn seconds_up(ms: u64) -> int {
    if ms + 999 > u64::MAX {
        u64::MAX as int / 1000
    } else {
        (ms + 999) / 1000
    }
}

fn whole_seconds(ms: u64) -> (r: i64)
    ensures
        r == seconds_up(ms),
        r >= 0,
{
    (ms.saturating_add(999) / 1000) as i64
}

/// When requests are allowed again after the given milliseconds, rounded up to seconds.
pub fn retry_after_epoch(now_epoch: i64, retry_after_ms: u64) -> (r: i64)
    ensures
        r == shifted(now_epoch, seconds_up(retry_after_ms)),
{
    shift(now_epoch, whole_seconds(retry_after_ms))
}

/// Two to the power of `n`.
pub open spec fn power_of_two(n: int) -> int
    decreases n,
{
    if n <= 0 {
        1
    } else {
        2 * power_of_two(n - 1)
    }
}

/// The cap of a backoff, at least one second.
pub open spec fn effective_cap(cap: i64) -> int {
    if cap >= 1 {
        cap as int
    } else {
        1
    }
}

/// A backoff level within its range.
pub open spec fn effective_level(level: i64) -> int {
    if level < 0 {
        0
    } else if level > 20 {
        20
    } else {
        level as int
    }
}

/// The wait before jitter: it doubles with each level up to the cap.
pub open spec fn backoff_base(level: i64, cap: i64) -> int {
    if power_of_two(effective_level(level)) <= effective_cap(cap) {
        power_of_two(effective_level(level))
    } else {
        effective_cap(cap)
    }
}

/// The text that seeds the jitter of a backoff.
pub open spec fn backoff_seed(account_id: i64, endpoint_key: Seq<char>, level: i64) -> Seq<char> {
    text::signed_decimal(account_id as int) + ":"@ + endpoint_key + ":"@ + text::signed_decimal(
        level as int,
    )
}

/// The width of the jitter: a quarter of the base, at least one.
pub open spec fn jitter_width(base: int) -> int {
    if base / 4 >= 1 {
        base / 4
    } else {
        1
    }
}

/// The wait of a backoff: the base and a jitter that account, endpoint and level determine, up to
/// the cap.
pub open spec fn backoff_delay(
    account_id: i64,
    endpoint_key: Seq<char>,
    level: i64,
    cap: i64,
) -> int {
    let base = backoff_base(level, cap);
    let h = hash::fnv1a_of(vstd::utf8::encode_utf8(backoff_seed(account_id, endpoint_key, level)));
    let delay = base + h as int % jitter_width(base);
    if delay <= effective_cap(cap) {
        delay
    } else {
        effective_cap(cap)
    }
}

proof fn lemma_power_bound(n: int)
    requires
        0 <= n <= 20,
    ensures
        1 <= power_of_two(n) <= 1048576,
{
    reveal_with_fuel(power_of_two, 21);
}

fn two_to_the(n: i64) -> (r: i64)
    requires
        0 <= n <= 20,
    ensures
        r == power_of_two(n as int),
        1 <= r <= 1048576,
{
    let mut r: i64 = 1;
    let mut i: i64 = 0;
    while i < n
        invariant
            0 <= i <= n <= 20,
            r == power_of_two(i as int),
            1 <= r <= 1048576,
        decreases n - i,
    {
        proof {
            lemma_power_bound(i + 1);
        }
        r = r * 2;
        i = i + 1;
    }
    r
}

/// The wait of a backoff in seconds.
pub fn backoff_delay_secs(account_id: i64, endpoint_key: &str, level: i64, cap: i64) -> (r: i64)
    ensures
        r == backoff_delay(account_id, endpoint_key@, level, cap),
{
    let exponent: i64 = if level < 0 {
        0
    } else if level > 20 {
        20
    } else {
        level
    };
    let limit: i64 = if cap >= 1 {
        cap
    } else {
        1
    };
    let power: i64 = two_to_the(exponent);
    let base: i64 = if power <= limit {
        power
    } else {
        limit
    };
    let mut seed = text::join3(text::i64_text(account_id).as_str(), ":", endpoint_key);
    seed.append(":");
    seed.append(text::i64_text(level).as_str());
    let h: u64 = hash::stable_hash(seed.as_str());
    let width: i64 = if base / 4 >= 1 {
        base / 4
    } else {
        1
    };
    let jitter: i64 = (h % (width as u64)) as i64;
    let delay: i64 = base + jitter;
    if delay <= limit {
        delay
    } else {
        limit
    }
}

/// The wait that a source asks for, in seconds.
pub open spec fn upstream_delay(retry_after_ms: Option<u64>) -> int {
    match retry_after_ms {
        Some(ms) => seconds_up(ms),
        None => 0,
    }
}

/// The wait after a rate limit: the longer of the backoff and what the source asks for.
pub open spec fn limit_delay(
    account_id: i64,
    endpoint_key: Seq<char>,
    level: i64,
    retry_after_ms: Option<u64>,
    cap: i64,
) -> int {
    let own = backoff_delay(account_id, endpoint_key, level, cap);
    let upstream = upstream_delay(retry_after_ms);
    if own >= upstream {
        own
    } else {
        upstream
    }
}

/// The wait after a rate limit in seconds.
pub fn rate_limit_delay_secs(
    account_id: i64,
    endpoint_key: &str,
    level: i64,
    retry_after_ms: Option<u64>,
    cap: i64,
) -> (r: i64)
    ensures
        r == limit_delay(account_id, endpoint_key@, level, retry_after_ms, cap),
{
    let own: i64 = backoff_delay_secs(account_id, endpoint_key, level, cap);
    let upstream: i64 = match retry_after_ms {
        Some(ms) => whole_seconds(ms),
        None => 0,
    };
    if own >= upstream {
        own
    } else {
        upstream
    }
}

/// A backoff waits at least its base and at most its cap, and always at least one second.
pub proof fn backoff_stays_between_base_and_cap(
    account_id: i64,
    endpoint_key: Seq<char>,
    level: i64,
    cap: i64,
)
    ensures
        1 <= backoff_base(level, cap) <= backoff_delay(account_id, endpoint_key, level, cap)
            <= effective_cap(cap),
{
    lemma_power_bound(effective_level(level));
}

/// A higher level never has a shorter base.
pub proof fn backoff_base_grows(a: i64, b: i64, cap: i64)
    requires
        a <= b,
    ensures
        backoff_base(a, cap) <= backoff_base(b, cap),
{
    lemma_power_grows(effective_level(a), effective_level(b));
}

proof fn lemma_power_grows(a: int, b: int)
    requires
        0 <= a <= b <= 20,
    ensures
        power_of_two(a) <= power_of_two(b),
    decreases b - a,
{
    if a < b {
        lemma_power_grows(a, b - 1);
        lemma_power_bound(b - 1);
    }
}

/// A rate limit is never lifted before the source asks for.
pub proof fn source_wait_is_respected(
    account_id: i64,
    endpoint_key: Seq<char>,
    level: i64,
    retry_after_ms: u64,
    cap: i64,
)
    ensures
        limit_delay(account_id, endpoint_key, level, Some(retry_after_ms), cap) >= seconds_up(
            retry_after_ms,
        ),
        retry_after_ms <= u64::MAX - 999 ==> seconds_up(retry_after_ms) * 1000 >= retry_after_ms,
{
}

/// A latch for the moment before a limit is applied to a waiting job.
#[derive(Debug, Clone, Copy, PartialEq, Eq, Structural)]
pub struct PendingRateLimitBarrier {
    pub entered: bool,
    pub released: bool,
}

impl PendingRateLimitBarrier {
    /// A latch that nobody has entered and that is not released.
    pub fn new() -> (r: Self)
        ensures
            r == (PendingRateLimitBarrier { entered: false, released: false }),
    {
        PendingRateLimitBarrier { entered: false, released: false }
    }

    /// Enters the latch; the result tells whether to wait.
    pub fn enter_and_wait(&mut self) -> (r: bool)
        ensures
            *final(self) == (PendingRateLimitBarrier { entered: true, ..*old(self) }),
            r == !old(self).released,
    {
        self.entered = true;
        !self.released
    }

    /// Whether to go on waiting for somebody to enter.
    pub fn wait_until_entered(&self) -> (r: bool)
        ensures
            r == !self.entered,
    {
        !self.entered
    }

    /// Releases the latch for good.
    pub fn release(&mut self)
        ensures
            *final(self) == (PendingRateLimitBarrier { released: true, ..*old(self) }),
    {
        self.released = true;
    }
}

/// A gate that keeps requests back until a time.
#[derive(Debug, PartialEq, Eq)]
pub struct RateGate {
    pub next_allowed_epoch: i64,
    pub backoff_level: i64,
    pub retry_after_epoch: Option<i64>,
    pub updated_at: String,
    pub updated_at_epoch: i64,
    pub revision: i64,
}

/// The key of the rate gate that a limit closes: one for all endpoints of an account, or that of
/// the endpoint.
pub open spec fn gate_key_of(scope: RateLimitScope, endpoint_key: Seq<char>) -> Seq<char> {
    if scope == RateLimitScope::Account {
        "__account__"@
    } else {
        endpoint_key
    }
}

/// The key of the rate gate that a limit closes.
pub fn gate_key(scope: RateLimitScope, endpoint_key: &str) -> (r: String)
    ensures
        r@ == gate_key_of(scope, endpoint_key@),
{
    if scope == RateLimitScope::Account {
        "__account__".to_owned()
    } else {
        endpoint_key.to_owned()
    }
}

/// The level of a gate after one more limit.
pub open spec fn next_level(gate: Option<RateGate>) -> int {
    match gate {
        Some(g) => g.backoff_level + 1,
        None => 1,
    }
}

/// A gate after one more limit: its level rises, it opens no earlier than before and no earlier
/// than the limit demands, and it remembers whether the source named a time.
pub fn limited_gate(
    gate: Option<RateGate>,
    account_id: i64,
    key: &str,
    info: RateLimitInfo,
    now_epoch: i64,
    updated_at: &str,
) -> (r: RateGate)
    requires
        gate matches Some(g) ==> g.backoff_level < i64::MAX && g.revision < i64::MAX,
    ensures
        ({
            let proposed = shifted(
                now_epoch,
                limit_delay(
                    account_id,
                    key@,
                    next_level(gate) as i64,
                    info.retry_after_ms,
                    BACKOFF_CAP_SECS,
                ),
            );
            &&& r.backoff_level == next_level(gate)
            &&& r.next_allowed_epoch == latest(
                match gate {
                    Some(g) => g.next_allowed_epoch,
                    None => 0,
                },
                proposed,
            )
            &&& r.retry_after_epoch == if info.retry_after_ms is Some {
                Some(proposed)
            } else {
                None
            }
            &&& r.updated_at@ == updated_at@
            &&& r.updated_at_epoch == match gate {
                Some(g) => latest(g.updated_at_epoch, now_epoch),
                None => now_epoch,
            }
            &&& r.revision == match gate {
                Some(g) => g.revision + 1,
                None => 1,
            }
        }),
        gate matches Some(g) ==> r.next_allowed_epoch >= g.next_allowed_epoch,
{
    let (level, revision, next, updated): (i64, i64, i64, i64) = match &gate {
        Some(g) => (
            g.backoff_level + 1,
            g.revision + 1,
            g.next_allowed_epoch,
            if g.updated_at_epoch >= now_epoch {
                g.updated_at_epoch
            } else {
                now_epoch
            },
        ),
        None => (1, 1, 0, now_epoch),
    };
    let delay: i64 = rate_limit_delay_secs(
        account_id,
        key,
        level,
        info.retry_after_ms,
        BACKOFF_CAP_SECS,
    );
    let proposed: i64 = shift(now_epoch, delay);
    RateGate {
        next_allowed_epoch: if next >= proposed {
            next
        } else {
            proposed
        },
        backoff_level: level,
        retry_after_epoch: if info.retry_after_ms.is_some() {
            Some(proposed)
        } else {
            None
        },
        updated_at: updated_at.to_owned(),
        updated_at_epoch: updated,
        revision,
    }
}

/// When a job that was limited on its own may run again, at its new level.
pub fn request_limit_epoch(job: &SyncJobDto, level: i64, info: RateLimitInfo, now_epoch: i64) -> (r:
    i64)
    ensures
        r == shifted(
            now_epoch,
            limit_delay(
                job.account_id,
                job.endpoint_key@,
                level,
                info.retry_after_ms,
                BACKOFF_CAP_SECS,
            ),
        ),
{
    let delay: i64 = rate_limit_delay_secs(
        job.account_id,
        job.endpoint_key.as_str(),
        level,
        info.retry_after_ms,
        BACKOFF_CAP_SECS,
    );
    shift(now_epoch, delay)
}

/// When both the rate gate of an account and that of an endpoint are open. A missing one is open
/// from the beginning of time.
pub fn combined_gate_epoch(account_gate: Option<i64>, endpoint_gate: Option<i64>) -> (r: i64)
    ensures
        r == match (account_gate, endpoint_gate) {
            (Some(a), Some(b)) => latest(a, b),
            (Some(a), None) => a,
            (None, Some(b)) => b,
            (None, None) => 0,
        },
{
    match (account_gate, endpoint_gate) {
        (Some(a), Some(b)) => if a >= b {
            a
        } else {
            b
        },
        (Some(a), None) => a,
        (None, Some(b)) => b,
        (None, None) => 0,
    }
}

/// A change of a gate that was decided elsewhere.
#[derive(Debug, PartialEq, Eq)]
pub struct GateUpdate {
    pub next_allowed_epoch: i64,
    pub backoff_level: i64,
    pub retry_after_epoch: Option<i64>,
    pub updated_at: String,
    pub updated_at_epoch: i64,
}

/// A gate after a change: neither its time nor its level goes back, and the time that the source
/// named belongs to the later of the two times.
pub fn updated_gate(gate: Option<RateGate>, update: GateUpdate) -> (r: RateGate)
    ensures
        r == match gate {
            Some(g) => RateGate {
                next_allowed_epoch: latest(g.next_allowed_epoch, update.next_allowed_epoch),
                backoff_level: latest(g.backoff_level, update.backoff_level),
                retry_after_epoch: if update.next_allowed_epoch >= g.next_allowed_epoch {
                    update.retry_after_epoch
                } else {
                    g.retry_after_epoch
                },
                updated_at: update.updated_at,
                updated_at_epoch: latest(g.updated_at_epoch, update.updated_at_epoch),
                revision: g.revision,
            },
            None => RateGate {
                next_allowed_epoch: update.next_allowed_epoch,
                backoff_level: update.backoff_level,
                retry_after_epoch: update.retry_after_epoch,
                updated_at: update.updated_at,
                updated_at_epoch: update.updated_at_epoch,
                revision: 0,
            },
        },
        gate matches Some(g) ==> r.next_allowed_epoch >= g.next_allowed_epoch,
{
    match gate {
        Some(g) => RateGate {
            next_allowed_epoch: if g.next_allowed_epoch >= update.next_allowed_epoch {
                g.next_allowed_epoch
            } else {
                update.next_allowed_epoch
            },
            backoff_level: if g.backoff_level >= update.backoff_level {
                g.backoff_level
            } else {
                update.backoff_level
            },
            retry_after_epoch: if update.next_allowed_epoch >= g.next_allowed_epoch {
                update.retry_after_epoch
            } else {
                g.retry_after_epoch
            },
            updated_at: update.updated_at,
            updated_at_epoch: if g.updated_at_epoch >= update.updated_at_epoch {
                g.updated_at_epoch
            } else {
                update.updated_at_epoch
            },
            revision: g.revision,
        },
        None => RateGate {
            next_allowed_epoch: update.next_allowed_epoch,
            backoff_level: update.backoff_level,
            retry_after_epoch: update.retry_after_epoch,
            updated_at: update.updated_at,
            updated_at_epoch: update.updated_at_epoch,
            revision: 0,
        },
    }
}

/// What becomes of a job whose run hit a rate limit: it has used one more of its attempts, waits at
/// least until the rate gate opens, and fails for good with its last attempt.
pub fn requeued_job(
    recovery_count: i64,
    max_recovery_attempts: i64,
    available_at_epoch: i64,
    gate_epoch: i64,
) -> (r: (i64, bool, i64))
    requires
        recovery_count < i64::MAX,
    ensures
        r.0 == recovery_count + 1,
        r.1 == (recovery_count + 1 >= max_recovery_attempts),
        r.2 == latest(available_at_epoch, gate_epoch),
{
    let next: i64 = recovery_count + 1;
    let available: i64 = if available_at_epoch >= gate_epoch {
        available_at_epoch
    } else {
        gate_epoch
    };
    (next, next >= max_recovery_attempts, available)
}

/// How the record of a rate-limited run ends, by what it changed: when the job is due again, or a
/// negative time when it has failed for good. Without the job or the run the ownership was lost.
pub fn finish_rate_limited_run(job_failed: Option<bool>, run_rows: u64, gate_epoch: i64) -> (r:
    Result<i64>)
    ensures
        match job_failed {
            None => r matches Err(e) && error::is_inconsistent(
                e,
                "rate-limit finish lost ownership"@,
            ),
            Some(failed) => if run_rows != 1 {
                r matches Err(e) && error::is_inconsistent(
                    e,
                    "rate-limit finish lost run ownership"@,
                )
            } else {
                r == Ok::<i64, Error>(
                    if failed {
                        -1i64
                    } else {
                        gate_epoch
                    },
                )
            },
        },
{
    match job_failed {
        None => Err(error::inconsistent("rate-limit finish lost ownership")),
        Some(failed) => if run_rows != 1 {
            Err(error::inconsistent("rate-limit finish lost run ownership"))
        } else if failed {
            Ok(-1)
        } else {
            Ok(gate_epoch)
        },
    }
}

/// Checks that a limit may be applied to a job: it exists and is waiting.
pub fn apply_rate_limit_to_pending_job(job_id: i64, status: Option<&str>) -> (r: Result<()>)
    ensures
        match status {
            None => r matches Err(e) && error::is_inconsistent(
                e,
                "sync job "@ + text::signed_decimal(job_id as int) + " not found"@,
            ),
            Some(s) => if s@ == "pending"@ {
                r is Ok
            } else {
                r matches Err(e) && error::is_inconsistent(e, "rate-limit target is not pending"@)
            },
        },
{
    match status {
        None => Err(
            Error::InconsistentTask(
                text::join3("sync job ", text::i64_text(job_id).as_str(), " not found"),
            ),
        ),
        Some(s) => if text::same_text(s, "pending") {
            Ok(())
        } else {
            Err(error::inconsistent("rate-limit target is not pending"))
        },
    }
}

/// When a waiting job is due after a limit was applied to it, provided that it was still waiting.
pub fn pending_limit_applied(rows: u64, gate_epoch: i64) -> (r: Result<i64>)
    ensures
        if rows == 1 {
            r == Ok::<i64, Error>(gate_epoch)
        } else {
            r matches Err(e) && error::is_inconsistent(e, "rate-limit pending CAS lost"@)
        },
{
    if rows == 1 {
        Ok(gate_epoch)
    } else {
        Err(error::inconsistent("rate-limit pending CAS lost"))
    }
}

} // verus!
