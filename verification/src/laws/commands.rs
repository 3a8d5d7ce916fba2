//! Commands: what the user interface is shown, what it may enter, and how the backend starts and
//! stops.
use vstd::prelude::*;

use crate::commands::backend;
use crate::commands::backend::{
    perform_init_backend, setup, BackendState, BackendStatus, GreetingOutcome, InitOutcome,
};
use crate::commands::error::{stable_sync_error, sync_core_error, Error, Result};
use crate::commands::sync;
use crate::commands::sync::{
    account_wire, enqueue_sync_job, job_spec, monitored_user_wire, safe_worker_stop,
    save_monitored_user, save_sync_account, sync_control_wire, sync_job_wire, sync_run_wire,
    validate_account_input, validate_job_spec, validate_monitor_input, validate_session_ref,
    AccountWireDto, ControlStopWireResult, MonitoredUserWireDto, SaveMonitoredUserInput,
    SaveSyncAccountInput, SyncJobCommandSpec, SyncJobControlWireOutcome, SyncJobWireDto,
    SyncRunWireDto, WeiboId,
};
use crate::json;
use crate::json::{Json, JsonView, NumberView};
use crate::paths;
use crate::service::shutdown::SyncJobControlOutcome;
use crate::sidecar::supervisor::SidecarError;
use crate::storage::internal::entities::{
    AccountDto, MonitoredUserDto, SyncJobDto, SyncJobSpec, SyncRunDto,
};
use crate::sync_executor::ControlStopResult;
use crate::text;

verus! {

/// Whether a result is refused with the given words.
pub open spec fn told<T>(r: Result<T>, words: Seq<char>) -> bool {
    r matches Err(e) && e.0@ == words
}

/// Whether a value has a text under a key.
pub open spec fn shows_text(v: JsonView, key: Seq<char>, s: Seq<char>) -> bool {
    json::field(v, key) == Some(JsonView::Text(s))
}

/// Whether a value has a text, or `null` where there is none, under a key.
pub open spec fn shows_opt(v: JsonView, key: Seq<char>, s: Option<String>) -> bool {
    match s {
        Some(s) => shows_text(v, key, s@),
        None => json::field(v, key) == Some(JsonView::Null),
    }
}

/// Whether a value has a truth value under a key.
pub open spec fn shows_bool(v: JsonView, key: Seq<char>, b: bool) -> bool {
    json::field(v, key) == Some(JsonView::Bool(b))
}

/// A number that is shown as text can be read back.
proof fn lemma_reads_back(shown: Seq<char>, n: i64)
    requires
        shown == text::signed_decimal(n as int),
    ensures
        text::i64_value(shown) == Some(n),
{
    text::signed_decimal_parses_back(n);
}

/// An account is shown with all that identifies it, and with whether it has a session, but never
/// with the session itself.
pub proof fn accounts_are_shown_without_their_session(
    account: AccountDto,
    w: AccountWireDto,
    shown: &str,
    read: Option<i64>,
    j: Json,
)
    requires
        call_ensures(account_wire, (account,), w),
        shown@ == w.id@,
        call_ensures(text::parse_i64, (shown,), read),
        call_ensures(AccountWireDto::to_wire, (&w,), j),
    ensures
        read == Some(account.id),
        shows_text(j@, "id"@, w.id@),
        shows_text(j@, "provider"@, account.provider@),
        shows_text(j@, "uid"@, account.uid@),
        shows_opt(j@, "display_name"@, account.display_name),
        shows_bool(j@, "enabled"@, account.enabled),
        shows_bool(j@, "has_session"@, account.session_ref@.len() > 0),
        shows_text(j@, "created_at"@, account.created_at@),
        shows_opt(j@, "updated_at"@, account.updated_at),
        json::field(j@, "session_ref"@) is None,
{
    lemma_reads_back(w.id@, account.id);
    reveal_strlit("id");
    reveal_strlit("provider");
    reveal_strlit("uid");
    reveal_strlit("display_name");
    reveal_strlit("enabled");
    reveal_strlit("has_session");
    reveal_strlit("created_at");
    reveal_strlit("updated_at");
    reveal_strlit("session_ref");
    assert("id"@.len() == 2);
    assert("provider"@.len() == 8);
    assert("uid"@.len() == 3);
    assert("display_name"@.len() == 12);
    assert("enabled"@.len() == 7);
    assert("has_session"@.len() == 11);
    assert("created_at"@.len() == 10);
    assert("updated_at"@.len() == 10);
    assert("session_ref"@.len() == 11);
    assert("has_session"@[0] != "session_ref"@[0]);
    assert("created_at"@[0] != "updated_at"@[0]);
}

/// A job is shown as it is, its numbers as texts that can be read back, but never with its payload.
pub proof fn jobs_are_shown_without_their_payload(
    job: SyncJobDto,
    w: SyncJobWireDto,
    numbers: Seq<&str>,
    reads: Seq<Option<i64>>,
)
    requires
        call_ensures(sync_job_wire, (job,), w),
        numbers.len() == 6,
        reads.len() == 6,
        numbers[0]@ == w.id@,
        numbers[1]@ == w.priority@,
        numbers[2]@ == w.recovery_count@,
        numbers[3]@ == w.max_recovery_attempts@,
        numbers[4]@ == w.available_at_epoch@,
        numbers[5]@ == w.account_id@,
        forall|i: int|
            0 <= i < 6 ==> call_ensures(text::parse_i64, (numbers[i],), #[trigger] reads[i]),
    ensures
        reads[0] == Some(job.id),
        reads[1] == Some(job.priority),
        reads[2] == Some(job.recovery_count),
        reads[3] == Some(job.max_recovery_attempts),
        reads[4] == Some(job.available_at_epoch),
        reads[5] == Some(job.account_id),
        w.resource_key == job.resource_key && w.name == job.name && w.kind == job.kind && w.status
            == job.status && w.schedule_config == job.schedule_config && w.enabled == job.enabled,
        w.available_at == job.available_at && w.claimed_at == job.claimed_at && w.created_at
            == job.created_at && w.updated_at == job.updated_at && w.endpoint_key
            == job.endpoint_key,
        w.current_run_id is Some <==> job.current_run_id is Some,
{
    lemma_reads_back(w.id@, job.id);
    lemma_reads_back(w.priority@, job.priority);
    lemma_reads_back(w.recovery_count@, job.recovery_count);
    lemma_reads_back(w.max_recovery_attempts@, job.max_recovery_attempts);
    lemma_reads_back(w.available_at_epoch@, job.available_at_epoch);
    lemma_reads_back(w.account_id@, job.account_id);
    assert(call_ensures(text::parse_i64, (numbers[0],), reads[0]));
    assert(call_ensures(text::parse_i64, (numbers[1],), reads[1]));
    assert(call_ensures(text::parse_i64, (numbers[2],), reads[2]));
    assert(call_ensures(text::parse_i64, (numbers[3],), reads[3]));
    assert(call_ensures(text::parse_i64, (numbers[4],), reads[4]));
    assert(call_ensures(text::parse_i64, (numbers[5],), reads[5]));
}

/// The run that a job is in is shown as text, too.
pub proof fn current_runs_are_shown(
    job: SyncJobDto,
    w: SyncJobWireDto,
    run: i64,
    shown: &str,
    read: Option<i64>,
)
    requires
        job.current_run_id == Some(run),
        call_ensures(sync_job_wire, (job,), w),
        w.current_run_id matches Some(s) ==> s@ == shown@,
        call_ensures(text::parse_i64, (shown,), read),
    ensures
        read == Some(run),
{
    lemma_reads_back(shown@, run);
}

/// What travels of a job is what is shown of it, each under its own name, and nothing of its payload.
#[verifier::rlimit(40)]
pub proof fn jobs_travel_under_their_names(w: SyncJobWireDto, j: Json)
    requires
        call_ensures(SyncJobWireDto::to_wire, (&w,), j),
    ensures
        shows_text(j@, "id"@, w.id@),
        shows_text(j@, "resource_key"@, w.resource_key@),
        shows_text(j@, "name"@, w.name@),
        shows_text(j@, "kind"@, w.kind@),
        shows_text(j@, "status"@, w.status@),
        shows_text(j@, "priority"@, w.priority@),
        shows_opt(j@, "schedule_config"@, w.schedule_config),
        shows_bool(j@, "enabled"@, w.enabled),
        shows_text(j@, "recovery_count"@, w.recovery_count@),
        shows_text(j@, "max_recovery_attempts"@, w.max_recovery_attempts@),
        shows_opt(j@, "available_at"@, w.available_at),
        shows_text(j@, "available_at_epoch"@, w.available_at_epoch@),
        shows_opt(j@, "claimed_at"@, w.claimed_at),
        shows_opt(j@, "current_run_id"@, w.current_run_id),
        shows_text(j@, "created_at"@, w.created_at@),
        shows_opt(j@, "updated_at"@, w.updated_at),
        shows_text(j@, "account_id"@, w.account_id@),
        shows_text(j@, "endpoint_key"@, w.endpoint_key@),
        json::field(j@, "payload_json"@) is None,
{
    reveal_strlit("id");
    reveal_strlit("resource_key");
    reveal_strlit("name");
    reveal_strlit("kind");
    reveal_strlit("status");
    reveal_strlit("priority");
    reveal_strlit("schedule_config");
    reveal_strlit("enabled");
    reveal_strlit("recovery_count");
    reveal_strlit("max_recovery_attempts");
    reveal_strlit("available_at");
    reveal_strlit("available_at_epoch");
    reveal_strlit("claimed_at");
    reveal_strlit("current_run_id");
    reveal_strlit("created_at");
    reveal_strlit("updated_at");
    reveal_strlit("account_id");
    reveal_strlit("endpoint_key");
    reveal_strlit("payload_json");
    assert("id"@.len() == 2);
    assert("resource_key"@.len() == 12);
    assert("name"@.len() == 4);
    assert("kind"@.len() == 4);
    assert("status"@.len() == 6);
    assert("priority"@.len() == 8);
    assert("schedule_config"@.len() == 15);
    assert("enabled"@.len() == 7);
    assert("recovery_count"@.len() == 14);
    assert("max_recovery_attempts"@.len() == 21);
    assert("available_at"@.len() == 12);
    assert("available_at_epoch"@.len() == 18);
    assert("claimed_at"@.len() == 10);
    assert("current_run_id"@.len() == 14);
    assert("created_at"@.len() == 10);
    assert("updated_at"@.len() == 10);
    assert("account_id"@.len() == 10);
    assert("endpoint_key"@.len() == 12);
    assert("payload_json"@.len() == 12);
    assert("name"@[0] != "kind"@[0]);
    assert("resource_key"@[0] != "available_at"@[0]);
    assert("resource_key"@[0] != "endpoint_key"@[0]);
    assert("available_at"@[0] != "endpoint_key"@[0]);
    assert("payload_json"@[0] != "resource_key"@[0]);
    assert("payload_json"@[0] != "available_at"@[0]);
    assert("payload_json"@[0] != "endpoint_key"@[0]);
    assert("recovery_count"@[0] != "current_run_id"@[0]);
    assert("claimed_at"@[1] != "created_at"@[1]);
    assert("claimed_at"@[0] != "updated_at"@[0]);
    assert("claimed_at"@[0] != "account_id"@[0]);
    assert("created_at"@[0] != "updated_at"@[0]);
    assert("created_at"@[0] != "account_id"@[0]);
    assert("updated_at"@[0] != "account_id"@[0]);
}

/// A run is shown as it is, but never with its error.
pub proof fn runs_are_shown_without_their_error(
    run: SyncRunDto,
    w: SyncRunWireDto,
    id: &str,
    job_id: &str,
    attempt: &str,
    read_id: Option<i64>,
    read_job: Option<i64>,
    read_attempt: Option<i64>,
    j: Json,
)
    requires
        call_ensures(sync_run_wire, (run,), w),
        id@ == w.id@,
        job_id@ == w.job_id@,
        attempt@ == w.attempt@,
        call_ensures(text::parse_i64, (id,), read_id),
        call_ensures(text::parse_i64, (job_id,), read_job),
        call_ensures(text::parse_i64, (attempt,), read_attempt),
        call_ensures(SyncRunWireDto::to_wire, (&w,), j),
    ensures
        read_id == Some(run.id) && read_job == Some(run.job_id) && read_attempt == Some(
            run.attempt,
        ),
        shows_text(j@, "id"@, w.id@),
        shows_text(j@, "job_id"@, w.job_id@),
        shows_text(j@, "status"@, run.status@),
        shows_text(j@, "started_at"@, run.started_at@),
        shows_opt(j@, "finished_at"@, run.finished_at),
        shows_opt(j@, "stats_json"@, run.stats_json),
        shows_text(j@, "attempt"@, w.attempt@),
        shows_opt(j@, "updated_at"@, run.updated_at),
        json::field(j@, "error"@) is None,
{
    lemma_reads_back(w.id@, run.id);
    lemma_reads_back(w.job_id@, run.job_id);
    lemma_reads_back(w.attempt@, run.attempt);
    reveal_strlit("id");
    reveal_strlit("job_id");
    reveal_strlit("status");
    reveal_strlit("started_at");
    reveal_strlit("finished_at");
    reveal_strlit("stats_json");
    reveal_strlit("attempt");
    reveal_strlit("updated_at");
    reveal_strlit("error");
    assert("id"@.len() == 2);
    assert("job_id"@.len() == 6);
    assert("status"@.len() == 6);
    assert("started_at"@.len() == 10);
    assert("finished_at"@.len() == 11);
    assert("stats_json"@.len() == 10);
    assert("attempt"@.len() == 7);
    assert("updated_at"@.len() == 10);
    assert("error"@.len() == 5);
    assert("job_id"@[0] != "status"@[0]);
    assert("started_at"@[3] != "stats_json"@[3]);
    assert("started_at"@[0] != "updated_at"@[0]);
    assert("stats_json"@[0] != "updated_at"@[0]);
}

/// A monitored user is shown as they are, their numbers as texts that can be read back.
pub proof fn users_are_shown_as_they_are(
    user: MonitoredUserDto,
    w: MonitoredUserWireDto,
    numbers: Seq<&str>,
    reads: Seq<Option<i64>>,
)
    requires
        call_ensures(monitored_user_wire, (user,), w),
        numbers.len() == 5,
        reads.len() == 5,
        numbers[0]@ == w.account_id@,
        numbers[1]@ == w.uid@,
        numbers[2]@ == w.interval_secs@,
        numbers[3]@ == w.jitter_secs@,
        numbers[4]@ == w.next_refresh_epoch@,
        forall|i: int|
            0 <= i < 5 ==> call_ensures(text::parse_i64, (numbers[i],), #[trigger] reads[i]),
    ensures
        reads[0] == Some(user.account_id),
        reads[1] == Some(user.uid),
        reads[2] == Some(user.interval_secs),
        reads[3] == Some(user.jitter_secs),
        reads[4] == Some(user.next_refresh_epoch),
        w.screen_name == user.screen_name && w.refresh_strategy == user.refresh_strategy
            && w.enabled == user.enabled && w.last_refreshed_at == user.last_refreshed_at
            && w.created_at == user.created_at && w.updated_at == user.updated_at && w.tier
            == user.tier,
        user.last_refresh_epoch matches Some(n) ==> (w.last_refresh_epoch matches Some(s)
            && text::i64_value(s@) == Some(n)),
        user.last_refresh_epoch is None ==> w.last_refresh_epoch is None,
{
    lemma_reads_back(w.account_id@, user.account_id);
    lemma_reads_back(w.uid@, user.uid);
    lemma_reads_back(w.interval_secs@, user.interval_secs);
    lemma_reads_back(w.jitter_secs@, user.jitter_secs);
    lemma_reads_back(w.next_refresh_epoch@, user.next_refresh_epoch);
    if let Some(n) = user.last_refresh_epoch {
        lemma_reads_back(w.last_refresh_epoch->Some_0@, n);
    }
    assert(call_ensures(text::parse_i64, (numbers[0],), reads[0]));
    assert(call_ensures(text::parse_i64, (numbers[1],), reads[1]));
    assert(call_ensures(text::parse_i64, (numbers[2],), reads[2]));
    assert(call_ensures(text::parse_i64, (numbers[3],), reads[3]));
    assert(call_ensures(text::parse_i64, (numbers[4],), reads[4]));
}

/// How a worker was stopped is shown as it went, with its process, but why it could not be stopped
/// is not shown.
pub proof fn stops_are_shown_without_their_cause(
    pid: u32,
    why: String,
    s: ControlStopWireResult,
    t: ControlStopWireResult,
    n: ControlStopWireResult,
    g: ControlStopWireResult,
    f: ControlStopWireResult,
    sj: Json,
    tj: Json,
    nj: Json,
    gj: Json,
    fj: Json,
)
    requires
        call_ensures(safe_worker_stop, (ControlStopResult::Stopped { pid },), s),
        call_ensures(safe_worker_stop, (ControlStopResult::StopTimedOut { pid },), t),
        call_ensures(safe_worker_stop, (ControlStopResult::WorkerNotFound,), n),
        call_ensures(safe_worker_stop, (ControlStopResult::WorkerStarting,), g),
        call_ensures(safe_worker_stop, (ControlStopResult::StopFailed(why),), f),
        call_ensures(ControlStopWireResult::to_wire, (&s,), sj),
        call_ensures(ControlStopWireResult::to_wire, (&t,), tj),
        call_ensures(ControlStopWireResult::to_wire, (&n,), nj),
        call_ensures(ControlStopWireResult::to_wire, (&g,), gj),
        call_ensures(ControlStopWireResult::to_wire, (&f,), fj),
    ensures
        s == (ControlStopWireResult::Stopped { pid }),
        t == (ControlStopWireResult::StopTimedOut { pid }),
        n == ControlStopWireResult::WorkerNotFound,
        g == ControlStopWireResult::WorkerStarting,
        f matches ControlStopWireResult::StopFailed(m) && m@
            == "Sync operation failed; see the application log"@,
        shows_text(sj@, "status"@, "stopped"@),
        shows_text(tj@, "status"@, "stop_timed_out"@),
        shows_text(nj@, "status"@, "worker_not_found"@),
        shows_text(gj@, "status"@, "worker_starting"@),
        shows_text(fj@, "status"@, "stop_failed"@),
        json::field(sj@, "detail"@) matches Some(d) && json::field(d, "pid"@) == Some(
            JsonView::Number(NumberView::Integer(pid as int)),
        ),
        json::field(tj@, "detail"@) == json::field(sj@, "detail"@),
        json::field(nj@, "detail"@) is None && json::field(gj@, "detail"@) is None,
        shows_text(fj@, "detail"@, "Sync operation failed; see the application log"@),
{
    reveal_strlit("status");
    reveal_strlit("detail");
    assert("status"@.len() == 6);
    assert("detail"@.len() == 6);
    assert("status"@[0] != "detail"@[0]);
}

/// A job that was paused or cancelled is shown as the job is, together with how its worker was stopped.
pub proof fn controls_are_shown_with_their_job(
    outcome: SyncJobControlOutcome,
    w: SyncJobWireDto,
    s: ControlStopWireResult,
    r: SyncJobControlWireOutcome,
    wj: Json,
    sj: Json,
    rj: Json,
)
    requires
        call_ensures(sync_job_wire, (outcome.job,), w),
        call_ensures(safe_worker_stop, (outcome.worker_stop,), s),
        call_ensures(sync_control_wire, (outcome,), r),
        call_ensures(SyncJobWireDto::to_wire, (&r.job,), wj),
        call_ensures(ControlStopWireResult::to_wire, (&r.worker_stop,), sj),
        call_ensures(SyncJobControlWireOutcome::to_wire, (&r,), rj),
    ensures
        r.job.id@ == w.id@ && r.job.status == w.status && r.job.name == w.name && r.job.kind
            == w.kind && r.job.account_id@ == w.account_id@ && r.job.priority@ == w.priority@
            && r.job.resource_key == w.resource_key,
        !(outcome.worker_stop is StopFailed) ==> r.worker_stop == s,
        outcome.worker_stop is StopFailed ==> (
        r.worker_stop matches ControlStopWireResult::StopFailed(m) && m@
            == "Sync operation failed; see the application log"@),
        json::field(rj@, "job"@) == Some(wj@),
        json::field(rj@, "worker_stop"@) == Some(sj@),
{
    reveal_strlit("job");
    reveal_strlit("worker_stop");
    assert("job"@.len() == 3);
    assert("worker_stop"@.len() == 11);
    assert("job"@.len() != "worker_stop"@.len());
}

/// A session reference may be entered exactly if it is not empty, begins neither with a separator nor
/// with a drive, has no piece that leads upwards and holds no null character.
pub proof fn entered_sessions_are_relative(
    s: &str,
    pieces: Vec<String>,
    r: Result<()>,
)
    requires
        call_ensures(paths::split_at, (s, '/', '\\'), pieces),
        call_ensures(validate_session_ref, (s,), r),
    ensures
        r is Ok <==> s@.len() > 0 && s@[0] != '/' && s@[0] != '\\' && !(vstd::utf8::encode_utf8(
            s@,
        ).len() > 1 && vstd::utf8::encode_utf8(s@)[1] == 58) && !s@.contains('\0') && (forall|
            i: int,
        |
            0 <= i < pieces@.len() ==> (#[trigger] pieces@[i])@ != ".."@),
        r is Err ==> told(r, "Invalid sync input"@),
{
    let views = text::list_view(pieces@);
    assert(views == paths::split_of(s@, '/', '\\'));
    if views.contains(".."@) {
        let i = choose|i: int| 0 <= i < views.len() && views[i] == ".."@;
        assert(pieces@[i]@ == ".."@);
    } else {
        assert forall|i: int| 0 <= i < pieces@.len() implies (#[trigger] pieces@[i])@ != ".."@ by {
            assert(views.contains(views[i]));
        }
    }
}

/// An account may be saved exactly if its provider and its user are filled and not too long, and its
/// session, where one is entered, may be entered.
pub proof fn account_input_is_filled(
    input: SaveSyncAccountInput,
    session: &str,
    s: Result<()>,
    r: Result<()>,
)
    requires
        input.session_ref matches Some(t) ==> t@ == session@,
        call_ensures(validate_session_ref, (session,), s),
        call_ensures(validate_account_input, (&input,), r),
    ensures
        r is Ok <==> text::trim_of(input.provider@).len() > 0 && vstd::utf8::encode_utf8(
            input.provider@,
        ).len() <= 64 && text::trim_of(input.uid@).len() > 0 && vstd::utf8::encode_utf8(
            input.uid@,
        ).len() <= 128 && (input.session_ref is None || s is Ok),
        r is Err ==> told(r, "Invalid sync input"@),
{
}

/// A monitored user may be saved exactly if the account and the user are identified, the strategy is
/// one of three, the interval is from a second to a week, and the jitter is not beyond the interval.
pub proof fn monitor_input_is_bounded(input: SaveMonitoredUserInput, r: Result<()>)
    requires
        call_ensures(validate_monitor_input, (&input,), r),
    ensures
        r is Ok <==> input.account_id.0 >= 1 && input.uid.0 >= 1 && (input.refresh_strategy@
            == "hot"@ || input.refresh_strategy@ == "warm"@ || input.refresh_strategy@ == "cold"@)
            && 1 <= input.interval_secs <= 7 * 24 * 3600 && 0 <= input.jitter_secs
            <= input.interval_secs,
        r is Err ==> told(r, "Invalid sync input"@),
{
}

/// A job may be queued exactly if everything that it names is identified, its pages are between one
/// and a thousand, and so is its priority or zero; it is then queued as it was asked for.
pub proof fn queued_jobs_are_as_asked_for(
    account_id: i64,
    uid: i64,
    post_id: i64,
    root: i64,
    max_pages: Option<u32>,
    priority: i32,
    posts: Result<SyncJobSpec>,
    comments: Result<SyncJobSpec>,
    replies: Result<SyncJobSpec>,
)
    requires
        call_ensures(
            enqueue_sync_job,
            (
                SyncJobCommandSpec::CollectUserPosts {
                    account_id: WeiboId(account_id),
                    uid: WeiboId(uid),
                    max_pages,
                    priority,
                },
            ),
            posts,
        ),
        call_ensures(
            enqueue_sync_job,
            (
                SyncJobCommandSpec::CollectComments {
                    account_id: WeiboId(account_id),
                    post_id: WeiboId(post_id),
                    max_pages,
                    priority,
                },
            ),
            comments,
        ),
        call_ensures(
            enqueue_sync_job,
            (
                SyncJobCommandSpec::CollectCommentReplies {
                    account_id: WeiboId(account_id),
                    post_id: WeiboId(post_id),
                    root_comment_id: WeiboId(root),
                    max_pages,
                    priority,
                },
            ),
            replies,
        ),
    ensures
        ({
            let bounded = account_id >= 1 && 0 <= priority <= 1000 && (max_pages matches Some(n)
                ==> 1 <= n <= 1000);
            &&& posts is Ok <==> bounded && uid >= 1
            &&& comments is Ok <==> bounded && post_id >= 1
            &&& replies is Ok <==> bounded && post_id >= 1 && root >= 1
        }),
        posts is Err ==> told(posts, "Invalid sync input"@),
        comments is Err ==> told(comments, "Invalid sync input"@),
        replies is Err ==> told(replies, "Invalid sync input"@),
        posts is Ok ==> (posts matches Ok(
            SyncJobSpec::CollectUserPosts { account_id: a, uid: u, max_pages: m, priority: p },
        ) && a == account_id && u == uid && p == priority && (m matches Some(n) ==> max_pages
            == Some(n as u32)) && (m is None <==> max_pages is None)),
        comments is Ok ==> (comments matches Ok(
            SyncJobSpec::CollectComments { account_id: a, post_id: q, max_pages: m, priority: p },
        ) && a == account_id && q == post_id && p == priority && (m matches Some(n) ==> n <= 1000
            && max_pages == Some(n as u32)) && (m is None <==> max_pages is None)),
        replies is Ok ==> (replies matches Ok(
            SyncJobSpec::CollectCommentReplies {
                account_id: a,
                post_id: q,
                root_comment_id: c,
                max_pages: m,
                priority: p,
            },
        ) && a == account_id && q == post_id && c == root && p == priority && (m matches Some(n)
            ==> n <= 1000 && max_pages == Some(n as u32)) && (m is None <==> max_pages is None)),
{
}

/// Queueing a job is checking it, and then taking it as it is.
pub proof fn queueing_checks_first(
    spec: SyncJobCommandSpec,
    v: Result<()>,
    j: SyncJobSpec,
    r: Result<SyncJobSpec>,
)
    requires
        call_ensures(validate_job_spec, (&spec,), v),
        call_ensures(job_spec, (spec,), j),
        call_ensures(enqueue_sync_job, (spec,), r),
    ensures
        r is Ok <==> v is Ok,
        r matches Ok(queued) ==> queued == j,
        v is Err ==> told(v, "Invalid sync input"@),
{
}

/// A new account needs a session and must not exist yet; it begins without an identifier and with
/// what was entered.
pub proof fn new_accounts_are_new(
    input: SaveSyncAccountInput,
    existing: Vec<AccountDto>,
    v: Result<()>,
    r: Result<AccountDto>,
)
    requires
        input.id is None,
        call_ensures(validate_account_input, (&input,), v),
        call_ensures(save_sync_account, (input, &existing), r),
    ensures
        ({
            let taken = exists|i: int|
                0 <= i < existing@.len() && (#[trigger] existing@[i]).provider@ == input.provider@
                    && existing@[i].uid@ == input.uid@;
            &&& r is Ok <==> v is Ok && !taken && input.session_ref is Some
            &&& v is Err ==> told(r, "Invalid sync input"@)
            &&& v is Ok && taken ==> told(
                r,
                "An account with this provider and uid already exists"@,
            )
            &&& v is Ok && !taken && input.session_ref is None ==> told(
                r,
                "A session reference is required when creating an account"@,
            )
        }),
        r matches Ok(a) ==> a.id == 0 && a.provider@ == input.provider@ && a.uid@ == input.uid@
            && a.display_name == input.display_name && Some(a.session_ref) == input.session_ref
            && a.enabled == input.enabled && a.created_at@.len() == 0 && a.updated_at is None,
{
}

/// An account that is edited keeps who it is, when it was made and, unless another is entered, its
/// session; what may be edited is taken from the input.
pub proof fn edited_accounts_keep_who_they_are(
    input: SaveSyncAccountInput,
    existing: Vec<AccountDto>,
    at: int,
    v: Result<()>,
    r: Result<AccountDto>,
)
    requires
        input.id is Some,
        0 <= at < existing@.len(),
        existing@[at].id == input.id->Some_0.0,
        forall|i: int| 0 <= i < at ==> (#[trigger] existing@[i]).id != input.id->Some_0.0,
        call_ensures(validate_account_input, (&input,), v),
        call_ensures(save_sync_account, (input, &existing), r),
    ensures
        r is Ok <==> v is Ok && existing@[at].provider@ == input.provider@ && existing@[at].uid@
            == input.uid@,
        v is Ok && r is Err ==> told(r, "Account provider and uid cannot be changed"@),
        r matches Ok(a) ==> a.id == existing@[at].id && a.provider@ == existing@[at].provider@
            && a.uid@ == existing@[at].uid@ && a.display_name == input.display_name && a.enabled
            == input.enabled && a.created_at == existing@[at].created_at && a.updated_at
            == existing@[at].updated_at,
        r matches Ok(a) ==> input.session_ref is None ==> a.session_ref == existing@[at].session_ref,
        r matches Ok(a) ==> input.session_ref is Some ==> Some(a.session_ref) == input.session_ref,
{
    let id = input.id->Some_0.0;
    assert(sync::account_at(existing@, id, at));
    assert(sync::has_account(existing@, id));
    assert forall|other: int|
        #![trigger existing@[other]]
        sync::account_at(existing@, id, other) implies other == at by {
        if other < at {
            assert(existing@[other].id != id);
        } else if at < other {
            assert(existing@[at].id != id);
        }
    }
}

/// An account that is not there cannot be edited.
pub proof fn unknown_accounts_cannot_be_edited(
    input: SaveSyncAccountInput,
    existing: Vec<AccountDto>,
    r: Result<AccountDto>,
)
    requires
        input.id is Some,
        forall|i: int|
            0 <= i < existing@.len() ==> (#[trigger] existing@[i]).id != input.id->Some_0.0,
        call_ensures(save_sync_account, (input, &existing), r),
    ensures
        r is Err,
        told(r, "Invalid sync input"@) || told(r, "Account not found"@),
{
}

/// A monitored user who is saved is as entered. One who was known keeps their history and when they
/// are due; a new one is due at once.
pub proof fn saved_users_keep_their_history(
    input: SaveMonitoredUserInput,
    existing: Vec<MonitoredUserDto>,
    now_epoch: i64,
    v: Result<()>,
    r: Result<MonitoredUserDto>,
)
    requires
        call_ensures(validate_monitor_input, (&input,), v),
        call_ensures(save_monitored_user, (input, &existing, now_epoch), r),
    ensures
        r is Ok <==> v is Ok,
        r is Err ==> told(r, "Invalid sync input"@),
        r matches Ok(u) ==> u.account_id == input.account_id.0 && u.uid == input.uid.0
            && u.screen_name == input.screen_name && u.refresh_strategy == input.refresh_strategy
            && u.enabled == input.enabled && u.tier == input.tier && u.interval_secs
            == input.interval_secs && u.jitter_secs == input.jitter_secs,
        r matches Ok(u) ==> (forall|i: int|
            0 <= i < existing@.len() ==> !((#[trigger] existing@[i]).account_id
                == input.account_id.0 && existing@[i].uid == input.uid.0))
            ==> u.next_refresh_epoch == now_epoch && u.last_refresh_epoch is None
            && u.last_refreshed_at is None && u.created_at@.len() == 0 && u.updated_at is None,
        r matches Ok(u) ==> (exists|i: int|
            0 <= i < existing@.len() && (#[trigger] existing@[i]).account_id == input.account_id.0
                && existing@[i].uid == input.uid.0) ==> (exists|i: int|
            0 <= i < existing@.len() && (#[trigger] existing@[i]).account_id == input.account_id.0
                && existing@[i].uid == input.uid.0 && u.next_refresh_epoch
                == existing@[i].next_refresh_epoch && u.last_refresh_epoch
                == existing@[i].last_refresh_epoch && u.last_refreshed_at
                == existing@[i].last_refreshed_at && u.created_at == existing@[i].created_at
                && u.updated_at == existing@[i].updated_at),
{
}

/// A backend that nobody has started starts with its engine, warns of what is missing besides it, and
/// is left alone once it runs.
pub proof fn backends_start_once(
    state: &mut BackendState,
    again: &mut BackendState,
    fresh: BackendState,
    outcome: InitOutcome,
    later: InitOutcome,
)
    requires
        call_ensures(setup, (), fresh),
        *old(state) == fresh,
        call_ensures(perform_init_backend, (state, outcome), ()),
        *old(again) == *final(state),
        call_ensures(perform_init_backend, (again, later), ()),
    ensures
        fresh.status is Uninitialized && !fresh.exit_started,
        !final(state).exit_started && !final(again).exit_started,
        !outcome.core_built ==> (final(state).status matches BackendStatus::Error { message }
            && message@ == "Backend initialization failed; see the application log"@),
        outcome.core_built ==> final(state).status is Running && *final(again) == *final(state),
        outcome.core_built && outcome.config_loaded && outcome.scheduler_started ==> (
        final(state).status matches BackendStatus::Running { warning } && warning is None),
        outcome.core_built && !outcome.config_loaded && outcome.scheduler_started ==> (
        final(state).status matches BackendStatus::Running { warning: Some(w) } && w@
            == "Configuration could not be loaded; defaults are in use"@),
        outcome.core_built && outcome.config_loaded && !outcome.scheduler_started ==> (
        final(state).status matches BackendStatus::Running { warning: Some(w) } && w@
            == "Persistent scheduler is unavailable; see the application log"@),
        outcome.core_built && !outcome.config_loaded && !outcome.scheduler_started ==> (
        final(state).status matches BackendStatus::Running { warning: Some(w) } && w@
            == "Configuration could not be loaded; defaults are in use"@
            + "; persistent scheduler unavailable"@),
        !outcome.core_built && later.core_built ==> final(again).status is Running,
{
}

/// The shutdown begins once: a second wish to exit does not begin it again, and an exit that has its
/// code never does. After a shutdown that left something behind the wish can be made again.
pub proof fn exits_begin_once(
    state: &mut BackendState,
    again: &mut BackendState,
    ended: &mut BackendState,
    later: &mut BackendState,
    has_code: bool,
    degraded: bool,
    r: bool,
    s: bool,
    e: bool,
    l: bool,
)
    requires
        call_ensures(BackendState::request_exit, (state, has_code), r),
        *old(again) == *final(state),
        call_ensures(BackendState::request_exit, (again, false), s),
        *old(ended) == *final(again),
        call_ensures(BackendState::after_shutdown, (ended, degraded), e),
        *old(later) == *final(ended),
        call_ensures(BackendState::request_exit, (later, false), l),
    ensures
        final(later).status == old(state).status,
        has_code ==> !r && *final(state) == *old(state),
        !has_code ==> (r <==> !old(state).exit_started) && !s,
        e == !degraded,
        l == degraded,
{
}

/// A sidecar that was greeted is reported with what it said; one that was not is reported with what
/// to do about it.
pub proof fn greetings_are_reported(
    why: SidecarError,
    words: String,
    ready: Json,
    capabilities: Json,
    missing: Result<Json>,
    failed: Result<Json>,
    greeted: Result<Json>,
)
    requires
        call_ensures(SidecarError::message, (&why,), words),
        call_ensures(backend::sidecar_diagnostics, (GreetingOutcome::NotFound,), missing),
        call_ensures(backend::sidecar_diagnostics, (GreetingOutcome::Failed(why),), failed),
        call_ensures(
            backend::sidecar_diagnostics,
            (GreetingOutcome::Greeted { ready, capabilities },),
            greeted,
        ),
    ensures
        missing is Err,
        told(
            failed,
            "sidecar handshake failed: "@ + words@
                + " (set WEIBACK_COLLECTOR_CMD to the collector executable)"@,
        ),
        greeted matches Ok(j) && json::field(j@, "ok"@) == Some(JsonView::Bool(true))
            && json::field(j@, "ready"@) == Some(ready@) && json::field(j@, "capabilities"@)
            == Some(capabilities@),
{
    reveal_strlit("ok");
    reveal_strlit("ready");
    reveal_strlit("capabilities");
    assert("ok"@.len() == 2);
    assert("ready"@.len() == 5);
    assert("capabilities"@.len() == 12);
    assert("ok"@.len() != "ready"@.len());
    assert("ok"@.len() != "capabilities"@.len());
    assert("ready"@.len() != "capabilities"@.len());
}

/// Whatever the cause of a failed operation, the same words are shown, and never the cause.
pub proof fn causes_are_not_shown(a: &str, b: &str, words: &str, x: Error, y: Error, z: Error)
    requires
        call_ensures(sync_core_error, (a,), x),
        call_ensures(sync_core_error, (b,), y),
        call_ensures(stable_sync_error, (words,), z),
    ensures
        x.0@ == y.0@,
        x.0@ == "Sync operation failed; see the application log"@,
        z.0@ == words@,
{
}

} // verus!
