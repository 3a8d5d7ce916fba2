//! Accounts, monitored users and jobs as the user interface sees and edits them. Identifiers travel
//! as text, and nothing that is confidential travels at all.
use vstd::prelude::*;

use crate::commands::error;
use crate::commands::error::{Error, Result, INVALID_SYNC_INPUT, SYNC_OPERATION_FAILED};
use crate::json;
use crate::json::{Json, JsonNumber, JsonView};
use crate::paths;
use crate::service::shutdown::SyncJobControlOutcome;
use crate::storage::internal::entities::{
    AccountDto, MonitoredUserDto, RefreshTier, SyncJobDto, SyncJobSpec, SyncRunDto,
};
use crate::sync_executor;
use crate::sync_executor::ControlStopResult;
use crate::text;

verus! {

/// How many pages a job may ask for.
pub const MAX_SYNC_PAGES: u32 = 1_000;

/// The lowest and the highest priority of a job.
pub const MIN_SYNC_PRIORITY: i32 = 0;

pub const MAX_SYNC_PRIORITY: i32 = 1_000;

/// The longest interval between refreshes: a week, in seconds.
pub const MAX_REFRESH_INTERVAL_SECS: i64 = 604_800;

/// The largest jitter of a refresh, in seconds.
pub const MAX_REFRESH_JITTER_SECS: i64 = 604_800;

/// An identifier, which travels as text.
#[derive(Debug, Clone, Copy, PartialEq, Eq, Structural)]
pub struct WeiboId(pub i64);

impl From<WeiboId> for i64 {
    fn from(id: WeiboId) -> (r: i64)
        ensures
            r == id.0,
    {
        id.0
    }
}

impl vstd::std_specs::convert::FromSpecImpl<WeiboId> for i64 {
    open spec fn obeys_from_spec() -> bool {
        true
    }

    open spec fn from_spec(id: WeiboId) -> i64 {
        id.0
    }
}

/// An account as it is shown. Its session is not.
#[derive(Debug, PartialEq, Eq)]
pub struct AccountWireDto {
    pub id: String,
    pub provider: String,
    pub uid: String,
    pub display_name: Option<String>,
    pub enabled: bool,
    pub has_session: bool,
    pub created_at: String,
    pub updated_at: Option<String>,
}

/// An account as it is shown.
pub fn account_wire(account: AccountDto) -> (r: AccountWireDto)
    ensures
        r.id@ == text::signed_decimal(account.id as int),
        r.provider == account.provider,
        r.uid == account.uid,
        r.display_name == account.display_name,
        r.enabled == account.enabled,
        r.has_session == (account.session_ref@.len() > 0),
        r.created_at == account.created_at,
        r.updated_at == account.updated_at,
{
    let has_session = !account.session_ref.as_str().is_empty();
    AccountWireDto {
        id: text::i64_text(account.id),
        provider: account.provider,
        uid: account.uid,
        display_name: account.display_name,
        enabled: account.enabled,
        has_session,
        created_at: account.created_at,
        updated_at: account.updated_at,
    }
}

/// A text, or `null`.
pub open spec fn text_or_null(s: Option<String>) -> JsonView {
    match s {
        Some(s) => JsonView::Text(s@),
        None => JsonView::Null,
    }
}

fn opt_text(s: &Option<String>) -> (r: Json)
    ensures
        r@ == text_or_null(*s),
{
    match s {
        Some(s) => Json::Text(s.clone()),
        None => Json::Null,
    }
}

fn plain_text(s: &String) -> (r: Json)
    ensures
        r@ == JsonView::Text(s@),
{
    Json::Text(s.clone())
}

/// What travels of an account.
pub open spec fn account_tree(a: AccountWireDto) -> JsonView {
    JsonView::Object(
        Map::empty().insert("id"@, JsonView::Text(a.id@)).insert(
            "provider"@,
            JsonView::Text(a.provider@),
        ).insert("uid"@, JsonView::Text(a.uid@)).insert(
            "display_name"@,
            text_or_null(a.display_name),
        ).insert("enabled"@, JsonView::Bool(a.enabled)).insert(
            "has_session"@,
            JsonView::Bool(a.has_session),
        ).insert("created_at"@, JsonView::Text(a.created_at@)).insert(
            "updated_at"@,
            text_or_null(a.updated_at),
        ),
    )
}

impl AccountWireDto {
    /// What travels of an account.
    pub fn to_wire(&self) -> (r: Json)
        ensures
            r@ == account_tree(*self),
    {
        let mut r = Json::empty_object();
        r.insert("id", plain_text(&self.id));
        r.insert("provider", plain_text(&self.provider));
        r.insert("uid", plain_text(&self.uid));
        r.insert("display_name", opt_text(&self.display_name));
        r.insert("enabled", Json::Bool(self.enabled));
        r.insert("has_session", Json::Bool(self.has_session));
        r.insert("created_at", plain_text(&self.created_at));
        r.insert("updated_at", opt_text(&self.updated_at));
        r
    }
}

/// What the user edits of an account.
#[derive(Debug, PartialEq, Eq)]
pub struct SaveSyncAccountInput {
    pub id: Option<WeiboId>,
    pub provider: String,
    pub uid: String,
    pub display_name: Option<String>,
    pub session_ref: Option<String>,
    pub enabled: bool,
}

/// A monitored user as they are shown.
#[derive(Debug, PartialEq, Eq)]
pub struct MonitoredUserWireDto {
    pub account_id: String,
    pub uid: String,
    pub screen_name: Option<String>,
    pub refresh_strategy: String,
    pub enabled: bool,
    pub last_refreshed_at: Option<String>,
    pub created_at: String,
    pub updated_at: Option<String>,
    pub tier: RefreshTier,
    pub interval_secs: String,
    pub jitter_secs: String,
    pub next_refresh_epoch: String,
    pub last_refresh_epoch: Option<String>,
}

/// A number as text, if there is one.
pub open spec fn opt_decimal(n: Option<i64>) -> Option<Seq<char>> {
    match n {
        Some(n) => Some(text::signed_decimal(n as int)),
        None => None,
    }
}

fn opt_i64_text(n: Option<i64>) -> (r: Option<String>)
    ensures
        text::opt_view(r) == opt_decimal(n),
{
    match n {
        Some(n) => Some(text::i64_text(n)),
        None => None,
    }
}

/// A monitored user as they are shown.
pub fn monitored_user_wire(user: MonitoredUserDto) -> (r: MonitoredUserWireDto)
    ensures
        r.account_id@ == text::signed_decimal(user.account_id as int),
        r.uid@ == text::signed_decimal(user.uid as int),
        r.screen_name == user.screen_name,
        r.refresh_strategy == user.refresh_strategy,
        r.enabled == user.enabled,
        r.last_refreshed_at == user.last_refreshed_at,
        r.created_at == user.created_at,
        r.updated_at == user.updated_at,
        r.tier == user.tier,
        r.interval_secs@ == text::signed_decimal(user.interval_secs as int),
        r.jitter_secs@ == text::signed_decimal(user.jitter_secs as int),
        r.next_refresh_epoch@ == text::signed_decimal(user.next_refresh_epoch as int),
        text::opt_view(r.last_refresh_epoch) == opt_decimal(user.last_refresh_epoch),
{
    MonitoredUserWireDto {
        account_id: text::i64_text(user.account_id),
        uid: text::i64_text(user.uid),
        screen_name: user.screen_name,
        refresh_strategy: user.refresh_strategy,
        enabled: user.enabled,
        last_refreshed_at: user.last_refreshed_at,
        created_at: user.created_at,
        updated_at: user.updated_at,
        tier: user.tier,
        interval_secs: text::i64_text(user.interval_secs),
        jitter_secs: text::i64_text(user.jitter_secs),
        next_refresh_epoch: text::i64_text(user.next_refresh_epoch),
        last_refresh_epoch: opt_i64_text(user.last_refresh_epoch),
    }
}

/// What the user edits of a monitored user.
#[derive(Debug, PartialEq, Eq)]
pub struct SaveMonitoredUserInput {
    pub account_id: WeiboId,
    pub uid: WeiboId,
    pub screen_name: Option<String>,
    pub refresh_strategy: String,
    pub enabled: bool,
    pub tier: RefreshTier,
    pub interval_secs: i64,
    pub jitter_secs: i64,
}

/// A job as it is shown. Its payload and its lease are not.
#[derive(Debug, PartialEq, Eq)]
pub struct SyncJobWireDto {
    pub id: String,
    pub resource_key: String,
    pub name: String,
    pub kind: String,
    pub status: String,
    pub priority: String,
    pub schedule_config: Option<String>,
    pub enabled: bool,
    pub recovery_count: String,
    pub max_recovery_attempts: String,
    pub available_at: Option<String>,
    pub available_at_epoch: String,
    pub claimed_at: Option<String>,
    pub current_run_id: Option<String>,
    pub created_at: String,
    pub updated_at: Option<String>,
    pub account_id: String,
    pub endpoint_key: String,
}

/// Whether a job is shown as it is.
pub open spec fn is_job_wire(r: SyncJobWireDto, job: SyncJobDto) -> bool {
    &&& r.id@ == text::signed_decimal(job.id as int)
    &&& r.resource_key == job.resource_key
    &&& r.name == job.name
    &&& r.kind == job.kind
    &&& r.status == job.status
    &&& r.priority@ == text::signed_decimal(job.priority as int)
    &&& r.schedule_config == job.schedule_config
    &&& r.enabled == job.enabled
    &&& r.recovery_count@ == text::signed_decimal(job.recovery_count as int)
    &&& r.max_recovery_attempts@ == text::signed_decimal(job.max_recovery_attempts as int)
    &&& r.available_at == job.available_at
    &&& r.available_at_epoch@ == text::signed_decimal(job.available_at_epoch as int)
    &&& r.claimed_at == job.claimed_at
    &&& text::opt_view(r.current_run_id) == opt_decimal(job.current_run_id)
    &&& r.created_at == job.created_at
    &&& r.updated_at == job.updated_at
    &&& r.account_id@ == text::signed_decimal(job.account_id as int)
    &&& r.endpoint_key == job.endpoint_key
}

/// A job as it is shown.
pub fn sync_job_wire(job: SyncJobDto) -> (r: SyncJobWireDto)
    ensures
        is_job_wire(r, job),
{
    SyncJobWireDto {
        id: text::i64_text(job.id),
        resource_key: job.resource_key,
        name: job.name,
        kind: job.kind,
        status: job.status,
        priority: text::i64_text(job.priority),
        schedule_config: job.schedule_config,
        enabled: job.enabled,
        recovery_count: text::i64_text(job.recovery_count),
        max_recovery_attempts: text::i64_text(job.max_recovery_attempts),
        available_at: job.available_at,
        available_at_epoch: text::i64_text(job.available_at_epoch),
        claimed_at: job.claimed_at,
        current_run_id: opt_i64_text(job.current_run_id),
        created_at: job.created_at,
        updated_at: job.updated_at,
        account_id: text::i64_text(job.account_id),
        endpoint_key: job.endpoint_key,
    }
}

/// What travels of a job.
pub open spec fn job_tree(j: SyncJobWireDto) -> JsonView {
    JsonView::Object(
        Map::empty().insert("id"@, JsonView::Text(j.id@)).insert(
            "resource_key"@,
            JsonView::Text(j.resource_key@),
        ).insert("name"@, JsonView::Text(j.name@)).insert("kind"@, JsonView::Text(j.kind@)).insert(
            "status"@,
            JsonView::Text(j.status@),
        ).insert("priority"@, JsonView::Text(j.priority@)).insert(
            "schedule_config"@,
            text_or_null(j.schedule_config),
        ).insert("enabled"@, JsonView::Bool(j.enabled)).insert(
            "recovery_count"@,
            JsonView::Text(j.recovery_count@),
        ).insert("max_recovery_attempts"@, JsonView::Text(j.max_recovery_attempts@)).insert(
            "available_at"@,
            text_or_null(j.available_at),
        ).insert("available_at_epoch"@, JsonView::Text(j.available_at_epoch@)).insert(
            "claimed_at"@,
            text_or_null(j.claimed_at),
        ).insert("current_run_id"@, text_or_null(j.current_run_id)).insert(
            "created_at"@,
            JsonView::Text(j.created_at@),
        ).insert("updated_at"@, text_or_null(j.updated_at)).insert(
            "account_id"@,
            JsonView::Text(j.account_id@),
        ).insert("endpoint_key"@, JsonView::Text(j.endpoint_key@)),
    )
}

impl SyncJobWireDto {
    /// What travels of a job.
    pub fn to_wire(&self) -> (r: Json)
        ensures
            r@ == job_tree(*self),
    {
        let mut r = Json::empty_object();
        r.insert("id", plain_text(&self.id));
        r.insert("resource_key", plain_text(&self.resource_key));
        r.insert("name", plain_text(&self.name));
        r.insert("kind", plain_text(&self.kind));
        r.insert("status", plain_text(&self.status));
        r.insert("priority", plain_text(&self.priority));
        r.insert("schedule_config", opt_text(&self.schedule_config));
        r.insert("enabled", Json::Bool(self.enabled));
        r.insert("recovery_count", plain_text(&self.recovery_count));
        r.insert("max_recovery_attempts", plain_text(&self.max_recovery_attempts));
        r.insert("available_at", opt_text(&self.available_at));
        r.insert("available_at_epoch", plain_text(&self.available_at_epoch));
        r.insert("claimed_at", opt_text(&self.claimed_at));
        r.insert("current_run_id", opt_text(&self.current_run_id));
        r.insert("created_at", plain_text(&self.created_at));
        r.insert("updated_at", opt_text(&self.updated_at));
        r.insert("account_id", plain_text(&self.account_id));
        r.insert("endpoint_key", plain_text(&self.endpoint_key));
        r
    }
}

/// How a worker was stopped, as it is shown.
#[derive(Debug, PartialEq, Eq)]
pub enum ControlStopWireResult {
    Stopped { pid: u32 },
    WorkerNotFound,
    WorkerStarting,
    StopTimedOut { pid: u32 },
    StopFailed(String),
}

/// How a worker was stopped, as it is shown: why it could not be stopped is not.
pub fn safe_worker_stop(result: ControlStopResult) -> (r: ControlStopWireResult)
    ensures
        match result {
            ControlStopResult::Stopped { pid } => r == (ControlStopWireResult::Stopped { pid }),
            ControlStopResult::WorkerNotFound => r == ControlStopWireResult::WorkerNotFound,
            ControlStopResult::WorkerStarting => r == ControlStopWireResult::WorkerStarting,
            ControlStopResult::StopTimedOut { pid } => r == (ControlStopWireResult::StopTimedOut {
                pid,
            }),
            ControlStopResult::StopFailed(_) => r matches ControlStopWireResult::StopFailed(shown)
                && shown@ == SYNC_OPERATION_FAILED@,
        },
{
    match result {
        ControlStopResult::Stopped { pid } => ControlStopWireResult::Stopped { pid },
        ControlStopResult::WorkerNotFound => ControlStopWireResult::WorkerNotFound,
        ControlStopResult::WorkerStarting => ControlStopWireResult::WorkerStarting,
        ControlStopResult::StopTimedOut { pid } => ControlStopWireResult::StopTimedOut { pid },
        ControlStopResult::StopFailed(_) => ControlStopWireResult::StopFailed(
            SYNC_OPERATION_FAILED.to_owned(),
        ),
    }
}

/// What travels of a stopped worker: a status, and a detail where there is one.
pub open spec fn stop_tree(s: ControlStopWireResult) -> JsonView {
    let tagged = |status: Seq<char>| Map::<Seq<char>, JsonView>::empty().insert(
        "status"@,
        JsonView::Text(status),
    );
    let process = |pid: u32|
        JsonView::Object(
            Map::empty().insert("pid"@, JsonView::Number(json::NumberView::Integer(pid as int))),
        );
    match s {
        ControlStopWireResult::Stopped { pid } => JsonView::Object(
            tagged("stopped"@).insert("detail"@, process(pid)),
        ),
        ControlStopWireResult::WorkerNotFound => JsonView::Object(tagged("worker_not_found"@)),
        ControlStopWireResult::WorkerStarting => JsonView::Object(tagged("worker_starting"@)),
        ControlStopWireResult::StopTimedOut { pid } => JsonView::Object(
            tagged("stop_timed_out"@).insert("detail"@, process(pid)),
        ),
        ControlStopWireResult::StopFailed(shown) => JsonView::Object(
            tagged("stop_failed"@).insert("detail"@, JsonView::Text(shown@)),
        ),
    }
}

fn tagged_object(status: &str) -> (r: Json)
    ensures
        r@ == JsonView::Object(
            Map::<Seq<char>, JsonView>::empty().insert("status"@, JsonView::Text(status@)),
        ),
{
    let mut r = Json::empty_object();
    r.insert("status", Json::Text(status.to_owned()));
    r
}

fn process_object(pid: u32) -> (r: Json)
    ensures
        r@ == JsonView::Object(
            Map::empty().insert("pid"@, JsonView::Number(json::NumberView::Integer(pid as int))),
        ),
{
    let mut r = Json::empty_object();
    r.insert("pid", Json::Number(JsonNumber::Unsigned(pid as u64)));
    r
}

impl ControlStopWireResult {
    /// What travels of a stopped worker.
    pub fn to_wire(&self) -> (r: Json)
        ensures
            r@ == stop_tree(*self),
    {
        match self {
            ControlStopWireResult::Stopped { pid } => {
                let mut r = tagged_object("stopped");
                r.insert("detail", process_object(*pid));
                r
            },
            ControlStopWireResult::WorkerNotFound => tagged_object("worker_not_found"),
            ControlStopWireResult::WorkerStarting => tagged_object("worker_starting"),
            ControlStopWireResult::StopTimedOut { pid } => {
                let mut r = tagged_object("stop_timed_out");
                r.insert("detail", process_object(*pid));
                r
            },
            ControlStopWireResult::StopFailed(shown) => {
                let mut r = tagged_object("stop_failed");
                r.insert("detail", plain_text(shown));
                r
            },
        }
    }
}

/// A job that was paused or cancelled, as it is shown.
#[derive(Debug, PartialEq, Eq)]
pub struct SyncJobControlWireOutcome {
    pub job: SyncJobWireDto,
    pub worker_stop: ControlStopWireResult,
}

/// A job that was paused or cancelled, as it is shown.
pub fn sync_control_wire(outcome: SyncJobControlOutcome) -> (r: SyncJobControlWireOutcome)
    ensures
        is_job_wire(r.job, outcome.job),
        match outcome.worker_stop {
            ControlStopResult::Stopped { pid } => r.worker_stop == (
            ControlStopWireResult::Stopped { pid }),
            ControlStopResult::WorkerNotFound => r.worker_stop
                == ControlStopWireResult::WorkerNotFound,
            ControlStopResult::WorkerStarting => r.worker_stop
                == ControlStopWireResult::WorkerStarting,
            ControlStopResult::StopTimedOut { pid } => r.worker_stop == (
            ControlStopWireResult::StopTimedOut { pid }),
            ControlStopResult::StopFailed(_) => r.worker_stop matches ControlStopWireResult::StopFailed(
                shown,
            ) && shown@ == SYNC_OPERATION_FAILED@,
        },
{
    SyncJobControlWireOutcome {
        job: sync_job_wire(outcome.job),
        worker_stop: safe_worker_stop(outcome.worker_stop),
    }
}

impl SyncJobControlWireOutcome {
    /// What travels of a job that was paused or cancelled.
    pub fn to_wire(&self) -> (r: Json)
        ensures
            r@ == JsonView::Object(
                Map::empty().insert("job"@, job_tree(self.job)).insert(
                    "worker_stop"@,
                    stop_tree(self.worker_stop),
                ),
            ),
    {
        let mut r = Json::empty_object();
        r.insert("job", self.job.to_wire());
        r.insert("worker_stop", self.worker_stop.to_wire());
        r
    }
}

/// A run as it is shown. Its error is not.
#[derive(Debug, PartialEq, Eq)]
pub struct SyncRunWireDto {
    pub id: String,
    pub job_id: String,
    pub status: String,
    pub started_at: String,
    pub finished_at: Option<String>,
    pub stats_json: Option<String>,
    pub attempt: String,
    pub updated_at: Option<String>,
}

/// A run as it is shown.
pub fn sync_run_wire(run: SyncRunDto) -> (r: SyncRunWireDto)
    ensures
        r.id@ == text::signed_decimal(run.id as int),
        r.job_id@ == text::signed_decimal(run.job_id as int),
        r.status == run.status,
        r.started_at == run.started_at,
        r.finished_at == run.finished_at,
        r.stats_json == run.stats_json,
        r.attempt@ == text::signed_decimal(run.attempt as int),
        r.updated_at == run.updated_at,
{
    SyncRunWireDto {
        id: text::i64_text(run.id),
        job_id: text::i64_text(run.job_id),
        status: run.status,
        started_at: run.started_at,
        finished_at: run.finished_at,
        stats_json: run.stats_json,
        attempt: text::i64_text(run.attempt),
        updated_at: run.updated_at,
    }
}

/// What travels of a run.
pub open spec fn run_tree(run: SyncRunWireDto) -> JsonView {
    JsonView::Object(
        Map::empty().insert("id"@, JsonView::Text(run.id@)).insert(
            "job_id"@,
            JsonView::Text(run.job_id@),
        ).insert("status"@, JsonView::Text(run.status@)).insert(
            "started_at"@,
            JsonView::Text(run.started_at@),
        ).insert("finished_at"@, text_or_null(run.finished_at)).insert(
            "stats_json"@,
            text_or_null(run.stats_json),
        ).insert("attempt"@, JsonView::Text(run.attempt@)).insert(
            "updated_at"@,
            text_or_null(run.updated_at),
        ),
    )
}

impl SyncRunWireDto {
    /// What travels of a run.
    pub fn to_wire(&self) -> (r: Json)
        ensures
            r@ == run_tree(*self),
    {
        let mut r = Json::empty_object();
        r.insert("id", plain_text(&self.id));
        r.insert("job_id", plain_text(&self.job_id));
        r.insert("status", plain_text(&self.status));
        r.insert("started_at", plain_text(&self.started_at));
        r.insert("finished_at", opt_text(&self.finished_at));
        r.insert("stats_json", opt_text(&self.stats_json));
        r.insert("attempt", plain_text(&self.attempt));
        r.insert("updated_at", opt_text(&self.updated_at));
        r
    }
}

/// Whether a session reference may be entered: it is relative, does not lead upwards, and holds no
/// null character.
pub open spec fn valid_session_ref(s: Seq<char>) -> bool {
    !sync_executor::rooted_reference(s) && !sync_executor::escaping_reference(s) && !s.contains(
        '\0',
    )
}

/// Checks a session reference that was entered.
pub fn validate_session_ref(session_ref: &str) -> (r: Result<()>)
    ensures
        if valid_session_ref(session_ref@) {
            r is Ok
        } else {
            r matches Err(e) && error::shows(e, INVALID_SYNC_INPUT@)
        },
{
    let bytes = session_ref.as_bytes();
    if session_ref.is_empty() || session_ref.get_char(0) == '/' || session_ref.get_char(0) == '\\'
        || (bytes.len() > 1 && bytes[1] == 58) {
        return Err(error::stable_sync_error(INVALID_SYNC_INPUT));
    }
    let pieces = paths::split_at(session_ref, '/', '\\');
    proof {
        let views = sync_executor::reference_pieces(session_ref@);
        if text::listed(views, ".."@) {
            let i = choose|i: int| 0 <= i < views.len() && #[trigger] views[i] == ".."@;
            assert(views.contains(views[i]));
        }
        if views.contains(".."@) {
            let i = choose|i: int| 0 <= i < views.len() && views[i] == ".."@;
            assert(views[i] == ".."@);
        }
    }
    if text::is_listed(&pieces, "..") {
        return Err(error::stable_sync_error(INVALID_SYNC_INPUT));
    }
    let v = text::chars_of(session_ref);
    let mut i: usize = 0;
    while i < v.len()
        invariant
            i <= v@.len(),
            v@ == session_ref@,
            forall|j: int| 0 <= j < i ==> #[trigger] session_ref@[j] != '\0',
        decreases v@.len() - i,
    {
        if v[i] == '\0' {
            assert(session_ref@.contains(session_ref@[i as int]));
            return Err(error::stable_sync_error(INVALID_SYNC_INPUT));
        }
        i = i + 1;
    }
    Ok(())
}

/// A reference that may be entered is one that a session is looked up by, or denotes the session
/// root itself.
pub proof fn entered_references_stay_relative(s: Seq<char>)
    requires
        valid_session_ref(s),
    ensures
        sync_executor::reference_fault(s) is None || sync_executor::reference_fault(s) == Some(
            "session reference is empty"@,
        ),
{
}

/// Whether a text is neither blank nor longer than some bytes.
pub open spec fn filled(s: Seq<char>, max: nat) -> bool {
    text::trim_of(s).len() > 0 && vstd::utf8::encode_utf8(s).len() <= max
}

fn is_filled(s: &str, max: usize) -> (r: bool)
    ensures
        r == filled(s@, max as nat),
{
    let size: usize = s.as_bytes().len();
    !text::trim(s).as_str().is_empty() && size <= max
}

/// Whether the input for an account may be saved.
pub open spec fn valid_account_input(input: SaveSyncAccountInput) -> bool {
    filled(input.provider@, 64) && filled(input.uid@, 128) && (input.session_ref matches Some(s)
        ==> valid_session_ref(s@))
}

/// Checks the input for an account.
pub fn validate_account_input(input: &SaveSyncAccountInput) -> (r: Result<()>)
    ensures
        if valid_account_input(*input) {
            r is Ok
        } else {
            r matches Err(e) && error::shows(e, INVALID_SYNC_INPUT@)
        },
{
    if !is_filled(input.provider.as_str(), 64) || !is_filled(input.uid.as_str(), 128) {
        return Err(error::stable_sync_error(INVALID_SYNC_INPUT));
    }
    match &input.session_ref {
        Some(session_ref) => validate_session_ref(session_ref.as_str()),
        None => Ok(()),
    }
}

/// Whether the input for a monitored user may be saved.
pub open spec fn valid_monitor_input(input: SaveMonitoredUserInput) -> bool {
    &&& input.account_id.0 > 0
    &&& input.uid.0 > 0
    &&& input.refresh_strategy@ == "hot"@ || input.refresh_strategy@ == "warm"@
        || input.refresh_strategy@ == "cold"@
    &&& 1 <= input.interval_secs <= MAX_REFRESH_INTERVAL_SECS
    &&& 0 <= input.jitter_secs <= MAX_REFRESH_JITTER_SECS
    &&& input.jitter_secs <= input.interval_secs
}

/// Checks the input for a monitored user.
pub fn validate_monitor_input(input: &SaveMonitoredUserInput) -> (r: Result<()>)
    ensures
        if valid_monitor_input(*input) {
            r is Ok
        } else {
            r matches Err(e) && error::shows(e, INVALID_SYNC_INPUT@)
        },
{
    let strategy = input.refresh_strategy.as_str();
    if input.account_id.0 <= 0 || input.uid.0 <= 0 || !(text::same_text(strategy, "hot")
        || text::same_text(strategy, "warm") || text::same_text(strategy, "cold"))
        || input.interval_secs < 1 || input.interval_secs > MAX_REFRESH_INTERVAL_SECS
        || input.jitter_secs < 0 || input.jitter_secs > MAX_REFRESH_JITTER_SECS
        || input.jitter_secs > input.interval_secs {
        return Err(error::stable_sync_error(INVALID_SYNC_INPUT));
    }
    Ok(())
}

/// A job that the user asks for.
#[derive(Debug, Clone, Copy, PartialEq, Eq, Structural)]
pub enum SyncJobCommandSpec {
    CollectUserPosts { account_id: WeiboId, uid: WeiboId, max_pages: Option<u32>, priority: i32 },
    CollectComments { account_id: WeiboId, post_id: WeiboId, max_pages: Option<u32>, priority: i32 },
    CollectCommentReplies {
        account_id: WeiboId,
        post_id: WeiboId,
        root_comment_id: WeiboId,
        max_pages: Option<u32>,
        priority: i32,
    },
}

pub open spec fn valid_pages(max_pages: Option<u32>) -> bool {
    max_pages matches Some(n) ==> 1 <= n <= MAX_SYNC_PAGES
}

/// Whether a job that the user asks for may be queued.
pub open spec fn valid_job_spec(spec: SyncJobCommandSpec) -> bool {
    match spec {
        SyncJobCommandSpec::CollectUserPosts { account_id, uid, max_pages, priority } =>
        account_id.0 > 0 && uid.0 > 0 && valid_pages(max_pages) && MIN_SYNC_PRIORITY <= priority
            <= MAX_SYNC_PRIORITY,
        SyncJobCommandSpec::CollectComments { account_id, post_id, max_pages, priority } =>
        account_id.0 > 0 && post_id.0 > 0 && valid_pages(max_pages) && MIN_SYNC_PRIORITY <= priority
            <= MAX_SYNC_PRIORITY,
        SyncJobCommandSpec::CollectCommentReplies {
            account_id,
            post_id,
            root_comment_id,
            max_pages,
            priority,
        } => root_comment_id.0 > 0 && account_id.0 > 0 && post_id.0 > 0 && valid_pages(max_pages)
            && MIN_SYNC_PRIORITY <= priority <= MAX_SYNC_PRIORITY,
    }
}

/// Checks a job that the user asks for.
pub fn validate_job_spec(spec: &SyncJobCommandSpec) -> (r: Result<()>)
    ensures
        if valid_job_spec(*spec) {
            r is Ok
        } else {
            r matches Err(e) && error::shows(e, INVALID_SYNC_INPUT@)
        },
{
    let (account_id, resource_id, max_pages, priority): (i64, i64, Option<u32>, i32) = match spec {
        SyncJobCommandSpec::CollectUserPosts { account_id, uid, max_pages, priority } => (
            account_id.0,
            uid.0,
            *max_pages,
            *priority,
        ),
        SyncJobCommandSpec::CollectComments { account_id, post_id, max_pages, priority } => (
            account_id.0,
            post_id.0,
            *max_pages,
            *priority,
        ),
        SyncJobCommandSpec::CollectCommentReplies {
            account_id,
            post_id,
            root_comment_id,
            max_pages,
            priority,
        } => {
            if root_comment_id.0 <= 0 {
                return Err(error::stable_sync_error(INVALID_SYNC_INPUT));
            }
            (account_id.0, post_id.0, *max_pages, *priority)
        },
    };
    let pages_fit = match max_pages {
        Some(pages) => 1 <= pages && pages <= MAX_SYNC_PAGES,
        None => true,
    };
    if account_id <= 0 || resource_id <= 0 || !pages_fit || priority < MIN_SYNC_PRIORITY || priority
        > MAX_SYNC_PRIORITY {
        return Err(error::stable_sync_error(INVALID_SYNC_INPUT));
    }
    Ok(())
}

pub open spec fn wide_pages(max_pages: Option<u32>) -> Option<u64> {
    match max_pages {
        Some(n) => Some(n as u64),
        None => None,
    }
}

fn widen(max_pages: Option<u32>) -> (r: Option<u64>)
    ensures
        r == wide_pages(max_pages),
{
    match max_pages {
        Some(n) => Some(n as u64),
        None => None,
    }
}

/// The job that the user asks for, as it is queued.
pub open spec fn queued_spec(spec: SyncJobCommandSpec) -> SyncJobSpec {
    match spec {
        SyncJobCommandSpec::CollectUserPosts { account_id, uid, max_pages, priority } =>
        SyncJobSpec::CollectUserPosts {
            account_id: account_id.0,
            uid: uid.0,
            max_pages: wide_pages(max_pages),
            priority: priority as i64,
        },
        SyncJobCommandSpec::CollectComments { account_id, post_id, max_pages, priority } =>
        SyncJobSpec::CollectComments {
            account_id: account_id.0,
            post_id: post_id.0,
            max_pages: wide_pages(max_pages),
            priority: priority as i64,
        },
        SyncJobCommandSpec::CollectCommentReplies {
            account_id,
            post_id,
            root_comment_id,
            max_pages,
            priority,
        } => SyncJobSpec::CollectCommentReplies {
            account_id: account_id.0,
            post_id: post_id.0,
            root_comment_id: root_comment_id.0,
            max_pages: wide_pages(max_pages),
            priority: priority as i64,
        },
    }
}

/// The job that the user asks for, as it is queued.
pub fn job_spec(spec: SyncJobCommandSpec) -> (r: SyncJobSpec)
    ensures
        r == queued_spec(spec),
{
    match spec {
        SyncJobCommandSpec::CollectUserPosts { account_id, uid, max_pages, priority } =>
        SyncJobSpec::CollectUserPosts {
            account_id: account_id.0,
            uid: uid.0,
            max_pages: widen(max_pages),
            priority: priority as i64,
        },
        SyncJobCommandSpec::CollectComments { account_id, post_id, max_pages, priority } =>
        SyncJobSpec::CollectComments {
            account_id: account_id.0,
            post_id: post_id.0,
            max_pages: widen(max_pages),
            priority: priority as i64,
        },
        SyncJobCommandSpec::CollectCommentReplies {
            account_id,
            post_id,
            root_comment_id,
            max_pages,
            priority,
        } => SyncJobSpec::CollectCommentReplies {
            account_id: account_id.0,
            post_id: post_id.0,
            root_comment_id: root_comment_id.0,
            max_pages: widen(max_pages),
            priority: priority as i64,
        },
    }
}

/// Checks a job that the user asks for and gives it as it is queued.
pub fn enqueue_sync_job(spec: SyncJobCommandSpec) -> (r: Result<SyncJobSpec>)
    ensures
        if valid_job_spec(spec) {
            r == Ok::<SyncJobSpec, Error>(queued_spec(spec))
        } else {
            r matches Err(e) && error::shows(e, INVALID_SYNC_INPUT@)
        },
{
    match validate_job_spec(&spec) {
        Ok(_) => Ok(job_spec(spec)),
        Err(e) => Err(e),
    }
}

/// Where the account with an identifier is first listed.
pub open spec fn account_at(accounts: Seq<AccountDto>, id: i64, at: int) -> bool {
    0 <= at < accounts.len() && accounts[at].id == id && forall|j: int|
        0 <= j < at ==> (#[trigger] accounts[j]).id != id
}

/// Whether an account with an identifier is listed.
pub open spec fn has_account(accounts: Seq<AccountDto>, id: i64) -> bool {
    exists|i: int| 0 <= i < accounts.len() && (#[trigger] accounts[i]).id == id
}

/// Whether an account of a user with a provider is listed.
pub open spec fn has_login(accounts: Seq<AccountDto>, provider: Seq<char>, uid: Seq<char>) -> bool {
    exists|i: int|
        0 <= i < accounts.len() && (#[trigger] accounts[i]).provider@ == provider
            && accounts[i].uid@ == uid
}

/// Whether an account is what the input makes of the one that it edits.
pub open spec fn is_edited(r: AccountDto, current: AccountDto, input: SaveSyncAccountInput) -> bool {
    &&& r.id == current.id
    &&& r.provider == current.provider
    &&& r.uid == current.uid
    &&& r.display_name == input.display_name
    &&& r.session_ref == match input.session_ref {
        Some(s) => s,
        None => current.session_ref,
    }
    &&& r.enabled == input.enabled
    &&& r.created_at == current.created_at
    &&& r.updated_at == current.updated_at
}

fn copy_account(account: &AccountDto) -> (r: AccountDto)
    ensures
        r == *account,
{
    AccountDto {
        id: account.id,
        provider: account.provider.clone(),
        uid: account.uid.clone(),
        display_name: text::clone_opt(&account.display_name),
        session_ref: account.session_ref.clone(),
        enabled: account.enabled,
        created_at: account.created_at.clone(),
        updated_at: text::clone_opt(&account.updated_at),
    }
}

fn find_account(accounts: &Vec<AccountDto>, id: i64) -> (r: Option<usize>)
    ensures
        match r {
            Some(at) => account_at(accounts@, id, at as int),
            None => !has_account(accounts@, id),
        },
{
    let mut i: usize = 0;
    while i < accounts.len()
        invariant
            i <= accounts@.len(),
            forall|j: int| 0 <= j < i ==> (#[trigger] accounts@[j]).id != id,
        decreases accounts@.len() - i,
    {
        if accounts[i].id == id {
            return Some(i);
        }
        i = i + 1;
    }
    None
}

fn login_exists(accounts: &Vec<AccountDto>, provider: &str, uid: &str) -> (r: bool)
    ensures
        r == has_login(accounts@, provider@, uid@),
{
    let mut i: usize = 0;
    while i < accounts.len()
        invariant
            i <= accounts@.len(),
            forall|j: int|
                0 <= j < i ==> !((#[trigger] accounts@[j]).provider@ == provider@
                    && accounts@[j].uid@ == uid@),
        decreases accounts@.len() - i,
    {
        if text::same_text(accounts[i].provider.as_str(), provider) && text::same_text(
            accounts[i].uid.as_str(),
            uid,
        ) {
            return true;
        }
        i = i + 1;
    }
    false
}

/// Why the input for an account is not saved.
pub open spec fn account_fault(input: SaveSyncAccountInput, accounts: Seq<AccountDto>) -> Option<
    Seq<char>,
> {
    if !valid_account_input(input) {
        Some(INVALID_SYNC_INPUT@)
    } else {
        match input.id {
            Some(id) => if !has_account(accounts, id.0) {
                Some("Account not found"@)
            } else if exists|at: int|
                #![trigger accounts[at]]
                account_at(accounts, id.0, at) && (accounts[at].provider@ != input.provider@
                    || accounts[at].uid@ != input.uid@) {
                Some("Account provider and uid cannot be changed"@)
            } else {
                None
            },
            None => if has_login(accounts, input.provider@, input.uid@) {
                Some("An account with this provider and uid already exists"@)
            } else if input.session_ref is None {
                Some("A session reference is required when creating an account"@)
            } else {
                None
            },
        }
    }
}

/// The account that the input makes: an edited one keeps who it is and, unless another is entered, its
/// session; a new one must be new and must have a session.
pub fn save_sync_account(input: SaveSyncAccountInput, existing: &Vec<AccountDto>) -> (r: Result<
    AccountDto,
>)
    ensures
        match account_fault(input, existing@) {
            Some(why) => r matches Err(e) && error::shows(e, why),
            None => match input.id {
                Some(id) => r matches Ok(account) && exists|at: int|
                    #![trigger existing@[at]]
                    account_at(existing@, id.0, at) && is_edited(account, existing@[at], input),
                None => {
                    &&& r matches Ok(account)
                    &&& account.id == 0
                    &&& account.provider == input.provider
                    &&& account.uid == input.uid
                    &&& account.display_name == input.display_name
                    &&& Some(account.session_ref) == input.session_ref
                    &&& account.enabled == input.enabled
                    &&& account.created_at@.len() == 0
                    &&& account.updated_at is None
                },
            },
        },
{
    if let Err(e) = validate_account_input(&input) {
        return Err(e);
    }
    match input.id {
        Some(id) => {
            let at: usize = match find_account(existing, id.0) {
                Some(at) => at,
                None => return Err(error::stable_sync_error("Account not found")),
            };
            let current = copy_account(&existing[at]);
            proof {
                assert forall|other: int|
                    #![trigger existing@[other]]
                    account_at(existing@, id.0, other) implies other == at by {
                    if other < at {
                        assert(existing@[other].id != id.0);
                    } else if at < other {
                        assert(existing@[at as int].id != id.0);
                    }
                }
                assert(account_at(existing@, id.0, at as int));
                assert(existing@[at as int] == current);
            }
            if !text::same_text(current.provider.as_str(), input.provider.as_str())
                || !text::same_text(current.uid.as_str(), input.uid.as_str()) {
                return Err(error::stable_sync_error("Account provider and uid cannot be changed"));
            }
            Ok(
                AccountDto {
                    id: current.id,
                    provider: current.provider,
                    uid: current.uid,
                    display_name: input.display_name,
                    session_ref: match input.session_ref {
                        Some(s) => s,
                        None => current.session_ref,
                    },
                    enabled: input.enabled,
                    created_at: current.created_at,
                    updated_at: current.updated_at,
                },
            )
        },
        None => {
            if login_exists(existing, input.provider.as_str(), input.uid.as_str()) {
                return Err(
                    error::stable_sync_error(
                        "An account with this provider and uid already exists",
                    ),
                );
            }
            match input.session_ref {
                None => Err(
                    error::stable_sync_error(
                        "A session reference is required when creating an account",
                    ),
                ),
                Some(session_ref) => Ok(
                    AccountDto {
                        id: 0,
                        provider: input.provider,
                        uid: input.uid,
                        display_name: input.display_name,
                        session_ref,
                        enabled: input.enabled,
                        created_at: String::new(),
                        updated_at: None,
                    },
                ),
            }
        },
    }
}

/// Where a user of an account is first listed.
pub open spec fn user_at(users: Seq<MonitoredUserDto>, account_id: i64, uid: i64, at: int) -> bool {
    0 <= at < users.len() && users[at].account_id == account_id && users[at].uid == uid && forall|
        j: int,
    |
        0 <= j < at ==> !((#[trigger] users[j]).account_id == account_id && users[j].uid == uid)
}

/// Whether a user of an account is listed.
pub open spec fn has_user(users: Seq<MonitoredUserDto>, account_id: i64, uid: i64) -> bool {
    exists|i: int|
        0 <= i < users.len() && (#[trigger] users[i]).account_id == account_id && users[i].uid
            == uid
}

/// Whether a user is what the input makes of them: what is edited is taken from the input, and the
/// history of a known user is kept.
pub open spec fn is_monitored(
    r: MonitoredUserDto,
    known: Option<MonitoredUserDto>,
    input: SaveMonitoredUserInput,
    now_epoch: i64,
) -> bool {
    &&& r.account_id == input.account_id.0
    &&& r.uid == input.uid.0
    &&& r.screen_name == input.screen_name
    &&& r.refresh_strategy == input.refresh_strategy
    &&& r.enabled == input.enabled
    &&& r.tier == input.tier
    &&& r.interval_secs == input.interval_secs
    &&& r.jitter_secs == input.jitter_secs
    &&& match known {
        Some(user) => r.last_refreshed_at == user.last_refreshed_at && r.created_at
            == user.created_at && r.updated_at == user.updated_at && r.next_refresh_epoch
            == user.next_refresh_epoch && r.last_refresh_epoch == user.last_refresh_epoch,
        None => r.last_refreshed_at is None && r.created_at@.len() == 0 && r.updated_at is None
            && r.next_refresh_epoch == now_epoch && r.last_refresh_epoch is None,
    }
}

fn find_user(users: &Vec<MonitoredUserDto>, account_id: i64, uid: i64) -> (r: Option<usize>)
    ensures
        match r {
            Some(at) => user_at(users@, account_id, uid, at as int),
            None => !has_user(users@, account_id, uid),
        },
{
    let mut i: usize = 0;
    while i < users.len()
        invariant
            i <= users@.len(),
            forall|j: int|
                0 <= j < i ==> !((#[trigger] users@[j]).account_id == account_id && users@[j].uid
                    == uid),
        decreases users@.len() - i,
    {
        if users[i].account_id == account_id && users[i].uid == uid {
            return Some(i);
        }
        i = i + 1;
    }
    None
}

/// The monitored user that the input makes. A new one is due at once.
pub fn save_monitored_user(
    input: SaveMonitoredUserInput,
    existing: &Vec<MonitoredUserDto>,
    now_epoch: i64,
) -> (r: Result<MonitoredUserDto>)
    ensures
        if !valid_monitor_input(input) {
            r matches Err(e) && error::shows(e, INVALID_SYNC_INPUT@)
        } else if has_user(existing@, input.account_id.0, input.uid.0) {
            r matches Ok(user) && exists|at: int|
                #![trigger existing@[at]]
                user_at(existing@, input.account_id.0, input.uid.0, at) && is_monitored(
                    user,
                    Some(existing@[at]),
                    input,
                    now_epoch,
                )
        } else {
            r matches Ok(user) && is_monitored(user, None, input, now_epoch)
        },
{
    if let Err(e) = validate_monitor_input(&input) {
        return Err(e);
    }
    match find_user(existing, input.account_id.0, input.uid.0) {
        Some(at) => {
            let current = &existing[at];
            proof {
                assert(existing@[at as int] == *current);
                assert(user_at(existing@, input.account_id.0, input.uid.0, at as int));
            }
            Ok(
                MonitoredUserDto {
                    account_id: current.account_id,
                    uid: current.uid,
                    screen_name: input.screen_name,
                    refresh_strategy: input.refresh_strategy,
                    enabled: input.enabled,
                    last_refreshed_at: text::clone_opt(&current.last_refreshed_at),
                    created_at: current.created_at.clone(),
                    updated_at: text::clone_opt(&current.updated_at),
                    tier: input.tier,
                    interval_secs: input.interval_secs,
                    jitter_secs: input.jitter_secs,
                    next_refresh_epoch: current.next_refresh_epoch,
                    last_refresh_epoch: current.last_refresh_epoch,
                },
            )
        },
        None => Ok(
            MonitoredUserDto {
                account_id: input.account_id.0,
                uid: input.uid.0,
                screen_name: input.screen_name,
                refresh_strategy: input.refresh_strategy,
                enabled: input.enabled,
                last_refreshed_at: None,
                created_at: String::new(),
                updated_at: None,
                tier: input.tier,
                interval_secs: input.interval_secs,
                jitter_secs: input.jitter_secs,
                next_refresh_epoch: now_epoch,
                last_refresh_epoch: None,
            },
        ),
    }
}

} // verus!
