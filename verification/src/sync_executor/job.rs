//! The course of one durable job: claim, ownership, start of the sidecar, collection, and the
//! record of how it ended.
//!
//! The surrounding application performs each [`JobStep`] and reports its outcome to the method that
//! the step names.
use vstd::prelude::*;

use crate::error;
use crate::error::{Error, Result};
use crate::json;
use crate::json::{Json, JsonNumber, JsonView};
use crate::sidecar::collector;
use crate::sidecar::collector::{
    CollectionRequest, CollectionStatus, CollectionSummary, ExecutionControl, PersistentExecution,
    RateLimitInfo,
};
use crate::sidecar::protocol::CommandType;
use crate::sidecar::supervisor;
use crate::sidecar::supervisor::{SidecarError, SpawnOptions};
use crate::storage::internal::entities;
use crate::storage::internal::entities::{
    AccountDto, ClaimRequest, FinishRunRequest, SyncJobDto, SyncJobStatus,
};
use crate::sync_executor::{
    AccountSpawnResolver, ActivationOutcome, FinalizationBarrier, INITIAL_LEASE_SECS,
};
use crate::text;

verus! {

/// The command that a kind of job stands for.
pub open spec fn job_command(kind: Seq<char>) -> Option<CommandType> {
    if kind == "collect_user_posts"@ {
        Some(CommandType::CollectUserPosts)
    } else if kind == "collect_comments"@ {
        Some(CommandType::CollectComments)
    } else if kind == "collect_comment_replies"@ {
        Some(CommandType::CollectCommentReplies)
    } else {
        None
    }
}

/// The protocol stream of a command with the given payload.
pub open spec fn protocol_stream(command: CommandType, payload: JsonView) -> Option<Seq<char>> {
    match command {
        CommandType::CollectUserPosts => match collector::int_field(payload, "uid"@) {
            Some(uid) => Some("user:"@ + text::signed_decimal(uid as int) + ":posts"@),
            None => None,
        },
        CommandType::CollectComments => match collector::int_field(payload, "post_id"@) {
            Some(id) => Some("post:"@ + text::signed_decimal(id as int) + ":comments"@),
            None => None,
        },
        CommandType::CollectCommentReplies => match (
            collector::int_field(payload, "post_id"@),
            collector::int_field(payload, "root_comment_id"@),
        ) {
            (Some(id), Some(root)) => Some(
                "post:"@ + text::signed_decimal(id as int) + ":comment:"@ + text::signed_decimal(
                    root as int,
                ) + ":replies"@,
            ),
            _ => None,
        },
        _ => None,
    }
}

/// The stream of a job: for a job under an account key that of the protocol, otherwise its key.
pub open spec fn job_stream(
    resource_key: Seq<char>,
    command: CommandType,
    payload: JsonView,
) -> Option<Seq<char>> {
    if text::has_prefix(resource_key, "account:"@) {
        protocol_stream(command, payload)
    } else {
        Some(resource_key)
    }
}

fn protocol_stream_text(command: CommandType, payload: &Json) -> (r: Option<String>)
    ensures
        text::opt_view(r) == protocol_stream(command, payload@),
{
    match command {
        CommandType::CollectUserPosts => match collector::get_i64(payload, "uid") {
            Some(uid) => Some(text::join3("user:", text::i64_text(uid).as_str(), ":posts")),
            None => None,
        },
        CommandType::CollectComments => match collector::get_i64(payload, "post_id") {
            Some(id) => Some(text::join3("post:", text::i64_text(id).as_str(), ":comments")),
            None => None,
        },
        CommandType::CollectCommentReplies => {
            let id = collector::get_i64(payload, "post_id");
            let root = collector::get_i64(payload, "root_comment_id");
            match (id, root) {
                (Some(id), Some(root)) => {
                    let mut r = text::join3("post:", text::i64_text(id).as_str(), ":comment:");
                    r.append(text::i64_text(root).as_str());
                    r.append(":replies");
                    Some(r)
                },
                _ => None,
            }
        },
        _ => None,
    }
}

/// The request of a job of a known kind with the given payload.
pub fn request_with_payload(job: &SyncJobDto, command_type: CommandType, payload: Json) -> (r:
    Result<CollectionRequest>)
    ensures
        match r {
            Ok(request) => request.command_type == command_type && request.payload == payload
                && job_stream(job.resource_key@, command_type, payload@) == Some(request.stream@),
            Err(e) => job_stream(job.resource_key@, command_type, payload@) is None
                && error::is_format_error(e, "persistent job payload has no protocol stream"@),
        },
{
    let stream = if text::starts_with(job.resource_key.as_str(), "account:") {
        match protocol_stream_text(command_type, &payload) {
            Some(stream) => stream,
            None => return Err(
                error::format_error("persistent job payload has no protocol stream"),
            ),
        }
    } else {
        job.resource_key.clone()
    };
    Ok(CollectionRequest { command_type, stream, payload })
}

/// The payload of a job: what its text denotes, or an empty object where there is none.
pub open spec fn job_payload(payload_json: Option<String>) -> std::result::Result<
    JsonView,
    Seq<char>,
> {
    match payload_json {
        Some(t) => json::parsed(t@),
        None => Ok(JsonView::Object(Map::empty())),
    }
}

/// Whether a request is that of a job.
pub open spec fn is_request_of(request: CollectionRequest, job: SyncJobDto) -> bool {
    &&& job_command(job.kind@) == Some(request.command_type)
    &&& job_payload(job.payload_json) == Ok::<JsonView, Seq<char>>(request.payload@)
    &&& job_stream(job.resource_key@, request.command_type, request.payload@) == Some(
        request.stream@,
    )
}

/// Whether an error says why a job has no request.
pub open spec fn is_request_fault(e: Error, job: SyncJobDto) -> bool {
    match job_command(job.kind@) {
        None => error::is_format_error(e, "unsupported persistent sync job kind: "@ + job.kind@),
        Some(command) => match job_payload(job.payload_json) {
            Err(why) => e matches Error::Json(m) && m@ == why,
            Ok(payload) => job_stream(job.resource_key@, command, payload) is None
                && error::is_format_error(e, "persistent job payload has no protocol stream"@),
        },
    }
}

/// The request of a job. An unknown kind, a payload that is no JSON and a payload without the
/// identifiers of its stream are refused, in this order.
pub fn request_from_job(job: &SyncJobDto) -> (r: Result<CollectionRequest>)
    ensures
        match r {
            Ok(request) => is_request_of(request, *job),
            Err(e) => is_request_fault(e, *job),
        },
{
    let kind = job.kind.as_str();
    let command_type = if text::same_text(kind, "collect_user_posts") {
        CommandType::CollectUserPosts
    } else if text::same_text(kind, "collect_comments") {
        CommandType::CollectComments
    } else if text::same_text(kind, "collect_comment_replies") {
        CommandType::CollectCommentReplies
    } else {
        return Err(
            Error::FormatError(text::join2("unsupported persistent sync job kind: ", kind)),
        );
    };
    let payload = match &job.payload_json {
        Some(t) => match Json::parse(t.as_str()) {
            Ok(payload) => payload,
            Err(why) => return Err(Error::Json(why)),
        },
        None => Json::empty_object(),
    };
    request_with_payload(job, command_type, payload)
}

/// How a job was executed.
#[derive(Debug, PartialEq, Eq)]
pub struct JobExecutionResult {
    pub job_id: i64,
    pub run_id: i64,
    pub status: String,
}

/// Where the options for the sidecar of a job come from.
#[derive(Debug, PartialEq, Eq)]
pub enum SpawnSource {
    /// The session of the account, at this path below the session root.
    Session(String),
    /// The options of the executor.
    Fixed,
}

/// What all jobs of an executor share.
#[derive(Debug)]
pub struct JobExecutor {
    pub spawn_options: Option<SpawnOptions>,
    pub event_timeout_ms: u64,
    pub finalization_barrier: Option<FinalizationBarrier>,
    pub activation_barrier: Option<FinalizationBarrier>,
    pub account_resolver: Option<AccountSpawnResolver>,
    pub minimum_interval_secs: i64,
}

impl JobExecutor {
    /// An executor without options for the sidecar.
    pub fn new() -> (r: Self)
        ensures
            r == (JobExecutor {
                spawn_options: None,
                event_timeout_ms: 60_000,
                finalization_barrier: None,
                activation_barrier: None,
                account_resolver: None,
                minimum_interval_secs: 0,
            }),
    {
        JobExecutor {
            spawn_options: None,
            event_timeout_ms: 60_000,
            finalization_barrier: None,
            activation_barrier: None,
            account_resolver: None,
            minimum_interval_secs: 0,
        }
    }

    /// An executor with the same options for the sidecar of every job.
    pub fn with_spawn_options(spawn_options: SpawnOptions) -> (r: Self)
        ensures
            r == (JobExecutor {
                spawn_options: Some(spawn_options),
                event_timeout_ms: 60_000,
                finalization_barrier: None,
                activation_barrier: None,
                account_resolver: None,
                minimum_interval_secs: 0,
            }),
    {
        JobExecutor {
            spawn_options: Some(spawn_options),
            event_timeout_ms: 60_000,
            finalization_barrier: None,
            activation_barrier: None,
            account_resolver: None,
            minimum_interval_secs: 0,
        }
    }

    /// Takes the options for the sidecar from the account of each job.
    pub fn with_account_resolver(self, resolver: AccountSpawnResolver) -> (r: Self)
        ensures
            r == (JobExecutor { account_resolver: Some(resolver), ..self }),
    {
        JobExecutor { account_resolver: Some(resolver), ..self }
    }

    /// Keeps requests of an account at least this far apart.
    pub fn with_minimum_interval_secs(self, seconds: i64) -> (r: Self)
        ensures
            r == (JobExecutor {
                minimum_interval_secs: if seconds < 0 {
                    0
                } else {
                    seconds
                },
                ..self
            }),
    {
        JobExecutor {
            minimum_interval_secs: if seconds < 0 {
                0
            } else {
                seconds
            },
            ..self
        }
    }

    /// Holds jobs between the end of their collection and its record.
    pub fn with_finalization_barrier(self, barrier: FinalizationBarrier) -> (r: Self)
        ensures
            r == (JobExecutor { finalization_barrier: Some(barrier), ..self }),
    {
        JobExecutor { finalization_barrier: Some(barrier), ..self }
    }

    /// Holds jobs between the start of their sidecar and their activation.
    pub fn with_activation_barrier(self, barrier: FinalizationBarrier) -> (r: Self)
        ensures
            r == (JobExecutor { activation_barrier: Some(barrier), ..self }),
    {
        JobExecutor { activation_barrier: Some(barrier), ..self }
    }

    /// Decides where the options for the sidecar of a job come from, given the rows of the job and
    /// of its account.
    pub fn resolve_spawn_options(
        &self,
        job_id: i64,
        job: Option<&SyncJobDto>,
        account: Option<&AccountDto>,
    ) -> (r: Result<SpawnSource>)
        ensures
            match job {
                None => r matches Err(e) && error::is_inconsistent(
                    e,
                    "sync job "@ + text::signed_decimal(job_id as int) + " not found"@,
                ),
                Some(job) => match self.account_resolver {
                    None => if self.spawn_options is Some {
                        r == Ok::<SpawnSource, Error>(SpawnSource::Fixed)
                    } else {
                        r matches Err(e) && error::is_inconsistent(
                            e,
                            "sync executor has no sidecar spawn options"@,
                        )
                    },
                    Some(resolver) => match account {
                        None => r matches Err(e) && error::is_inconsistent(
                            e,
                            "account "@ + text::signed_decimal(job.account_id as int)
                                + " not found"@,
                        ),
                        Some(account) => if !account.enabled {
                            r matches Err(e) && error::is_inconsistent(e, "account is disabled"@)
                        } else {
                            match r {
                                Ok(source) => source matches SpawnSource::Session(path)
                                    && crate::sync_executor::reference_fault(account.session_ref@)
                                    is None && path@ == crate::sync_executor::reference_path(
                                    account.session_ref@,
                                ),
                                Err(e) => crate::sync_executor::reference_fault(
                                    account.session_ref@,
                                ) matches Some(why) && error::is_format_error(e, why),
                            }
                        },
                    },
                },
            },
    {
        let job = match job {
            Some(job) => job,
            None => return Err(
                Error::InconsistentTask(
                    text::join3("sync job ", text::i64_text(job_id).as_str(), " not found"),
                ),
            ),
        };
        match &self.account_resolver {
            Some(resolver) => match account {
                Some(account) => match resolver.session_file(account) {
                    Ok(path) => Ok(SpawnSource::Session(path)),
                    Err(e) => Err(e),
                },
                None => Err(
                    Error::InconsistentTask(
                        text::join3(
                            "account ",
                            text::i64_text(job.account_id).as_str(),
                            " not found",
                        ),
                    ),
                ),
            },
            None => if self.spawn_options.is_some() {
                Ok(SpawnSource::Fixed)
            } else {
                Err(error::inconsistent("sync executor has no sidecar spawn options"))
            },
        }
    }
}

/// The claim of the next due job at the given time.
pub fn claim_request(owner_token: String, now_epoch: i64, claimed_at: String) -> (r: ClaimRequest)
    requires
        now_epoch + INITIAL_LEASE_SECS <= i64::MAX,
    ensures
        r == (ClaimRequest {
            owner_token,
            now_epoch,
            lease_until_epoch: (now_epoch + INITIAL_LEASE_SECS) as i64,
            claimed_at,
        }),
{
    ClaimRequest {
        owner_token,
        now_epoch,
        lease_until_epoch: now_epoch + INITIAL_LEASE_SECS,
        claimed_at,
    }
}

/// The statistics of a run as they are recorded.
pub open spec fn stats_of(fetched_count: u64, pages: u64) -> JsonView {
    JsonView::Object(
        Map::empty().insert(
            "fetched_count"@,
            JsonView::Number(json::NumberView::Integer(fetched_count as int)),
        ).insert("pages"@, JsonView::Number(json::NumberView::Integer(pages as int))),
    )
}

fn stats_text(summary: &CollectionSummary) -> (r: String)
    ensures
        r@ == json::rendered(stats_of(summary.fetched_count, summary.pages)),
{
    let mut stats = Json::empty_object();
    stats.insert("fetched_count", Json::Number(JsonNumber::Unsigned(summary.fetched_count)));
    stats.insert("pages", Json::Number(JsonNumber::Unsigned(summary.pages)));
    stats.to_text()
}

/// How many seconds an ending job waits for the control request that paused or cancelled it.
pub const LATE_CONTROL_SECS: u64 = 1;

/// What the status of a job is read for.
#[derive(Debug, Clone, Copy, PartialEq, Eq, Structural)]
pub enum StatusUse {
    /// It is the result.
    Report,
    /// It has to agree with a control request that was confirmed.
    Confirm(ExecutionControl),
    /// It has to explain why the record of the run was not accepted.
    Explain,
}

/// What a job waits for.
#[derive(Debug, Clone, Copy, PartialEq, Eq, Structural)]
pub enum JobStage {
    /// Its run: [`JobRun::on_created`].
    Creating,
    /// Whether it is still owned, with its sidecar not started or started: [`JobRun::on_owned`].
    Owning { started: bool },
    /// The options for its sidecar: [`JobRun::on_options`].
    Resolving,
    /// Its place in the registry: [`JobRun::on_reserved`].
    Reserving,
    /// Its sidecar: [`JobRun::on_handshake`].
    Handshaking,
    /// Its activation: [`JobRun::on_activated`].
    Activating,
    /// Its collection: [`JobRun::on_collected`].
    Collecting,
    /// A last control request: [`JobRun::on_final_control`].
    TakingControl,
    /// The record of a rate limit: [`JobRun::on_rate_limited`].
    RateLimiting,
    /// The recovery after an interruption: [`JobRun::on_recovered`].
    Recovering,
    /// The record of its end with this status: [`JobRun::on_finished`].
    Finishing(SyncJobStatus),
    /// The record of its interruption by a shutdown: [`JobRun::on_interrupted`].
    Interrupting,
    /// Its status: [`JobRun::on_status`].
    ReadingStatus(StatusUse),
    /// A control request that may still come while it has this status: [`JobRun::on_late_control`].
    AwaitingControl(SyncJobStatus),
    /// Nothing: the job has ended.
    Ended,
}

/// What is to be done next for a job.
pub enum JobStep {
    /// Count the rows that prove the ownership, then call [`JobRun::on_owned`].
    EnsureOwned,
    /// Find the options for the sidecar, then call [`JobRun::on_options`].
    ResolveOptions,
    /// Reserve the worker, then call [`JobRun::on_reserved`].
    Reserve,
    /// Start the sidecar, then call [`JobRun::on_handshake`].
    Handshake,
    /// Activate the worker, then call [`JobRun::on_activated`].
    Activate,
    /// Run the collection, kill the sidecar, then call [`JobRun::on_collected`].
    Collect(CollectionRequest, PersistentExecution),
    /// Take and confirm a control request that is waiting, then call [`JobRun::on_final_control`].
    TakeControl,
    /// Record the failure, then end with the error.
    FailRun { request: FinishRunRequest, error: Error },
    /// End with the error; where `kill` says so, kill the sidecar first.
    Abort { error: Error, kill: bool },
    /// Record the interruption by a shutdown, then call [`JobRun::on_interrupted`]; where `kill`
    /// says so, kill the sidecar first.
    Interrupt { request: FinishRunRequest, kill: bool },
    /// Record the rate limit, then call [`JobRun::on_rate_limited`].
    RateLimit { request: FinishRunRequest, info: RateLimitInfo },
    /// Recover the interrupted run, then call [`JobRun::on_recovered`].
    Recover(FinishRunRequest),
    /// Record the end, then call [`JobRun::on_finished`].
    Finish(FinishRunRequest),
    /// Read the status of the job, then call [`JobRun::on_status`].
    ReadStatus,
    /// Wait at most this many seconds for a control request, confirm one that comes, then call
    /// [`JobRun::on_late_control`].
    AwaitControl { seconds: u64 },
    /// The job has been executed.
    Done(JobExecutionResult),
}

/// A job in execution.
#[derive(Debug)]
pub struct JobRun {
    pub owner_token: String,
    pub job: SyncJobDto,
    pub run_id: i64,
    /// The request, once it is known.
    pub request: Option<CollectionRequest>,
    /// The outcome of the collection, once it is known.
    pub summary: Option<CollectionSummary>,
    pub stage: JobStage,
}

/// Whether two states of a run concern the same job and run.
pub open spec fn same_job(a: JobRun, b: JobRun) -> bool {
    a.owner_token == b.owner_token && a.job == b.job && a.run_id == b.run_id
}

/// Whether a run differs from another at most in what it waits for.
pub open spec fn only_stage(a: JobRun, b: JobRun) -> bool {
    same_job(a, b) && a.request == b.request && a.summary == b.summary
}

/// Whether a request ends the run of a job with the given status, statistics and error.
pub open spec fn is_finish(
    request: FinishRunRequest,
    run: JobRun,
    status: SyncJobStatus,
    stats: Option<Seq<char>>,
    error: Option<Seq<char>>,
    finished_at: Seq<char>,
) -> bool {
    &&& request.job_id == run.job.id
    &&& request.run_id == run.run_id
    &&& request.owner_token == run.owner_token
    &&& request.generation == run.job.generation
    &&& request.next_status == status
    &&& request.finished_at@ == finished_at
    &&& text::opt_view(request.stats_json) == stats
    &&& text::opt_view(request.error) == error
}

/// Whether a step records a failure with the given message and ends with the given error.
pub open spec fn fails_run(
    step: JobStep,
    run: JobRun,
    message: Seq<char>,
    error: Error,
    finished_at: Seq<char>,
) -> bool {
    step matches JobStep::FailRun { request, error: e } && e == error && is_finish(
        request,
        run,
        SyncJobStatus::Failed,
        None,
        Some(message),
        finished_at,
    )
}

/// Whether a step records an interruption by a shutdown with the given figures and message.
pub open spec fn interrupts_run(
    step: JobStep,
    run: JobRun,
    fetched_count: u64,
    pages: u64,
    message: Seq<char>,
    finished_at: Seq<char>,
    kill: bool,
) -> bool {
    step matches JobStep::Interrupt { request, kill: k } && k == kill && is_finish(
        request,
        run,
        SyncJobStatus::Interrupted,
        Some(json::rendered(stats_of(fetched_count, pages))),
        Some(message),
        finished_at,
    )
}

/// Whether a step ends the job with a status.
pub open spec fn is_done(step: JobStep, run: JobRun, status: Seq<char>) -> bool {
    step matches JobStep::Done(result) && result.job_id == run.job.id && result.run_id == run.run_id
        && result.status@ == status
}

/// Whether a step ends the job with an inconsistency, with its sidecar killed or not.
pub open spec fn aborts(step: JobStep, message: Seq<char>, kill: bool) -> bool {
    step matches JobStep::Abort { error, kill: k } && k == kill && error::is_inconsistent(
        error,
        message,
    )
}

/// The status with which the run of a finished collection is recorded. A collection that was paused
/// or cancelled has already been recorded.
pub open spec fn next_status_of(status: CollectionStatus) -> Option<SyncJobStatus> {
    match status {
        CollectionStatus::Completed => Some(SyncJobStatus::Completed),
        CollectionStatus::Failed => Some(SyncJobStatus::Failed),
        CollectionStatus::Stopped => Some(SyncJobStatus::Cancelled),
        CollectionStatus::Interrupted => Some(SyncJobStatus::Interrupted),
        CollectionStatus::Shutdown => Some(SyncJobStatus::Interrupted),
        CollectionStatus::RateLimited => Some(SyncJobStatus::Interrupted),
        CollectionStatus::Paused => None,
        CollectionStatus::Cancelled => None,
    }
}

/// The status that a confirmed control request leads to.
pub open spec fn confirmed_status(action: ExecutionControl) -> Option<Seq<char>> {
    match action {
        ExecutionControl::Pause => Some("paused"@),
        ExecutionControl::Cancel => Some("cancelled"@),
        ExecutionControl::Shutdown => None,
    }
}

impl JobRun {
    /// A job that has just been claimed.
    pub fn claimed(owner_token: String, job: SyncJobDto) -> (r: JobRun)
        ensures
            r == (JobRun {
                owner_token,
                job,
                run_id: 0,
                request: None,
                summary: None,
                stage: JobStage::Creating,
            }),
    {
        JobRun {
            owner_token,
            job,
            run_id: 0,
            request: None,
            summary: None,
            stage: JobStage::Creating,
        }
    }

    fn finish_request(
        &self,
        next_status: SyncJobStatus,
        stats_json: Option<String>,
        error: Option<String>,
        finished_at: &str,
    ) -> (r: FinishRunRequest)
        ensures
            is_finish(
                r,
                *self,
                next_status,
                text::opt_view(stats_json),
                text::opt_view(error),
                finished_at@,
            ),
    {
        FinishRunRequest {
            job_id: self.job.id,
            run_id: self.run_id,
            owner_token: self.owner_token.clone(),
            generation: self.job.generation,
            next_status,
            finished_at: finished_at.to_owned(),
            stats_json,
            error,
        }
    }

    fn fail_run(&mut self, error: Error, message: String, finished_at: &str) -> (r: JobStep)
        ensures
            only_stage(*final(self), *old(self)),
            final(self).stage == JobStage::Ended,
            fails_run(r, *old(self), message@, error, finished_at@),
    {
        self.stage = JobStage::Ended;
        let request = self.finish_request(SyncJobStatus::Failed, None, Some(message), finished_at);
        JobStep::FailRun { request, error }
    }

    fn interrupt_before_collection(&mut self, message: &str, finished_at: &str, kill: bool) -> (r:
        JobStep)
        ensures
            only_stage(*final(self), *old(self)),
            final(self).stage == JobStage::Interrupting,
            interrupts_run(r, *old(self), 0, 0, message@, finished_at@, kill),
    {
        self.stage = JobStage::Interrupting;
        let summary = CollectionSummary::default();
        let request = self.finish_request(
            SyncJobStatus::Interrupted,
            Some(stats_text(&summary)),
            Some(message.to_owned()),
            finished_at,
        );
        JobStep::Interrupt { request, kill }
    }

    /// Takes the run that was created for the job.
    pub fn on_created(&mut self, run_id: Option<i64>) -> (r: JobStep)
        requires
            old(self).stage == JobStage::Creating,
        ensures
            match run_id {
                Some(run_id) => *final(self) == (JobRun {
                    run_id,
                    stage: JobStage::Owning { started: false },
                    ..*old(self)
                }) && r is EnsureOwned,
                None => final(self).stage == JobStage::Ended && aborts(
                    r,
                    "failed to create owned sync run"@,
                    false,
                ),
            },
    {
        match run_id {
            Some(run_id) => {
                self.run_id = run_id;
                self.stage = JobStage::Owning { started: false };
                JobStep::EnsureOwned
            },
            None => {
                self.stage = JobStage::Ended;
                JobStep::Abort {
                    error: error::inconsistent("failed to create owned sync run"),
                    kill: false,
                }
            },
        }
    }

    /// Takes the number of rows that prove the ownership: exactly one does.
    pub fn on_owned(&mut self, owned: i64) -> (r: JobStep)
        requires
            old(self).stage is Owning,
        ensures
            only_stage(*final(self), *old(self)),
            if owned != 1 {
                final(self).stage == JobStage::Ended && aborts(
                    r,
                    "sync job "@ + text::signed_decimal(old(self).job.id as int)
                        + " ownership was fenced"@,
                    old(self).stage->started,
                )
            } else if old(self).stage->started {
                final(self).stage == JobStage::Activating && r is Activate
            } else {
                final(self).stage == JobStage::Resolving && r is ResolveOptions
            },
    {
        let started = match self.stage {
            JobStage::Owning { started } => started,
            _ => false,
        };
        if owned != 1 {
            self.stage = JobStage::Ended;
            let message = text::join3(
                "sync job ",
                text::i64_text(self.job.id).as_str(),
                " ownership was fenced",
            );
            return JobStep::Abort { error: Error::InconsistentTask(message), kill: started };
        }
        if started {
            self.stage = JobStage::Activating;
            JobStep::Activate
        } else {
            self.stage = JobStage::Resolving;
            JobStep::ResolveOptions
        }
    }

    /// Takes the options for the sidecar, or why there are none, and derives the request of the job.
    /// Without either the run is recorded as failed.
    pub fn on_options(&mut self, outcome: Result<()>, now: &str) -> (r: JobStep)
        requires
            old(self).stage == JobStage::Resolving,
        ensures
            match outcome {
                Err(e) => final(self).stage == JobStage::Ended && fails_run(
                    r,
                    *old(self),
                    error::error_message(e),
                    e,
                    now@,
                ),
                Ok(_) => if has_request(old(self).job) {
                    &&& final(self).stage == JobStage::Reserving
                    &&& r is Reserve
                    &&& same_job(*final(self), *old(self))
                    &&& final(self).summary == old(self).summary
                    &&& final(self).request matches Some(request) && is_request_of(
                        request,
                        old(self).job,
                    )
                } else {
                    &&& only_stage(*final(self), *old(self))
                    &&& final(self).stage == JobStage::Ended
                    &&& r matches JobStep::FailRun { error, .. } && is_request_fault(
                        error,
                        old(self).job,
                    ) && fails_run(r, *old(self), error::error_message(error), error, now@)
                },
            },
    {
        if let Err(e) = outcome {
            let message = e.message();
            return self.fail_run(e, message, now);
        }
        match request_from_job(&self.job) {
            Ok(request) => {
                self.request = Some(request);
                self.stage = JobStage::Reserving;
                JobStep::Reserve
            },
            Err(e) => {
                let message = e.message();
                self.fail_run(e, message, now)
            },
        }
    }

    /// Takes the outcome of the reservation. While the application shuts down the run is interrupted,
    /// otherwise a refusal is recorded as a failure.
    pub fn on_reserved(&mut self, outcome: Result<()>, shutting_down: bool, now: &str) -> (r: JobStep)
        requires
            old(self).stage == JobStage::Reserving,
        ensures
            only_stage(*final(self), *old(self)),
            match outcome {
                Ok(_) => final(self).stage == JobStage::Handshaking && r is Handshake,
                Err(e) => if shutting_down {
                    final(self).stage == JobStage::Interrupting && interrupts_run(
                        r,
                        *old(self),
                        0,
                        0,
                        "application shutdown before sidecar startup"@,
                        now@,
                        false,
                    )
                } else {
                    final(self).stage == JobStage::Ended && fails_run(
                        r,
                        *old(self),
                        error::error_message(e),
                        e,
                        now@,
                    )
                },
            },
    {
        match outcome {
            Ok(_) => {
                self.stage = JobStage::Handshaking;
                JobStep::Handshake
            },
            Err(e) => {
                if shutting_down {
                    return self.interrupt_before_collection(
                        "application shutdown before sidecar startup",
                        now,
                        false,
                    );
                }
                let message = e.message();
                self.fail_run(e, message, now)
            },
        }
    }

    /// Takes the outcome of the handshake. A handshake that the shutdown cancelled interrupts the run,
    /// another failure is recorded as such.
    pub fn on_handshake(&mut self, outcome: std::result::Result<(), SidecarError>, now: &str) -> (r:
        JobStep)
        requires
            old(self).stage == JobStage::Handshaking,
        ensures
            only_stage(*final(self), *old(self)),
            match outcome {
                Ok(_) => final(self).stage == (JobStage::Owning { started: true })
                    && r is EnsureOwned,
                Err(e) => if e is HandshakeCancelled {
                    final(self).stage == JobStage::Interrupting && interrupts_run(
                        r,
                        *old(self),
                        0,
                        0,
                        "application shutdown during sidecar handshake"@,
                        now@,
                        false,
                    )
                } else {
                    final(self).stage == JobStage::Ended && (r matches JobStep::FailRun {
                        error,
                        ..
                    } && error::is_format_error(error, supervisor::sidecar_message(e))
                        && fails_run(
                        r,
                        *old(self),
                        supervisor::sidecar_message(e),
                        error,
                        now@,
                    ))
                },
            },
    {
        match outcome {
            Ok(_) => {
                self.stage = JobStage::Owning { started: true };
                JobStep::EnsureOwned
            },
            Err(e) => match e {
                SidecarError::HandshakeCancelled => self.interrupt_before_collection(
                    "application shutdown during sidecar handshake",
                    now,
                    false,
                ),
                other => {
                    let message = other.message();
                    self.fail_run(Error::FormatError(message.clone()), message, now)
                },
            },
        }
    }

    /// Takes the outcome of the activation. An active worker collects under its lease; a shutdown kills
    /// the sidecar and interrupts the run; a lost reservation kills the sidecar and ends the job.
    pub fn on_activated(&mut self, outcome: Result<ActivationOutcome>, now: &str) -> (r: JobStep)
        requires
            old(self).stage == JobStage::Activating,
            old(self).request is Some,
        ensures
            same_job(*final(self), *old(self)),
            final(self).summary == old(self).summary,
            match outcome {
                Ok(ActivationOutcome::Active) => final(self).stage == JobStage::Collecting && (
                r matches JobStep::Collect(request, execution) && old(self).request == Some(request)
                    && execution.job_id == old(self).job.id && execution.run_id == old(self).run_id
                    && execution.generation == old(self).job.generation && execution.owner_token
                    == old(self).owner_token && execution.checkpoint_stream
                    == old(self).job.resource_key && execution.poll_interval_ms == 100
                    && execution.heartbeat_interval_ms == 100 && execution.lease_secs == 10),
                Ok(ActivationOutcome::Shutdown) => final(self).stage == JobStage::Interrupting
                    && interrupts_run(
                    r,
                    *old(self),
                    0,
                    0,
                    "application shutdown during sidecar startup"@,
                    now@,
                    true,
                ),
                Err(e) => final(self).stage == JobStage::Ended && r == (JobStep::Abort {
                    error: e,
                    kill: true,
                }),
            },
    {
        match outcome {
            Ok(ActivationOutcome::Active) => {
                self.stage = JobStage::Collecting;
                let execution = PersistentExecution {
                    job_id: self.job.id,
                    run_id: self.run_id,
                    generation: self.job.generation,
                    owner_token: self.owner_token.clone(),
                    checkpoint_stream: self.job.resource_key.clone(),
                    poll_interval_ms: 100,
                    heartbeat_interval_ms: 100,
                    lease_secs: 10,
                };
                let request = self.request.take();
                JobStep::Collect(request.unwrap(), execution)
            },
            Ok(ActivationOutcome::Shutdown) => self.interrupt_before_collection(
                "application shutdown during sidecar startup",
                now,
                true,
            ),
            Err(e) => {
                self.stage = JobStage::Ended;
                JobStep::Abort { error: e, kill: true }
            },
        }
    }

    /// Takes the outcome of the collection, after its sidecar has been killed. A failure is recorded.
    pub fn on_collected(&mut self, outcome: Result<CollectionSummary>, now: &str) -> (r: JobStep)
        requires
            old(self).stage == JobStage::Collecting,
        ensures
            match outcome {
                Ok(summary) => *final(self) == (JobRun {
                    summary: Some(summary),
                    stage: JobStage::TakingControl,
                    ..*old(self)
                }) && r is TakeControl,
                Err(e) => final(self).stage == JobStage::Ended && fails_run(
                    r,
                    *old(self),
                    error::error_message(e),
                    e,
                    now@,
                ),
            },
    {
        match outcome {
            Ok(summary) => {
                self.summary = Some(summary);
                self.stage = JobStage::TakingControl;
                JobStep::TakeControl
            },
            Err(e) => {
                let message = e.message();
                self.fail_run(e, message, now)
            },
        }
    }

    /// Takes a last control request, if one was waiting, and decides how the end of the collection is
    /// recorded. A shutdown interrupts the run; a pause or cancellation has been recorded by whoever
    /// asked for it; otherwise the outcome of the collection decides.
    pub fn on_final_control(&mut self, control: Option<ExecutionControl>, now: &str) -> (r: JobStep)
        requires
            old(self).stage == JobStage::TakingControl,
            old(self).summary is Some,
        ensures
            only_stage(*final(self), *old(self)),
            final_decision(*old(self), *final(self), old(self).summary->0, control, now@, r),
    {
        let status = match &self.summary {
            Some(s) => s.status,
            None => CollectionStatus::Stopped,
        };
        let stats = match &self.summary {
            Some(s) => stats_text(s),
            None => String::new(),
        };
        let shutdown = match control {
            Some(action) => match action {
                ExecutionControl::Shutdown => true,
                _ => {
                    self.stage = JobStage::ReadingStatus(StatusUse::Confirm(action));
                    return JobStep::ReadStatus;
                },
            },
            None => status == CollectionStatus::Shutdown,
        };
        if shutdown {
            let message = match &self.summary {
                Some(s) => match &s.error {
                    Some(e) => e.clone(),
                    None => "application shutdown".to_owned(),
                },
                None => String::new(),
            };
            self.stage = JobStage::Interrupting;
            let request = self.finish_request(
                SyncJobStatus::Interrupted,
                Some(stats),
                Some(message),
                now,
            );
            return JobStep::Interrupt { request, kill: false };
        }
        if status == CollectionStatus::RateLimited {
            let info = match &self.summary {
                Some(s) => s.rate_limit,
                None => None,
            };
            return match info {
                Some(info) => {
                    self.stage = JobStage::RateLimiting;
                    let request = self.finish_request(
                        SyncJobStatus::Interrupted,
                        Some(stats),
                        Some("rate limited".to_owned()),
                        now,
                    );
                    JobStep::RateLimit { request, info }
                },
                None => {
                    self.stage = JobStage::Ended;
                    JobStep::Abort {
                        error: error::inconsistent("rate-limited summary missing structured info"),
                        kill: false,
                    }
                },
            };
        }
        let next_status = match status {
            CollectionStatus::Completed => SyncJobStatus::Completed,
            CollectionStatus::Failed => SyncJobStatus::Failed,
            CollectionStatus::Stopped => SyncJobStatus::Cancelled,
            CollectionStatus::Paused | CollectionStatus::Cancelled => {
                self.stage = JobStage::ReadingStatus(StatusUse::Report);
                return JobStep::ReadStatus;
            },
            _ => SyncJobStatus::Interrupted,
        };
        let error = match &self.summary {
            Some(s) => text::clone_opt(&s.error),
            None => None,
        };
        let request = self.finish_request(next_status, Some(stats), error, now);
        if status == CollectionStatus::Interrupted {
            self.stage = JobStage::Recovering;
            JobStep::Recover(request)
        } else {
            self.stage = JobStage::Finishing(next_status);
            JobStep::Finish(request)
        }
    }

    fn done(&mut self, status: String) -> (r: JobStep)
        ensures
            only_stage(*final(self), *old(self)),
            final(self).stage == JobStage::Ended,
            is_done(r, *old(self), status@),
    {
        self.stage = JobStage::Ended;
        JobStep::Done(JobExecutionResult { job_id: self.job.id, run_id: self.run_id, status })
    }

    /// Takes when the rate-limited job is due again; a negative time means that it has failed for good.
    pub fn on_rate_limited(&mut self, next_epoch: i64) -> (r: JobStep)
        requires
            old(self).stage == JobStage::RateLimiting,
        ensures
            only_stage(*final(self), *old(self)),
            final(self).stage == JobStage::Ended,
            is_done(
                r,
                *old(self),
                if next_epoch >= 0 {
                    "pending"@
                } else {
                    "failed"@
                },
            ),
    {
        if next_epoch >= 0 {
            self.done("pending".to_owned())
        } else {
            self.done("failed".to_owned())
        }
    }

    /// Takes the status that the interrupted job was recovered to, if the recovery was accepted.
    pub fn on_recovered(&mut self, status: Option<SyncJobStatus>) -> (r: JobStep)
        requires
            old(self).stage == JobStage::Recovering,
        ensures
            only_stage(*final(self), *old(self)),
            match status {
                Some(status) => final(self).stage == JobStage::Ended && is_done(
                    r,
                    *old(self),
                    entities::job_status_name(status),
                ),
                None => final(self).stage == JobStage::ReadingStatus(StatusUse::Explain)
                    && r is ReadStatus,
            },
    {
        match status {
            Some(status) => self.done(status.as_str().to_owned()),
            None => {
                self.stage = JobStage::ReadingStatus(StatusUse::Explain);
                JobStep::ReadStatus
            },
        }
    }

    /// Takes whether the record of the end was accepted.
    pub fn on_finished(&mut self, accepted: bool) -> (r: JobStep)
        requires
            old(self).stage is Finishing,
        ensures
            only_stage(*final(self), *old(self)),
            if accepted {
                final(self).stage == JobStage::Ended && is_done(
                    r,
                    *old(self),
                    entities::job_status_name(old(self).stage->Finishing_0),
                )
            } else {
                final(self).stage == JobStage::ReadingStatus(StatusUse::Explain) && r is ReadStatus
            },
    {
        let status = match self.stage {
            JobStage::Finishing(status) => status,
            _ => SyncJobStatus::Pending,
        };
        if accepted {
            self.done(status.as_str().to_owned())
        } else {
            self.stage = JobStage::ReadingStatus(StatusUse::Explain);
            JobStep::ReadStatus
        }
    }

    /// Takes whether the record of the interruption was accepted; an accepted one makes the job pending
    /// again.
    pub fn on_interrupted(&mut self, accepted: bool) -> (r: JobStep)
        requires
            old(self).stage == JobStage::Interrupting,
        ensures
            only_stage(*final(self), *old(self)),
            if accepted {
                final(self).stage == JobStage::Ended && is_done(r, *old(self), "pending"@)
            } else {
                final(self).stage == JobStage::ReadingStatus(StatusUse::Report) && r is ReadStatus
            },
    {
        if accepted {
            self.done("pending".to_owned())
        } else {
            self.stage = JobStage::ReadingStatus(StatusUse::Report);
            JobStep::ReadStatus
        }
    }

    /// Takes the status of the job. It is the result, unless it contradicts a confirmed control request
    /// or leaves unexplained why the record of the run was not accepted. Where it explains that, the
    /// request that paused or cancelled the job is still awaited.
    pub fn on_status(&mut self, status: Option<String>) -> (r: JobStep)
        requires
            old(self).stage is ReadingStatus,
        ensures
            only_stage(*final(self), *old(self)),
            after_status(*old(self), *final(self), text::opt_view(status), r),
    {
        let purpose = match self.stage {
            JobStage::ReadingStatus(purpose) => purpose,
            _ => StatusUse::Report,
        };
        self.stage = JobStage::Ended;
        let status = match status {
            Some(status) => status,
            None => return JobStep::Abort {
                error: error::inconsistent("sync job disappeared"),
                kill: false,
            },
        };
        match purpose {
            StatusUse::Report => self.done(status),
            StatusUse::Confirm(action) => {
                let expected = match action {
                    ExecutionControl::Pause => "paused",
                    ExecutionControl::Cancel => "cancelled",
                    ExecutionControl::Shutdown => return JobStep::Abort {
                        error: error::inconsistent("shutdown control requires owned-run recovery"),
                        kill: false,
                    },
                };
                if text::same_text(status.as_str(), expected) {
                    return self.done(status);
                }
                let mut message = text::join3(
                    "control ",
                    expected,
                    " acknowledged with job status ",
                );
                message.append(status.as_str());
                JobStep::Abort { error: Error::InconsistentTask(message), kill: false }
            },
            StatusUse::Explain => {
                if text::same_text(status.as_str(), "paused") {
                    self.stage = JobStage::AwaitingControl(SyncJobStatus::Paused);
                    return JobStep::AwaitControl { seconds: LATE_CONTROL_SECS };
                }
                if text::same_text(status.as_str(), "cancelled") {
                    self.stage = JobStage::AwaitingControl(SyncJobStatus::Cancelled);
                    return JobStep::AwaitControl { seconds: LATE_CONTROL_SECS };
                }
                JobStep::Abort {
                    error: error::inconsistent("sync finish lost ownership"),
                    kill: false,
                }
            },
        }
    }

    /// Takes the control request that came while it was awaited, if one came. The status is the result
    /// either way.
    pub fn on_late_control(&mut self, _control: Option<ExecutionControl>) -> (r: JobStep)
        requires
            old(self).stage is AwaitingControl,
        ensures
            only_stage(*final(self), *old(self)),
            final(self).stage == JobStage::Ended,
            is_done(
                r,
                *old(self),
                entities::job_status_name(old(self).stage->AwaitingControl_0),
            ),
    {
        let status = match self.stage {
            JobStage::AwaitingControl(status) => status,
            _ => SyncJobStatus::Pending,
        };
        self.done(status.as_str().to_owned())
    }
}

/// What follows from the status of a job.
pub open spec fn after_status(
    before: JobRun,
    after: JobRun,
    status: Option<Seq<char>>,
    r: JobStep,
) -> bool {
    match status {
        None => after.stage == JobStage::Ended && aborts(r, "sync job disappeared"@, false),
        Some(s) => match before.stage->ReadingStatus_0 {
            StatusUse::Report => after.stage == JobStage::Ended && is_done(r, before, s),
            StatusUse::Confirm(action) => after.stage == JobStage::Ended && match confirmed_status(
                action,
            ) {
                Some(expected) => if s == expected {
                    is_done(r, before, s)
                } else {
                    aborts(
                        r,
                        "control "@ + expected + " acknowledged with job status "@ + s,
                        false,
                    )
                },
                None => aborts(r, "shutdown control requires owned-run recovery"@, false),
            },
            StatusUse::Explain => if s == "paused"@ || s == "cancelled"@ {
                &&& after.stage matches JobStage::AwaitingControl(kept)
                &&& entities::job_status_name(kept) == s
                &&& r matches JobStep::AwaitControl { seconds } && seconds == LATE_CONTROL_SECS
            } else {
                after.stage == JobStage::Ended && aborts(r, "sync finish lost ownership"@, false)
            },
        },
    }
}

/// Whether a job has a request.
pub open spec fn has_request(job: SyncJobDto) -> bool {
    job_command(job.kind@) matches Some(command) && (job_payload(job.payload_json) matches Ok(
        payload,
    ) && job_stream(job.resource_key@, command, payload) is Some)
}

/// How the end of a collection is recorded.
pub open spec fn final_decision(
    before: JobRun,
    after: JobRun,
    summary: CollectionSummary,
    control: Option<ExecutionControl>,
    now: Seq<char>,
    r: JobStep,
) -> bool {
    let stats = Some(json::rendered(stats_of(summary.fetched_count, summary.pages)));
    match control {
        Some(ExecutionControl::Pause) => after.stage == JobStage::ReadingStatus(
            StatusUse::Confirm(ExecutionControl::Pause),
        ) && r is ReadStatus,
        Some(ExecutionControl::Cancel) => after.stage == JobStage::ReadingStatus(
            StatusUse::Confirm(ExecutionControl::Cancel),
        ) && r is ReadStatus,
        _ => if control == Some(ExecutionControl::Shutdown) || summary.status
            == CollectionStatus::Shutdown {
            after.stage == JobStage::Interrupting && interrupts_run(
                r,
                before,
                summary.fetched_count,
                summary.pages,
                match summary.error {
                    Some(e) => e@,
                    None => "application shutdown"@,
                },
                now,
                false,
            )
        } else if summary.status == CollectionStatus::RateLimited {
            match summary.rate_limit {
                Some(info) => after.stage == JobStage::RateLimiting && (
                r matches JobStep::RateLimit { request, info: i } && i == info && is_finish(
                    request,
                    before,
                    SyncJobStatus::Interrupted,
                    stats,
                    Some("rate limited"@),
                    now,
                )),
                None => after.stage == JobStage::Ended && aborts(
                    r,
                    "rate-limited summary missing structured info"@,
                    false,
                ),
            }
        } else {
            match next_status_of(summary.status) {
                None => after.stage == JobStage::ReadingStatus(StatusUse::Report)
                    && r is ReadStatus,
                Some(SyncJobStatus::Interrupted) => after.stage == JobStage::Recovering && (
                r matches JobStep::Recover(request) && is_finish(
                    request,
                    before,
                    SyncJobStatus::Interrupted,
                    stats,
                    text::opt_view(summary.error),
                    now,
                )),
                Some(status) => after.stage == JobStage::Finishing(status) && (
                r matches JobStep::Finish(request) && is_finish(
                    request,
                    before,
                    status,
                    stats,
                    text::opt_view(summary.error),
                    now,
                )),
            }
        },
    }
}

} // verus!
