//! A running collection: what it does next, given the clock, control requests, sidecar events and
//! the outcome of commits.
//!
//! The surrounding application performs each [`RunAction`] and reports its outcome to the method
//! that the action names. Every event is accepted at most once and in order; the records of the
//! events since the last checkpoint are committed together with the next checkpoint.
use vstd::prelude::*;

use crate::error;
use crate::error::{Error, Result};
use crate::json;
use crate::json::{Json, JsonView};
use crate::models::user::User;
use crate::sidecar::collector;
use crate::sidecar::collector::{
    CollectionRequest, CollectionStatus, CollectionSummary, ExecutionControl,
    ExecutionControlRequest, PersistentExecution, RateLimitInfo, RateLimitScope,
};
use crate::sidecar::protocol;
use crate::sidecar::protocol::{CommandEnvelope, EventEnvelope, EventType};
use crate::sidecar::supervisor;
use crate::sidecar::supervisor::SidecarError;
use crate::storage::internal::archive;
use crate::storage::internal::archive::Archive;
use crate::storage::internal::entities::{CheckpointOwner, CommentDto, MediaDto, SyncCheckpointDto};
use crate::storage::internal::post::PostInternal;
use crate::storage::internal::transactional::CommitPlan;
use crate::text;

verus! {

/// The longest wait for an event while a stop flag has to be watched, in milliseconds.
pub const STOP_POLL_MS: u64 = 100;

/// What an external stop flag means.
#[derive(Debug, Clone, Copy, PartialEq, Eq, Structural)]
pub enum ExternalStop {
    Cancel,
    Interrupt,
}

impl ExternalStop {
    /// How a collection ends when the flag is raised.
    pub fn status(self) -> (r: CollectionStatus)
        ensures
            r == stop_status(self),
    {
        match self {
            ExternalStop::Cancel => CollectionStatus::Cancelled,
            ExternalStop::Interrupt => CollectionStatus::Interrupted,
        }
    }
}

/// How a collection ends when its stop flag is raised.
pub open spec fn stop_status(stop: ExternalStop) -> CollectionStatus {
    match stop {
        ExternalStop::Cancel => CollectionStatus::Cancelled,
        ExternalStop::Interrupt => CollectionStatus::Interrupted,
    }
}

/// How a durable collection ends on a control request.
pub open spec fn control_status_of(action: ExecutionControl) -> CollectionStatus {
    match action {
        ExecutionControl::Pause => CollectionStatus::Paused,
        ExecutionControl::Cancel => CollectionStatus::Cancelled,
        ExecutionControl::Shutdown => CollectionStatus::Shutdown,
    }
}

/// How a durable collection ends on a control request.
pub fn control_status(action: ExecutionControl) -> (r: CollectionStatus)
    ensures
        r == control_status_of(action),
{
    match action {
        ExecutionControl::Pause => CollectionStatus::Paused,
        ExecutionControl::Cancel => CollectionStatus::Cancelled,
        ExecutionControl::Shutdown => CollectionStatus::Shutdown,
    }
}

/// How a durable collection ends that has lost its lease, by the status of its job.
pub open spec fn job_status_of(status: Seq<char>) -> CollectionStatus {
    if status == "paused"@ {
        CollectionStatus::Paused
    } else if status == "cancelled"@ {
        CollectionStatus::Cancelled
    } else {
        CollectionStatus::Interrupted
    }
}

/// Why the status of a missing job cannot be told.
pub open spec fn job_missing(job_id: i64) -> Seq<char> {
    "sync job "@ + text::signed_decimal(job_id as int) + " not found"@
}

/// How a durable collection ends that has lost its lease, by the status of its job.
pub fn controlled_status_from_db(job_id: i64, status: Option<&str>) -> (r: Result<CollectionStatus>)
    ensures
        match status {
            Some(s) => r == Ok::<CollectionStatus, Error>(job_status_of(s@)),
            None => r matches Err(e) && error::is_inconsistent(e, job_missing(job_id)),
        },
{
    match status {
        Some(s) => {
            if text::same_text(s, "paused") {
                Ok(CollectionStatus::Paused)
            } else if text::same_text(s, "cancelled") {
                Ok(CollectionStatus::Cancelled)
            } else {
                Ok(CollectionStatus::Interrupted)
            }
        },
        None => Err(
            Error::InconsistentTask(
                text::join3("sync job ", text::i64_text(job_id).as_str(), " not found"),
            ),
        ),
    }
}

/// What a stored cursor means for the command: the cursor object with the count of the checkpoint.
/// The cursor is the value under `cursor`, or the stored value itself where there is none.
pub open spec fn resumed_cursor(stored: JsonView, fetched_count: i64) -> Option<JsonView> {
    let cursor = match json::field(stored, "cursor"@) {
        Some(c) => c,
        None => stored,
    };
    match cursor {
        JsonView::Object(m) => Some(
            JsonView::Object(
                m.insert(
                    "fetched_count"@,
                    JsonView::Number(json::NumberView::Integer(fetched_count as int)),
                ),
            ),
        ),
        _ => None,
    }
}

/// Restores the checkpoint of a command from a stored value.
pub fn restore_cursor(stored: &Json, fetched_count: i64) -> (r: Result<Json>)
    ensures
        match r {
            Ok(c) => resumed_cursor(stored@, fetched_count) == Some(c@),
            Err(e) => resumed_cursor(stored@, fetched_count) is None && error::is_format_error(
                e,
                "stored checkpoint cursor is not an object"@,
            ),
        },
{
    let mut cursor = match stored.get("cursor") {
        Some(c) => c.clone(),
        None => stored.clone(),
    };
    if !cursor.is_object() {
        return Err(error::format_error("stored checkpoint cursor is not an object"));
    }
    cursor.insert("fetched_count", Json::integer(fetched_count));
    Ok(cursor)
}

/// Restores the checkpoint of a command from its stored row, if the row has a cursor.
pub fn load_checkpoint_cursor(row: Option<&SyncCheckpointDto>) -> (r: Result<Option<Json>>)
    ensures
        match row {
            Some(c) => match c.cursor_json {
                Some(t) => match json::parsed(t@) {
                    Ok(v) => match resumed_cursor(v, c.fetched_count) {
                        Some(cursor) => r matches Ok(Some(j)) && j@ == cursor,
                        None => r matches Err(e) && error::is_format_error(
                            e,
                            "stored checkpoint cursor is not an object"@,
                        ),
                    },
                    Err(why) => r matches Err(Error::Json(m)) && m@ == why,
                },
                None => r matches Ok(None),
            },
            None => r matches Ok(None),
        },
{
    match row {
        Some(c) => match &c.cursor_json {
            Some(t) => match Json::parse(t.as_str()) {
                Ok(stored) => match restore_cursor(&stored, c.fetched_count) {
                    Ok(cursor) => Ok(Some(cursor)),
                    Err(e) => Err(e),
                },
                Err(why) => Err(Error::Json(why)),
            },
            None => Ok(None),
        },
        None => Ok(None),
    }
}

/// A cursor that was wrapped for storage is resumed as it was, with its count.
pub proof fn wrapped_cursor_resumes(cursor: Map<Seq<char>, JsonView>, fetched_count: i64)
    ensures
        resumed_cursor(collector::wrapped_cursor(JsonView::Object(cursor)), fetched_count) == Some(
            JsonView::Object(
                cursor.insert(
                    "fetched_count"@,
                    JsonView::Number(json::NumberView::Integer(fetched_count as int)),
                ),
            ),
        ),
{
}

/// Records that wait for their checkpoint.
#[derive(Debug)]
pub struct PendingBatch {
    pub users: Vec<User>,
    pub posts: Vec<PostInternal>,
    pub comments: Vec<CommentDto>,
    pub media: Vec<MediaDto>,
}

impl PendingBatch {
    /// Whether the batch holds no record.
    pub open spec fn empty(&self) -> bool {
        self.users@.len() == 0 && self.posts@.len() == 0 && self.comments@.len() == 0
            && self.media@.len() == 0
    }

    /// A batch without records.
    pub fn new() -> (r: Self)
        ensures
            r.empty(),
    {
        PendingBatch {
            users: Vec::new(),
            posts: Vec::new(),
            comments: Vec::new(),
            media: Vec::new(),
        }
    }

    /// Tests whether the batch holds no record.
    pub fn is_empty(&self) -> (r: bool)
        ensures
            r == self.empty(),
    {
        self.users.len() == 0 && self.posts.len() == 0 && self.comments.len() == 0
            && self.media.len() == 0
    }
}

/// What a collection waits for.
#[derive(Debug)]
pub enum RunPhase {
    /// A look at the clock and at the requests: [`CollectionRun::on_tick`].
    Polling,
    /// The renewal of the lease: [`CollectionRun::on_heartbeat`].
    Renewing,
    /// A control request after the lease was lost: [`CollectionRun::on_control`].
    AwaitingControl,
    /// The end of the sidecar, after which the collection ends with the given status, or with the
    /// status of its job: [`CollectionRun::on_killed`].
    Killing(Option<CollectionStatus>),
    /// The status of the job after the lease was lost: [`CollectionRun::on_job`].
    ReadingJob,
    /// An event: [`CollectionRun::on_event`] or [`CollectionRun::on_receive_failure`].
    Receiving,
    /// A commit with this count and total: [`CollectionRun::on_committed`].
    Committing { fetched_count: u64, total: u64 },
    /// The status of the job after a commit failed: [`CollectionRun::on_job`].
    CommitFailed(Error),
    /// Nothing: the collection has ended.
    Ended,
}

/// What is to be done next for a collection.
pub enum RunAction {
    /// Look at the clock and at the requests, then call [`CollectionRun::on_tick`].
    Poll,
    /// Report the progress, then go on as for [`RunAction::Poll`].
    Report { fetched_count: u64, total: u64 },
    /// Kill the sidecar and wait for it, confirm under the ticket, then call
    /// [`CollectionRun::on_killed`].
    Kill { ticket: Option<u64> },
    /// Renew the lease, then call [`CollectionRun::on_heartbeat`].
    RenewLease,
    /// Wait for a control request for the polling interval, then call
    /// [`CollectionRun::on_control`].
    AwaitControl,
    /// Read the status of the job, then call [`CollectionRun::on_job`].
    ReadJob,
    /// Wait for an event, then call [`CollectionRun::on_event`] or
    /// [`CollectionRun::on_receive_failure`].
    Receive { timeout_ms: u64 },
    /// Commit the plan, then call [`CollectionRun::on_committed`].
    Commit(CommitPlan),
    /// The collection has ended.
    Finish(CollectionSummary),
    /// The collection has failed.
    Fail(Error),
}

/// A running collection.
#[derive(Debug)]
pub struct CollectionRun {
    /// The identifier of the command that was sent.
    pub request_id: String,
    /// The stream of the events.
    pub stream: String,
    /// The key of the checkpoint.
    pub checkpoint_stream: String,
    /// The identity of the durable job, if this is one.
    pub execution: Option<PersistentExecution>,
    /// What the stop flag means, if there is one.
    pub external_stop: Option<ExternalStop>,
    /// How long the sidecar may be silent, in milliseconds.
    pub event_timeout_ms: u64,
    /// The outcome so far.
    pub summary: CollectionSummary,
    /// The records since the last checkpoint.
    pub batch: PendingBatch,
    /// The sequence number of the last accepted event.
    pub last_sequence: u64,
    /// When the silence of the sidecar becomes too long.
    pub deadline_ms: u64,
    /// When the lease has to be renewed.
    pub next_heartbeat_ms: u64,
    /// What the collection waits for.
    pub phase: RunPhase,
}

/// A sum of times that stops at the largest time.
pub open spec fn later(now_ms: u64, delay_ms: u64) -> u64 {
    if now_ms + delay_ms > u64::MAX {
        u64::MAX
    } else {
        (now_ms + delay_ms) as u64
    }
}

/// The smaller of two times.
pub open spec fn sooner(a: u64, b: u64) -> u64 {
    if a <= b {
        a
    } else {
        b
    }
}

/// The payload of a command: the requested one, with the checkpoint where there is one.
pub open spec fn resumed_payload(payload: JsonView, checkpoint: Option<JsonView>) -> JsonView {
    match checkpoint {
        Some(c) => match payload {
            JsonView::Object(m) => JsonView::Object(m.insert("checkpoint"@, c)),
            _ => JsonView::Object(Map::empty().insert("checkpoint"@, c)),
        },
        None => payload,
    }
}

/// The count that the checkpoint of a command starts from.
pub open spec fn starting_count(payload: JsonView) -> u64 {
    match json::field(payload, "checkpoint"@) {
        Some(c) => match json::u64_field(c, "fetched_count"@) {
            Some(n) => n,
            None => 0,
        },
        None => 0,
    }
}

/// The parts of a run that never change.
pub open spec fn same_request(a: CollectionRun, b: CollectionRun) -> bool {
    a.request_id == b.request_id && a.stream == b.stream && a.checkpoint_stream
        == b.checkpoint_stream && a.execution == b.execution && a.external_stop == b.external_stop
        && a.event_timeout_ms == b.event_timeout_ms
}

/// Whether a run differs from another at most in what it waits for.
pub open spec fn only_phase(a: CollectionRun, b: CollectionRun) -> bool {
    same_request(a, b) && a.summary == b.summary && a.batch == b.batch && a.last_sequence
        == b.last_sequence && a.deadline_ms == b.deadline_ms && a.next_heartbeat_ms
        == b.next_heartbeat_ms
}

/// Why an event does not belong to a run at this point, if it does not.
pub open spec fn refusal(run: CollectionRun, event: EventEnvelope) -> Option<Seq<char>> {
    if text::opt_view(event.request_id) != Some(run.request_id@) {
        Some("sidecar event request_id mismatch"@)
    } else if event.stream is None {
        Some("sidecar event stream missing"@)
    } else if event.stream->0@ != run.stream@ {
        Some(
            "sidecar event stream mismatch: expected "@ + run.stream@ + ", got "@
                + event.stream->0@,
        )
    } else if event.sequence is None {
        Some("sidecar event sequence missing"@)
    } else if !collector::follows(run.last_sequence, event.sequence->0) {
        Some(
            if run.last_sequence == u64::MAX {
                "sidecar event sequence overflow"@
            } else {
                "sidecar event sequence gap or reordering: expected "@ + text::decimal(
                    (run.last_sequence + 1) as nat,
                ) + ", got "@ + text::decimal(event.sequence->0 as nat)
            },
        )
    } else {
        None
    }
}

/// The checkpoint of a run: that of the event, owned by the durable job if there is one.
pub open spec fn is_run_checkpoint(
    c: SyncCheckpointDto,
    run: CollectionRun,
    payload: JsonView,
    sequence: u64,
    now: Seq<char>,
) -> bool {
    match run.execution {
        None => collector::is_checkpoint_of(c, run.checkpoint_stream@, payload, sequence, now),
        Some(p) => {
            &&& collector::is_checkpoint_of(
                SyncCheckpointDto {
                    job_id: None,
                    run_id: None,
                    generation: None,
                    owner_token: None,
                    owner: CheckpointOwner::AdHoc,
                    ..c
                },
                run.checkpoint_stream@,
                payload,
                sequence,
                now,
            )
            &&& c.job_id == Some(p.job_id)
            &&& c.run_id == Some(p.run_id)
            &&& c.generation == Some(p.generation)
            &&& c.owner_token == Some(p.owner_token)
            &&& c.owner == CheckpointOwner::Persistent {
                run_id: p.run_id,
                generation: p.generation,
                owner_token: p.owner_token,
            }
        },
    }
}

/// The error text of an error event.
pub open spec fn error_text(payload: JsonView) -> Seq<char> {
    collector::text_or(payload, "code"@, "UNKNOWN"@) + ": "@ + collector::text_or(
        payload,
        "message"@,
        ""@,
    )
}

/// The rate limit that an event reports, if it names a known scope.
pub open spec fn rate_limit_of(payload: JsonView) -> Option<RateLimitInfo> {
    match json::text_field(payload, "scope"@) {
        Some(name) => match collector::scope_named(name) {
            Some(scope) => Some(
                RateLimitInfo {
                    scope,
                    retry_after_ms: json::u64_field(payload, "retry_after_ms"@),
                },
            ),
            None => None,
        },
        None => None,
    }
}

impl CollectionRun {
    /// Every committed page consumed a checkpoint event of its own.
    pub open spec fn wf(&self) -> bool {
        &&& self.summary.pages <= self.last_sequence
        &&& self.phase is Committing ==> self.summary.pages < self.last_sequence
    }

    /// Ends the run with the outcome so far, under the given status.
    fn finish(&mut self, status: CollectionStatus) -> (r: RunAction)
        ensures
            final(self).phase is Ended,
            r matches RunAction::Finish(s) && s == (CollectionSummary {
                status,
                ..old(self).summary
            }),
            final(self).wf(),
    {
        let mut summary = CollectionSummary::default();
        std::mem::swap(&mut summary, &mut self.summary);
        summary.status = status;
        self.phase = RunPhase::Ended;
        RunAction::Finish(summary)
    }

    /// Ends the run with the outcome so far, under the given status and with a diagnosis.
    fn finish_with(&mut self, status: CollectionStatus, why: String) -> (r: RunAction)
        ensures
            final(self).phase is Ended,
            r matches RunAction::Finish(s) && s == (CollectionSummary {
                status,
                error: Some(why),
                ..old(self).summary
            }),
            final(self).wf(),
    {
        self.summary.error = Some(why);
        self.finish(status)
    }

    /// Ends the run with an error.
    fn fail(&mut self, e: Error) -> (r: RunAction)
        ensures
            final(self).phase is Ended,
            r == RunAction::Fail(e),
            final(self).summary == old(self).summary,
            final(self).last_sequence == old(self).last_sequence,
    {
        self.phase = RunPhase::Ended;
        RunAction::Fail(e)
    }

    /// Waits for an event, unless the sidecar has been silent for too long.
    fn await_event(&mut self, now_ms: u64) -> (r: RunAction)
        requires
            old(self).wf(),
        ensures
            final(self).wf(),
            awaits_event(*old(self), *final(self), now_ms, r),
    {
        if self.deadline_ms <= now_ms {
            return self.finish_with(
                CollectionStatus::Interrupted,
                "sidecar event receive timed out".to_owned(),
            );
        }
        let remaining: u64 = self.deadline_ms - now_ms;
        let timeout_ms: u64 = match &self.execution {
            Some(p) => if p.poll_interval_ms <= remaining {
                p.poll_interval_ms
            } else {
                remaining
            },
            None => if self.external_stop.is_some() && STOP_POLL_MS <= remaining {
                STOP_POLL_MS
            } else {
                remaining
            },
        };
        self.phase = RunPhase::Receiving;
        RunAction::Receive { timeout_ms }
    }

    /// Looks at the stop flag, at control requests, at the lease and at the deadline, in this order.
    pub fn on_tick(
        &mut self,
        stop_requested: bool,
        control: Option<ExecutionControlRequest>,
        now_ms: u64,
    ) -> (r: RunAction)
        requires
            old(self).wf(),
            old(self).phase is Polling,
        ensures
            final(self).wf(),
            if old(self).external_stop is Some && stop_requested {
                &&& only_phase(*final(self), *old(self))
                &&& final(self).phase == RunPhase::Killing(
                    Some(stop_status(old(self).external_stop->0)),
                )
                &&& r == RunAction::Kill { ticket: None }
            } else if old(self).execution is Some && control is Some {
                &&& only_phase(*final(self), *old(self))
                &&& final(self).phase == RunPhase::Killing(
                    Some(control_status_of(control->0.action)),
                )
                &&& r == RunAction::Kill { ticket: Some(control->0.ticket) }
            } else if old(self).execution is Some && now_ms >= old(self).next_heartbeat_ms {
                &&& only_phase(*final(self), *old(self))
                &&& final(self).phase is Renewing
                &&& r is RenewLease
            } else {
                awaits_event(*old(self), *final(self), now_ms, r)
            },
    {
        if let Some(stop) = self.external_stop {
            if stop_requested {
                self.phase = RunPhase::Killing(Some(stop.status()));
                return RunAction::Kill { ticket: None };
            }
        }
        if self.execution.is_some() {
            if let Some(request) = control {
                self.phase = RunPhase::Killing(Some(control_status(request.action)));
                return RunAction::Kill { ticket: Some(request.ticket) };
            }
            if now_ms >= self.next_heartbeat_ms {
                self.phase = RunPhase::Renewing;
                return RunAction::RenewLease;
            }
        }
        self.await_event(now_ms)
    }

    /// Takes the outcome of a renewal: a kept lease is due again after its interval, a lost one
    /// leaves time for the control request that took it.
    pub fn on_heartbeat(&mut self, kept: bool, now_ms: u64) -> (r: RunAction)
        requires
            old(self).wf(),
            old(self).phase is Renewing,
            old(self).execution is Some,
        ensures
            final(self).wf(),
            if kept {
                awaits_event(
                    CollectionRun {
                        next_heartbeat_ms: later(
                            now_ms,
                            old(self).execution->0.heartbeat_interval_ms,
                        ),
                        ..*old(self)
                    },
                    *final(self),
                    now_ms,
                    r,
                )
            } else {
                &&& only_phase(*final(self), *old(self))
                &&& final(self).phase is AwaitingControl
                &&& r is AwaitControl
            },
    {
        if !kept {
            self.phase = RunPhase::AwaitingControl;
            return RunAction::AwaitControl;
        }
        let interval: u64 = match &self.execution {
            Some(p) => p.heartbeat_interval_ms,
            None => 0,
        };
        self.next_heartbeat_ms = now_ms.saturating_add(interval);
        self.await_event(now_ms)
    }

    /// Takes the control request that came after the lease was lost, if one came. Either way the
    /// sidecar is killed; without a request the status of the job tells how the collection ends.
    pub fn on_control(&mut self, control: Option<ExecutionControlRequest>) -> (r: RunAction)
        requires
            old(self).wf(),
            old(self).phase is AwaitingControl,
        ensures
            final(self).wf(),
            only_phase(*final(self), *old(self)),
            match control {
                Some(request) => final(self).phase == RunPhase::Killing(
                    Some(control_status_of(request.action)),
                ) && r == RunAction::Kill { ticket: Some(request.ticket) },
                None => final(self).phase == RunPhase::Killing(None) && r == RunAction::Kill {
                    ticket: None,
                },
            },
    {
        match control {
            Some(request) => {
                self.phase = RunPhase::Killing(Some(control_status(request.action)));
                RunAction::Kill { ticket: Some(request.ticket) }
            },
            None => {
                self.phase = RunPhase::Killing(None);
                RunAction::Kill { ticket: None }
            },
        }
    }

    /// Takes the outcome of a kill. A sidecar that cannot be killed fails the collection.
    pub fn on_killed(&mut self, outcome: std::result::Result<(), String>) -> (r: RunAction)
        requires
            old(self).wf(),
            old(self).phase is Killing,
        ensures
            final(self).wf(),
            match outcome {
                Err(why) => final(self).phase is Ended && r == RunAction::Fail(
                    Error::FormatError(why),
                ),
                Ok(_) => match old(self).phase->Killing_0 {
                    Some(status) => final(self).phase is Ended && r == RunAction::Finish(
                        CollectionSummary { status, ..old(self).summary },
                    ),
                    None => only_phase(*final(self), *old(self)) && final(self).phase is ReadingJob
                        && r is ReadJob,
                },
            },
    {
        match outcome {
            Err(why) => self.fail(Error::FormatError(why)),
            Ok(_) => {
                let status = match &self.phase {
                    RunPhase::Killing(status) => *status,
                    _ => None,
                };
                match status {
                    Some(status) => self.finish(status),
                    None => {
                        self.phase = RunPhase::ReadingJob;
                        RunAction::ReadJob
                    },
                }
            },
        }
    }

    /// Takes the status of the job. After a lost lease it tells how the collection ends. After a
    /// failed commit a paused or cancelled job ends the collection, and any other job makes the
    /// failure of the commit the failure of the collection.
    pub fn on_job(&mut self, status: Option<&str>) -> (r: RunAction)
        requires
            old(self).wf(),
            old(self).phase is ReadingJob || old(self).phase is CommitFailed,
            old(self).execution is Some,
        ensures
            final(self).wf(),
            match status {
                None => final(self).phase is Ended && (r matches RunAction::Fail(e)
                    && error::is_inconsistent(e, job_missing(old(self).execution->0.job_id))),
                Some(s) => match old(self).phase {
                    RunPhase::CommitFailed(e) => if job_status_of(s@)
                        == CollectionStatus::Interrupted {
                        final(self).phase is Ended && r == RunAction::Fail(e)
                    } else {
                        only_phase(*final(self), *old(self)) && final(self).phase
                            == RunPhase::Killing(Some(job_status_of(s@))) && r == RunAction::Kill {
                            ticket: None,
                        }
                    },
                    _ => final(self).phase is Ended && r == RunAction::Finish(
                        CollectionSummary { status: job_status_of(s@), ..old(self).summary },
                    ),
                },
            },
    {
        let job_id: i64 = match &self.execution {
            Some(p) => p.job_id,
            None => 0,
        };
        let status = match controlled_status_from_db(job_id, status) {
            Ok(status) => status,
            Err(e) => return self.fail(e),
        };
        let mut phase = RunPhase::Ended;
        std::mem::swap(&mut phase, &mut self.phase);
        match phase {
            RunPhase::CommitFailed(e) => {
                if status == CollectionStatus::Paused || status == CollectionStatus::Cancelled {
                    self.phase = RunPhase::Killing(Some(status));
                    RunAction::Kill { ticket: None }
                } else {
                    self.fail(e)
                }
            },
            _ => self.finish(status),
        }
    }

    /// Takes the failure to receive an event. Silence within the deadline is no failure while there
    /// is something else to look at.
    pub fn on_receive_failure(&mut self, failure: &SidecarError) -> (r: RunAction)
        requires
            old(self).wf(),
            old(self).phase is Receiving,
        ensures
            final(self).wf(),
            if failure is RecvTimeout && (old(self).execution is Some || old(self).external_stop
                is Some) {
                only_phase(*final(self), *old(self)) && final(self).phase is Polling && r is Poll
            } else {
                &&& final(self).phase is Ended
                &&& r matches RunAction::Finish(s) && s.error matches Some(why) && s == (
                CollectionSummary {
                    status: CollectionStatus::Interrupted,
                    error: Some(why),
                    ..old(self).summary
                }) && why@ == match *failure {
                    SidecarError::Exited { code, .. } => "sidecar exited with code "@
                        + supervisor::exit_code_text_of(code),
                    SidecarError::RecvTimeout(_) => "sidecar event receive timed out"@,
                    other => "sidecar error: "@ + supervisor::sidecar_message(other),
                }
            },
    {
        match failure {
            SidecarError::Exited { code, .. } => {
                let why = text::join2(
                    "sidecar exited with code ",
                    supervisor::exit_code_text(*code).as_str(),
                );
                self.finish_with(CollectionStatus::Interrupted, why)
            },
            SidecarError::RecvTimeout(_) => {
                if self.execution.is_some() || self.external_stop.is_some() {
                    self.phase = RunPhase::Polling;
                    RunAction::Poll
                } else {
                    self.finish_with(
                        CollectionStatus::Interrupted,
                        "sidecar event receive timed out".to_owned(),
                    )
                }
            },
            other => {
                let why = text::join2("sidecar error: ", other.message().as_str());
                self.finish_with(CollectionStatus::Interrupted, why)
            },
        }
    }

    /// Takes the outcome of a commit. A committed page counts, and its progress is reported. A
    /// failed one fails the collection, but for a durable job only after a look at the job.
    pub fn on_committed(&mut self, outcome: Result<()>) -> (r: RunAction)
        requires
            old(self).wf(),
            old(self).phase is Committing,
        ensures
            final(self).wf(),
            match outcome {
                Ok(_) => {
                    &&& same_request(*final(self), *old(self))
                    &&& final(self).phase is Polling
                    &&& final(self).summary == (CollectionSummary {
                        pages: (old(self).summary.pages + 1) as u64,
                        fetched_count: old(self).phase->fetched_count,
                        ..old(self).summary
                    })
                    &&& final(self).batch == old(self).batch
                    &&& final(self).last_sequence == old(self).last_sequence
                    &&& final(self).deadline_ms == old(self).deadline_ms
                    &&& final(self).next_heartbeat_ms == old(self).next_heartbeat_ms
                    &&& r == RunAction::Report {
                        fetched_count: old(self).phase->fetched_count,
                        total: old(self).phase->total,
                    }
                },
                Err(e) => if old(self).execution is Some {
                    &&& only_phase(*final(self), *old(self))
                    &&& final(self).phase == RunPhase::CommitFailed(e)
                    &&& r is ReadJob
                } else {
                    final(self).phase is Ended && r == RunAction::Fail(e)
                },
            },
    {
        match outcome {
            Ok(_) => {
                let (fetched_count, total): (u64, u64) = match &self.phase {
                    RunPhase::Committing { fetched_count, total } => (*fetched_count, *total),
                    _ => (0, 0),
                };
                self.summary.pages = self.summary.pages + 1;
                self.summary.fetched_count = fetched_count;
                self.phase = RunPhase::Polling;
                RunAction::Report { fetched_count, total }
            },
            Err(e) => {
                if self.execution.is_some() {
                    self.phase = RunPhase::CommitFailed(e);
                    RunAction::ReadJob
                } else {
                    self.fail(e)
                }
            },
        }
    }
}

/// What waiting for an event amounts to: a silence that has become too long ends the collection,
/// otherwise an event is awaited no longer than the deadline, the polling interval of a durable job
/// and the polling of a stop flag allow.
pub open spec fn awaits_event(
    before: CollectionRun,
    after: CollectionRun,
    now_ms: u64,
    r: RunAction,
) -> bool {
    if before.deadline_ms <= now_ms {
        &&& after.phase is Ended
        &&& r matches RunAction::Finish(s) && s.error matches Some(why) && s == (CollectionSummary {
            status: CollectionStatus::Interrupted,
            error: Some(why),
            ..before.summary
        }) && why@ == "sidecar event receive timed out"@
    } else {
        &&& only_phase(after, before)
        &&& after.phase is Receiving
        &&& r == RunAction::Receive {
            timeout_ms: match before.execution {
                Some(p) => sooner(p.poll_interval_ms, (before.deadline_ms - now_ms) as u64),
                None => if before.external_stop is Some {
                    sooner(STOP_POLL_MS, (before.deadline_ms - now_ms) as u64)
                } else {
                    (before.deadline_ms - now_ms) as u64
                },
            },
        }
    }
}

/// Whether a run goes on polling, with the event counted but its outcome unchanged.
pub open spec fn goes_on(before: CollectionRun, after: CollectionRun, r: RunAction) -> bool {
    &&& same_request(after, before)
    &&& after.summary == before.summary
    &&& after.last_sequence == before.last_sequence
    &&& after.deadline_ms == before.deadline_ms
    &&& after.next_heartbeat_ms == before.next_heartbeat_ms
    &&& after.phase is Polling
    &&& r is Poll
}

/// Whether a run has ended with a format error.
pub open spec fn fails_with(after: CollectionRun, r: RunAction, why: Seq<char>) -> bool {
    after.phase is Ended && (r matches RunAction::Fail(e) && error::is_format_error(e, why))
}

/// Whether `after` is `before` with one more record at its end.
pub open spec fn grown<T>(before: Seq<T>, after: Seq<T>) -> bool {
    after.len() == before.len() + 1 && after.drop_last() == before
}

/// What a run does with an event that belongs to it. `before` has already counted the event.
pub open spec fn accepts(
    before: CollectionRun,
    after: CollectionRun,
    event: EventEnvelope,
    now: Seq<char>,
    r: RunAction,
) -> bool {
    let payload = event.payload@;
    match event.event_type {
        EventType::User => if collector::int_field(payload, "id"@) is None {
            fails_with(after, r, "invalid user event "@ + event.event_id@)
        } else {
            &&& goes_on(before, after, r)
            &&& grown(before.batch.users@, after.batch.users@)
            &&& collector::is_user_of(after.batch.users@.last(), payload)
            &&& after.batch.posts == before.batch.posts
            &&& after.batch.comments == before.batch.comments
            &&& after.batch.media == before.batch.media
        },
        EventType::Post => if collector::int_field(payload, "id"@) is None {
            fails_with(after, r, "post.id missing"@)
        } else if collector::int_field(payload, "uid"@) is None {
            fails_with(after, r, "post.uid missing"@)
        } else {
            &&& goes_on(before, after, r)
            &&& grown(before.batch.posts@, after.batch.posts@)
            &&& collector::is_post_of(after.batch.posts@.last(), payload)
            &&& after.batch.users == before.batch.users
            &&& after.batch.comments == before.batch.comments
            &&& after.batch.media == before.batch.media
        },
        EventType::Comment => if collector::int_field(payload, "id"@) is None {
            fails_with(after, r, "comment.id missing"@)
        } else if collector::int_field(payload, "post_id"@) is None {
            fails_with(after, r, "comment.post_id missing"@)
        } else {
            &&& goes_on(before, after, r)
            &&& grown(before.batch.comments@, after.batch.comments@)
            &&& collector::is_comment_of(after.batch.comments@.last(), payload)
            &&& after.batch.users == before.batch.users
            &&& after.batch.posts == before.batch.posts
            &&& after.batch.media == before.batch.media
        },
        EventType::MediaReference => if json::text_field(payload, "url"@) is None {
            fails_with(after, r, "media_reference.url missing"@)
        } else {
            &&& goes_on(before, after, r)
            &&& grown(before.batch.media@, after.batch.media@)
            &&& collector::is_media_of(after.batch.media@.last(), payload, now)
            &&& after.batch.users == before.batch.users
            &&& after.batch.posts == before.batch.posts
            &&& after.batch.comments == before.batch.comments
        },
        EventType::Checkpoint => if collector::cursor_of(payload) is None {
            fails_with(after, r, "invalid checkpoint cursor"@)
        } else if collector::fetched_count_of(payload) is None {
            fails_with(after, r, "invalid checkpoint fetched_count"@)
        } else {
            &&& same_request(after, before)
            &&& after.summary == before.summary
            &&& after.last_sequence == before.last_sequence
            &&& after.deadline_ms == before.deadline_ms
            &&& after.next_heartbeat_ms == before.next_heartbeat_ms
            &&& after.batch.empty()
            &&& after.phase == RunPhase::Committing {
                fetched_count: collector::fetched_count_of(payload)->0 as u64,
                total: match event.total_expected {
                    Some(total) => total,
                    None => 0,
                },
            }
            &&& r matches RunAction::Commit(plan) && {
                &&& plan.request_id == Some(before.request_id)
                &&& plan.stream == before.checkpoint_stream
                &&& plan.sequence == before.last_sequence as i64
                &&& plan.event_id == event.event_id
                &&& plan.users == before.batch.users
                &&& plan.posts == before.batch.posts
                &&& plan.comments == before.batch.comments
                &&& plan.media == before.batch.media
                &&& is_run_checkpoint(plan.checkpoint, before, payload, before.last_sequence, now)
                &&& plan.processed_at@ == now
            }
        },
        EventType::Done => if !before.batch.empty() {
            fails_with(
                after,
                r,
                "sidecar completed with uncommitted data after the last checkpoint"@,
            )
        } else {
            match collector::done_status_of(payload) {
                Some(status) => after.phase is Ended && r == RunAction::Finish(
                    CollectionSummary { status, ..before.summary },
                ),
                None => fails_with(
                    after,
                    r,
                    match json::text_field(payload, "status"@) {
                        Some(s) => "invalid sidecar done status: "@ + s,
                        None => "sidecar done status missing"@,
                    },
                ),
            }
        },
        EventType::Cancelled => after.phase is Ended && r == RunAction::Finish(
            CollectionSummary { status: CollectionStatus::Stopped, ..before.summary },
        ),
        EventType::Error => {
            &&& after.phase is Ended
            &&& r matches RunAction::Finish(s) && s.error matches Some(why) && s == (
            CollectionSummary {
                status: if json::text_field(payload, "code"@) == Some("REQUEST_CANCELLED"@) {
                    CollectionStatus::Stopped
                } else {
                    CollectionStatus::Failed
                },
                error: Some(why),
                ..before.summary
            }) && why@ == error_text(payload)
        },
        EventType::AuthRequired => {
            &&& after.phase is Ended
            &&& r matches RunAction::Finish(s) && s.error matches Some(why) && s == (
            CollectionSummary {
                status: CollectionStatus::Failed,
                error: Some(why),
                ..before.summary
            }) && why@ == collector::text_or(payload, "message"@, "auth required"@)
        },
        EventType::RateLimited => match rate_limit_of(payload) {
            Some(info) => {
                let limited = CollectionRun {
                    summary: CollectionSummary { rate_limit: Some(info), ..before.summary },
                    ..before
                };
                if before.execution is Some {
                    &&& only_phase(after, limited)
                    &&& after.phase == RunPhase::Killing(Some(CollectionStatus::RateLimited))
                    &&& r == RunAction::Kill { ticket: None }
                } else {
                    goes_on(limited, after, r) && after.batch == before.batch
                }
            },
            None => fails_with(
                after,
                r,
                match json::text_field(payload, "scope"@) {
                    Some(name) => "unknown rate-limit scope: "@ + name,
                    None => "rate-limit scope missing"@,
                },
            ),
        },
        EventType::Warning | EventType::Started | EventType::Progress | EventType::Ready
        | EventType::Capabilities => goes_on(before, after, r) && after.batch == before.batch,
    }
}

impl CollectionRun {
    /// Goes on polling.
    fn go_on(&mut self) -> (r: RunAction)
        requires
            old(self).wf(),
        ensures
            final(self).wf(),
            goes_on(*old(self), *final(self), r),
            final(self).batch == old(self).batch,
    {
        self.phase = RunPhase::Polling;
        RunAction::Poll
    }

    /// Checks that an event belongs to this run and is the very next one.
    fn check_event(&self, event: &EventEnvelope) -> (r: Result<u64>)
        ensures
            match r {
                Ok(sequence) => refusal(*self, *event) is None && event.sequence == Some(sequence),
                Err(e) => refusal(*self, *event) matches Some(why) && error::is_format_error(
                    e,
                    why,
                ),
            },
    {
        let ours = match &event.request_id {
            Some(id) => text::same_text(id.as_str(), self.request_id.as_str()),
            None => false,
        };
        if !ours {
            return Err(error::format_error("sidecar event request_id mismatch"));
        }
        match &event.stream {
            None => return Err(error::format_error("sidecar event stream missing")),
            Some(stream) => {
                if !text::same_text(stream.as_str(), self.stream.as_str()) {
                    let mut why = text::join3(
                        "sidecar event stream mismatch: expected ",
                        self.stream.as_str(),
                        ", got ",
                    );
                    why.append(stream.as_str());
                    return Err(Error::FormatError(why));
                }
            },
        }
        match event.sequence {
            None => Err(error::format_error("sidecar event sequence missing")),
            Some(sequence) => match collector::validate_event_sequence(
                self.last_sequence,
                sequence,
            ) {
                Ok(_) => Ok(sequence),
                Err(e) => Err(e),
            },
        }
    }

    /// The checkpoint of an event, owned by the durable job if there is one.
    fn run_checkpoint(&self, payload: &Json, sequence: u64, now: &str) -> (r: Result<
        SyncCheckpointDto,
    >)
        ensures
            match r {
                Ok(c) => collector::cursor_of(payload@) is Some && collector::fetched_count_of(
                    payload@,
                ) == Some(c.fetched_count) && is_run_checkpoint(
                    c,
                    *self,
                    payload@,
                    sequence,
                    now@,
                ),
                Err(e) => if collector::cursor_of(payload@) is None {
                    error::is_format_error(e, "invalid checkpoint cursor"@)
                } else {
                    collector::fetched_count_of(payload@) is None && error::is_format_error(
                        e,
                        "invalid checkpoint fetched_count"@,
                    )
                },
            },
    {
        let mut checkpoint = match collector::checkpoint_from_payload(
            self.checkpoint_stream.as_str(),
            payload,
            sequence,
            now,
        ) {
            Ok(checkpoint) => checkpoint,
            Err(e) => return Err(e),
        };
        if let Some(p) = &self.execution {
            let ghost bare = checkpoint;
            checkpoint.job_id = Some(p.job_id);
            checkpoint.run_id = Some(p.run_id);
            checkpoint.generation = Some(p.generation);
            checkpoint.owner_token = Some(p.owner_token.clone());
            checkpoint.owner = CheckpointOwner::Persistent {
                run_id: p.run_id,
                generation: p.generation,
                owner_token: p.owner_token.clone(),
            };
            assert(bare == (SyncCheckpointDto {
                job_id: None,
                run_id: None,
                generation: None,
                owner_token: None,
                owner: CheckpointOwner::AdHoc,
                ..checkpoint
            }));
        }
        Ok(checkpoint)
    }

    /// Takes an event at the given time. An event of another request or stream, or one that is not
    /// the very next one, fails the collection.
    pub fn on_event(&mut self, event: EventEnvelope, now: &str, now_ms: u64) -> (r: RunAction)
        requires
            old(self).wf(),
            old(self).phase is Receiving,
        ensures
            final(self).wf(),
            match refusal(*old(self), event) {
                Some(why) => fails_with(*final(self), r, why),
                None => accepts(
                    CollectionRun {
                        last_sequence: event.sequence->0,
                        deadline_ms: later(now_ms, old(self).event_timeout_ms),
                        ..*old(self)
                    },
                    *final(self),
                    event,
                    now@,
                    r,
                ),
            },
    {
        let sequence: u64 = match self.check_event(&event) {
            Ok(sequence) => sequence,
            Err(e) => return self.fail(e),
        };
        self.last_sequence = sequence;
        self.deadline_ms = now_ms.saturating_add(self.event_timeout_ms);
        match event.event_type {
            EventType::User => match collector::user_from_payload(&event.payload) {
                Some(user) => {
                    self.batch.users.push(user);
                    assert(self.batch.users@.drop_last() == old(self).batch.users@);
                    self.go_on()
                },
                None => {
                    let why = text::join2("invalid user event ", event.event_id.as_str());
                    self.fail(Error::FormatError(why))
                },
            },
            EventType::Post => match collector::post_from_payload(&event.payload) {
                Ok(post) => {
                    self.batch.posts.push(post);
                    assert(self.batch.posts@.drop_last() == old(self).batch.posts@);
                    self.go_on()
                },
                Err(e) => self.fail(e),
            },
            EventType::Comment => match collector::comment_from_payload(&event.payload) {
                Ok(comment) => {
                    self.batch.comments.push(comment);
                    assert(self.batch.comments@.drop_last() == old(self).batch.comments@);
                    self.go_on()
                },
                Err(e) => self.fail(e),
            },
            EventType::MediaReference => match collector::media_from_payload(&event.payload, now) {
                Ok(media) => {
                    self.batch.media.push(media);
                    assert(self.batch.media@.drop_last() == old(self).batch.media@);
                    self.go_on()
                },
                Err(e) => self.fail(e),
            },
            EventType::Checkpoint => {
                let checkpoint = match self.run_checkpoint(&event.payload, sequence, now) {
                    Ok(checkpoint) => checkpoint,
                    Err(e) => return self.fail(e),
                };
                let mut batch = PendingBatch::new();
                std::mem::swap(&mut batch, &mut self.batch);
                let total: u64 = match event.total_expected {
                    Some(total) => total,
                    None => 0,
                };
                self.phase = RunPhase::Committing {
                    fetched_count: checkpoint.fetched_count as u64,
                    total,
                };
                RunAction::Commit(
                    CommitPlan {
                        request_id: Some(self.request_id.clone()),
                        stream: self.checkpoint_stream.clone(),
                        sequence: sequence as i64,
                        event_id: event.event_id,
                        users: batch.users,
                        posts: batch.posts,
                        comments: batch.comments,
                        media: batch.media,
                        checkpoint,
                        processed_at: now.to_owned(),
                    },
                )
            },
            EventType::Done => {
                if !self.batch.is_empty() {
                    return self.fail(
                        error::format_error(
                            "sidecar completed with uncommitted data after the last checkpoint",
                        ),
                    );
                }
                match collector::done_status_from_payload(&event.payload) {
                    Ok(status) => self.finish(status),
                    Err(e) => self.fail(e),
                }
            },
            EventType::Cancelled => self.finish(CollectionStatus::Stopped),
            EventType::Error => {
                let code = match event.payload.str_field("code") {
                    Some(code) => code.to_owned(),
                    None => "UNKNOWN".to_owned(),
                };
                proof {
                    reveal_strlit("UNKNOWN");
                    reveal_strlit("REQUEST_CANCELLED");
                    assert("UNKNOWN"@.len() != "REQUEST_CANCELLED"@.len());
                }
                let status = if text::same_text(code.as_str(), "REQUEST_CANCELLED") {
                    CollectionStatus::Stopped
                } else {
                    CollectionStatus::Failed
                };
                let message = match event.payload.str_field("message") {
                    Some(message) => message.to_owned(),
                    None => "".to_owned(),
                };
                let why = text::join3(code.as_str(), ": ", message.as_str());
                self.finish_with(status, why)
            },
            EventType::AuthRequired => {
                let why = match event.payload.str_field("message") {
                    Some(message) => message.to_owned(),
                    None => "auth required".to_owned(),
                };
                self.finish_with(CollectionStatus::Failed, why)
            },
            EventType::RateLimited => {
                let scope = match event.payload.str_field("scope") {
                    Some(name) => match RateLimitScope::parse_protocol(name) {
                        Ok(scope) => scope,
                        Err(e) => return self.fail(e),
                    },
                    None => return self.fail(error::format_error("rate-limit scope missing")),
                };
                let retry_after_ms = event.payload.u64_field("retry_after_ms");
                self.summary.rate_limit = Some(RateLimitInfo { scope, retry_after_ms });
                if self.execution.is_some() {
                    self.phase = RunPhase::Killing(Some(CollectionStatus::RateLimited));
                    RunAction::Kill { ticket: None }
                } else {
                    self.go_on()
                }
            },
            EventType::Warning | EventType::Started | EventType::Progress | EventType::Ready
            | EventType::Capabilities => self.go_on(),
        }
    }
}

/// A run that has just been started with a command.
pub open spec fn is_started(
    run: CollectionRun,
    command: CommandEnvelope,
    request: CollectionRequest,
    checkpoint: Option<Json>,
    request_id: String,
    event_timeout_ms: u64,
    now_ms: u64,
) -> bool {
    let payload = resumed_payload(request.payload@, json::opt_view(checkpoint));
    &&& command.protocol_version == protocol::PROTOCOL_VERSION
    &&& command.request_id == request_id
    &&& command.command_type == request.command_type
    &&& command.payload@ == payload
    &&& run.request_id == request_id
    &&& run.stream == request.stream
    &&& run.event_timeout_ms == event_timeout_ms
    &&& run.summary == (CollectionSummary {
        status: CollectionStatus::Stopped,
        fetched_count: starting_count(payload),
        pages: 0,
        error: None,
        rate_limit: None,
    })
    &&& run.batch.empty()
    &&& run.last_sequence == 0
    &&& run.deadline_ms == later(now_ms, event_timeout_ms)
    &&& run.next_heartbeat_ms == now_ms
    &&& run.phase is Polling
    &&& run.wf()
}

/// Starts a run and makes its command. The payload of the request is an object, or absent where a
/// checkpoint has to be added to it.
fn start_run(
    request: CollectionRequest,
    checkpoint: Option<Json>,
    request_id: String,
    execution: Option<PersistentExecution>,
    external_stop: Option<ExternalStop>,
    event_timeout_ms: u64,
    now_ms: u64,
) -> (r: (CollectionRun, CommandEnvelope))
    requires
        checkpoint is Some ==> request.payload@ is Object || request.payload@ is Null,
    ensures
        is_started(r.0, r.1, request, checkpoint, request_id, event_timeout_ms, now_ms),
        r.0.checkpoint_stream == match execution {
            Some(p) => p.checkpoint_stream,
            None => request.stream,
        },
        r.0.execution == execution,
        r.0.external_stop == external_stop,
{
    let mut payload = request.payload;
    if let Some(checkpoint) = checkpoint {
        if !payload.is_object() {
            payload = Json::empty_object();
        }
        payload.insert("checkpoint", checkpoint);
    }
    let fetched_count: u64 = match payload.get("checkpoint") {
        Some(checkpoint) => match checkpoint.u64_field("fetched_count") {
            Some(n) => n,
            None => 0,
        },
        None => 0,
    };
    let mut summary = CollectionSummary::default();
    summary.fetched_count = fetched_count;
    let checkpoint_stream = match &execution {
        Some(p) => p.checkpoint_stream.clone(),
        None => request.stream.clone(),
    };
    let run = CollectionRun {
        request_id: request_id.clone(),
        stream: request.stream,
        checkpoint_stream,
        execution,
        external_stop,
        event_timeout_ms,
        summary,
        batch: PendingBatch::new(),
        last_sequence: 0,
        deadline_ms: now_ms.saturating_add(event_timeout_ms),
        next_heartbeat_ms: now_ms,
        phase: RunPhase::Polling,
    };
    (run, CommandEnvelope::new(request_id, request.command_type, payload))
}

/// Starts a collection that nothing but its sidecar ends.
pub fn run_collection(
    request: CollectionRequest,
    checkpoint: Option<Json>,
    request_id: String,
    event_timeout_ms: u64,
    now_ms: u64,
) -> (r: (CollectionRun, CommandEnvelope))
    requires
        checkpoint is Some ==> request.payload@ is Object || request.payload@ is Null,
    ensures
        is_started(r.0, r.1, request, checkpoint, request_id, event_timeout_ms, now_ms),
        r.0.checkpoint_stream == request.stream,
        r.0.execution is None,
        r.0.external_stop is None,
{
    start_run(request, checkpoint, request_id, None, None, event_timeout_ms, now_ms)
}

/// Starts a collection that a flag cancels.
pub fn run_collection_cancellable(
    request: CollectionRequest,
    checkpoint: Option<Json>,
    request_id: String,
    event_timeout_ms: u64,
    now_ms: u64,
) -> (r: (CollectionRun, CommandEnvelope))
    requires
        checkpoint is Some ==> request.payload@ is Object || request.payload@ is Null,
    ensures
        is_started(r.0, r.1, request, checkpoint, request_id, event_timeout_ms, now_ms),
        r.0.checkpoint_stream == request.stream,
        r.0.execution is None,
        r.0.external_stop == Some(ExternalStop::Cancel),
{
    start_run(
        request,
        checkpoint,
        request_id,
        None,
        Some(ExternalStop::Cancel),
        event_timeout_ms,
        now_ms,
    )
}

/// Starts a collection that a flag interrupts, such as the shutdown of the application.
pub fn run_collection_interruptible(
    request: CollectionRequest,
    checkpoint: Option<Json>,
    request_id: String,
    event_timeout_ms: u64,
    now_ms: u64,
) -> (r: (CollectionRun, CommandEnvelope))
    requires
        checkpoint is Some ==> request.payload@ is Object || request.payload@ is Null,
    ensures
        is_started(r.0, r.1, request, checkpoint, request_id, event_timeout_ms, now_ms),
        r.0.checkpoint_stream == request.stream,
        r.0.execution is None,
        r.0.external_stop == Some(ExternalStop::Interrupt),
{
    start_run(
        request,
        checkpoint,
        request_id,
        None,
        Some(ExternalStop::Interrupt),
        event_timeout_ms,
        now_ms,
    )
}

/// Starts the collection of a durable job, under its lease and its checkpoint key.
pub fn run_collection_persistent(
    request: CollectionRequest,
    checkpoint: Option<Json>,
    request_id: String,
    execution: PersistentExecution,
    event_timeout_ms: u64,
    now_ms: u64,
) -> (r: (CollectionRun, CommandEnvelope))
    requires
        checkpoint is Some ==> request.payload@ is Object || request.payload@ is Null,
    ensures
        is_started(r.0, r.1, request, checkpoint, request_id, event_timeout_ms, now_ms),
        r.0.checkpoint_stream == execution.checkpoint_stream,
        r.0.execution == Some(execution),
        r.0.external_stop is None,
{
    start_run(request, checkpoint, request_id, Some(execution), None, event_timeout_ms, now_ms)
}

/// An event is accepted at most once: after it has been accepted, the same event is refused.
pub proof fn accepted_event_is_refused_again(before: CollectionRun, after: CollectionRun, event: EventEnvelope)
    requires
        refusal(before, event) is None,
        after.request_id == before.request_id,
        after.stream == before.stream,
        after.last_sequence == event.sequence->0,
    ensures
        refusal(after, event) is Some,
{
}

/// A collection resumes where the last commit left off: once the checkpoint of an event is committed,
/// what is loaded for its stream is the cursor of that event with its count. Fractions in a cursor,
/// and nesting deeper than the reader accepts, are left out.
pub proof fn committed_cursor_is_resumed(
    a: Archive,
    plan: CommitPlan,
    run: CollectionRun,
    payload: JsonView,
    sequence: u64,
    now: Seq<char>,
)
    requires
        !a.events.contains_key(plan.event_id@),
        is_run_checkpoint(plan.checkpoint, run, payload, sequence, now),
        json::plain(collector::cursor_of(payload)->0, (json::MAX_DEPTH - 1) as nat),
    ensures
        archive::row_of(archive::committed(a, plan).checkpoints, run.checkpoint_stream@) matches Some(
            row,
        ) && row.cursor_json matches Some(t) && json::parsed(t@) matches Ok(stored)
            && resumed_cursor(stored, row.fetched_count) == Some(
            JsonView::Object(
                collector::cursor_of(payload)->0->Object_0.insert(
                    "fetched_count"@,
                    JsonView::Number(
                        json::NumberView::Integer(
                            collector::fetched_count_of(payload)->0 as int,
                        ),
                    ),
                ),
            ),
        ),
{
    wrapped_cursor_resumes(
        collector::cursor_of(payload)->0->Object_0,
        plan.checkpoint.fetched_count,
    );
}

} // verus!
