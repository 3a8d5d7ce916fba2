//! Shutting down: no new work is admitted, and the outcome says what may still be running.
use vstd::prelude::*;

use crate::error;
use crate::error::Result;
use crate::media_downloader::DownloaderWorkerSummary;
use crate::media_pipeline::MediaWorkerSummary;
use crate::sidecar::supervisor;
use crate::storage::internal::entities::SyncJobDto;
use crate::sync_executor;
use crate::sync_executor::{ControlStopResult, WorkerShutdownOutcome, WorkerShutdownSummary};

verus! {

/// Who may start work and who is writing.
#[derive(Debug, Clone, Copy, PartialEq, Eq, Structural)]
pub struct ShutdownAdmission {
    pub shutting_down: bool,
    pub active_writers: u64,
}

impl Default for ShutdownAdmission {
    fn default() -> (r: Self)
        ensures
            r == (ShutdownAdmission { shutting_down: false, active_writers: 0 }),
    {
        ShutdownAdmission { shutting_down: false, active_writers: 0 }
    }
}

impl ShutdownAdmission {
    /// Admits the start of work; refused once the shutdown has begun.
    pub fn enter(&self) -> (r: Result<()>)
        ensures
            if self.shutting_down {
                r matches Err(e) && error::is_inconsistent(e, "core is shutting down"@)
            } else {
                r is Ok
            },
    {
        if self.shutting_down {
            Err(error::inconsistent("core is shutting down"))
        } else {
            Ok(())
        }
    }

    /// Begins the shutdown: nothing is admitted any more.
    pub fn begin_shutdown(&mut self)
        ensures
            *final(self) == (ShutdownAdmission { shutting_down: true, ..*old(self) }),
    {
        self.shutting_down = true;
    }

    /// Admits a writer, who leaves by [`ShutdownAdmission::end_write`]; refused once the shutdown has
    /// begun.
    pub fn begin_write(&mut self) -> (r: Result<()>)
        requires
            old(self).active_writers < u64::MAX,
        ensures
            if old(self).shutting_down {
                *final(self) == *old(self) && (r matches Err(e) && error::is_inconsistent(
                    e,
                    "core is shutting down"@,
                ))
            } else {
                r is Ok && *final(self) == (ShutdownAdmission {
                    active_writers: (old(self).active_writers + 1) as u64,
                    ..*old(self)
                })
            },
    {
        if self.shutting_down {
            return Err(error::inconsistent("core is shutting down"));
        }
        self.active_writers = self.active_writers + 1;
        Ok(())
    }

    /// A writer leaves.
    pub fn end_write(&mut self)
        requires
            old(self).active_writers > 0,
        ensures
            *final(self) == (ShutdownAdmission {
                active_writers: (old(self).active_writers - 1) as u64,
                ..*old(self)
            }),
    {
        self.active_writers = self.active_writers - 1;
    }

    /// Whether somebody is writing.
    pub fn has_active_writers(&self) -> (r: bool)
        ensures
            r == (self.active_writers != 0),
    {
        self.active_writers != 0
    }

    /// Takes the beginning of a shutdown back.
    pub fn end_shutdown(&mut self)
        ensures
            *final(self) == (ShutdownAdmission { shutting_down: false, ..*old(self) }),
    {
        self.shutting_down = false;
    }
}

/// A job after it was paused or cancelled, and how its worker was stopped.
#[derive(Debug, PartialEq, Eq)]
pub struct SyncJobControlOutcome {
    pub job: SyncJobDto,
    pub worker_stop: ControlStopResult,
}

impl SyncJobControlOutcome {
    /// Whether the worker may still be running.
    pub fn degraded(&self) -> (r: bool)
        ensures
            r == sync_executor::stop_degraded(self.worker_stop),
    {
        self.worker_stop.is_degraded()
    }
}

/// How a background task was shut down.
#[derive(Debug, Clone, Copy, PartialEq, Eq, Structural)]
pub enum SchedulerShutdownStatus {
    NotRunning,
    Stopped,
    TimedOut,
    JoinFailed,
}

/// A job whose record could not be brought up to date.
#[derive(Debug, PartialEq, Eq)]
pub struct PersistentShutdownFailure {
    pub job_id: i64,
    pub error: String,
}

/// How everything was shut down.
#[derive(Debug, PartialEq, Eq)]
pub struct PersistentShutdownSummary {
    pub scheduler: SchedulerShutdownStatus,
    pub ad_hoc: SchedulerShutdownStatus,
    pub workers: WorkerShutdownSummary,
    pub database_failures: Vec<PersistentShutdownFailure>,
    pub media: MediaWorkerSummary,
    pub legacy_media: DownloaderWorkerSummary,
    pub long_task: SchedulerShutdownStatus,
}

/// Whether a background task may still be running, or ended in an unknown way.
pub open spec fn status_degraded(status: SchedulerShutdownStatus) -> bool {
    status == SchedulerShutdownStatus::TimedOut || status == SchedulerShutdownStatus::JoinFailed
}

/// Whether something may still be running or was left undone.
pub open spec fn shutdown_degraded(s: PersistentShutdownSummary) -> bool {
    status_degraded(s.scheduler) || sync_executor::workers_degraded(s.workers.workers@)
        || status_degraded(s.ad_hoc) || s.database_failures@.len() > 0 || !s.media.stopped
        || !s.legacy_media.stopped || status_degraded(s.long_task)
}

fn is_status_degraded(status: SchedulerShutdownStatus) -> (r: bool)
    ensures
        r == status_degraded(status),
{
    match status {
        SchedulerShutdownStatus::TimedOut => true,
        SchedulerShutdownStatus::JoinFailed => true,
        SchedulerShutdownStatus::NotRunning => false,
        SchedulerShutdownStatus::Stopped => false,
    }
}

impl PersistentShutdownSummary {
    /// Whether something may still be running or was left undone.
    pub fn degraded(&self) -> (r: bool)
        ensures
            r == shutdown_degraded(*self),
    {
        is_status_degraded(self.scheduler) || self.workers.degraded() || is_status_degraded(
            self.ad_hoc,
        ) || self.database_failures.len() > 0 || !self.media.stopped || !self.legacy_media.stopped
            || is_status_degraded(self.long_task)
    }
}

/// How long everything is given to stop, in milliseconds: at least a handshake and three seconds.
pub fn shutdown_wait_ms(timeout_ms: u64) -> (r: u64)
    ensures
        r == if timeout_ms >= supervisor::DEFAULT_HANDSHAKE_TIMEOUT_MS + 3000 {
            timeout_ms
        } else {
            (supervisor::DEFAULT_HANDSHAKE_TIMEOUT_MS + 3000) as u64
        },
{
    let least: u64 = supervisor::DEFAULT_HANDSHAKE_TIMEOUT_MS + 3000;
    if timeout_ms >= least {
        timeout_ms
    } else {
        least
    }
}

/// How the wait for a background task ended.
#[derive(Debug, Clone, Copy, PartialEq, Eq, Structural)]
pub enum JoinOutcome {
    Finished,
    Failed,
    TimedOut,
}

/// How a background task was shut down, by whether there was one and how the wait for it ended.
pub open spec fn status_of(running: bool, join: JoinOutcome) -> SchedulerShutdownStatus {
    if !running {
        SchedulerShutdownStatus::NotRunning
    } else {
        match join {
            JoinOutcome::Finished => SchedulerShutdownStatus::Stopped,
            JoinOutcome::Failed => SchedulerShutdownStatus::JoinFailed,
            JoinOutcome::TimedOut => SchedulerShutdownStatus::TimedOut,
        }
    }
}

/// How a background task was shut down.
pub fn shutdown_status(running: bool, join: JoinOutcome) -> (r: SchedulerShutdownStatus)
    ensures
        r == status_of(running, join),
{
    if !running {
        return SchedulerShutdownStatus::NotRunning;
    }
    match join {
        JoinOutcome::Finished => SchedulerShutdownStatus::Stopped,
        JoinOutcome::Failed => SchedulerShutdownStatus::JoinFailed,
        JoinOutcome::TimedOut => SchedulerShutdownStatus::TimedOut,
    }
}

/// How a long-running task was shut down: it was aborted, so that any end of it is a stop.
pub open spec fn aborted_status_of(running: bool, join: JoinOutcome) -> SchedulerShutdownStatus {
    if !running {
        SchedulerShutdownStatus::NotRunning
    } else if join == JoinOutcome::TimedOut {
        SchedulerShutdownStatus::TimedOut
    } else {
        SchedulerShutdownStatus::Stopped
    }
}

/// How a long-running task was shut down.
pub fn aborted_status(running: bool, join: JoinOutcome) -> (r: SchedulerShutdownStatus)
    ensures
        r == aborted_status_of(running, join),
{
    if !running {
        SchedulerShutdownStatus::NotRunning
    } else if join == JoinOutcome::TimedOut {
        SchedulerShutdownStatus::TimedOut
    } else {
        SchedulerShutdownStatus::Stopped
    }
}

/// How the workers were shut down. When the shutdown itself failed, that is all that is known.
pub fn worker_summary(outcome: std::result::Result<WorkerShutdownSummary, String>) -> (r:
    WorkerShutdownSummary)
    ensures
        match outcome {
            Ok(summary) => r == summary,
            Err(why) => r.workers@ == seq![
                WorkerShutdownOutcome {
                    job_id: 0,
                    worker_stop: ControlStopResult::StopFailed(why),
                },
            ] && sync_executor::workers_degraded(r.workers@),
        },
{
    match outcome {
        Ok(summary) => summary,
        Err(why) => {
            let mut workers: Vec<WorkerShutdownOutcome> = Vec::new();
            workers.push(
                WorkerShutdownOutcome {
                    job_id: 0,
                    worker_stop: ControlStopResult::StopFailed(why),
                },
            );
            assert(sync_executor::stop_degraded(workers@[0].worker_stop));
            WorkerShutdownSummary { workers }
        },
    }
}

} // verus!
