//! Running collections: which events count, when records are committed, and how a run ends.
use vstd::prelude::*;

use crate::error::{Error, Result};
use crate::json::{Json, JsonView, NumberView};
use crate::laws::collection::{omits, writes_text};
use crate::models::user::User;
use crate::sidecar::collector::{
    comment_from_payload, media_from_payload, post_from_payload, user_from_payload,
    CollectionRequest, CollectionStatus, ExecutionControl,
    ExecutionControlRequest, PersistentExecution, RateLimitScope,
};
use crate::sidecar::protocol::{CommandEnvelope, EventEnvelope};
use crate::sidecar::run::{
    controlled_status_from_db, load_checkpoint_cursor, restore_cursor, run_collection,
    run_collection_cancellable, run_collection_interruptible, run_collection_persistent,
    CollectionRun, ExternalStop, RunAction, RunPhase,
};
use crate::sidecar::supervisor::SidecarError;
use crate::storage::internal::entities::{CommentDto, MediaDto, SyncCheckpointDto};
use crate::storage::internal::post::PostInternal;
use crate::text;

verus! {

/// Whether an event is the very next one of a run: of its request, on its stream, and with the
/// number after that of the last one.
pub open spec fn is_next(run: CollectionRun, event: EventEnvelope) -> bool {
    &&& event.request_id matches Some(id) && id@ == run.request_id@
    &&& event.stream matches Some(stream) && stream@ == run.stream@
    &&& event.sequence matches Some(n) && n as int == run.last_sequence as int + 1
}

/// Only the very next event counts; any other one ends the collection, and nothing is committed.
pub proof fn other_events_end_the_run(
    run: &mut CollectionRun,
    event: EventEnvelope,
    now: &str,
    now_ms: u64,
    r: RunAction,
)
    requires
        call_ensures(CollectionRun::on_event, (run, event, now, now_ms), r),
    ensures
        !is_next(*old(run), event) ==> r is Fail && final(run).phase is Ended,
        is_next(*old(run), event) && final(run).phase is Polling ==> final(run).last_sequence
            == old(run).last_sequence + 1 && final(run).deadline_ms as int == if now_ms
            + old(run).event_timeout_ms > u64::MAX {
            u64::MAX as int
        } else {
            now_ms + old(run).event_timeout_ms
        },
{
}

/// A collected user waits at the end of the batch for the next checkpoint, as it was read; nothing
/// else changes.
pub proof fn users_wait_for_their_checkpoint(
    run: &mut CollectionRun,
    event: EventEnvelope,
    now: &str,
    now_ms: u64,
    r: RunAction,
    read: User,
)
    requires
        call_ensures(CollectionRun::on_event, (run, event, now, now_ms), r),
        is_next(*old(run), event),
        event.event_type is User,
        call_ensures(user_from_payload, (&event.payload,), Some(read)),
    ensures
        r is Poll,
        final(run).batch.users@.len() == old(run).batch.users@.len() + 1,
        final(run).batch.users@.drop_last() == old(run).batch.users@,
        ({
            let u = final(run).batch.users@.last();
            u.id == read.id && u.screen_name@ == read.screen_name@ && u.domain@ == read.domain@
                && u.avatar_hd@ == read.avatar_hd@ && u.avatar_large@ == read.avatar_large@
                && u.profile_image_url@ == read.profile_image_url@ && u.following == read.following
                && u.follow_me == read.follow_me
        }),
        final(run).batch.posts@ == old(run).batch.posts@,
        final(run).batch.comments@ == old(run).batch.comments@,
        final(run).batch.media@ == old(run).batch.media@,
        final(run).summary == old(run).summary,
{
}

/// A collected post waits at the end of the batch for the next checkpoint; nothing else changes.
pub proof fn posts_wait_for_their_checkpoint(
    run: &mut CollectionRun,
    event: EventEnvelope,
    now: &str,
    now_ms: u64,
    r: RunAction,
    read: PostInternal,
)
    requires
        call_ensures(CollectionRun::on_event, (run, event, now, now_ms), r),
        is_next(*old(run), event),
        event.event_type is Post,
        call_ensures(post_from_payload, (&event.payload,), Ok::<PostInternal, Error>(read)),
    ensures
        r is Poll,
        final(run).batch.posts@.len() == old(run).batch.posts@.len() + 1,
        final(run).batch.posts@.drop_last() == old(run).batch.posts@,
        ({
            let p = final(run).batch.posts@.last();
            p.id == read.id && p.uid == read.uid && p.text@ == read.text@ && p.retweeted_id
                == read.retweeted_id && p.content_status@ == read.content_status@ && p.deleted
                == read.deleted && p.is_long_text == read.is_long_text
        }),
        final(run).batch.users@ == old(run).batch.users@,
        final(run).batch.comments@ == old(run).batch.comments@,
        final(run).batch.media@ == old(run).batch.media@,
        final(run).summary == old(run).summary,
{
}

/// A collected comment waits at the end of the batch for the next checkpoint, in its place in the
/// thread; nothing else changes.
pub proof fn comments_wait_for_their_checkpoint(
    run: &mut CollectionRun,
    event: EventEnvelope,
    now: &str,
    now_ms: u64,
    r: RunAction,
    read: CommentDto,
)
    requires
        call_ensures(CollectionRun::on_event, (run, event, now, now_ms), r),
        is_next(*old(run), event),
        event.event_type is Comment,
        call_ensures(comment_from_payload, (&event.payload,), Ok::<CommentDto, Error>(read)),
    ensures
        r is Poll,
        final(run).batch.comments@.len() == old(run).batch.comments@.len() + 1,
        final(run).batch.comments@.drop_last() == old(run).batch.comments@,
        ({
            let c = final(run).batch.comments@.last();
            c.id == read.id && c.post_id == read.post_id && c.root_id == read.root_id && c.parent_id
                == read.parent_id && c.user_id == read.user_id && c.text@ == read.text@ && c.depth
                == read.depth && c.content_status@ == read.content_status@ && c.deleted
                == read.deleted
        }),
        final(run).batch.users@ == old(run).batch.users@,
        final(run).batch.posts@ == old(run).batch.posts@,
        final(run).batch.media@ == old(run).batch.media@,
        final(run).summary == old(run).summary,
{
}

/// A collected medium waits at the end of the batch for the next checkpoint; nothing else changes.
pub proof fn media_wait_for_their_checkpoint(
    run: &mut CollectionRun,
    event: EventEnvelope,
    now: &str,
    now_ms: u64,
    r: RunAction,
    read: MediaDto,
)
    requires
        call_ensures(CollectionRun::on_event, (run, event, now, now_ms), r),
        is_next(*old(run), event),
        event.event_type is MediaReference,
        call_ensures(media_from_payload, (&event.payload, now), Ok::<MediaDto, Error>(read)),
    ensures
        r is Poll,
        final(run).batch.media@.len() == old(run).batch.media@.len() + 1,
        final(run).batch.media@.drop_last() == old(run).batch.media@,
        ({
            let m = final(run).batch.media@.last();
            m.url@ == read.url@ && m.owner_type@ == read.owner_type@ && m.owner_id == read.owner_id
                && m.media_type@ == read.media_type@ && m.status@ == read.status@
        }),
        final(run).batch.users@ == old(run).batch.users@,
        final(run).batch.posts@ == old(run).batch.posts@,
        final(run).batch.comments@ == old(run).batch.comments@,
        final(run).summary == old(run).summary,
{
}

/// Whether the payload of a checkpoint can be used: it has a cursor and a count.
pub open spec fn usable_checkpoint(fields: Map<Seq<char>, JsonView>, count: i64, kind: i64) -> bool {
    &&& fields.contains_key("cursor"@) && (fields["cursor"@] matches JsonView::Object(cursor)
        && cursor.contains_key("max_id"@) && cursor.contains_key("max_id_type"@)
        && cursor["max_id_type"@] == JsonView::Number(NumberView::Integer(kind as int)))
    &&& fields.contains_key("fetched_count"@) && fields["fetched_count"@] == JsonView::Number(
        NumberView::Integer(count as int),
    )
    &&& count >= 0
}

/// A checkpoint commits all records since the last one, together with itself and under its event;
/// the batch is empty then. Once committed, the page counts, and the count is that of the checkpoint.
pub proof fn checkpoints_commit_what_waits(
    run: &mut CollectionRun,
    event: EventEnvelope,
    fields: Map<Seq<char>, JsonView>,
    count: i64,
    kind: i64,
    now: &str,
    now_ms: u64,
    r: RunAction,
    committing: &mut CollectionRun,
    reported: RunAction,
)
    requires
        call_ensures(CollectionRun::on_event, (run, event, now, now_ms), r),
        is_next(*old(run), event),
        event.event_type is Checkpoint,
        event.payload@ == JsonView::Object(fields),
        usable_checkpoint(fields, count, kind),
        old(run).summary.pages < 0xffff_ffff,
        *old(committing) == *final(run),
        call_ensures(CollectionRun::on_committed, (committing, Ok::<(), Error>(())), reported),
    ensures
        r matches RunAction::Commit(plan) && {
            &&& plan.users@ == old(run).batch.users@
            &&& plan.posts@ == old(run).batch.posts@
            &&& plan.comments@ == old(run).batch.comments@
            &&& plan.media@ == old(run).batch.media@
            &&& plan.event_id@ == event.event_id@
            &&& plan.stream@ == old(run).checkpoint_stream@
            &&& plan.checkpoint.stream@ == old(run).checkpoint_stream@
            &&& plan.checkpoint.fetched_count == count
            &&& plan.processed_at@ == now@
            &&& old(run).execution is None ==> plan.checkpoint.job_id is None
            &&& old(run).execution matches Some(p) ==> plan.checkpoint.job_id == Some(p.job_id)
                && plan.checkpoint.run_id == Some(p.run_id) && plan.checkpoint.generation == Some(
                p.generation,
            )
        },
        final(run).batch.users@.len() == 0,
        final(run).batch.posts@.len() == 0,
        final(run).batch.comments@.len() == 0,
        final(run).batch.media@.len() == 0,
        final(committing).summary.pages == old(run).summary.pages + 1,
        final(committing).summary.fetched_count == count,
        final(committing).summary.status == old(run).summary.status,
        reported matches RunAction::Report { fetched_count, total } && fetched_count == count && (
        event.total_expected matches Some(expected) ==> total == expected),
{
}

/// A checkpoint without a cursor or a count commits nothing.
pub proof fn broken_checkpoints_commit_nothing(
    run: &mut CollectionRun,
    event: EventEnvelope,
    fields: Map<Seq<char>, JsonView>,
    now: &str,
    now_ms: u64,
    r: RunAction,
)
    requires
        call_ensures(CollectionRun::on_event, (run, event, now, now_ms), r),
        event.event_type is Checkpoint,
        event.payload@ == JsonView::Object(fields),
        omits(fields, "cursor"@) || omits(fields, "fetched_count"@),
    ensures
        r is Fail,
{
}

/// Whether nothing waits for a checkpoint.
pub open spec fn nothing_waits(run: CollectionRun) -> bool {
    run.batch.users@.len() == 0 && run.batch.posts@.len() == 0 && run.batch.comments@.len() == 0
        && run.batch.media@.len() == 0
}

/// A stream is over when it says so, and only with everything committed: a collection completes
/// exactly when its sidecar reports that it did, and keeps the figures of its commits.
pub proof fn runs_complete_with_everything_committed(
    run: &mut CollectionRun,
    event: EventEnvelope,
    fields: Map<Seq<char>, JsonView>,
    now: &str,
    now_ms: u64,
    r: RunAction,
)
    requires
        call_ensures(CollectionRun::on_event, (run, event, now, now_ms), r),
        event.payload@ == JsonView::Object(fields),
    ensures
        (r matches RunAction::Finish(s) && s.status == CollectionStatus::Completed) <==> {
            &&& is_next(*old(run), event)
            &&& event.event_type is Done
            &&& nothing_waits(*old(run))
            &&& writes_text(fields, "status"@, "completed"@)
        },
        r matches RunAction::Finish(s) ==> s.pages == old(run).summary.pages && s.fetched_count
            == old(run).summary.fetched_count,
        event.event_type is Done && !nothing_waits(*old(run)) ==> r is Fail,
        event.event_type is Done && is_next(*old(run), event) && nothing_waits(*old(run))
            && writes_text(fields, "status"@, "stopped"@) ==> (r matches RunAction::Finish(s)
            && s.status == CollectionStatus::Stopped),
        event.event_type is Cancelled && is_next(*old(run), event) ==> (r matches RunAction::Finish(s)
            && s.status == CollectionStatus::Stopped),
{
    reveal_strlit("completed");
    reveal_strlit("stopped");
    assert("completed"@.len() != "stopped"@.len());
}

/// An error of the source fails the collection with what it says, unless it only confirms that the
/// request was cancelled; an expired session fails it as well.
pub proof fn errors_fail_the_run(
    run: &mut CollectionRun,
    event: EventEnvelope,
    fields: Map<Seq<char>, JsonView>,
    code: Seq<char>,
    message: Seq<char>,
    now: &str,
    now_ms: u64,
    r: RunAction,
)
    requires
        call_ensures(CollectionRun::on_event, (run, event, now, now_ms), r),
        is_next(*old(run), event),
        event.payload@ == JsonView::Object(fields),
        writes_text(fields, "message"@, message),
    ensures
        event.event_type is Error && writes_text(fields, "code"@, code) ==> (
        r matches RunAction::Finish(s) && s.status == (if code == "REQUEST_CANCELLED"@ {
            CollectionStatus::Stopped
        } else {
            CollectionStatus::Failed
        }) && text::opt_view(s.error) == Some(code + ": "@ + message)),
        event.event_type is Error && omits(fields, "code"@) ==> (r matches RunAction::Finish(s)
            && s.status == CollectionStatus::Failed),
        event.event_type is AuthRequired ==> (r matches RunAction::Finish(s) && s.status
            == CollectionStatus::Failed && text::opt_view(s.error) == Some(message)),
{
}

/// A limit of the source ends a durable collection with what the source says; any other collection
/// goes on, and remembers it.
pub proof fn limits_end_durable_runs(
    run: &mut CollectionRun,
    event: EventEnvelope,
    fields: Map<Seq<char>, JsonView>,
    wait_ms: u64,
    now: &str,
    now_ms: u64,
    r: RunAction,
    killing: &mut CollectionRun,
    ended: RunAction,
)
    requires
        call_ensures(CollectionRun::on_event, (run, event, now, now_ms), r),
        is_next(*old(run), event),
        event.event_type is RateLimited,
        event.payload@ == JsonView::Object(fields),
        writes_text(fields, "scope"@, "account"@),
        fields.contains_key("retry_after_ms"@) && fields["retry_after_ms"@] == JsonView::Number(
            NumberView::Integer(wait_ms as int),
        ),
        *old(killing) == *final(run),
        final(run).phase is Killing ==> call_ensures(
            CollectionRun::on_killed,
            (killing, Ok::<(), String>(())),
            ended,
        ),
    ensures
        old(run).execution is Some ==> r is Kill && (ended matches RunAction::Finish(s) && s.status
            == CollectionStatus::RateLimited && (s.rate_limit matches Some(info) && info.scope
            == RateLimitScope::Account && info.retry_after_ms == Some(wait_ms))),
        old(run).execution is None ==> r is Poll && (final(run).summary.rate_limit matches Some(info)
            && info.scope == RateLimitScope::Account && info.retry_after_ms == Some(wait_ms)),
{
    reveal_strlit("request");
    reveal_strlit("endpoint");
    reveal_strlit("account");
    assert("request"@[0] != "account"@[0]);
    assert("account"@[0] != "endpoint"@[0]);
}

/// What is only news changes nothing.
pub proof fn news_change_nothing(
    run: &mut CollectionRun,
    event: EventEnvelope,
    now: &str,
    now_ms: u64,
    r: RunAction,
)
    requires
        call_ensures(CollectionRun::on_event, (run, event, now, now_ms), r),
        is_next(*old(run), event),
        event.event_type is Warning || event.event_type is Started || event.event_type is Progress,
    ensures
        r is Poll,
        final(run).batch == old(run).batch,
        final(run).summary == old(run).summary,
{
}

/// A stop flag or a control request kills the sidecar, and the collection ends as it was asked to:
/// cancelled, interrupted, paused, or for the shutdown.
pub proof fn runs_end_as_asked(
    run: &mut CollectionRun,
    stop: bool,
    control: Option<ExecutionControlRequest>,
    now_ms: u64,
    r: RunAction,
    killing: &mut CollectionRun,
    ended: RunAction,
)
    requires
        call_ensures(CollectionRun::on_tick, (run, stop, control, now_ms), r),
        old(run).phase is Polling,
        *old(killing) == *final(run),
        r is Kill ==> call_ensures(
            CollectionRun::on_killed,
            (killing, Ok::<(), String>(())),
            ended,
        ),
    ensures
        r is Kill <==> stop && old(run).external_stop is Some || control is Some && old(
            run,
        ).execution is Some,
        stop && old(run).external_stop == Some(ExternalStop::Cancel) ==> (
        ended matches RunAction::Finish(s) && s.status == CollectionStatus::Cancelled),
        stop && old(run).external_stop == Some(ExternalStop::Interrupt) ==> (
        ended matches RunAction::Finish(s) && s.status == CollectionStatus::Interrupted),
        !(stop && old(run).external_stop is Some) && old(run).execution is Some ==> (
        control matches Some(request) ==> (r matches RunAction::Kill { ticket } && ticket == Some(
            request.ticket,
        )) && (ended matches RunAction::Finish(s) && match request.action {
            ExecutionControl::Pause => s.status == CollectionStatus::Paused,
            ExecutionControl::Cancel => s.status == CollectionStatus::Cancelled,
            ExecutionControl::Shutdown => s.status == CollectionStatus::Shutdown,
        })),
        r is Kill ==> (ended matches RunAction::Finish(s) ==> s.pages == old(run).summary.pages
            && s.fetched_count == old(run).summary.fetched_count),
{
}

/// A sidecar that cannot be killed fails the collection.
pub proof fn unkillable_sidecars_fail_the_run(run: &mut CollectionRun, why: String, r: RunAction)
    requires
        call_ensures(CollectionRun::on_killed, (run, Err::<(), String>(why)), r),
    ensures
        r matches RunAction::Fail(e) && e == Error::FormatError(why),
{
}

/// A durable collection renews its lease when it is due, and before it waits for anything; without
/// an event for too long, a collection is interrupted; and it never waits past its deadline.
pub proof fn runs_watch_the_clock(
    run: &mut CollectionRun,
    now_ms: u64,
    r: RunAction,
)
    requires
        call_ensures(
            CollectionRun::on_tick,
            (run, false, None::<ExecutionControlRequest>, now_ms),
            r,
        ),
        old(run).phase is Polling,
    ensures
        r is RenewLease <==> old(run).execution is Some && now_ms >= old(run).next_heartbeat_ms,
        !(r is RenewLease) && now_ms >= old(run).deadline_ms ==> (r matches RunAction::Finish(s)
            && s.status == CollectionStatus::Interrupted && s.error is Some),
        !(r is RenewLease) && now_ms < old(run).deadline_ms ==> (r matches RunAction::Receive {
            timeout_ms,
        } && now_ms + timeout_ms <= old(run).deadline_ms && (old(run).execution is None && old(
            run,
        ).external_stop is None ==> now_ms + timeout_ms == old(run).deadline_ms) && (old(
            run,
        ).execution matches Some(p) ==> timeout_ms <= p.poll_interval_ms)),
{
}

/// A lease that is kept is renewed after its interval; one that is lost ends the collection, with the
/// request that took it or else as its job says.
pub proof fn lost_leases_end_the_run(
    run: &mut CollectionRun,
    waiting: &mut CollectionRun,
    killing: &mut CollectionRun,
    reading: &mut CollectionRun,
    now_ms: u64,
    status: &str,
    steps: (RunAction, RunAction, RunAction, RunAction),
)
    requires
        old(run).execution is Some,
        call_ensures(CollectionRun::on_heartbeat, (run, false, now_ms), steps.0),
        *old(waiting) == *final(run),
        call_ensures(
            CollectionRun::on_control,
            (waiting, None::<ExecutionControlRequest>),
            steps.1,
        ),
        *old(killing) == *final(waiting),
        call_ensures(CollectionRun::on_killed, (killing, Ok::<(), String>(())), steps.2),
        *old(reading) == *final(killing),
        call_ensures(CollectionRun::on_job, (reading, Some(status)), steps.3),
    ensures
        steps.0 is AwaitControl,
        steps.1 is Kill,
        steps.2 is ReadJob,
        steps.3 matches RunAction::Finish(s) && (s.status == CollectionStatus::Paused <==> status@
            == "paused"@) && (s.status == CollectionStatus::Cancelled <==> status@ == "cancelled"@)
            && (s.status == CollectionStatus::Interrupted <==> status@ != "paused"@ && status@
            != "cancelled"@),
{
    reveal_strlit("paused");
    reveal_strlit("cancelled");
    assert("paused"@.len() != "cancelled"@.len());
}

/// A lease that is kept is renewed again after its interval.
pub proof fn kept_leases_are_renewed_later(
    run: &mut CollectionRun,
    now_ms: u64,
    r: RunAction,
)
    requires
        old(run).execution is Some,
        now_ms + old(run).execution->0.heartbeat_interval_ms <= u64::MAX,
        now_ms < old(run).deadline_ms,
        call_ensures(CollectionRun::on_heartbeat, (run, true, now_ms), r),
    ensures
        r is Receive,
        final(run).next_heartbeat_ms == now_ms + old(run).execution->0.heartbeat_interval_ms,
        final(run).batch == old(run).batch,
        final(run).summary == old(run).summary,
{
}

/// A control request that comes after the lease was lost ends the collection as it asks.
pub proof fn late_requests_are_heard(
    waiting: &mut CollectionRun,
    killing: &mut CollectionRun,
    request: ExecutionControlRequest,
    r: RunAction,
    ended: RunAction,
)
    requires
        call_ensures(CollectionRun::on_control, (waiting, Some(request)), r),
        *old(killing) == *final(waiting),
        call_ensures(CollectionRun::on_killed, (killing, Ok::<(), String>(())), ended),
    ensures
        r matches RunAction::Kill { ticket } && ticket == Some(request.ticket),
        ended matches RunAction::Finish(s) && match request.action {
            ExecutionControl::Pause => s.status == CollectionStatus::Paused,
            ExecutionControl::Cancel => s.status == CollectionStatus::Cancelled,
            ExecutionControl::Shutdown => s.status == CollectionStatus::Shutdown,
        },
{
}

/// A commit that fails fails the collection, unless the job was paused or cancelled meanwhile; the
/// page does not count.
pub proof fn failed_commits_fail_the_run(
    run: &mut CollectionRun,
    reading: &mut CollectionRun,
    why: Error,
    status: &str,
    r: RunAction,
    s: RunAction,
)
    requires
        call_ensures(CollectionRun::on_committed, (run, Err::<(), Error>(why)), r),
        old(run).execution is Some ==> *old(reading) == *final(run) && call_ensures(
            CollectionRun::on_job,
            (reading, Some(status)),
            s,
        ),
    ensures
        old(run).execution is None ==> r == RunAction::Fail(why),
        old(run).execution is Some ==> r is ReadJob && final(run).summary == old(run).summary,
        old(run).execution is Some && status@ != "paused"@ && status@ != "cancelled"@ ==> s
            == RunAction::Fail(why),
        old(run).execution is Some && status@ == "paused"@ ==> s is Kill && final(reading).phase
            == RunPhase::Killing(Some(CollectionStatus::Paused)),
        old(run).execution is Some && status@ == "cancelled"@ ==> s is Kill && final(reading).phase
            == RunPhase::Killing(Some(CollectionStatus::Cancelled)),
{
    reveal_strlit("paused");
    reveal_strlit("cancelled");
    assert("paused"@.len() != "cancelled"@.len());
}

/// A sidecar that is gone interrupts the collection; silence does so only where there is nothing
/// else to look at.
pub proof fn lost_sidecars_interrupt_the_run(
    run: &mut CollectionRun,
    failure: SidecarError,
    r: RunAction,
)
    requires
        call_ensures(CollectionRun::on_receive_failure, (run, &failure), r),
    ensures
        r is Poll <==> failure is RecvTimeout && (old(run).execution is Some || old(
            run,
        ).external_stop is Some),
        !(r is Poll) ==> (r matches RunAction::Finish(s) && s.status == CollectionStatus::Interrupted
            && s.error is Some && s.pages == old(run).summary.pages && s.fetched_count == old(
            run,
        ).summary.fetched_count),
        r is Poll ==> final(run).batch == old(run).batch && final(run).summary == old(run).summary,
{
}

/// A collection without a checkpoint asks for exactly what was requested and starts from nothing;
/// what can stop it is what it was started with.
pub proof fn runs_ask_for_what_was_requested(
    request: CollectionRequest,
    id: String,
    timeout_ms: u64,
    now_ms: u64,
    plain: (CollectionRun, CommandEnvelope),
    cancellable: (CollectionRun, CommandEnvelope),
    interruptible: (CollectionRun, CommandEnvelope),
)
    requires
        call_ensures(run_collection, (request, None::<Json>, id, timeout_ms, now_ms), plain),
        call_ensures(
            run_collection_cancellable,
            (request, None::<Json>, id, timeout_ms, now_ms),
            cancellable,
        ),
        call_ensures(
            run_collection_interruptible,
            (request, None::<Json>, id, timeout_ms, now_ms),
            interruptible,
        ),
        request.payload@ matches JsonView::Object(m) && !m.contains_key("checkpoint"@),
    ensures
        plain.1.command_type == request.command_type,
        plain.1.payload@ == request.payload@,
        plain.1.request_id@ == id@,
        plain.0.request_id@ == id@,
        plain.0.stream@ == request.stream@,
        plain.0.checkpoint_stream@ == request.stream@,
        plain.0.summary.fetched_count == 0 && plain.0.summary.pages == 0,
        plain.0.last_sequence == 0,
        nothing_waits(plain.0),
        plain.0.external_stop is None && plain.0.execution is None,
        cancellable.0.external_stop == Some(ExternalStop::Cancel),
        interruptible.0.external_stop == Some(ExternalStop::Interrupt),
        cancellable.1.payload@ == request.payload@,
        interruptible.1.payload@ == request.payload@,
{
}

/// A durable collection resumes: its command carries the checkpoint beside what was requested, and it
/// counts on from there.
pub proof fn durable_runs_resume(
    request: CollectionRequest,
    fields: Map<Seq<char>, JsonView>,
    checkpoint: Json,
    cursor: Map<Seq<char>, JsonView>,
    count: u64,
    id: String,
    execution: PersistentExecution,
    timeout_ms: u64,
    now_ms: u64,
    r: (CollectionRun, CommandEnvelope),
)
    requires
        request.payload@ == JsonView::Object(fields),
        checkpoint@ == JsonView::Object(cursor),
        cursor.contains_key("fetched_count"@) && cursor["fetched_count"@] == JsonView::Number(
            NumberView::Integer(count as int),
        ),
        call_ensures(
            run_collection_persistent,
            (request, Some(checkpoint), id, execution, timeout_ms, now_ms),
            r,
        ),
    ensures
        r.1.command_type == request.command_type,
        r.1.payload@ matches JsonView::Object(m) && m.contains_key("checkpoint"@) && m["checkpoint"@]
            == checkpoint@ && (forall|key: Seq<char>|
            key != "checkpoint"@ ==> (#[trigger] m.contains_key(key) <==> fields.contains_key(key))
                && (m.contains_key(key) ==> m[key] == fields[key])),
        r.0.summary.fetched_count == count,
        r.0.checkpoint_stream@ == execution.checkpoint_stream@,
        r.0.stream@ == request.stream@,
        r.0.execution == Some(execution),
        r.0.next_heartbeat_ms == now_ms,
{
}

/// A stored cursor is resumed as it was stored, with the count of its checkpoint; a row without a
/// cursor resumes nothing.
pub proof fn cursors_are_resumed_with_their_count(
    stored: Json,
    cursor: Map<Seq<char>, JsonView>,
    count: i64,
    r: Result<Json>,
    row: SyncCheckpointDto,
    loaded: Result<Option<Json>>,
)
    requires
        stored@ matches JsonView::Object(m) && m.contains_key("cursor"@) && m["cursor"@]
            == JsonView::Object(cursor),
        call_ensures(restore_cursor, (&stored, count), r),
        call_ensures(load_checkpoint_cursor, (Some(&row),), loaded),
    ensures
        r matches Ok(c) && c@ matches JsonView::Object(m) && m.contains_key("fetched_count"@)
            && m["fetched_count"@] == JsonView::Number(NumberView::Integer(count as int)) && (
        forall|key: Seq<char>|
            key != "fetched_count"@ ==> (#[trigger] m.contains_key(key) <==> cursor.contains_key(
                key,
            )) && (m.contains_key(key) ==> m[key] == cursor[key])),
        row.cursor_json is None ==> loaded matches Ok(None),
        row.cursor_json matches Some(t) && crate::json::parsed(t@) == Ok::<JsonView, Seq<char>>(
            stored@,
        ) && row.fetched_count == count ==> (loaded matches Ok(Some(c)) && r matches Ok(d) && c@
            == d@),
{
}

/// How a collection without its lease ended is what its job says.
pub proof fn jobs_tell_how_runs_ended(
    job_id: i64,
    status: Option<&str>,
    r: Result<CollectionStatus>,
)
    requires
        call_ensures(controlled_status_from_db, (job_id, status), r),
    ensures
        r is Ok <==> status is Some,
        status matches Some(s) ==> (s@ == "paused"@ ==> r == Ok::<CollectionStatus, Error>(
            CollectionStatus::Paused,
        )) && (s@ == "cancelled"@ ==> r == Ok::<CollectionStatus, Error>(
            CollectionStatus::Cancelled,
        )) && (s@ != "paused"@ && s@ != "cancelled"@ ==> r == Ok::<CollectionStatus, Error>(
            CollectionStatus::Interrupted,
        )),
{
    reveal_strlit("paused");
    reveal_strlit("cancelled");
    assert("paused"@.len() != "cancelled"@.len());
}

/// Whether a collection waits for the outcome of the action that it asks for: an end waits for nothing.
pub open spec fn waits_for(phase: RunPhase, action: RunAction) -> bool {
    match action {
        RunAction::Poll => phase is Polling,
        RunAction::Report { .. } => phase is Polling,
        RunAction::Kill { .. } => phase is Killing,
        RunAction::RenewLease => phase is Renewing,
        RunAction::AwaitControl => phase is AwaitingControl,
        RunAction::ReadJob => phase is ReadingJob || phase is CommitFailed,
        RunAction::Receive { .. } => phase is Receiving,
        RunAction::Commit(_) => phase is Committing,
        RunAction::Finish(_) => phase is Ended,
        RunAction::Fail(_) => phase is Ended,
    }
}

/// A collection waits for what it asks for, action by action.
pub proof fn collections_wait_for_what_they_ask(
    run: &mut CollectionRun,
    stop_requested: bool,
    control: Option<ExecutionControlRequest>,
    kept: bool,
    killed: std::result::Result<(), String>,
    status: Option<&str>,
    failure: SidecarError,
    committed: Result<()>,
    now_ms: u64,
    r: RunAction,
)
    requires
        call_ensures(CollectionRun::on_tick, (run, stop_requested, control, now_ms), r)
            || call_ensures(CollectionRun::on_heartbeat, (run, kept, now_ms), r) || call_ensures(
            CollectionRun::on_control,
            (run, control),
            r,
        ) || call_ensures(CollectionRun::on_killed, (run, killed), r) || call_ensures(
            CollectionRun::on_job,
            (run, status),
            r,
        ) || call_ensures(CollectionRun::on_receive_failure, (run, &failure), r) || call_ensures(
            CollectionRun::on_committed,
            (run, committed),
            r,
        ),
    ensures
        waits_for(final(run).phase, r),
{
}

/// A collection that took an event waits for what it asks for.
pub proof fn events_are_followed_by_what_is_asked(
    run: &mut CollectionRun,
    event: EventEnvelope,
    now: &str,
    now_ms: u64,
    r: RunAction,
)
    requires
        call_ensures(CollectionRun::on_event, (run, event, now, now_ms), r),
    ensures
        waits_for(final(run).phase, r),
{
}

} // verus!
