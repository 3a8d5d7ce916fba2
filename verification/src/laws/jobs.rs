//! Durable jobs: what their runs are recorded as.
use vstd::prelude::*;

use crate::error::{Error, Result};
use crate::json;
use crate::json::{JsonView, NumberView};
use crate::sidecar::collector::{
    CollectionRequest, CollectionStatus, CollectionSummary, ExecutionControl,
};
use crate::sidecar::protocol::CommandType;
use crate::sidecar::supervisor::SidecarError;
use crate::storage::internal::entities::{AccountDto, ClaimRequest, SyncJobDto, SyncJobStatus};
use crate::sync_executor::job::{
    claim_request, request_from_job, JobExecutor, JobRun, JobStage, JobStep, SpawnSource,
};
use crate::sync_executor::ActivationOutcome;
use crate::text;

verus! {

/// A run is recorded as completed exactly when its collection reported so; a failed collection is
/// recorded as failed, and one that stopped early as cancelled. The record names the run, carries
/// the figures of the collection, and keeps its diagnosis.
pub proof fn runs_are_recorded_as_they_ended(
    run: &mut JobRun,
    control: Option<ExecutionControl>,
    now: &str,
    step: JobStep,
    summary: CollectionSummary,
)
    requires
        old(run).summary == Some(summary),
        call_ensures(JobRun::on_final_control, (run, control, now), step),
    ensures
        step is Finish <==> control is None && (summary.status == CollectionStatus::Completed
            || summary.status == CollectionStatus::Failed || summary.status
            == CollectionStatus::Stopped),
        step matches JobStep::Finish(request) ==> {
            &&& request.next_status == SyncJobStatus::Completed <==> summary.status
                == CollectionStatus::Completed
            &&& request.next_status == SyncJobStatus::Failed <==> summary.status
                == CollectionStatus::Failed
            &&& request.next_status == SyncJobStatus::Cancelled <==> summary.status
                == CollectionStatus::Stopped
            &&& request.job_id == old(run).job.id
            &&& request.run_id == old(run).run_id
            &&& request.generation == old(run).job.generation
            &&& request.owner_token@ == old(run).owner_token@
            &&& request.finished_at@ == now@
            &&& match summary.error {
                Some(why) => request.error matches Some(said) && said@ == why@,
                None => request.error is None,
            }
        },
        final(run).job == old(run).job,
        final(run).run_id == old(run).run_id,
{
}

/// A collection that was interrupted is recovered, one that the shutdown ended is interrupted, and
/// one that the source limits waits for the source: none of them is recorded as an end.
pub proof fn unfinished_collections_go_on(
    run: &mut JobRun,
    now: &str,
    step: JobStep,
    summary: CollectionSummary,
)
    requires
        old(run).summary == Some(summary),
        call_ensures(JobRun::on_final_control, (run, None::<ExecutionControl>, now), step),
    ensures
        summary.status == CollectionStatus::Interrupted ==> (step matches JobStep::Recover(request)
            && request.job_id == old(run).job.id && request.run_id == old(run).run_id
            && request.generation == old(run).job.generation && request.next_status
            == SyncJobStatus::Interrupted && text::opt_view(request.error) == text::opt_view(
            summary.error,
        )),
        summary.status == CollectionStatus::Shutdown ==> (step matches JobStep::Interrupt {
            request,
            kill,
        } && !kill && request.next_status == SyncJobStatus::Interrupted && request.job_id
            == old(run).job.id && request.run_id == old(run).run_id),
        summary.status == CollectionStatus::RateLimited ==> match summary.rate_limit {
            Some(limit) => step matches JobStep::RateLimit { request, info } && info == limit
                && request.next_status == SyncJobStatus::Interrupted && request.job_id
                == old(run).job.id && request.run_id == old(run).run_id,
            None => step is Abort,
        },
        summary.status == CollectionStatus::Paused || summary.status == CollectionStatus::Cancelled
            ==> step is ReadStatus,
{
}

/// The figures of a collection are recorded as they are.
pub proof fn figures_are_recorded(
    run: &mut JobRun,
    now: &str,
    step: JobStep,
    summary: CollectionSummary,
)
    requires
        old(run).summary == Some(summary),
        call_ensures(JobRun::on_final_control, (run, None::<ExecutionControl>, now), step),
        step is Finish,
    ensures
        exists|figures: Map<Seq<char>, JsonView>|
            {
                &&& figures.dom() == set!["fetched_count"@, "pages"@]
                &&& figures["fetched_count"@] == JsonView::Number(
                    NumberView::Integer(summary.fetched_count as int),
                )
                &&& figures["pages"@] == JsonView::Number(NumberView::Integer(summary.pages as int))
                &&& step->Finish_0.stats_json matches Some(stats) && stats@ == #[trigger] json::rendered(
                    JsonView::Object(figures),
                )
            },
{
    reveal_strlit("fetched_count");
    reveal_strlit("pages");
    assert("fetched_count"@.len() != "pages"@.len());
    let figures = Map::<Seq<char>, JsonView>::empty().insert(
        "fetched_count"@,
        JsonView::Number(NumberView::Integer(summary.fetched_count as int)),
    ).insert("pages"@, JsonView::Number(NumberView::Integer(summary.pages as int)));
    assert(figures.dom() =~= set!["fetched_count"@, "pages"@]);
    assert(step->Finish_0.stats_json->0@ == json::rendered(JsonView::Object(figures)));
}

/// A job is reported to have ended as its run was recorded: a failed sync is no success.
pub proof fn jobs_end_as_they_were_recorded(
    deciding: &mut JobRun,
    recording: &mut JobRun,
    now: &str,
    decided: JobStep,
    ended: JobStep,
    summary: CollectionSummary,
)
    requires
        old(deciding).summary == Some(summary),
        call_ensures(JobRun::on_final_control, (deciding, None::<ExecutionControl>, now), decided),
        *old(recording) == *final(deciding),
        call_ensures(JobRun::on_finished, (recording, true), ended),
    ensures
        summary.status == CollectionStatus::Completed ==> (ended matches JobStep::Done(result)
            && result.status@ == "completed"@),
        summary.status == CollectionStatus::Failed ==> (ended matches JobStep::Done(result)
            && result.status@ == "failed"@),
        summary.status == CollectionStatus::Stopped ==> (ended matches JobStep::Done(result)
            && result.status@ == "cancelled"@),
        decided is Finish ==> (ended matches JobStep::Done(result) && result.job_id
            == old(deciding).job.id && result.run_id == old(deciding).run_id),
{
}

/// A record that was not accepted ends no job: its status has to explain why, and only a pause or a
/// cancellation does.
pub proof fn refused_records_need_an_explanation(
    recording: &mut JobRun,
    explaining: &mut JobRun,
    read: JobStep,
    status: Option<String>,
    explained: JobStep,
)
    requires
        call_ensures(JobRun::on_finished, (recording, false), read),
        *old(explaining) == *final(recording),
        call_ensures(JobRun::on_status, (explaining, status), explained),
    ensures
        read is ReadStatus,
        !(explained is Done),
        explained is AwaitControl <==> (status matches Some(s) && (s@ == "paused"@ || s@
            == "cancelled"@)),
        explained is AwaitControl || explained is Abort,
{
}

/// The status that explained a refused record is the result, whether or not the control request that
/// led to it came in time.
pub proof fn late_controls_change_no_result(
    explaining: &mut JobRun,
    waiting: &mut JobRun,
    status: String,
    awaited: JobStep,
    control: Option<ExecutionControl>,
    ended: JobStep,
)
    requires
        call_ensures(JobRun::on_status, (explaining, Some(status)), awaited),
        awaited is AwaitControl,
        *old(waiting) == *final(explaining),
        call_ensures(JobRun::on_late_control, (waiting, control), ended),
    ensures
        ended matches JobStep::Done(result) && result.status@ == status@ && result.job_id
            == old(explaining).job.id && result.run_id == old(explaining).run_id,
{
}

/// A pause or a cancellation that was confirmed is the end only of a job that shows it.
pub proof fn confirmed_controls_must_show(
    deciding: &mut JobRun,
    confirming: &mut JobRun,
    control: ExecutionControl,
    now: &str,
    read: JobStep,
    status: Option<String>,
    ended: JobStep,
)
    requires
        old(deciding).summary is Some,
        control != ExecutionControl::Shutdown,
        call_ensures(JobRun::on_final_control, (deciding, Some(control), now), read),
        *old(confirming) == *final(deciding),
        call_ensures(JobRun::on_status, (confirming, status), ended),
    ensures
        read is ReadStatus,
        ended is Done <==> (status matches Some(s) && (control == ExecutionControl::Pause && s@
            == "paused"@ || control == ExecutionControl::Cancel && s@ == "cancelled"@)),
        ended matches JobStep::Done(result) ==> status matches Some(s) && result.status@ == s@,
        ended is Done || ended is Abort,
{
    reveal_strlit("paused");
    reveal_strlit("cancelled");
}

/// A shutdown, whenever it comes, costs no job: its run is recorded as interrupted, and the job
/// waits to be run again.
pub proof fn shutdowns_leave_jobs_pending(
    reserving: &mut JobRun,
    greeting: &mut JobRun,
    activating: &mut JobRun,
    deciding: &mut JobRun,
    refusal: Error,
    now: &str,
    steps: (JobStep, JobStep, JobStep, JobStep),
)
    requires
        call_ensures(JobRun::on_reserved, (reserving, Err::<(), Error>(refusal), true, now), steps.0),
        call_ensures(
            JobRun::on_handshake,
            (greeting, Err::<(), SidecarError>(SidecarError::HandshakeCancelled), now),
            steps.1,
        ),
        call_ensures(
            JobRun::on_activated,
            (activating, Ok::<ActivationOutcome, Error>(ActivationOutcome::Shutdown), now),
            steps.2,
        ),
        old(deciding).summary is Some,
        call_ensures(
            JobRun::on_final_control,
            (deciding, Some(ExecutionControl::Shutdown), now),
            steps.3,
        ),
    ensures
        steps.0 matches JobStep::Interrupt { request, .. } && request.next_status
            == SyncJobStatus::Interrupted && request.job_id == old(reserving).job.id
            && request.run_id == old(reserving).run_id,
        steps.1 matches JobStep::Interrupt { request, .. } && request.next_status
            == SyncJobStatus::Interrupted && request.job_id == old(greeting).job.id
            && request.run_id == old(greeting).run_id,
        steps.2 matches JobStep::Interrupt { request, kill } && kill && request.next_status
            == SyncJobStatus::Interrupted && request.job_id == old(activating).job.id
            && request.run_id == old(activating).run_id,
        steps.3 matches JobStep::Interrupt { request, .. } && request.next_status
            == SyncJobStatus::Interrupted && request.job_id == old(deciding).job.id
            && request.run_id == old(deciding).run_id,
        final(reserving).stage == JobStage::Interrupting,
        final(greeting).stage == JobStage::Interrupting,
        final(activating).stage == JobStage::Interrupting,
        final(deciding).stage == JobStage::Interrupting,
{
}

/// An interruption that was recorded makes the job pending; where it was not, the job is what it is.
pub proof fn interrupted_jobs_are_pending(
    recording: &mut JobRun,
    reading: &mut JobRun,
    accepted: bool,
    step: JobStep,
    status: String,
    ended: JobStep,
)
    requires
        call_ensures(JobRun::on_interrupted, (recording, accepted), step),
        !accepted ==> *old(reading) == *final(recording) && call_ensures(
            JobRun::on_status,
            (reading, Some(status)),
            ended,
        ),
    ensures
        accepted ==> (step matches JobStep::Done(result) && result.status@ == "pending"@
            && result.job_id == old(recording).job.id && result.run_id == old(recording).run_id),
        !accepted ==> (ended matches JobStep::Done(result) && result.status@ == status@),
{
}

/// A recovery that was accepted is the result; a limit that lets the job go on makes it pending, and
/// one that does not makes it fail.
pub proof fn recoveries_and_limits_are_reported(
    recovering: &mut JobRun,
    limiting: &mut JobRun,
    recovered: SyncJobStatus,
    next_epoch: i64,
    steps: (JobStep, JobStep),
)
    requires
        call_ensures(JobRun::on_recovered, (recovering, Some(recovered)), steps.0),
        call_ensures(JobRun::on_rate_limited, (limiting, next_epoch), steps.1),
    ensures
        steps.0 matches JobStep::Done(result) && result.job_id == old(recovering).job.id && match recovered {
            SyncJobStatus::Pending => result.status@ == "pending"@,
            SyncJobStatus::Running => result.status@ == "running"@,
            SyncJobStatus::Paused => result.status@ == "paused"@,
            SyncJobStatus::Completed => result.status@ == "completed"@,
            SyncJobStatus::Failed => result.status@ == "failed"@,
            SyncJobStatus::Cancelled => result.status@ == "cancelled"@,
            SyncJobStatus::Interrupted => result.status@ == "interrupted"@,
        },
        steps.1 matches JobStep::Done(result) && result.job_id == old(limiting).job.id && result.run_id
            == old(limiting).run_id && (next_epoch >= 0 ==> result.status@ == "pending"@) && (
        next_epoch < 0 ==> result.status@ == "failed"@),
{
}

/// What goes wrong before or during the collection is recorded as the failure of that run, with its
/// own message, and handed on.
pub proof fn failures_are_recorded(
    resolving: &mut JobRun,
    reserving: &mut JobRun,
    collecting: &mut JobRun,
    why: String,
    now: &str,
    steps: (JobStep, JobStep, JobStep),
)
    requires
        call_ensures(
            JobRun::on_options,
            (resolving, Err::<(), Error>(Error::FormatError(why)), now),
            steps.0,
        ),
        call_ensures(
            JobRun::on_reserved,
            (reserving, Err::<(), Error>(Error::FormatError(why)), false, now),
            steps.1,
        ),
        call_ensures(
            JobRun::on_collected,
            (collecting, Err::<CollectionSummary, Error>(Error::FormatError(why)), now),
            steps.2,
        ),
    ensures
        steps.0 matches JobStep::FailRun { request, error } && error == Error::FormatError(why)
            && request.next_status == SyncJobStatus::Failed && request.job_id == old(resolving).job.id
            && request.run_id == old(resolving).run_id && text::opt_view(request.error) == Some(why@),
        steps.1 matches JobStep::FailRun { request, error } && error == Error::FormatError(why)
            && request.next_status == SyncJobStatus::Failed && request.job_id == old(reserving).job.id
            && request.run_id == old(reserving).run_id && text::opt_view(request.error) == Some(why@),
        steps.2 matches JobStep::FailRun { request, error } && error == Error::FormatError(why)
            && request.next_status == SyncJobStatus::Failed && request.job_id
            == old(collecting).job.id && request.run_id == old(collecting).run_id && text::opt_view(
            request.error,
        ) == Some(why@),
{
}

/// A run whose lease is lost neither collects nor records anything, and a sidecar that was started
/// for it is killed.
pub proof fn fenced_runs_stop(run: &mut JobRun, owned: i64, step: JobStep)
    requires
        call_ensures(JobRun::on_owned, (run, owned), step),
        old(run).stage is Owning,
    ensures
        owned != 1 ==> (step matches JobStep::Abort { kill, .. } && kill
            == old(run).stage->started && final(run).stage == JobStage::Ended),
        owned == 1 && !old(run).stage->started ==> step is ResolveOptions,
        owned == 1 && old(run).stage->started ==> step is Activate,
{
}

/// A collection runs the request of its job, under the lease of its run, with the checkpoint of its
/// resource.
pub proof fn collections_run_for_their_job(run: &mut JobRun, now: &str, step: JobStep)
    requires
        old(run).request is Some,
        call_ensures(
            JobRun::on_activated,
            (run, Ok::<ActivationOutcome, Error>(ActivationOutcome::Active), now),
            step,
        ),
    ensures
        step matches JobStep::Collect(request, execution) && Some(request) == old(run).request
            && execution.job_id == old(run).job.id && execution.run_id == old(run).run_id
            && execution.generation == old(run).job.generation && execution.owner_token@
            == old(run).owner_token@ && execution.checkpoint_stream@ == old(run).job.resource_key@,
{
}

/// A claim holds its job for a while from now on, and for its owner.
pub proof fn claims_hold_for_a_while(owner: String, now_epoch: i64, at: String, r: ClaimRequest)
    requires
        now_epoch <= i64::MAX - 30,
        call_ensures(claim_request, (owner, now_epoch, at), r),
    ensures
        r.owner_token@ == owner@,
        r.claimed_at@ == at@,
        r.now_epoch == now_epoch,
        r.lease_until_epoch == now_epoch + 30,
{
}

/// A job for the posts of a user asks for them on the stream of that user, one for comments or
/// replies on that of the post or comment; and a job whose key is no account's keeps its key.
pub proof fn jobs_ask_for_what_they_name(
    job: SyncJobDto,
    fields: Map<Seq<char>, JsonView>,
    rest: Seq<char>,
    user: i64,
    post: i64,
    root: i64,
    r: Result<CollectionRequest>,
)
    requires
        call_ensures(request_from_job, (&job,), r),
        job.payload_json matches Some(t) && json::parsed(t@) == Ok::<JsonView, Seq<char>>(
            JsonView::Object(fields),
        ),
        fields.contains_key("uid"@) && fields["uid"@] == JsonView::Number(
            NumberView::Integer(user as int),
        ),
        fields.contains_key("post_id"@) && fields["post_id"@] == JsonView::Number(
            NumberView::Integer(post as int),
        ),
        fields.contains_key("root_comment_id"@) && fields["root_comment_id"@] == JsonView::Number(
            NumberView::Integer(root as int),
        ),
        job.resource_key@ == "account:"@ + rest,
    ensures
        job.kind@ == "collect_user_posts"@ ==> (r matches Ok(request) && request.command_type
            == CommandType::CollectUserPosts && request.stream@ == "user:"@ + text::signed_decimal(
            user as int,
        ) + ":posts"@),
        job.kind@ == "collect_comments"@ ==> (r matches Ok(request) && request.command_type
            == CommandType::CollectComments && request.stream@ == "post:"@ + text::signed_decimal(
            post as int,
        ) + ":comments"@),
        job.kind@ == "collect_comment_replies"@ ==> (r matches Ok(request) && request.command_type
            == CommandType::CollectCommentReplies && request.stream@ == "post:"@
            + text::signed_decimal(post as int) + ":comment:"@ + text::signed_decimal(root as int)
            + ":replies"@),
        r matches Ok(request) ==> request.payload@ == JsonView::Object(fields),
        r is Ok <==> job.kind@ == "collect_user_posts"@ || job.kind@ == "collect_comments"@
            || job.kind@ == "collect_comment_replies"@,
{
    lemma_kinds_differ();
    assert(job.resource_key@.subrange(0, "account:"@.len() as int) =~= "account:"@);
}

proof fn lemma_kinds_differ()
    ensures
        "collect_user_posts"@ != "collect_comments"@,
        "collect_user_posts"@ != "collect_comment_replies"@,
        "collect_comments"@ != "collect_comment_replies"@,
{
    reveal_strlit("collect_user_posts");
    reveal_strlit("collect_comments");
    reveal_strlit("collect_comment_replies");
    assert("collect_user_posts"@.len() != "collect_comments"@.len());
    assert("collect_user_posts"@.len() != "collect_comment_replies"@.len());
    assert("collect_comments"@.len() != "collect_comment_replies"@.len());
}

/// A job whose key is no account's runs on the stream of that key, whatever its payload.
pub proof fn other_jobs_keep_their_key(job: SyncJobDto, v: JsonView, r: Result<CollectionRequest>)
    requires
        call_ensures(request_from_job, (&job,), r),
        job.kind@ == "collect_user_posts"@ || job.kind@ == "collect_comments"@ || job.kind@
            == "collect_comment_replies"@,
        job.payload_json matches Some(t) && json::parsed(t@) == Ok::<JsonView, Seq<char>>(v),
        job.resource_key@.len() > 0 && job.resource_key@[0] != 'a',
    ensures
        r matches Ok(request) && request.stream@ == job.resource_key@ && request.payload@ == v,
{
    reveal_strlit("account:");
    lemma_kinds_differ();
    if text::has_prefix(job.resource_key@, "account:"@) {
        assert(job.resource_key@.subrange(0, "account:"@.len() as int)[0] == 'a');
    }
}

/// The session of a disabled account is not used, and no job runs without its account.
pub proof fn sessions_of_disabled_accounts_rest(
    executor: JobExecutor,
    job_id: i64,
    job: SyncJobDto,
    account: Option<&AccountDto>,
    r: Result<SpawnSource>,
)
    requires
        call_ensures(
            JobExecutor::resolve_spawn_options,
            (&executor, job_id, Some(&job), account),
            r,
        ),
        executor.account_resolver is Some,
    ensures
        r is Ok ==> account is Some && account->0.enabled,
        r matches Ok(source) ==> source is Session,
{
}

/// Whether a job waits for the outcome of the step that it asks for: an end waits for nothing.
pub open spec fn waits_for(stage: JobStage, step: JobStep) -> bool {
    match step {
        JobStep::EnsureOwned => stage is Owning,
        JobStep::ResolveOptions => stage == JobStage::Resolving,
        JobStep::Reserve => stage == JobStage::Reserving,
        JobStep::Handshake => stage == JobStage::Handshaking,
        JobStep::Activate => stage == JobStage::Activating,
        JobStep::Collect(_, _) => stage == JobStage::Collecting,
        JobStep::TakeControl => stage == JobStage::TakingControl,
        JobStep::FailRun { .. } => stage == JobStage::Ended,
        JobStep::Abort { .. } => stage == JobStage::Ended,
        JobStep::Interrupt { .. } => stage == JobStage::Interrupting,
        JobStep::RateLimit { .. } => stage == JobStage::RateLimiting,
        JobStep::Recover(_) => stage == JobStage::Recovering,
        JobStep::Finish(request) => stage == JobStage::Finishing(request.next_status),
        JobStep::ReadStatus => stage is ReadingStatus,
        JobStep::AwaitControl { .. } => stage is AwaitingControl,
        JobStep::Done(_) => stage == JobStage::Ended,
    }
}

/// A job that begins waits for what it asks for, step by step.
pub proof fn beginning_jobs_wait_for_what_they_ask(
    run: &mut JobRun,
    run_id: Option<i64>,
    owned: i64,
    outcome: Result<()>,
    greeted: std::result::Result<(), SidecarError>,
    active: Result<ActivationOutcome>,
    shutting_down: bool,
    now: &str,
    step: JobStep,
)
    requires
        call_ensures(JobRun::on_created, (run, run_id), step) || call_ensures(
            JobRun::on_owned,
            (run, owned),
            step,
        ) || call_ensures(JobRun::on_options, (run, outcome, now), step) || call_ensures(
            JobRun::on_reserved,
            (run, outcome, shutting_down, now),
            step,
        ) || call_ensures(JobRun::on_handshake, (run, greeted, now), step) || call_ensures(
            JobRun::on_activated,
            (run, active, now),
            step,
        ),
    ensures
        waits_for(final(run).stage, step),
{
}

/// A job that ends waits for what it asks for, step by step, and keeps its token, its row and its run.
pub proof fn ending_jobs_wait_for_what_they_ask(
    run: &mut JobRun,
    control: Option<ExecutionControl>,
    next_epoch: i64,
    recovered: Option<SyncJobStatus>,
    accepted: bool,
    status: Option<String>,
    now: &str,
    step: JobStep,
)
    requires
        old(run).summary is Some,
        call_ensures(JobRun::on_final_control, (run, control, now), step) || call_ensures(
            JobRun::on_rate_limited,
            (run, next_epoch),
            step,
        ) || call_ensures(JobRun::on_recovered, (run, recovered), step) || call_ensures(
            JobRun::on_finished,
            (run, accepted),
            step,
        ) || call_ensures(JobRun::on_interrupted, (run, accepted), step) || call_ensures(
            JobRun::on_status,
            (run, status),
            step,
        ) || call_ensures(JobRun::on_late_control, (run, control), step),
    ensures
        waits_for(final(run).stage, step),
        final(run).owner_token == old(run).owner_token && final(run).job == old(run).job
            && final(run).run_id == old(run).run_id,
{
}

/// A collection that ended leads to a last look for control requests, with its outcome kept; one that
/// could not be run ends the job.
pub proof fn collected_jobs_look_for_control(
    run: &mut JobRun,
    collected: Result<CollectionSummary>,
    now: &str,
    step: JobStep,
)
    requires
        call_ensures(JobRun::on_collected, (run, collected, now), step),
    ensures
        waits_for(final(run).stage, step),
        step is TakeControl <==> collected is Ok,
        collected matches Ok(summary) ==> final(run).summary == Some(summary),
{
}

/// A collection looks for requests and renews its lease ten times a second, and a renewed lease holds
/// for ten seconds: long enough for many renewals to fail.
pub proof fn leases_outlast_their_renewals(
    run: &mut JobRun,
    now: &str,
    step: JobStep,
)
    requires
        call_ensures(JobRun::on_activated, (run, Ok(ActivationOutcome::Active), now), step),
    ensures
        step matches JobStep::Collect(_, execution) && execution.poll_interval_ms == 100
            && execution.heartbeat_interval_ms == 100 && execution.lease_secs == 10
            && execution.lease_secs * 1000 > execution.heartbeat_interval_ms,
{
}

} // verus!
