//! Workers and sessions: who may work for a job, how workers are stopped, and which session they use.
use vstd::prelude::*;

use crate::error::Result;
use crate::paths;
use crate::sidecar::collector::ExecutionControl;
use crate::sidecar::supervisor::SpawnOptions;
use crate::storage::internal::entities::AccountDto;
use crate::sync_executor;
use crate::sync_executor::{
    account_session_resolver, check_probe, session_reference_path, stop_outcome,
    validate_account_session, AccountSpawnResolver, ActivationOutcome, ControlReply,
    ControlStopResult, SessionProbe, ShutdownStep, StopStep, WorkerRegistry, WorkerShutdown,
    WorkerShutdownOutcome, WorkerShutdownSummary,
};

verus! {

/// A job has one worker at most: the first reservation succeeds, every further one is refused, and
/// nobody else's worker is touched.
pub proof fn jobs_have_one_worker(
    registry: &mut WorkerRegistry,
    again: &mut WorkerRegistry,
    job_id: i64,
    other: i64,
    owner: &str,
    rival: &str,
    generation: i64,
    before: bool,
    r: Result<()>,
    s: Result<()>,
    held: bool,
    other_before: bool,
    other_after: bool,
)
    requires
        other != job_id,
        call_ensures(WorkerRegistry::contains, (&*old(registry), job_id), before),
        call_ensures(WorkerRegistry::contains, (&*old(registry), other), other_before),
        call_ensures(WorkerRegistry::reserve, (registry, job_id, owner, generation), r),
        call_ensures(WorkerRegistry::contains, (&*final(registry), job_id), held),
        call_ensures(WorkerRegistry::contains, (&*final(registry), other), other_after),
        *old(again) == *final(registry),
        call_ensures(WorkerRegistry::reserve, (again, job_id, rival, generation), s),
    ensures
        before ==> r is Err,
        r is Ok ==> !before && held && s is Err,
        other_after == other_before,
{
}

/// A job without a worker can have one exactly as long as no shutdown has begun.
pub proof fn free_jobs_can_be_reserved(
    registry: &mut WorkerRegistry,
    job_id: i64,
    owner: &str,
    generation: i64,
    before: bool,
    closing: bool,
    r: Result<()>,
    held: bool,
)
    requires
        call_ensures(WorkerRegistry::contains, (&*old(registry), job_id), before),
        call_ensures(WorkerRegistry::is_shutting_down, (&*old(registry),), closing),
        call_ensures(WorkerRegistry::reserve, (registry, job_id, owner, generation), r),
        call_ensures(WorkerRegistry::contains, (&*final(registry), job_id), held),
    ensures
        r is Ok <==> !before && !closing,
        r is Ok ==> held,
{
}

/// Once a shutdown has begun, no worker is registered and none is activated any more.
pub proof fn shutdowns_admit_no_worker(
    registry: &mut WorkerRegistry,
    reserving: &mut WorkerRegistry,
    activating: &mut WorkerRegistry,
    job_id: i64,
    owner: &str,
    generation: i64,
    pid: u32,
    jobs: Vec<i64>,
    closed: bool,
    r: Result<()>,
    s: Result<ActivationOutcome>,
)
    requires
        call_ensures(WorkerRegistry::begin_shutdown, (registry,), jobs),
        call_ensures(WorkerRegistry::is_shutting_down, (&*final(registry),), closed),
        *old(reserving) == *final(registry),
        call_ensures(WorkerRegistry::reserve, (reserving, job_id, owner, generation), r),
        *old(activating) == *final(registry),
        call_ensures(WorkerRegistry::activate, (activating, job_id, owner, generation, pid), s),
    ensures
        closed,
        r is Err,
        s matches Ok(outcome) && outcome == ActivationOutcome::Shutdown,
{
}

/// A reservation becomes a worker under the same lease only: then its process is known. Under
/// another owner or generation it is refused.
pub proof fn reservations_are_kept_for_their_lease(
    registry: &mut WorkerRegistry,
    activating: &mut WorkerRegistry,
    job_id: i64,
    owner: &str,
    generation: i64,
    claimant: &str,
    claimed: i64,
    pid: u32,
    r: Result<()>,
    s: Result<ActivationOutcome>,
    known: Option<u32>,
)
    requires
        call_ensures(WorkerRegistry::reserve, (registry, job_id, owner, generation), r),
        r is Ok,
        *old(activating) == *final(registry),
        call_ensures(WorkerRegistry::activate, (activating, job_id, claimant, claimed, pid), s),
        call_ensures(WorkerRegistry::pid, (&*final(activating), job_id), known),
    ensures
        claimant@ == owner@ && claimed == generation ==> (s matches Ok(outcome) && outcome
            == ActivationOutcome::Active) && known == Some(pid),
        claimant@ != owner@ || claimed != generation ==> s is Err && known is None,
{
}

/// A worker that is forgotten is gone, and no other one is.
pub proof fn forgotten_workers_are_gone(
    registry: &mut WorkerRegistry,
    job_id: i64,
    other: i64,
    held: bool,
    other_before: Option<u32>,
    other_after: Option<u32>,
)
    requires
        other != job_id,
        call_ensures(WorkerRegistry::pid, (&*old(registry), other), other_before),
        call_ensures(WorkerRegistry::unregister, (registry, job_id), ()),
        call_ensures(WorkerRegistry::contains, (&*final(registry), job_id), held),
        call_ensures(WorkerRegistry::pid, (&*final(registry), other), other_after),
    ensures
        !held,
        other_after == other_before,
{
}

/// A running worker is sent the request, one that starts is waited for within the time that is
/// left, and a job without a worker needs nothing. A job that lost its lease is asked to pause.
pub proof fn workers_are_stopped_where_they_are(
    registry: WorkerRegistry,
    job_id: i64,
    action: ExecutionControl,
    elapsed_ms: u64,
    timeout_ms: u64,
    held: bool,
    pid: Option<u32>,
    r: StopStep,
    fenced: StopStep,
)
    requires
        call_ensures(WorkerRegistry::contains, (&registry, job_id), held),
        call_ensures(WorkerRegistry::pid, (&registry, job_id), pid),
        call_ensures(WorkerRegistry::stop, (&registry, job_id, action, elapsed_ms, timeout_ms), r),
        call_ensures(
            WorkerRegistry::stop_fenced_job,
            (&registry, job_id, elapsed_ms, timeout_ms),
            fenced,
        ),
    ensures
        !held ==> r == StopStep::Done(ControlStopResult::WorkerNotFound),
        pid matches Some(process) ==> (r matches StopStep::Send { pid: p, action: a, left_ms } && p
            == process && a == action && (elapsed_ms <= timeout_ms ==> left_ms == timeout_ms
            - elapsed_ms) && (elapsed_ms > timeout_ms ==> left_ms == 0)),
        held && pid is None && elapsed_ms < timeout_ms ==> (r matches StopStep::Wait(left_ms)
            && left_ms == timeout_ms - elapsed_ms),
        held && pid is None && elapsed_ms >= timeout_ms ==> r == StopStep::Done(
            ControlStopResult::WorkerStarting,
        ),
        pid is Some ==> (fenced matches StopStep::Send { action: a, .. } && a
            == ExecutionControl::Pause),
        pid is None ==> fenced == r,
{
}

/// A worker counts as stopped exactly when it confirmed, or is not there; anything else is reported
/// as what it is, and may have left it running.
pub proof fn stops_are_reported_as_they_went(
    pid: u32,
    reply: ControlReply,
    r: ControlStopResult,
    degraded: bool,
)
    requires
        call_ensures(stop_outcome, (pid, reply), r),
        call_ensures(ControlStopResult::is_degraded, (&r,), degraded),
    ensures
        reply is Confirmed <==> r == (ControlStopResult::Stopped { pid }),
        degraded <==> reply is Refused || reply is Silent,
        reply matches ControlReply::Refused(why) ==> r == ControlStopResult::StopFailed(why),
        reply is Silent ==> r == (ControlStopResult::StopTimedOut { pid }),
{
}

/// A worker that was still being started, that did not answer or that could not be stopped makes a
/// shutdown degraded; nothing else does.
pub proof fn one_bad_stop_degrades_a_shutdown(
    summary: WorkerShutdownSummary,
    degraded: bool,
)
    requires
        call_ensures(WorkerShutdownSummary::degraded, (&summary,), degraded),
    ensures
        degraded <==> exists|i: int|
            0 <= i < summary.workers@.len() && ((#[trigger] summary.workers@[i]).worker_stop
                is WorkerStarting || summary.workers@[i].worker_stop is StopTimedOut
                || summary.workers@[i].worker_stop is StopFailed),
{
    if degraded {
        let i = choose|i: int|
            0 <= i < summary.workers@.len() && sync_executor::stop_degraded(
                (#[trigger] summary.workers@[i]).worker_stop,
            );
        assert(summary.workers@[i].worker_stop is WorkerStarting
            || summary.workers@[i].worker_stop is StopTimedOut || summary.workers@[i].worker_stop
            is StopFailed);
    } else {
        assert forall|i: int| 0 <= i < summary.workers@.len() implies !((
        #[trigger] summary.workers@[i]).worker_stop is WorkerStarting
            || summary.workers@[i].worker_stop is StopTimedOut || summary.workers@[i].worker_stop
            is StopFailed) by {
            assert(!sync_executor::stop_degraded(summary.workers@[i].worker_stop));
        }
    }
}

/// A shutdown asks every worker that is registered, once and one after the other, to shut down, and
/// is finished when each has its outcome.
pub proof fn shutdowns_reach_every_worker(
    registry: &mut WorkerRegistry,
    timeout_ms: u64,
    elapsed_ms: u64,
    job_id: i64,
    held: bool,
    shutdown: WorkerShutdown,
    step: ShutdownStep,
)
    requires
        call_ensures(WorkerRegistry::contains, (&*old(registry), job_id), held),
        call_ensures(WorkerRegistry::shutdown_all, (registry, timeout_ms), shutdown),
        call_ensures(WorkerShutdown::next, (&shutdown, &*final(registry), elapsed_ms), step),
    ensures
        held <==> shutdown.jobs@.contains(job_id),
        shutdown.jobs@.no_duplicates(),
        shutdown.outcomes@.len() == 0,
        shutdown.jobs@.len() == 0 <==> step is Finish,
        step matches ShutdownStep::Stop { job_id: first, step: stop } ==> first == shutdown.jobs@[0]
            && (stop matches StopStep::Send { action, .. } ==> action == ExecutionControl::Shutdown),
{
}

/// What came of a worker is recorded for that worker, and the next one is the next of the list.
pub proof fn outcomes_belong_to_their_worker(
    shutdown: &mut WorkerShutdown,
    registry: WorkerRegistry,
    elapsed_ms: u64,
    step: ShutdownStep,
    result: ControlStopResult,
    next: ShutdownStep,
)
    requires
        call_ensures(WorkerShutdown::next, (&*old(shutdown), &registry, elapsed_ms), step),
        old(shutdown).outcomes@.len() < old(shutdown).jobs@.len(),
        call_ensures(WorkerShutdown::record, (shutdown, result), ()),
        call_ensures(WorkerShutdown::next, (&*final(shutdown), &registry, elapsed_ms), next),
    ensures
        step matches ShutdownStep::Stop { job_id, .. } && {
            &&& final(shutdown).outcomes@.len() == old(shutdown).outcomes@.len() + 1
            &&& final(shutdown).outcomes@.last() == (WorkerShutdownOutcome {
                job_id,
                worker_stop: result,
            })
        },
        final(shutdown).jobs@ == old(shutdown).jobs@,
        next is Finish <==> final(shutdown).outcomes@.len() == old(shutdown).jobs@.len(),
        next matches ShutdownStep::Stop { job_id, .. } ==> job_id
            == old(shutdown).jobs@[final(shutdown).outcomes@.len() as int],
{
}

/// A session reference is accepted only where it stays below the session root, on every platform.
pub proof fn session_references_stay_below(reference: &str, r: Result<String>)
    requires
        call_ensures(session_reference_path, (reference,), r),
    ensures
        reference@.len() == 0 || reference@[0] == '/' || reference@[0] == '\\' ==> r is Err,
        paths::split_of(reference@, '/', '\\').contains(".."@) ==> r is Err,
        r matches Ok(path) ==> paths::plain_relative(path@),
{
    if r is Ok {
        sync_executor::accepted_reference_stays_below_root(reference@);
    }
}

/// An ordinary session reference is accepted: it begins with a name, has no drive, and no piece of it
/// leads upwards. A single name is its own path.
pub proof fn ordinary_session_references_are_accepted(reference: &str, r: Result<String>)
    requires
        call_ensures(session_reference_path, (reference,), r),
        reference@.len() > 0 && reference@[0] != '/' && reference@[0] != '\\',
        !(vstd::utf8::encode_utf8(reference@).len() > 1 && vstd::utf8::encode_utf8(reference@)[1]
            == 58),
        !paths::split_of(reference@, '/', '\\').contains(".."@),
        paths::split_of(reference@, '/', '\\')[0].len() > 0,
        paths::split_of(reference@, '/', '\\')[0] != "."@,
    ensures
        r is Ok,
        paths::split_of(reference@, '/', '\\').len() == 1 ==> r->Ok_0@ == paths::split_of(
            reference@,
            '/',
            '\\',
        )[0],
{
    let pieces = paths::split_of(reference@, '/', '\\');
    paths::pieces_hold_no_separator(reference@, '/', '\\');
    lemma_first_name(pieces, pieces.len() as int);
    if pieces.len() == 1 {
        reveal_with_fuel(sync_executor::reference_names, 2);
        reveal_with_fuel(sync_executor::names_path, 2);
        let names = sync_executor::reference_names(pieces, 1);
        assert(names =~= seq![pieces[0]]);
        assert(names.drop_last() =~= Seq::<Seq<char>>::empty());
    }
}

proof fn lemma_first_name(pieces: Seq<Seq<char>>, n: int)
    requires
        1 <= n <= pieces.len(),
        pieces[0].len() > 0,
        pieces[0] != "."@,
    ensures
        sync_executor::reference_names(pieces, n).len() > 0,
    decreases n,
{
    if n > 1 {
        lemma_first_name(pieces, n - 1);
    }
}

/// An account can be used exactly when its reference leads to a file that was found below the root
/// that was found; a disabled account has no session at all.
pub proof fn sessions_lie_below_their_root(
    account: AccountDto,
    probe: SessionProbe,
    referenced: Result<String>,
    name: &str,
    r: Result<()>,
    s: Result<()>,
)
    requires
        name@ == account.session_ref@,
        call_ensures(session_reference_path, (name,), referenced),
        call_ensures(check_probe, (&probe,), r),
        call_ensures(validate_account_session, (&account, &probe), s),
    ensures
        r is Ok <==> (probe.root matches Ok(root) && (probe.path matches Ok(path) && paths::within(
            path@,
            root@,
        ))),
        s is Ok <==> referenced is Ok && r is Ok,
{
}

/// The session of a disabled account is not looked for.
pub proof fn disabled_accounts_have_no_session(
    resolver: AccountSpawnResolver,
    account: AccountDto,
    name: &str,
    referenced: Result<String>,
    r: Result<String>,
)
    requires
        name@ == account.session_ref@,
        call_ensures(session_reference_path, (name,), referenced),
        call_ensures(AccountSpawnResolver::session_file, (&resolver, &account), r),
    ensures
        !account.enabled ==> r is Err,
        account.enabled ==> (r is Ok <==> referenced is Ok),
        r matches Ok(path) ==> referenced matches Ok(expected) && path@ == expected@,
{
}

proof fn lemma_variables(env: Seq<(String, String)>, i: int)
    requires
        0 <= i < env.len(),
        env[i].0@ != "WEIBACK_COLLECTOR_SESSION_PATH"@,
    ensures
        sync_executor::other_variables(env).contains(env[i]),
    decreases env.len(),
{
    let kept = sync_executor::other_variables(env);
    if i == env.len() - 1 {
        assert(kept[kept.len() - 1] == env[i]);
    } else {
        lemma_variables(env.drop_last(), i);
        let before = sync_executor::other_variables(env.drop_last());
        let k = choose|k: int| 0 <= k < before.len() && before[k] == env.drop_last()[i];
        assert(kept[k] == env[i]);
    }
}

proof fn lemma_other_variables(env: Seq<(String, String)>)
    ensures
        forall|k: int|
            0 <= k < sync_executor::other_variables(env).len() ==> (
            #[trigger] sync_executor::other_variables(env)[k]).0@
                != "WEIBACK_COLLECTOR_SESSION_PATH"@,
    decreases env.len(),
{
    if env.len() > 0 {
        lemma_other_variables(env.drop_last());
        let before = sync_executor::other_variables(env.drop_last());
        let kept = sync_executor::other_variables(env);
        assert forall|k: int| 0 <= k < kept.len() implies (#[trigger] kept[k]).0@
            != "WEIBACK_COLLECTOR_SESSION_PATH"@ by {
            if k < before.len() {
                assert(kept[k] == before[k]);
            }
        }
    }
}

/// The sidecar of an account is told the session that was found for it and no other, and everything
/// else that the template says.
pub proof fn sidecars_use_the_session_of_their_account(
    resolver: AccountSpawnResolver,
    probe: SessionProbe,
    checked: Result<()>,
    r: Result<SpawnOptions>,
)
    requires
        call_ensures(check_probe, (&probe,), checked),
        call_ensures(AccountSpawnResolver::resolve, (resolver, probe), r),
    ensures
        r is Ok <==> checked is Ok,
        r matches Ok(o) ==> {
            &&& o.program@ == resolver.template.program@
            &&& o.args == resolver.template.args
            &&& o.cwd == resolver.template.cwd
            &&& o.handshake_timeout_ms == resolver.template.handshake_timeout_ms
            &&& exists|k: int|
                0 <= k < o.env@.len() && (#[trigger] o.env@[k]).0@
                    == "WEIBACK_COLLECTOR_SESSION_PATH"@ && o.env@[k].1@ == probe.path->Ok_0@
            &&& forall|k: int, l: int|
                0 <= k < l < o.env@.len() && (#[trigger] o.env@[k]).0@
                    == "WEIBACK_COLLECTOR_SESSION_PATH"@ ==> (#[trigger] o.env@[l]).0@
                    != "WEIBACK_COLLECTOR_SESSION_PATH"@
            &&& forall|i: int|
                0 <= i < resolver.template.env@.len() && (#[trigger] resolver.template.env@[i]).0@
                    != "WEIBACK_COLLECTOR_SESSION_PATH"@ ==> o.env@.contains(
                    resolver.template.env@[i],
                )
        },
{
    if let Ok(o) = r {
        let env = resolver.template.env@;
        let kept = sync_executor::other_variables(env);
        lemma_other_variables(env);
        let last = o.env@.len() - 1;
        assert(o.env@[last].0@ == "WEIBACK_COLLECTOR_SESSION_PATH"@);
        assert forall|k: int| 0 <= k < last implies (#[trigger] o.env@[k]).0@
            != "WEIBACK_COLLECTOR_SESSION_PATH"@ by {
            assert(o.env@.drop_last()[k] == kept[k]);
        }
        assert forall|i: int| 0 <= i < env.len() && (#[trigger] env[i]).0@
            != "WEIBACK_COLLECTOR_SESSION_PATH"@ implies o.env@.contains(env[i]) by {
            lemma_variables(env, i);
            let k = choose|k: int| 0 <= k < kept.len() && kept[k] == env[i];
            assert(o.env@.drop_last()[k] == kept[k]);
            assert(o.env@[k] == env[i]);
        }
    }
}

/// The session root is the directory of the configured session.
pub proof fn session_roots_hold_the_session(
    session: &str,
    template: SpawnOptions,
    r: Result<AccountSpawnResolver>,
)
    requires
        call_ensures(account_session_resolver, (session, template), r),
    ensures
        r is Ok <==> paths::parent_of(session@) is Some,
        r matches Ok(resolver) ==> paths::parent_of(session@) == Some(resolver.session_root@)
            && resolver.template == template,
{
}

} // verus!
