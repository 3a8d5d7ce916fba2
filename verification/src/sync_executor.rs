//! Execution of durable sync jobs: sessions of accounts, the registry of workers, and the course of
//! one job from its claim to its end.
use vstd::prelude::*;

pub mod job;

use crate::error;
use crate::error::{Error, Result};
use crate::paths;
use crate::sidecar::collector;
use crate::sidecar::collector::ExecutionControl;
use crate::sidecar::supervisor;
use crate::sidecar::supervisor::SpawnOptions;
use crate::storage::internal::entities;
use crate::storage::internal::entities::AccountDto;
use crate::text;

verus! {

/// The lease that a claim asks for, in seconds.
pub const INITIAL_LEASE_SECS: i64 = 30;

/// The environment variable that tells the sidecar where its session is.
pub open spec fn session_variable() -> Seq<char> {
    "WEIBACK_COLLECTOR_SESSION_PATH"@
}

/// Whether a session reference is rooted, on any platform.
pub open spec fn rooted_reference(s: Seq<char>) -> bool {
    s.len() == 0 || s[0] == '/' || s[0] == '\\' || (vstd::utf8::encode_utf8(s).len() > 1
        && vstd::utf8::encode_utf8(s)[1] == 58)
}

/// The names among the first `n` pieces of a session reference.
pub open spec fn reference_names(pieces: Seq<Seq<char>>, n: int) -> Seq<Seq<char>>
    decreases n,
{
    if n <= 0 {
        Seq::empty()
    } else {
        let before = reference_names(pieces, n - 1);
        if pieces[n - 1].len() == 0 || pieces[n - 1] == "."@ {
            before
        } else {
            before.push(pieces[n - 1])
        }
    }
}

/// The pieces of a session reference, which either kind of slash separates.
pub open spec fn reference_pieces(s: Seq<char>) -> Seq<Seq<char>> {
    paths::split_of(s, '/', '\\')
}

/// Whether a session reference leads upwards.
pub open spec fn escaping_reference(s: Seq<char>) -> bool {
    reference_pieces(s).contains(".."@)
}

/// Why a session reference is refused, if it is.
pub open spec fn reference_fault(s: Seq<char>) -> Option<Seq<char>> {
    let pieces = reference_pieces(s);
    if rooted_reference(s) {
        Some("session reference must be relative"@)
    } else if escaping_reference(s) {
        Some("session reference escapes root"@)
    } else if reference_names(pieces, pieces.len() as int).len() == 0 {
        Some("session reference is empty"@)
    } else {
        None
    }
}

/// Splits a session reference into names. A rooted reference, one that leads upwards and one
/// without names are refused.
pub fn session_reference_names(session_ref: &str) -> (r: Result<Vec<String>>)
    ensures
        match r {
            Ok(names) => reference_fault(session_ref@) is None && text::list_view(names@)
                == reference_names(
                reference_pieces(session_ref@),
                reference_pieces(session_ref@).len() as int,
            ),
            Err(e) => reference_fault(session_ref@) matches Some(why) && error::is_format_error(
                e,
                why,
            ),
        },
{
    let bytes = session_ref.as_bytes();
    if session_ref.is_empty() || session_ref.get_char(0) == '/' || session_ref.get_char(0) == '\\'
        || (bytes.len() > 1 && bytes[1] == 58) {
        return Err(error::format_error("session reference must be relative"));
    }
    let pieces = paths::split_at(session_ref, '/', '\\');
    let ghost views = reference_pieces(session_ref@);
    let mut names: Vec<String> = Vec::new();
    let mut escapes: bool = false;
    let mut i: usize = 0;
    while i < pieces.len()
        invariant
            i <= pieces@.len(),
            text::list_view(pieces@) == views,
            escapes == views.subrange(0, i as int).contains(".."@),
            text::list_view(names@) == reference_names(views, i as int),
        decreases pieces@.len() - i,
    {
        let piece = pieces[i].as_str();
        let ghost before = names@;
        assert(views[i as int] == piece@);
        assert(views.subrange(0, i + 1) == views.subrange(0, i as int).push(piece@));
        proof {
            let longer = views.subrange(0, i + 1);
            if views.subrange(0, i as int).contains(".."@) {
                let k = choose|k: int|
                    0 <= k < i && views.subrange(0, i as int)[k] == ".."@;
                assert(longer[k] == ".."@);
            }
            if piece@ == ".."@ {
                assert(longer[i as int] == ".."@);
            }
            if longer.contains(".."@) && piece@ != ".."@ {
                let k = choose|k: int| 0 <= k < longer.len() && longer[k] == ".."@;
                assert(k < i);
                assert(views.subrange(0, i as int)[k] == ".."@);
            }
        }
        if text::same_text(piece, "..") {
            escapes = true;
        }
        if !piece.is_empty() && !text::same_text(piece, ".") {
            names.push(piece.to_owned());
            assert(text::list_view(names@) == text::list_view(before).push(piece@));
        }
        i = i + 1;
    }
    assert(views.subrange(0, i as int) == views);
    if escapes {
        return Err(error::format_error("session reference escapes root"));
    }
    if names.len() == 0 {
        assert(text::list_view(names@).len() == 0);
        return Err(error::format_error("session reference is empty"));
    }
    assert(text::list_view(names@).len() > 0);
    Ok(names)
}

/// Names joined to a path.
pub open spec fn names_path(names: Seq<Seq<char>>) -> Seq<char>
    decreases names.len(),
{
    if names.len() == 0 {
        Seq::empty()
    } else {
        paths::joined(names_path(names.drop_last()), names.last())
    }
}

/// The path of a session reference below the session root.
pub open spec fn reference_path(session_ref: Seq<char>) -> Seq<char> {
    names_path(
        reference_names(reference_pieces(session_ref), reference_pieces(session_ref).len() as int),
    )
}

/// The path of a session reference below the session root. A reference that is not relative, that
/// leads upwards or that has no names is refused.
pub fn session_reference_path(session_ref: &str) -> (r: Result<String>)
    ensures
        match r {
            Ok(path) => reference_fault(session_ref@) is None && path@ == reference_path(
                session_ref@,
            ),
            Err(e) => reference_fault(session_ref@) matches Some(why) && error::is_format_error(
                e,
                why,
            ),
        },
{
    let names = match session_reference_names(session_ref) {
        Ok(names) => names,
        Err(e) => return Err(e),
    };
    let ghost views = text::list_view(names@);
    let mut path = String::new();
    let mut i: usize = 0;
    while i < names.len()
        invariant
            i <= names@.len(),
            views == text::list_view(names@),
            path@ == names_path(views.subrange(0, i as int)),
        decreases names@.len() - i,
    {
        assert(views.subrange(0, i + 1).drop_last() == views.subrange(0, i as int));
        assert(views.subrange(0, i + 1).last() == names@[i as int]@);
        path = paths::join(path.as_str(), names[i].as_str());
        i = i + 1;
    }
    assert(views.subrange(0, i as int) == views);
    Ok(path)
}

/// Where a session was found.
#[derive(Debug)]
pub struct SessionProbe {
    /// The real path of the session root, or why there is none.
    pub root: std::result::Result<String, String>,
    /// The real path of what the session reference points to, or why there is none.
    pub path: std::result::Result<String, String>,
}

/// Why what was found is no session, if it is none: the root and the file must be there, and the
/// file must lie within the root.
pub open spec fn probe_fault(probe: SessionProbe) -> Option<Seq<char>> {
    match (probe.root, probe.path) {
        (Err(why), _) => Some("session root is unavailable: "@ + why@),
        (_, Err(why)) => Some("session file is unavailable: "@ + why@),
        (Ok(root), Ok(path)) => if paths::within(path@, root@) {
            None
        } else {
            Some("session reference escapes root"@)
        },
    }
}

/// Why a session reference with what was found for it is refused, if it is.
pub open spec fn session_fault(session_ref: Seq<char>, probe: SessionProbe) -> Option<Seq<char>> {
    match reference_fault(session_ref) {
        Some(why) => Some(why),
        None => probe_fault(probe),
    }
}

/// Checks what was found for a session reference.
pub fn check_probe(probe: &SessionProbe) -> (r: Result<()>)
    ensures
        match probe_fault(*probe) {
            Some(why) => r matches Err(e) && error::is_format_error(e, why),
            None => r is Ok,
        },
{
    match (&probe.root, &probe.path) {
        (Err(why), _) => Err(
            Error::FormatError(text::join2("session root is unavailable: ", why.as_str())),
        ),
        (_, Err(why)) => Err(
            Error::FormatError(text::join2("session file is unavailable: ", why.as_str())),
        ),
        (Ok(root), Ok(path)) => if paths::starts_with(path.as_str(), root.as_str()) {
            Ok(())
        } else {
            Err(error::format_error("session reference escapes root"))
        },
    }
}

/// Checks that the session reference of an account, enabled or not, leads to a file within the
/// session root.
pub fn validate_account_session(account: &AccountDto, probe: &SessionProbe) -> (r: Result<()>)
    ensures
        match session_fault(account.session_ref@, *probe) {
            Some(why) => r matches Err(e) && error::is_format_error(e, why),
            None => r is Ok,
        },
{
    match session_reference_names(account.session_ref.as_str()) {
        Ok(_) => check_probe(probe),
        Err(e) => Err(e),
    }
}

proof fn lemma_reference_names(pieces: Seq<Seq<char>>, n: int)
    requires
        0 <= n <= pieces.len(),
        !pieces.contains(".."@),
        forall|i: int| 0 <= i < pieces.len() ==> !(#[trigger] pieces[i]).contains('/'),
    ensures
        forall|i: int|
            0 <= i < reference_names(pieces, n).len() ==> paths::is_name(
                #[trigger] reference_names(pieces, n)[i],
            ),
    decreases n,
{
    if n > 0 {
        lemma_reference_names(pieces, n - 1);
        let before = reference_names(pieces, n - 1);
        let names = reference_names(pieces, n);
        assert(pieces.contains(pieces[n - 1]));
        assert forall|i: int| 0 <= i < names.len() implies paths::is_name(#[trigger] names[i]) by {
            if i < before.len() {
                assert(names[i] == before[i]);
            }
        }
    }
}

proof fn lemma_names_path(names: Seq<Seq<char>>)
    requires
        forall|i: int| 0 <= i < names.len() ==> paths::is_name(#[trigger] names[i]),
    ensures
        names.len() == 0 ==> names_path(names).len() == 0,
        names.len() > 0 ==> paths::plain_relative(names_path(names)) && names_path(names).last()
            != '/',
    decreases names.len(),
{
    if names.len() > 0 {
        lemma_names_path(names.drop_last());
        assert(names.last() == names[names.len() - 1]);
        paths::joining_a_name_extends(names_path(names.drop_last()), names.last());
    }
}

/// The path of an accepted session reference consists of names only, so that it stays below the
/// session root.
pub proof fn accepted_reference_stays_below_root(session_ref: Seq<char>)
    requires
        reference_fault(session_ref) is None,
    ensures
        paths::plain_relative(reference_path(session_ref)),
{
    let pieces = reference_pieces(session_ref);
    paths::pieces_hold_no_separator(session_ref, '/', '\\');
    lemma_reference_names(pieces, pieces.len() as int);
    lemma_names_path(reference_names(pieces, pieces.len() as int));
}

/// Turns accounts into options for starting the sidecar with their sessions.
#[derive(Debug)]
pub struct AccountSpawnResolver {
    /// The directory that holds the sessions.
    pub session_root: String,
    /// The options that all accounts share.
    pub template: SpawnOptions,
}

/// A resolver whose session root is the directory of the configured session file.
pub fn account_session_resolver(session_path: &str, template: SpawnOptions) -> (r: Result<
    AccountSpawnResolver,
>)
    ensures
        match r {
            Ok(resolver) => paths::parent_of(session_path@) == Some(resolver.session_root@)
                && resolver.template == template,
            Err(e) => paths::parent_of(session_path@) is None && error::is_format_error(
                e,
                "configured session root is invalid"@,
            ),
        },
{
    match paths::parent(session_path) {
        Some(session_root) => Ok(AccountSpawnResolver { session_root, template }),
        None => Err(error::format_error("configured session root is invalid")),
    }
}

/// A resolver with the given session root.
pub fn secure_account_session_resolver(session_root: String, template: SpawnOptions) -> (r:
    AccountSpawnResolver)
    ensures
        r == (AccountSpawnResolver { session_root, template }),
{
    AccountSpawnResolver { session_root, template }
}

/// The variables of an environment other than the session path.
pub open spec fn other_variables(env: Seq<(String, String)>) -> Seq<(String, String)>
    decreases env.len(),
{
    if env.len() == 0 {
        Seq::empty()
    } else {
        let before = other_variables(env.drop_last());
        if env.last().0@ == session_variable() {
            before
        } else {
            before.push(env.last())
        }
    }
}

impl AccountSpawnResolver {
    /// The path below the session root where the session of an account should be. A disabled
    /// account has none.
    pub fn session_file(&self, account: &AccountDto) -> (r: Result<String>)
        ensures
            match r {
                Ok(path) => account.enabled && reference_fault(account.session_ref@) is None
                    && path@ == reference_path(account.session_ref@),
                Err(e) => if !account.enabled {
                    error::is_inconsistent(e, "account is disabled"@)
                } else {
                    reference_fault(account.session_ref@) matches Some(why)
                        && error::is_format_error(e, why)
                },
            },
    {
        if !account.enabled {
            return Err(error::inconsistent("account is disabled"));
        }
        session_reference_path(account.session_ref.as_str())
    }

    /// The options for an account, given where its session was found. A session outside the root is
    /// refused; the template's own session path gives way to that of the account.
    pub fn resolve(self, probe: SessionProbe) -> (r: Result<SpawnOptions>)
        ensures
            match probe_fault(probe) {
                Some(why) => r matches Err(e) && error::is_format_error(e, why),
                None => r matches Ok(o) && {
                    &&& o.env@.len() == other_variables(self.template.env@).len() + 1
                    &&& o.env@.drop_last() == other_variables(self.template.env@)
                    &&& o.env@.last().0@ == session_variable()
                    &&& o.env@.last().1@ == probe.path->Ok_0@
                    &&& o == (SpawnOptions { env: o.env, ..self.template })
                },
            },
    {
        if let Err(e) = check_probe(&probe) {
            return Err(e);
        }
        let path = match probe.path {
            Ok(path) => path,
            Err(why) => return Err(Error::FormatError(why)),
        };
        let template = self.template;
        let mut env: Vec<(String, String)> = Vec::new();
        let mut i: usize = 0;
        while i < template.env.len()
            invariant
                i <= template.env@.len(),
                env@ == other_variables(template.env@.subrange(0, i as int)),
            decreases template.env@.len() - i,
        {
            let variable = &template.env[i];
            assert(template.env@.subrange(0, i + 1).drop_last() == template.env@.subrange(
                0,
                i as int,
            ));
            if !text::same_text(variable.0.as_str(), "WEIBACK_COLLECTOR_SESSION_PATH") {
                env.push((variable.0.clone(), variable.1.clone()));
            }
            i = i + 1;
        }
        assert(template.env@.subrange(0, i as int) == template.env@);
        env.push(("WEIBACK_COLLECTOR_SESSION_PATH".to_owned(), path));
        assert(env@.drop_last() == other_variables(template.env@));
        Ok(
            SpawnOptions {
                program: template.program,
                args: template.args,
                env,
                cwd: template.cwd,
                handshake_timeout_ms: template.handshake_timeout_ms,
            },
        )
    }
}

/// A latch for the window between the end of a collection and its record: a worker that enters
/// waits until it is released.
#[derive(Debug, Clone, Copy, PartialEq, Eq, Structural)]
pub struct FinalizationBarrier {
    pub entered: bool,
    pub released: bool,
}

impl FinalizationBarrier {
    /// A latch that nobody has entered and that is not released.
    pub fn new() -> (r: Self)
        ensures
            r == (FinalizationBarrier { entered: false, released: false }),
    {
        FinalizationBarrier { entered: false, released: false }
    }

    /// Enters the latch; the result tells whether to wait.
    pub fn enter_and_wait(&mut self) -> (r: bool)
        ensures
            *final(self) == (FinalizationBarrier { entered: true, ..*old(self) }),
            r == !old(self).released,
    {
        self.entered = true;
        !self.released
    }

    /// Whether to go on waiting for a worker to enter.
    pub fn wait_until_entered(&self) -> (r: bool)
        ensures
            r == !self.entered,
    {
        !self.entered
    }

    /// Releases the latch for good.
    pub fn release(&mut self)
        ensures
            *final(self) == (FinalizationBarrier { released: true, ..*old(self) }),
    {
        self.released = true;
    }
}

/// The state of a worker.
#[derive(Debug)]
pub enum WorkerSlot {
    /// The sidecar is being started under this lease.
    Starting { owner_token: String, generation: i64 },
    /// The sidecar runs in this process.
    Running { pid: u32 },
}

/// What a worker slot is.
pub enum SlotView {
    Starting(Seq<char>, i64),
    Running(u32),
}

pub open spec fn slot_view(slot: WorkerSlot) -> SlotView {
    match slot {
        WorkerSlot::Starting { owner_token, generation } => SlotView::Starting(
            owner_token@,
            generation,
        ),
        WorkerSlot::Running { pid } => SlotView::Running(pid),
    }
}

/// How an activation ended.
#[derive(Debug, Clone, Copy, PartialEq, Eq, Structural)]
pub enum ActivationOutcome {
    /// The worker is running.
    Active,
    /// The application is shutting down.
    Shutdown,
}

/// The registered worker of a job.
#[derive(Debug)]
pub struct Worker {
    pub job_id: i64,
    pub slot: WorkerSlot,
}

/// The slot that a list of workers gives a job.
pub open spec fn slot_of(workers: Seq<Worker>, job_id: i64) -> Option<SlotView>
    decreases workers.len(),
{
    if workers.len() == 0 {
        None
    } else if workers.last().job_id == job_id {
        Some(slot_view(workers.last().slot))
    } else {
        slot_of(workers.drop_last(), job_id)
    }
}

/// The slots of a list of workers by job.
pub open spec fn slots_of(workers: Seq<Worker>) -> Map<i64, SlotView> {
    Map::new(
        |job_id: i64| slot_of(workers, job_id) is Some,
        |job_id: i64| slot_of(workers, job_id)->0,
    )
}

/// Whether no job has two workers.
pub open spec fn one_worker_each(workers: Seq<Worker>) -> bool {
    forall|i: int, j: int|
        0 <= i < j < workers.len() ==> (#[trigger] workers[i]).job_id != (
        #[trigger] workers[j]).job_id
}

proof fn lemma_slot_at(workers: Seq<Worker>, at: int)
    requires
        one_worker_each(workers),
        0 <= at < workers.len(),
    ensures
        slot_of(workers, workers[at].job_id) == Some(slot_view(workers[at].slot)),
    decreases workers.len(),
{
    if at < workers.len() - 1 {
        assert(workers.last() == workers[workers.len() - 1]);
        assert(one_worker_each(workers.drop_last()));
        lemma_slot_at(workers.drop_last(), at);
        assert(workers.drop_last()[at] == workers[at]);
    }
}

proof fn lemma_no_slot(workers: Seq<Worker>, job_id: i64)
    requires
        forall|i: int| 0 <= i < workers.len() ==> (#[trigger] workers[i]).job_id != job_id,
    ensures
        slot_of(workers, job_id) is None,
    decreases workers.len(),
{
    if workers.len() > 0 {
        assert(workers.last() == workers[workers.len() - 1]);
        lemma_no_slot(workers.drop_last(), job_id);
    }
}

proof fn lemma_slot_found(workers: Seq<Worker>, job_id: i64) -> (at: int)
    requires
        slot_of(workers, job_id) is Some,
    ensures
        0 <= at < workers.len(),
        workers[at].job_id == job_id,
        slot_of(workers, job_id) == Some(slot_view(workers[at].slot)),
    decreases workers.len(),
{
    if workers.last().job_id == job_id {
        workers.len() - 1
    } else {
        lemma_slot_found(workers.drop_last(), job_id)
    }
}

/// The workers of the process: at most one per job, and none anew once the application shuts down.
#[derive(Debug)]
pub struct WorkerRegistry {
    workers: Vec<Worker>,
    shutting_down: bool,
}

impl WorkerRegistry {
    /// No job has two workers.
    pub closed spec fn wf(&self) -> bool {
        one_worker_each(self.workers@)
    }

    /// The slots by job.
    pub closed spec fn slots(&self) -> Map<i64, SlotView> {
        slots_of(self.workers@)
    }

    /// Whether the application is shutting down.
    pub closed spec fn closing(&self) -> bool {
        self.shutting_down
    }

    /// A registry without workers.
    pub fn new() -> (r: Self)
        ensures
            r.wf(),
            r.slots() == Map::<i64, SlotView>::empty(),
            !r.closing(),
    {
        let r = WorkerRegistry { workers: Vec::new(), shutting_down: false };
        assert(r.slots() =~= Map::<i64, SlotView>::empty());
        r
    }

    fn find(&self, job_id: i64) -> (r: Option<usize>)
        requires
            self.wf(),
        ensures
            match r {
                Some(at) => at < self.workers@.len() && self.workers@[at as int].job_id == job_id
                    && self.slots().contains_key(job_id) && self.slots()[job_id] == slot_view(
                    self.workers@[at as int].slot,
                ),
                None => !self.slots().contains_key(job_id) && forall|i: int|
                    0 <= i < self.workers@.len() ==> (#[trigger] self.workers@[i]).job_id != job_id,
            },
    {
        let mut i: usize = 0;
        while i < self.workers.len()
            invariant
                self.wf(),
                i <= self.workers@.len(),
                forall|j: int| 0 <= j < i ==> (#[trigger] self.workers@[j]).job_id != job_id,
            decreases self.workers@.len() - i,
        {
            if self.workers[i].job_id == job_id {
                proof {
                    lemma_slot_at(self.workers@, i as int);
                }
                return Some(i);
            }
            i = i + 1;
        }
        proof {
            lemma_no_slot(self.workers@, job_id);
        }
        None
    }

    fn job_ids(&self) -> (r: Vec<i64>)
        requires
            self.wf(),
        ensures
            r@.no_duplicates(),
            forall|job_id: i64| r@.contains(job_id) <==> self.slots().contains_key(job_id),
    {
        let mut r: Vec<i64> = Vec::new();
        let mut i: usize = 0;
        while i < self.workers.len()
            invariant
                self.wf(),
                i <= self.workers@.len(),
                r@.len() == i,
                forall|j: int| 0 <= j < i ==> r@[j] == (#[trigger] self.workers@[j]).job_id,
            decreases self.workers@.len() - i,
        {
            r.push(self.workers[i].job_id);
            i = i + 1;
        }
        proof {
            let ws = self.workers@;
            assert forall|a: int, b: int| 0 <= a < r@.len() && 0 <= b < r@.len() && a
                != b implies r@[a] != r@[b] by {
                assert(r@[a] == ws[a].job_id);
                assert(r@[b] == ws[b].job_id);
            }
            assert forall|job_id: i64| r@.contains(job_id) <==> self.slots().contains_key(
                job_id,
            ) by {
                if r@.contains(job_id) {
                    let k = choose|k: int| 0 <= k < r@.len() && r@[k] == job_id;
                    assert(ws[k].job_id == job_id);
                    lemma_slot_at(ws, k);
                }
                if self.slots().contains_key(job_id) {
                    let k = lemma_slot_found(ws, job_id);
                    assert(r@[k] == ws[k].job_id);
                }
            }
        }
        r
    }

    /// Prevents new reservations and lists the jobs that have workers.
    pub fn begin_shutdown(&mut self) -> (r: Vec<i64>)
        requires
            old(self).wf(),
        ensures
            final(self).wf(),
            final(self).closing(),
            final(self).slots() == old(self).slots(),
            r@.no_duplicates(),
            forall|job_id: i64| r@.contains(job_id) <==> old(self).slots().contains_key(job_id),
    {
        self.shutting_down = true;
        self.job_ids()
    }

    /// Closes the registration for good, and begins to shut down every worker that is registered,
    /// within one timeout for all of them together.
    pub fn shutdown_all(&mut self, timeout_ms: u64) -> (r: WorkerShutdown)
        requires
            old(self).wf(),
        ensures
            final(self).wf(),
            final(self).closing(),
            final(self).slots() == old(self).slots(),
            r.wf(),
            forall|job_id: i64|
                r.jobs@.contains(job_id) <==> old(self).slots().contains_key(job_id),
            r.outcomes@.len() == 0,
            r.timeout_ms == timeout_ms,
    {
        WorkerShutdown { jobs: self.begin_shutdown(), outcomes: Vec::new(), timeout_ms }
    }

    /// Reserves the worker of a job under a lease; refused while the application shuts down and when
    /// the job already has a worker.
    pub fn reserve(&mut self, job_id: i64, owner_token: &str, generation: i64) -> (r: Result<()>)
        requires
            old(self).wf(),
        ensures
            final(self).wf(),
            final(self).closing() == old(self).closing(),
            if old(self).closing() {
                final(self).slots() == old(self).slots() && (r matches Err(e)
                    && error::is_inconsistent(e, "worker registry is shutting down"@))
            } else if old(self).slots().contains_key(job_id) {
                final(self).slots() == old(self).slots() && (r matches Err(e)
                    && error::is_inconsistent(
                    e,
                    "worker already registered for sync job "@ + text::signed_decimal(
                        job_id as int,
                    ),
                ))
            } else {
                r is Ok && final(self).slots() == old(self).slots().insert(
                    job_id,
                    SlotView::Starting(owner_token@, generation),
                )
            },
    {
        if self.shutting_down {
            return Err(error::inconsistent("worker registry is shutting down"));
        }
        if self.find(job_id).is_some() {
            return Err(
                Error::InconsistentTask(
                    text::join2(
                        "worker already registered for sync job ",
                        text::i64_text(job_id).as_str(),
                    ),
                ),
            );
        }
        let ghost before = self.workers@;
        self.workers.push(
            Worker {
                job_id,
                slot: WorkerSlot::Starting { owner_token: owner_token.to_owned(), generation },
            },
        );
        proof {
            assert(self.workers@.drop_last() == before);
            assert(self.slots() =~= slots_of(before).insert(
                job_id,
                SlotView::Starting(owner_token@, generation),
            ));
        }
        Ok(())
    }

    /// Turns a reservation into a running worker. A reservation under another lease, or none, is
    /// refused; while the application shuts down nothing is activated.
    pub fn activate(
        &mut self,
        job_id: i64,
        owner_token: &str,
        generation: i64,
        pid: u32,
    ) -> (r: Result<ActivationOutcome>)
        requires
            old(self).wf(),
        ensures
            final(self).wf(),
            final(self).closing() == old(self).closing(),
            if old(self).closing() {
                final(self).slots() == old(self).slots() && r == Ok::<ActivationOutcome, Error>(
                    ActivationOutcome::Shutdown,
                )
            } else if old(self).slots().contains_key(job_id) && old(self).slots()[job_id]
                == SlotView::Starting(owner_token@, generation) {
                final(self).slots() == old(self).slots().insert(job_id, SlotView::Running(pid))
                    && r == Ok::<ActivationOutcome, Error>(ActivationOutcome::Active)
            } else {
                final(self).slots() == old(self).slots() && (r matches Err(e)
                    && error::is_inconsistent(
                    e,
                    "worker reservation lost for sync job "@ + text::signed_decimal(job_id as int),
                ))
            },
    {
        if self.shutting_down {
            return Ok(ActivationOutcome::Shutdown);
        }
        if let Some(at) = self.find(job_id) {
            let ours = match &self.workers[at].slot {
                WorkerSlot::Starting { owner_token: reserved, generation: under } => {
                    text::same_text(reserved.as_str(), owner_token) && *under == generation
                },
                WorkerSlot::Running { .. } => false,
            };
            if ours {
                let ghost before = self.workers@;
                self.workers.set(at, Worker { job_id, slot: WorkerSlot::Running { pid } });
                proof {
                    let after = self.workers@;
                    assert forall|i: int, j: int| 0 <= i < j < after.len() implies (
                    #[trigger] after[i]).job_id != (#[trigger] after[j]).job_id by {
                        assert(before[i].job_id != before[j].job_id);
                    }
                    assert forall|id: i64| slot_of(after, id) == (if id == job_id {
                        Some(SlotView::Running(pid))
                    } else {
                        slot_of(before, id)
                    }) by {
                        lemma_slot_at(after, at as int);
                        if id != job_id {
                            if slot_of(before, id) is Some {
                                let k = lemma_slot_found(before, id);
                                assert(after[k] == before[k]);
                                lemma_slot_at(after, k);
                            } else {
                                if slot_of(after, id) is Some {
                                    let k = lemma_slot_found(after, id);
                                    assert(before[k] == after[k]);
                                    lemma_slot_at(before, k);
                                }
                            }
                        }
                    }
                    assert(self.slots() =~= slots_of(before).insert(job_id, SlotView::Running(pid)));
                }
                return Ok(ActivationOutcome::Active);
            }
        }
        Err(
            Error::InconsistentTask(
                text::join2(
                    "worker reservation lost for sync job ",
                    text::i64_text(job_id).as_str(),
                ),
            ),
        )
    }

    /// Forgets the worker of a job.
    pub fn unregister(&mut self, job_id: i64)
        requires
            old(self).wf(),
        ensures
            final(self).wf(),
            final(self).closing() == old(self).closing(),
            final(self).slots() == old(self).slots().remove(job_id),
    {
        let ghost before = self.workers@;
        match self.find(job_id) {
            Some(at) => {
                let _ = self.workers.remove(at);
                proof {
                    let after = self.workers@;
                    assert forall|i: int, j: int| 0 <= i < j < after.len() implies (
                    #[trigger] after[i]).job_id != (#[trigger] after[j]).job_id by {
                        let bi = if i < at {
                            i
                        } else {
                            i + 1
                        };
                        let bj = if j < at {
                            j
                        } else {
                            j + 1
                        };
                        assert(after[i] == before[bi]);
                        assert(after[j] == before[bj]);
                    }
                    assert forall|id: i64| slot_of(after, id) == (if id == job_id {
                        None
                    } else {
                        slot_of(before, id)
                    }) by {
                        if slot_of(after, id) is Some {
                            let k = lemma_slot_found(after, id);
                            let b = if k < at {
                                k
                            } else {
                                k + 1
                            };
                            assert(after[k] == before[b]);
                            lemma_slot_at(before, b);
                            assert(before[at as int].job_id == job_id);
                        } else if slot_of(before, id) is Some && id != job_id {
                            let b = lemma_slot_found(before, id);
                            let k = if b < at {
                                b
                            } else {
                                b - 1
                            };
                            assert(after[k] == before[b]);
                            lemma_slot_at(after, k);
                        }
                    }
                    assert(self.slots() =~= slots_of(before).remove(job_id));
                }
            },
            None => {
                assert(self.slots() =~= slots_of(before).remove(job_id));
            },
        }
    }

    /// The process of a running worker.
    pub fn pid(&self, job_id: i64) -> (r: Option<u32>)
        requires
            self.wf(),
        ensures
            r == if self.slots().contains_key(job_id) {
                match self.slots()[job_id] {
                    SlotView::Running(pid) => Some(pid),
                    _ => None,
                }
            } else {
                None
            },
    {
        match self.find(job_id) {
            Some(at) => match &self.workers[at].slot {
                WorkerSlot::Running { pid } => Some(*pid),
                _ => None,
            },
            None => None,
        }
    }

    /// Whether a job has a worker.
    pub fn contains(&self, job_id: i64) -> (r: bool)
        requires
            self.wf(),
        ensures
            r == self.slots().contains_key(job_id),
    {
        self.find(job_id).is_some()
    }

    /// Whether the application is shutting down.
    pub fn is_shutting_down(&self) -> (r: bool)
        ensures
            r == self.closing(),
    {
        self.shutting_down
    }

    /// What to do to stop the worker of a job with the given request, `elapsed_ms` into an attempt
    /// that may take `timeout_ms`: a running worker is sent the request, a starting one is waited
    /// for.
    pub fn stop(
        &self,
        job_id: i64,
        action: ExecutionControl,
        elapsed_ms: u64,
        timeout_ms: u64,
    ) -> (r: StopStep)
        requires
            self.wf(),
        ensures
            r == stop_step(self.slots(), job_id, action, elapsed_ms, timeout_ms),
    {
        let left_ms: u64 = if elapsed_ms >= timeout_ms {
            0
        } else {
            timeout_ms - elapsed_ms
        };
        match self.find(job_id) {
            Some(at) => match &self.workers[at].slot {
                WorkerSlot::Running { pid } => StopStep::Send { pid: *pid, action, left_ms },
                WorkerSlot::Starting { .. } => if left_ms == 0 {
                    StopStep::Done(ControlStopResult::WorkerStarting)
                } else {
                    StopStep::Wait(left_ms)
                },
            },
            None => StopStep::Done(ControlStopResult::WorkerNotFound),
        }
    }

    /// What to do to stop a worker whose job has already been fenced: it is asked to pause.
    pub fn stop_fenced_job(&self, job_id: i64, elapsed_ms: u64, timeout_ms: u64) -> (r: StopStep)
        requires
            self.wf(),
        ensures
            r == stop_step(
                self.slots(),
                job_id,
                ExecutionControl::Pause,
                elapsed_ms,
                timeout_ms,
            ),
    {
        self.stop(job_id, ExecutionControl::Pause, elapsed_ms, timeout_ms)
    }
}

/// How the attempt to stop a worker ended.
#[derive(Debug, PartialEq, Eq)]
pub enum ControlStopResult {
    /// The process has been stopped.
    Stopped { pid: u32 },
    /// The job has no worker.
    WorkerNotFound,
    /// The worker is still being started.
    WorkerStarting,
    /// The worker did not confirm in time.
    StopTimedOut { pid: u32 },
    /// The process could not be stopped.
    StopFailed(String),
}

/// What to do to stop a worker.
#[derive(Debug, PartialEq, Eq)]
pub enum StopStep {
    /// Send this request to the worker with this process, wait for its reply for at most the given
    /// milliseconds, then take [`stop_outcome`].
    Send { pid: u32, action: ExecutionControl, left_ms: u64 },
    /// Wait for a change of the registry for at most the given milliseconds, then ask again.
    Wait(u64),
    /// There is nothing more to do.
    Done(ControlStopResult),
}

/// The time that is left of a timeout.
pub open spec fn time_left(elapsed_ms: u64, timeout_ms: u64) -> u64 {
    if elapsed_ms >= timeout_ms {
        0
    } else {
        (timeout_ms - elapsed_ms) as u64
    }
}

/// What to do to stop the worker of a job, `elapsed_ms` into an attempt that may take `timeout_ms`.
pub open spec fn stop_step(
    slots: Map<i64, SlotView>,
    job_id: i64,
    action: ExecutionControl,
    elapsed_ms: u64,
    timeout_ms: u64,
) -> StopStep {
    if !slots.contains_key(job_id) {
        StopStep::Done(ControlStopResult::WorkerNotFound)
    } else {
        match slots[job_id] {
            SlotView::Running(pid) => StopStep::Send {
                pid,
                action,
                left_ms: time_left(elapsed_ms, timeout_ms),
            },
            SlotView::Starting(_, _) => if elapsed_ms >= timeout_ms {
                StopStep::Done(ControlStopResult::WorkerStarting)
            } else {
                StopStep::Wait(time_left(elapsed_ms, timeout_ms))
            },
        }
    }
}

/// What came of a control request.
#[derive(Debug, PartialEq, Eq)]
pub enum ControlReply {
    /// The worker is gone and cannot take the request.
    Undelivered,
    /// The worker confirmed that its sidecar was killed.
    Confirmed,
    /// The worker could not kill its sidecar.
    Refused(String),
    /// The worker did not answer in time.
    Silent,
}

/// How the attempt to stop a worker ended, by the reply to its control request.
pub fn stop_outcome(pid: u32, reply: ControlReply) -> (r: ControlStopResult)
    ensures
        r == match reply {
            ControlReply::Undelivered => ControlStopResult::WorkerNotFound,
            ControlReply::Confirmed => ControlStopResult::Stopped { pid },
            ControlReply::Refused(why) => ControlStopResult::StopFailed(why),
            ControlReply::Silent => ControlStopResult::StopTimedOut { pid },
        },
{
    match reply {
        ControlReply::Undelivered => ControlStopResult::WorkerNotFound,
        ControlReply::Confirmed => ControlStopResult::Stopped { pid },
        ControlReply::Refused(why) => ControlStopResult::StopFailed(why),
        ControlReply::Silent => ControlStopResult::StopTimedOut { pid },
    }
}

/// Whether a worker may still be running after the attempt to stop it.
pub open spec fn stop_degraded(result: ControlStopResult) -> bool {
    result is WorkerStarting || result is StopTimedOut || result is StopFailed
}

impl ControlStopResult {
    /// Whether the worker may still be running.
    pub fn is_degraded(&self) -> (r: bool)
        ensures
            r == stop_degraded(*self),
    {
        match self {
            ControlStopResult::WorkerStarting => true,
            ControlStopResult::StopTimedOut { .. } => true,
            ControlStopResult::StopFailed(_) => true,
            ControlStopResult::Stopped { .. } => false,
            ControlStopResult::WorkerNotFound => false,
        }
    }
}

/// How the worker of a job was shut down.
#[derive(Debug, PartialEq, Eq)]
pub struct WorkerShutdownOutcome {
    pub job_id: i64,
    pub worker_stop: ControlStopResult,
}

/// How all workers were shut down.
#[derive(Debug, PartialEq, Eq)]
pub struct WorkerShutdownSummary {
    pub workers: Vec<WorkerShutdownOutcome>,
}

/// Whether some worker may still be running.
pub open spec fn workers_degraded(workers: Seq<WorkerShutdownOutcome>) -> bool {
    exists|i: int| 0 <= i < workers.len() && stop_degraded((#[trigger] workers[i]).worker_stop)
}

impl Default for WorkerShutdownSummary {
    fn default() -> (r: Self)
        ensures
            r.workers@.len() == 0,
    {
        WorkerShutdownSummary { workers: Vec::new() }
    }
}

impl WorkerShutdownSummary {
    /// Whether some worker may still be running.
    pub fn degraded(&self) -> (r: bool)
        ensures
            r == workers_degraded(self.workers@),
    {
        let mut i: usize = 0;
        while i < self.workers.len()
            invariant
                i <= self.workers@.len(),
                forall|j: int|
                    0 <= j < i ==> !stop_degraded((#[trigger] self.workers@[j]).worker_stop),
            decreases self.workers@.len() - i,
        {
            if self.workers[i].worker_stop.is_degraded() {
                assert(stop_degraded(self.workers@[i as int].worker_stop));
                return true;
            }
            i = i + 1;
        }
        false
    }
}

/// The shutdown of all workers, one after the other.
#[derive(Debug)]
pub struct WorkerShutdown {
    /// The jobs whose workers are shut down.
    pub jobs: Vec<i64>,
    /// How the workers of the first jobs were shut down.
    pub outcomes: Vec<WorkerShutdownOutcome>,
    /// How long all of it may take, in milliseconds.
    pub timeout_ms: u64,
}

/// What to do next for the shutdown of all workers.
#[derive(Debug, PartialEq, Eq)]
pub enum ShutdownStep {
    /// Stop the worker of this job as told, then call [`WorkerShutdown::record`].
    Stop { job_id: i64, step: StopStep },
    /// All is done: take [`WorkerShutdown::finish`].
    Finish,
}

impl WorkerShutdown {
    /// No job is listed twice, and the outcomes so far are those of the first jobs, in order.
    pub open spec fn wf(&self) -> bool {
        &&& self.jobs@.no_duplicates()
        &&& self.outcomes@.len() <= self.jobs@.len()
        &&& forall|i: int|
            0 <= i < self.outcomes@.len() ==> (#[trigger] self.outcomes@[i]).job_id
                == self.jobs@[i]
    }

    /// What to do next, `elapsed_ms` after the beginning: the next worker is asked to shut down
    /// within what is left of the common timeout.
    pub fn next(&self, registry: &WorkerRegistry, elapsed_ms: u64) -> (r: ShutdownStep)
        requires
            self.wf(),
            registry.wf(),
        ensures
            r == if self.outcomes@.len() < self.jobs@.len() {
                let job_id = self.jobs@[self.outcomes@.len() as int];
                ShutdownStep::Stop {
                    job_id,
                    step: stop_step(
                        registry.slots(),
                        job_id,
                        ExecutionControl::Shutdown,
                        elapsed_ms,
                        self.timeout_ms,
                    ),
                }
            } else {
                ShutdownStep::Finish
            },
    {
        let done: usize = self.outcomes.len();
        if done < self.jobs.len() {
            let job_id: i64 = self.jobs[done];
            let step = registry.stop(
                job_id,
                ExecutionControl::Shutdown,
                elapsed_ms,
                self.timeout_ms,
            );
            ShutdownStep::Stop { job_id, step }
        } else {
            ShutdownStep::Finish
        }
    }

    /// Records how the next worker was shut down.
    pub fn record(&mut self, worker_stop: ControlStopResult)
        requires
            old(self).wf(),
            old(self).outcomes@.len() < old(self).jobs@.len(),
        ensures
            final(self).wf(),
            final(self).jobs == old(self).jobs,
            final(self).timeout_ms == old(self).timeout_ms,
            final(self).outcomes@ == old(self).outcomes@.push(
                WorkerShutdownOutcome {
                    job_id: old(self).jobs@[old(self).outcomes@.len() as int],
                    worker_stop,
                },
            ),
    {
        let done: usize = self.outcomes.len();
        let job_id: i64 = self.jobs[done];
        self.outcomes.push(WorkerShutdownOutcome { job_id, worker_stop });
    }

    /// The summary, once every worker has its outcome: one for each job, in the order of the jobs.
    pub fn finish(self) -> (r: WorkerShutdownSummary)
        requires
            self.wf(),
            self.outcomes@.len() == self.jobs@.len(),
        ensures
            r.workers == self.outcomes,
            r.workers@.len() == self.jobs@.len(),
            forall|i: int|
                0 <= i < self.jobs@.len() ==> (#[trigger] r.workers@[i]).job_id == self.jobs@[i],
    {
        WorkerShutdownSummary { workers: self.outcomes }
    }
}

/// A shutdown reports exactly one outcome for each job that had a worker when it began, and none for
/// any other job.
pub proof fn each_worker_is_reported_once(shutdown: WorkerShutdown, slots: Map<i64, SlotView>)
    requires
        shutdown.wf(),
        shutdown.outcomes@.len() == shutdown.jobs@.len(),
        forall|job_id: i64| shutdown.jobs@.contains(job_id) <==> slots.contains_key(job_id),
    ensures
        forall|job_id: i64|
            slots.contains_key(job_id) <==> exists|i: int|
                0 <= i < shutdown.outcomes@.len() && (#[trigger] shutdown.outcomes@[i]).job_id
                    == job_id,
        forall|i: int, j: int|
            0 <= i < j < shutdown.outcomes@.len() ==> (#[trigger] shutdown.outcomes@[i]).job_id
                != (#[trigger] shutdown.outcomes@[j]).job_id,
{
    assert forall|job_id: i64|
        slots.contains_key(job_id) <==> exists|i: int|
            0 <= i < shutdown.outcomes@.len() && (#[trigger] shutdown.outcomes@[i]).job_id
                == job_id by {
        if shutdown.jobs@.contains(job_id) {
            let i = choose|i: int| 0 <= i < shutdown.jobs@.len() && shutdown.jobs@[i] == job_id;
            assert(shutdown.outcomes@[i].job_id == job_id);
        }
        if exists|i: int|
            0 <= i < shutdown.outcomes@.len() && (#[trigger] shutdown.outcomes@[i]).job_id
                == job_id {
            let i = choose|i: int|
                0 <= i < shutdown.outcomes@.len() && (#[trigger] shutdown.outcomes@[i]).job_id
                    == job_id;
            assert(shutdown.jobs@[i] == job_id);
            assert(shutdown.jobs@.contains(job_id));
        }
    }
}

} // verus!
