//! The smaller parts: latches, executors, batches, paths of backups, and the names of columns.
use vstd::prelude::*;

use crate::error::{Error, Result};
use crate::json;
use crate::json::{Json, JsonView, NumberView};
use crate::laws::media::faulted;
use crate::legacy::import::{media_type_name, MediaKind};
use crate::media_pipeline::RedirectChain;
use crate::paths;
use crate::rate_limit::{shift, PendingRateLimitBarrier};
use crate::refresh_scheduler::{
    tick_summary, RefreshScanSummary, RefreshScheduleConfig, SchedulerTickSummary,
};
use crate::service::shutdown::ShutdownAdmission;
use crate::sidecar::collector::{
    get_i64, parse_url_or_placeholder, url_text_or_placeholder, CollectionRequest, CollectionStatus,
    CollectionSummary, ExecutionControl,
};
use crate::sidecar::protocol::CommandType;
use crate::sidecar::run::{control_status, ExternalStop, PendingBatch};
use crate::sidecar::supervisor::SpawnOptions;
use crate::storage::internal::entities::{
    CommentIden, MediaIden, MonitoredUserIden, SyncJobIden, SyncRunIden, SyncCheckpointIden, ProcessedEventIden, RefreshTier, SyncJobDto,
};
use crate::storage::internal::transactional::{is_placeholder_host, is_placeholder_url};
use crate::sync_executor;
use crate::sync_executor::job::{
    request_with_payload, JobExecutionResult, JobExecutor, JobRun, JobStage, JobStep,
};
use crate::sync_executor::{
    secure_account_session_resolver, session_reference_names,
    AccountSpawnResolver, FinalizationBarrier, WorkerShutdownSummary,
};
use crate::text;
use crate::user_backup::manifest::UserBackupPaths;
use crate::user_backup::restore::restore_user_backup_with_fault_for_test;
use crate::web;

verus! {

/// A latch holds whoever enters it until it is released, and nobody after that; whether somebody has
/// entered is known from then on.
pub proof fn latches_hold_until_released(
    a: &mut FinalizationBarrier,
    b: &mut FinalizationBarrier,
    c: &mut FinalizationBarrier,
    fresh: FinalizationBarrier,
    empty: bool,
    held: bool,
    entered: bool,
    late: bool,
)
    requires
        call_ensures(FinalizationBarrier::new, (), fresh),
        call_ensures(FinalizationBarrier::wait_until_entered, (&fresh,), empty),
        *old(a) == fresh,
        call_ensures(FinalizationBarrier::enter_and_wait, (a,), held),
        call_ensures(FinalizationBarrier::wait_until_entered, (&*final(a),), entered),
        *old(b) == *final(a),
        call_ensures(FinalizationBarrier::release, (b,), ()),
        *old(c) == *final(b),
        call_ensures(FinalizationBarrier::enter_and_wait, (c,), late),
    ensures
        empty && held && !entered && !late,
{
}

/// The latch before a limit is applied holds in the same way.
pub proof fn limit_latches_hold_until_released(
    a: &mut PendingRateLimitBarrier,
    b: &mut PendingRateLimitBarrier,
    c: &mut PendingRateLimitBarrier,
    fresh: PendingRateLimitBarrier,
    empty: bool,
    held: bool,
    entered: bool,
    late: bool,
)
    requires
        call_ensures(PendingRateLimitBarrier::new, (), fresh),
        call_ensures(PendingRateLimitBarrier::wait_until_entered, (&fresh,), empty),
        *old(a) == fresh,
        call_ensures(PendingRateLimitBarrier::enter_and_wait, (a,), held),
        call_ensures(PendingRateLimitBarrier::wait_until_entered, (&*final(a),), entered),
        *old(b) == *final(a),
        call_ensures(PendingRateLimitBarrier::release, (b,), ()),
        *old(c) == *final(b),
        call_ensures(PendingRateLimitBarrier::enter_and_wait, (c,), late),
    ensures
        empty && held && !entered && !late,
{
}

/// A time is moved by exactly the seconds given, and stays at the first or last time where it would
/// go beyond; moving it back undoes that where it does not.
pub proof fn times_are_moved_within_their_range(
    epoch: i64,
    seconds: i64,
    r: i64,
    back: i64,
)
    requires
        seconds > i64::MIN,
        call_ensures(shift, (epoch, seconds), r),
        call_ensures(shift, (r, (-seconds) as i64), back),
    ensures
        i64::MIN <= epoch + seconds <= i64::MAX ==> r == epoch + seconds && back == epoch,
        epoch + seconds > i64::MAX ==> r == i64::MAX,
        epoch + seconds < i64::MIN ==> r == i64::MIN,
{
}

/// Each tier has its own interval and its own jitter.
pub proof fn tiers_have_their_own_settings(
    config: RefreshScheduleConfig,
    hot: i64,
    warm: i64,
    cold: i64,
    hot_jitter: i64,
    warm_jitter: i64,
    cold_jitter: i64,
    scan: RefreshScanSummary,
    executed: Option<JobExecutionResult>,
    summary: SchedulerTickSummary,
)
    requires
        call_ensures(RefreshScheduleConfig::interval_secs, (config, RefreshTier::Hot), hot),
        call_ensures(RefreshScheduleConfig::interval_secs, (config, RefreshTier::Warm), warm),
        call_ensures(RefreshScheduleConfig::interval_secs, (config, RefreshTier::Cold), cold),
        call_ensures(RefreshScheduleConfig::jitter_secs, (config, RefreshTier::Hot), hot_jitter),
        call_ensures(RefreshScheduleConfig::jitter_secs, (config, RefreshTier::Warm), warm_jitter),
        call_ensures(RefreshScheduleConfig::jitter_secs, (config, RefreshTier::Cold), cold_jitter),
        call_ensures(tick_summary, (scan, executed), summary),
    ensures
        hot == config.hot_interval_secs && warm == config.warm_interval_secs && cold
            == config.cold_interval_secs,
        hot_jitter == config.hot_jitter_secs && warm_jitter == config.warm_jitter_secs
            && cold_jitter == config.cold_jitter_secs,
        summary.refresh_enqueued == scan.enqueued && summary.executed == executed,
{
}

/// Without other settings a hot user is refreshed every quarter of an hour, a warm one every six hours
/// and a cold one every day, give or take one, ten and thirty minutes. Nothing has been counted, nothing
/// runs and nobody has been stopped to begin with.
pub proof fn defaults_are_moderate(
    schedule: RefreshScheduleConfig,
    admission: ShutdownAdmission,
    options: SpawnOptions,
    summary: CollectionSummary,
    workers: WorkerShutdownSummary,
)
    requires
        call_ensures(RefreshScheduleConfig::default, (), schedule),
        call_ensures(ShutdownAdmission::default, (), admission),
        call_ensures(SpawnOptions::default, (), options),
        call_ensures(CollectionSummary::default, (), summary),
        call_ensures(WorkerShutdownSummary::default, (), workers),
    ensures
        schedule.hot_interval_secs == 15 * 60 && schedule.hot_jitter_secs == 60,
        schedule.warm_interval_secs == 6 * 3600 && schedule.warm_jitter_secs == 10 * 60,
        schedule.cold_interval_secs == 24 * 3600 && schedule.cold_jitter_secs == 30 * 60,
        !admission.shutting_down && admission.active_writers == 0,
        options.program@.len() == 0 && options.args@.len() == 0 && options.env@.len() == 0
            && options.cwd is None && options.handshake_timeout_ms == 10_000,
        summary.status == CollectionStatus::Stopped && summary.fetched_count == 0 && summary.pages
            == 0 && summary.error is None && summary.rate_limit is None,
        workers.workers@.len() == 0,
{
    reveal_strlit("");
}

/// A number is read from a field whether it is written as a number or as text, and from no other
/// value.
pub proof fn numbers_are_read_from_texts_too(v: Json, key: &str, n: i64, written: &str, r: Option<i64>, t: Option<i64>)
    requires
        call_ensures(get_i64, (&v, key), r),
        call_ensures(text::parse_i64, (written,), t),
    ensures
        json::field(v@, key@) == Some(JsonView::Number(NumberView::Integer(n as int))) ==> r
            == Some(n),
        json::field(v@, key@) == Some(JsonView::Text(written@)) ==> r == t,
        json::field(v@, key@) is None ==> r is None,
        json::field(v@, key@) == Some(JsonView::Null) ==> r is None,
        json::field(v@, key@) == Some(JsonView::Bool(true)) ==> r is None,
{
}

/// An address is kept in its normal form; in place of one that is missing or unusable stands the
/// placeholder, which is known as such, and no address of another host is.
pub proof fn unusable_addresses_have_a_placeholder(
    parts: web::UrlParts,
    why: String,
    raw: &str,
    kept: String,
    replaced: String,
    missing: String,
    given: String,

    placeholder: bool,
    host: bool,
)
    requires
        call_ensures(url_text_or_placeholder, (Ok(parts),), kept),
        call_ensures(url_text_or_placeholder, (Err(why),), replaced),
        call_ensures(parse_url_or_placeholder, (None,), missing),
        call_ensures(parse_url_or_placeholder, (Some(raw),), given),
        call_ensures(is_placeholder_url, (raw,), placeholder),
        call_ensures(is_placeholder_host, (&parts,), host),
    ensures
        kept@ == parts.text@,
        replaced@ == "https://example.invalid/"@ && missing@ == "https://example.invalid/"@,
        web::parsed_url(raw@) matches Ok(u) ==> given@ == u.text,
        web::parsed_url(raw@) is Err ==> given@ == "https://example.invalid/"@,
        host <==> (parts.host_text matches Some(h) && h@ == "example.invalid"@),
        web::parsed_url(raw@) == Ok::<web::UrlView, Seq<char>>(parts@) ==> placeholder == host,
{
}

/// A request ends a collection as it asks to: a pause pauses it, a cancellation cancels it, and a
/// shutdown shuts it down; a raised flag cancels or interrupts it.
pub proof fn requests_end_collections_as_they_ask(
    pause: CollectionStatus,
    cancel: CollectionStatus,
    shutdown: CollectionStatus,
    flag: CollectionStatus,
    interrupt: CollectionStatus,
    batch: PendingBatch,
    fresh: PendingBatch,
    f: bool,
    e: bool,
)
    requires
        call_ensures(control_status, (ExecutionControl::Pause,), pause),
        call_ensures(control_status, (ExecutionControl::Cancel,), cancel),
        call_ensures(control_status, (ExecutionControl::Shutdown,), shutdown),
        call_ensures(ExternalStop::status, (ExternalStop::Cancel,), flag),
        call_ensures(ExternalStop::status, (ExternalStop::Interrupt,), interrupt),
        call_ensures(PendingBatch::new, (), fresh),
        call_ensures(PendingBatch::is_empty, (&fresh,), f),
        call_ensures(PendingBatch::is_empty, (&batch,), e),
    ensures
        pause == CollectionStatus::Paused,
        cancel == CollectionStatus::Cancelled,
        shutdown == CollectionStatus::Shutdown,
        flag == CollectionStatus::Cancelled,
        interrupt == CollectionStatus::Interrupted,
        f,
        e <==> batch.users@.len() == 0 && batch.posts@.len() == 0 && batch.comments@.len() == 0
            && batch.media@.len() == 0,
{
}

/// A redirect is gone to and counted, or refused with the reason and not counted.
pub proof fn redirects_are_counted(
    chain: &mut RedirectChain,
    failing: &mut RedirectChain,
    url: String,
    why: String,
    r: Result<()>,
    f: Result<()>,
)
    requires
        old(chain).followed < u64::MAX,
        call_ensures(RedirectChain::follow, (chain, Ok(url)), r),
        call_ensures(RedirectChain::follow, (failing, Err(why)), f),
    ensures
        r is Ok && final(chain).current == url && final(chain).followed == old(chain).followed + 1,
        faulted(f, why@) && *final(failing) == *old(failing),
{
}

/// Imported media are recorded under their kind.
pub proof fn imported_media_have_their_kind(p: &'static str, v: &'static str)
    requires
        call_ensures(media_type_name, (MediaKind::Pictures,), p),
        call_ensures(media_type_name, (MediaKind::Videos,), v),
    ensures
        p@ == "picture"@,
        v@ == "video"@,
{
}

/// An executor begins without options; each setting changes that setting and no other, and an
/// interval is not negative.
pub proof fn settings_of_executors_are_independent(
    plain: JobExecutor,
    options: SpawnOptions,
    fixed: JobExecutor,
    resolver: AccountSpawnResolver,
    resolving: JobExecutor,
    seconds: i64,
    paced: JobExecutor,
    barrier: FinalizationBarrier,
    finalizing: JobExecutor,
    activating: JobExecutor,
)
    requires
        call_ensures(JobExecutor::new, (), plain),
        call_ensures(JobExecutor::with_spawn_options, (options,), fixed),
        call_ensures(JobExecutor::with_account_resolver, (fixed, resolver), resolving),
        call_ensures(JobExecutor::with_minimum_interval_secs, (resolving, seconds), paced),
        call_ensures(JobExecutor::with_finalization_barrier, (paced, barrier), finalizing),
        call_ensures(JobExecutor::with_activation_barrier, (paced, barrier), activating),
    ensures
        plain.spawn_options is None && plain.account_resolver is None && plain.minimum_interval_secs
            == 0 && plain.event_timeout_ms == 60_000 && plain.finalization_barrier is None
            && plain.activation_barrier is None,
        fixed.spawn_options == Some(options) && fixed.account_resolver is None
            && fixed.event_timeout_ms == 60_000 && fixed.minimum_interval_secs == 0,
        paced.spawn_options == Some(options) && paced.account_resolver == Some(resolver)
            && paced.event_timeout_ms == 60_000 && paced.finalization_barrier is None
            && paced.activation_barrier is None,
        seconds >= 0 ==> paced.minimum_interval_secs == seconds,
        seconds < 0 ==> paced.minimum_interval_secs == 0,
        finalizing.finalization_barrier == Some(barrier) && finalizing.activation_barrier is None
            && finalizing.account_resolver == Some(resolver),
        activating.activation_barrier == Some(barrier) && activating.finalization_barrier is None
            && activating.spawn_options == Some(options),
{
}

/// A claimed job is run under its token; a run that could not be created ends it.
pub proof fn claimed_jobs_begin_with_a_run(
    owner_token: String,
    job: SyncJobDto,
    run: &mut JobRun,
    failing: &mut JobRun,
    claimed: JobRun,
    run_id: i64,
    r: JobStep,
    f: JobStep,
)
    requires
        call_ensures(JobRun::claimed, (owner_token, job), claimed),
        *old(run) == claimed,
        call_ensures(JobRun::on_created, (run, Some(run_id)), r),
        *old(failing) == claimed,
        call_ensures(JobRun::on_created, (failing, None), f),
    ensures
        claimed.owner_token == owner_token && claimed.job == job && claimed.request is None
            && claimed.summary is None,
        r is EnsureOwned && final(run).run_id == run_id && final(run).owner_token == owner_token
            && final(run).job == job,
        f matches JobStep::Abort { error: Error::InconsistentTask(m), kill } && m@
            == "failed to create owned sync run"@ && !kill,
        final(failing).stage == JobStage::Ended,
{
}

/// A job whose resource is no account asks on the stream of its resource, with the command and the
/// payload given.
pub proof fn resources_are_streams(
    job: SyncJobDto,
    resource: &str,
    command_type: CommandType,
    payload: Json,
    account: bool,
    r: Result<CollectionRequest>,
)
    requires
        resource@ == job.resource_key@,
        call_ensures(text::starts_with, (resource, "account:"), account),
        call_ensures(request_with_payload, (&job, command_type, payload), r),
    ensures
        !account ==> (r matches Ok(q) && q.stream@ == job.resource_key@),
        r matches Ok(q) ==> q.command_type == command_type && q.payload == payload,
        r is Err ==> faulted(r, "persistent job payload has no protocol stream"@),
{
}

/// The names of a session reference are those of its pieces that are neither empty nor the current
/// directory, and a resolver holds what it was given.
pub proof fn references_have_their_names(
    name: &str,
    names: Result<Vec<String>>,
    session_root: String,
    template: SpawnOptions,
    b: AccountSpawnResolver,
)
    requires
        paths::is_name(name@),
        !name@.contains('\\'),
        !(vstd::utf8::encode_utf8(name@).len() > 1 && vstd::utf8::encode_utf8(name@)[1] == 58),
        call_ensures(session_reference_names, (name,), names),
        call_ensures(secure_account_session_resolver, (session_root, template), b),
    ensures
        names matches Ok(list) ==> list@.len() == 1 && list@[0]@ == name@,
        b.session_root == session_root && b.template == template,
{
    lemma_single_piece(name@);
    let pieces = paths::split_of(name@, '/', '\\');
    reveal_with_fuel(sync_executor::reference_names, 3);
    if let Ok(list) = names {
        let views = text::list_view(list@);
        assert(views.len() == list@.len());
        assert(views[0] == list@[0]@);
    }
}

proof fn lemma_single_piece(s: Seq<char>)
    requires
        !s.contains('/'),
        !s.contains('\\'),
    ensures
        paths::split_of(s, '/', '\\') == seq![s],
    decreases s.len(),
{
    if s.len() > 0 {
        let shorter = s.drop_last();
        assert(s.contains(s.last()));
        assert(!shorter.contains('/')) by {
            if shorter.contains('/') {
                let k = choose|k: int| 0 <= k < shorter.len() && shorter[k] == '/';
                assert(s[k] == '/');
            }
        }
        assert(!shorter.contains('\\')) by {
            if shorter.contains('\\') {
                let k = choose|k: int| 0 <= k < shorter.len() && shorter[k] == '\\';
                assert(s[k] == '\\');
            }
        }
        lemma_single_piece(shorter);
        assert(shorter.push(s.last()) =~= s);
        assert(paths::split_of(s, '/', '\\') =~= seq![s]);
    } else {
        assert(s =~= Seq::<char>::empty());
    }
}

/// Backups lie below the imports; pictures and videos lie below the media unless they are told to lie
/// elsewhere, and have a place of their own within a backup either way.
pub proof fn media_outside_have_a_place_of_their_own(
    db_path: String,
    media_dir: String,
    imports_dir: String,
    media: &str,
    imports: &str,
    pictures: String,
    videos: String,
    backups: String,
    elsewhere: String,
    other: String,
    moved_to: &str,
    default_place: &str,
    same: bool,
    own: UserBackupPaths,
    moved: UserBackupPaths,
    dir: String,
    inside: bool,
    outside: bool,
    a: &'static str,
    b: &'static str,
    c: &'static str,
)
    requires
        media@ == media_dir@,
        imports@ == imports_dir@,
        call_ensures(paths::join, (media, "pictures"), pictures),
        call_ensures(paths::join, (media, "videos"), videos),
        call_ensures(paths::join, (imports, "backups"), backups),
        moved_to@ == elsewhere@,
        default_place@ == pictures@,
        call_ensures(paths::same_path, (moved_to, default_place), same),
        call_ensures(UserBackupPaths::new, (db_path, media_dir, imports_dir), own),
        call_ensures(UserBackupPaths::with_legacy_media_roots, (own, elsewhere, other), moved),
        call_ensures(UserBackupPaths::backups_dir, (&own,), dir),
        call_ensures(UserBackupPaths::uses_external_picture_root, (&own,), inside),
        call_ensures(UserBackupPaths::uses_external_picture_root, (&moved,), outside),
        call_ensures(UserBackupPaths::legacy_picture_namespace, (&own,), a),
        call_ensures(UserBackupPaths::legacy_picture_namespace, (&moved,), b),
        call_ensures(UserBackupPaths::legacy_video_namespace, (&own,), c),
    ensures
        own.db_path == db_path && own.picture_dir@ == pictures@ && own.video_dir@ == videos@,
        dir@ == backups@,
        moved.db_path == db_path && moved.media_dir == media_dir && moved.imports_dir == imports_dir
            && moved.picture_dir == elsewhere && moved.video_dir == other,
        !inside && a@ == "media/pictures"@ && c@ == "media/videos"@,
        outside <==> !same,
        outside ==> b@ == "legacy/pictures"@,
        !outside ==> b@ == "media/pictures"@,
{
}

/// Videos outside of the media directory have their own place within a backup.
pub proof fn videos_outside_have_a_place_of_their_own(
    own: UserBackupPaths,
    media: &str,
    videos: String,
    place: &str,
    default_place: &str,
    same: bool,
    outside: bool,
    a: &'static str,
)
    requires
        media@ == own.media_dir@,
        place@ == own.video_dir@,
        call_ensures(paths::join, (media, "videos"), videos),
        default_place@ == videos@,
        call_ensures(paths::same_path, (place, default_place), same),
        call_ensures(UserBackupPaths::uses_external_video_root, (&own,), outside),
        call_ensures(UserBackupPaths::legacy_video_namespace, (&own,), a),
    ensures
        outside <==> !same,
        outside ==> a@ == "legacy/videos"@,
        !outside ==> a@ == "media/videos"@,
{
}

/// A restore fails in a test exactly if it is told to.
pub proof fn restores_fail_when_told_to(r: Result<()>, f: Result<()>)
    requires
        call_ensures(restore_user_backup_with_fault_for_test, (false,), r),
        call_ensures(restore_user_backup_with_fault_for_test, (true,), f),
    ensures
        r is Ok,
        f matches Err(Error::Io(why)) && why@ == "injected restore failure"@,
{
}

/// The columns of a table of comments, and the table itself, have the names that the database knows
/// them by.
pub proof fn comment_columns_have_their_names(column: CommentIden, name: &'static str)
    requires
        call_ensures(CommentIden::name, (&column,), name),
    ensures
        column == CommentIden::Table ==> name@ == "comments"@,
        column == CommentIden::Id ==> name@ == "id"@,
        column == CommentIden::PostId ==> name@ == "post_id"@,
        column == CommentIden::RootId ==> name@ == "root_id"@,
        column == CommentIden::ParentId ==> name@ == "parent_id"@,
        column == CommentIden::UserId ==> name@ == "user_id"@,
        column == CommentIden::Text ==> name@ == "text"@,
        column == CommentIden::CreatedAt ==> name@ == "created_at"@,
        column == CommentIden::Depth ==> name@ == "depth"@,
        column == CommentIden::ChildCount ==> name@ == "child_count"@,
        column == CommentIden::LikeCount ==> name@ == "like_count"@,
        column == CommentIden::Source ==> name@ == "source"@,
        column == CommentIden::MediaJson ==> name@ == "media_json"@,
        column == CommentIden::RawData ==> name@ == "raw_data"@,
        column == CommentIden::ContentStatus ==> name@ == "content_status"@,
        column == CommentIden::Deleted ==> name@ == "deleted"@,
        column == CommentIden::FirstFetchedAt ==> name@ == "first_fetched_at"@,
        column == CommentIden::LastRefreshedAt ==> name@ == "last_refreshed_at"@,
{
}

/// The columns of a table of medias, and the table itself, have the names that the database knows
/// them by.
pub proof fn media_columns_have_their_names(column: MediaIden, name: &'static str)
    requires
        call_ensures(MediaIden::name, (&column,), name),
    ensures
        column == MediaIden::Table ==> name@ == "media"@,
        column == MediaIden::Id ==> name@ == "id"@,
        column == MediaIden::OwnerType ==> name@ == "owner_type"@,
        column == MediaIden::OwnerId ==> name@ == "owner_id"@,
        column == MediaIden::MediaType ==> name@ == "media_type"@,
        column == MediaIden::Url ==> name@ == "url"@,
        column == MediaIden::LocalPath ==> name@ == "local_path"@,
        column == MediaIden::Status ==> name@ == "status"@,
        column == MediaIden::RetryCount ==> name@ == "retry_count"@,
        column == MediaIden::LastError ==> name@ == "last_error"@,
        column == MediaIden::CreatedAt ==> name@ == "created_at"@,
        column == MediaIden::UpdatedAt ==> name@ == "updated_at"@,
{
}

/// The columns of a table of monitored users, and the table itself, have the names that the database knows
/// them by.
pub proof fn monitored_user_columns_have_their_names(column: MonitoredUserIden, name: &'static str)
    requires
        call_ensures(MonitoredUserIden::name, (&column,), name),
    ensures
        column == MonitoredUserIden::Table ==> name@ == "monitored_users"@,
        column == MonitoredUserIden::Uid ==> name@ == "uid"@,
        column == MonitoredUserIden::ScreenName ==> name@ == "screen_name"@,
        column == MonitoredUserIden::RefreshStrategy ==> name@ == "refresh_strategy"@,
        column == MonitoredUserIden::Enabled ==> name@ == "enabled"@,
        column == MonitoredUserIden::LastRefreshedAt ==> name@ == "last_refreshed_at"@,
        column == MonitoredUserIden::CreatedAt ==> name@ == "created_at"@,
        column == MonitoredUserIden::UpdatedAt ==> name@ == "updated_at"@,
{
}

/// The columns of a table of sync jobs, and the table itself, have the names that the database knows
/// them by.
pub proof fn sync_job_columns_have_their_names(column: SyncJobIden, name: &'static str)
    requires
        call_ensures(SyncJobIden::name, (&column,), name),
    ensures
        column == SyncJobIden::Table ==> name@ == "sync_jobs"@,
        column == SyncJobIden::Id ==> name@ == "id"@,
        column == SyncJobIden::Name ==> name@ == "name"@,
        column == SyncJobIden::Kind ==> name@ == "kind"@,
        column == SyncJobIden::Priority ==> name@ == "priority"@,
        column == SyncJobIden::ScheduleConfig ==> name@ == "schedule_config"@,
        column == SyncJobIden::Enabled ==> name@ == "enabled"@,
        column == SyncJobIden::CreatedAt ==> name@ == "created_at"@,
        column == SyncJobIden::UpdatedAt ==> name@ == "updated_at"@,
{
}

/// The columns of a table of sync runs, and the table itself, have the names that the database knows
/// them by.
pub proof fn sync_run_columns_have_their_names(column: SyncRunIden, name: &'static str)
    requires
        call_ensures(SyncRunIden::name, (&column,), name),
    ensures
        column == SyncRunIden::Table ==> name@ == "sync_runs"@,
        column == SyncRunIden::Id ==> name@ == "id"@,
        column == SyncRunIden::JobId ==> name@ == "job_id"@,
        column == SyncRunIden::Status ==> name@ == "status"@,
        column == SyncRunIden::StartedAt ==> name@ == "started_at"@,
        column == SyncRunIden::FinishedAt ==> name@ == "finished_at"@,
        column == SyncRunIden::StatsJson ==> name@ == "stats_json"@,
        column == SyncRunIden::Error ==> name@ == "error"@,
{
}

/// The columns of a table of sync checkpoints, and the table itself, have the names that the database knows
/// them by.
pub proof fn sync_checkpoint_columns_have_their_names(column: SyncCheckpointIden, name: &'static str)
    requires
        call_ensures(SyncCheckpointIden::name, (&column,), name),
    ensures
        column == SyncCheckpointIden::Table ==> name@ == "sync_checkpoints"@,
        column == SyncCheckpointIden::Stream ==> name@ == "stream"@,
        column == SyncCheckpointIden::CursorJson ==> name@ == "cursor_json"@,
        column == SyncCheckpointIden::FetchedCount ==> name@ == "fetched_count"@,
        column == SyncCheckpointIden::LastSequence ==> name@ == "last_sequence"@,
        column == SyncCheckpointIden::UpdatedAt ==> name@ == "updated_at"@,
{
}

/// The columns of a table of processed events, and the table itself, have the names that the database knows
/// them by.
pub proof fn processed_event_columns_have_their_names(column: ProcessedEventIden, name: &'static str)
    requires
        call_ensures(ProcessedEventIden::name, (&column,), name),
    ensures
        column == ProcessedEventIden::Table ==> name@ == "processed_events"@,
        column == ProcessedEventIden::Id ==> name@ == "id"@,
        column == ProcessedEventIden::EventId ==> name@ == "event_id"@,
        column == ProcessedEventIden::Stream ==> name@ == "stream"@,
        column == ProcessedEventIden::Sequence ==> name@ == "sequence"@,
        column == ProcessedEventIden::RequestId ==> name@ == "request_id"@,
        column == ProcessedEventIden::ProcessedAt ==> name@ == "processed_at"@,
{
}

} // verus!
