//! Rows for comments, the media queue, monitored users, sync jobs and runs, checkpoints and
//! processed events.
//!
//! Times are RFC 3339 strings. The URL of a media row, the identifier of a processed event and
//! the stream of a checkpoint are unique keys.
use vstd::prelude::*;

use crate::text;

verus! {

/// What a media item belongs to.
#[derive(Debug, Clone, Copy, PartialEq, Eq, Structural)]
pub enum MediaOwnerType {
    Post,
    User,
    Comment,
}

/// The name in the database.
pub open spec fn owner_type_name(x: MediaOwnerType) -> Seq<char> {
    match x {
        MediaOwnerType::Post => "post"@,
        MediaOwnerType::User => "user"@,
        MediaOwnerType::Comment => "comment"@,
    }
}

impl MediaOwnerType {
    /// The name in the database.
    pub fn as_str(&self) -> (r: &'static str)
        ensures
            r@ == owner_type_name(*self),
    {
        match self {
            MediaOwnerType::Post => "post",
            MediaOwnerType::User => "user",
            MediaOwnerType::Comment => "comment",
        }
    }
}

/// What kind of media an item is.
#[derive(Debug, Clone, Copy, PartialEq, Eq, Structural)]
pub enum MediaType {
    Picture,
    Video,
    Avatar,
    Emoji,
}

/// The name in the database.
pub open spec fn media_type_name(x: MediaType) -> Seq<char> {
    match x {
        MediaType::Picture => "picture"@,
        MediaType::Video => "video"@,
        MediaType::Avatar => "avatar"@,
        MediaType::Emoji => "emoji"@,
    }
}

impl MediaType {
    /// The name in the database.
    pub fn as_str(&self) -> (r: &'static str)
        ensures
            r@ == media_type_name(*self),
    {
        match self {
            MediaType::Picture => "picture",
            MediaType::Video => "video",
            MediaType::Avatar => "avatar",
            MediaType::Emoji => "emoji",
        }
    }
}

/// How far the download of a media item is.
#[derive(Debug, Clone, Copy, PartialEq, Eq, Structural)]
pub enum MediaStatus {
    Pending,
    Downloaded,
    Failed,
}

/// The name in the database.
pub open spec fn media_status_name(x: MediaStatus) -> Seq<char> {
    match x {
        MediaStatus::Pending => "pending"@,
        MediaStatus::Downloaded => "downloaded"@,
        MediaStatus::Failed => "failed"@,
    }
}

impl MediaStatus {
    /// The name in the database.
    pub fn as_str(&self) -> (r: &'static str)
        ensures
            r@ == media_status_name(*self),
    {
        match self {
            MediaStatus::Pending => "pending",
            MediaStatus::Downloaded => "downloaded",
            MediaStatus::Failed => "failed",
        }
    }
}

/// How often a monitored user is refreshed.
#[derive(Debug, Clone, Copy, PartialEq, Eq, Structural)]
pub enum RefreshTier {
    Hot,
    Warm,
    Cold,
}

/// The name in the database.
pub open spec fn tier_name(x: RefreshTier) -> Seq<char> {
    match x {
        RefreshTier::Hot => "hot"@,
        RefreshTier::Warm => "warm"@,
        RefreshTier::Cold => "cold"@,
    }
}

impl RefreshTier {
    /// The name in the database.
    pub fn as_str(&self) -> (r: &'static str)
        ensures
            r@ == tier_name(*self),
    {
        match self {
            RefreshTier::Hot => "hot",
            RefreshTier::Warm => "warm",
            RefreshTier::Cold => "cold",
        }
    }

    /// The tier with a name in the database, if there is one.
    pub fn parse(name: &str) -> (r: Option<RefreshTier>)
        ensures
            match r {
                Some(tier) => tier_name(tier) == name@,
                None => name@ != tier_name(RefreshTier::Hot) && name@ != tier_name(
                    RefreshTier::Warm,
                ) && name@ != tier_name(RefreshTier::Cold),
            },
    {
        if text::same_text(name, "hot") {
            Some(RefreshTier::Hot)
        } else if text::same_text(name, "warm") {
            Some(RefreshTier::Warm)
        } else if text::same_text(name, "cold") {
            Some(RefreshTier::Cold)
        } else {
            None
        }
    }
}

/// The comment table and its columns.
#[derive(Debug, Clone, Copy, PartialEq, Eq, Structural)]
pub enum CommentIden {
    Table,
    Id,
    PostId,
    RootId,
    ParentId,
    UserId,
    Text,
    CreatedAt,
    Depth,
    ChildCount,
    LikeCount,
    Source,
    MediaJson,
    RawData,
    ContentStatus,
    Deleted,
    FirstFetchedAt,
    LastRefreshedAt,
}

/// The table or column name.
pub open spec fn comment_column(x: CommentIden) -> Seq<char> {
    match x {
        CommentIden::Table => "comments"@,
        CommentIden::Id => "id"@,
        CommentIden::PostId => "post_id"@,
        CommentIden::RootId => "root_id"@,
        CommentIden::ParentId => "parent_id"@,
        CommentIden::UserId => "user_id"@,
        CommentIden::Text => "text"@,
        CommentIden::CreatedAt => "created_at"@,
        CommentIden::Depth => "depth"@,
        CommentIden::ChildCount => "child_count"@,
        CommentIden::LikeCount => "like_count"@,
        CommentIden::Source => "source"@,
        CommentIden::MediaJson => "media_json"@,
        CommentIden::RawData => "raw_data"@,
        CommentIden::ContentStatus => "content_status"@,
        CommentIden::Deleted => "deleted"@,
        CommentIden::FirstFetchedAt => "first_fetched_at"@,
        CommentIden::LastRefreshedAt => "last_refreshed_at"@,
    }
}

impl CommentIden {
    /// The table or column name.
    pub fn name(&self) -> (r: &'static str)
        ensures
            r@ == comment_column(*self),
    {
        match self {
            CommentIden::Table => "comments",
            CommentIden::Id => "id",
            CommentIden::PostId => "post_id",
            CommentIden::RootId => "root_id",
            CommentIden::ParentId => "parent_id",
            CommentIden::UserId => "user_id",
            CommentIden::Text => "text",
            CommentIden::CreatedAt => "created_at",
            CommentIden::Depth => "depth",
            CommentIden::ChildCount => "child_count",
            CommentIden::LikeCount => "like_count",
            CommentIden::Source => "source",
            CommentIden::MediaJson => "media_json",
            CommentIden::RawData => "raw_data",
            CommentIden::ContentStatus => "content_status",
            CommentIden::Deleted => "deleted",
            CommentIden::FirstFetchedAt => "first_fetched_at",
            CommentIden::LastRefreshedAt => "last_refreshed_at",
        }
    }
}

/// The media table and its columns.
#[derive(Debug, Clone, Copy, PartialEq, Eq, Structural)]
pub enum MediaIden {
    Table,
    Id,
    OwnerType,
    OwnerId,
    MediaType,
    Url,
    LocalPath,
    Status,
    RetryCount,
    LastError,
    CreatedAt,
    UpdatedAt,
}

/// The table or column name.
pub open spec fn media_column(x: MediaIden) -> Seq<char> {
    match x {
        MediaIden::Table => "media"@,
        MediaIden::Id => "id"@,
        MediaIden::OwnerType => "owner_type"@,
        MediaIden::OwnerId => "owner_id"@,
        MediaIden::MediaType => "media_type"@,
        MediaIden::Url => "url"@,
        MediaIden::LocalPath => "local_path"@,
        MediaIden::Status => "status"@,
        MediaIden::RetryCount => "retry_count"@,
        MediaIden::LastError => "last_error"@,
        MediaIden::CreatedAt => "created_at"@,
        MediaIden::UpdatedAt => "updated_at"@,
    }
}

impl MediaIden {
    /// The table or column name.
    pub fn name(&self) -> (r: &'static str)
        ensures
            r@ == media_column(*self),
    {
        match self {
            MediaIden::Table => "media",
            MediaIden::Id => "id",
            MediaIden::OwnerType => "owner_type",
            MediaIden::OwnerId => "owner_id",
            MediaIden::MediaType => "media_type",
            MediaIden::Url => "url",
            MediaIden::LocalPath => "local_path",
            MediaIden::Status => "status",
            MediaIden::RetryCount => "retry_count",
            MediaIden::LastError => "last_error",
            MediaIden::CreatedAt => "created_at",
            MediaIden::UpdatedAt => "updated_at",
        }
    }
}

/// The monitored user table and its columns.
#[derive(Debug, Clone, Copy, PartialEq, Eq, Structural)]
pub enum MonitoredUserIden {
    Table,
    Uid,
    ScreenName,
    RefreshStrategy,
    Enabled,
    LastRefreshedAt,
    CreatedAt,
    UpdatedAt,
}

/// The table or column name.
pub open spec fn monitored_user_column(x: MonitoredUserIden) -> Seq<char> {
    match x {
        MonitoredUserIden::Table => "monitored_users"@,
        MonitoredUserIden::Uid => "uid"@,
        MonitoredUserIden::ScreenName => "screen_name"@,
        MonitoredUserIden::RefreshStrategy => "refresh_strategy"@,
        MonitoredUserIden::Enabled => "enabled"@,
        MonitoredUserIden::LastRefreshedAt => "last_refreshed_at"@,
        MonitoredUserIden::CreatedAt => "created_at"@,
        MonitoredUserIden::UpdatedAt => "updated_at"@,
    }
}

impl MonitoredUserIden {
    /// The table or column name.
    pub fn name(&self) -> (r: &'static str)
        ensures
            r@ == monitored_user_column(*self),
    {
        match self {
            MonitoredUserIden::Table => "monitored_users",
            MonitoredUserIden::Uid => "uid",
            MonitoredUserIden::ScreenName => "screen_name",
            MonitoredUserIden::RefreshStrategy => "refresh_strategy",
            MonitoredUserIden::Enabled => "enabled",
            MonitoredUserIden::LastRefreshedAt => "last_refreshed_at",
            MonitoredUserIden::CreatedAt => "created_at",
            MonitoredUserIden::UpdatedAt => "updated_at",
        }
    }
}

/// The sync job table and its columns.
#[derive(Debug, Clone, Copy, PartialEq, Eq, Structural)]
pub enum SyncJobIden {
    Table,
    Id,
    Name,
    Kind,
    Priority,
    ScheduleConfig,
    Enabled,
    CreatedAt,
    UpdatedAt,
}

/// The table or column name.
pub open spec fn sync_job_column(x: SyncJobIden) -> Seq<char> {
    match x {
        SyncJobIden::Table => "sync_jobs"@,
        SyncJobIden::Id => "id"@,
        SyncJobIden::Name => "name"@,
        SyncJobIden::Kind => "kind"@,
        SyncJobIden::Priority => "priority"@,
        SyncJobIden::ScheduleConfig => "schedule_config"@,
        SyncJobIden::Enabled => "enabled"@,
        SyncJobIden::CreatedAt => "created_at"@,
        SyncJobIden::UpdatedAt => "updated_at"@,
    }
}

impl SyncJobIden {
    /// The table or column name.
    pub fn name(&self) -> (r: &'static str)
        ensures
            r@ == sync_job_column(*self),
    {
        match self {
            SyncJobIden::Table => "sync_jobs",
            SyncJobIden::Id => "id",
            SyncJobIden::Name => "name",
            SyncJobIden::Kind => "kind",
            SyncJobIden::Priority => "priority",
            SyncJobIden::ScheduleConfig => "schedule_config",
            SyncJobIden::Enabled => "enabled",
            SyncJobIden::CreatedAt => "created_at",
            SyncJobIden::UpdatedAt => "updated_at",
        }
    }
}

/// The sync run table and its columns.
#[derive(Debug, Clone, Copy, PartialEq, Eq, Structural)]
pub enum SyncRunIden {
    Table,
    Id,
    JobId,
    Status,
    StartedAt,
    FinishedAt,
    StatsJson,
    Error,
}

/// The table or column name.
pub open spec fn sync_run_column(x: SyncRunIden) -> Seq<char> {
    match x {
        SyncRunIden::Table => "sync_runs"@,
        SyncRunIden::Id => "id"@,
        SyncRunIden::JobId => "job_id"@,
        SyncRunIden::Status => "status"@,
        SyncRunIden::StartedAt => "started_at"@,
        SyncRunIden::FinishedAt => "finished_at"@,
        SyncRunIden::StatsJson => "stats_json"@,
        SyncRunIden::Error => "error"@,
    }
}

impl SyncRunIden {
    /// The table or column name.
    pub fn name(&self) -> (r: &'static str)
        ensures
            r@ == sync_run_column(*self),
    {
        match self {
            SyncRunIden::Table => "sync_runs",
            SyncRunIden::Id => "id",
            SyncRunIden::JobId => "job_id",
            SyncRunIden::Status => "status",
            SyncRunIden::StartedAt => "started_at",
            SyncRunIden::FinishedAt => "finished_at",
            SyncRunIden::StatsJson => "stats_json",
            SyncRunIden::Error => "error",
        }
    }
}

/// The checkpoint table and its columns.
#[derive(Debug, Clone, Copy, PartialEq, Eq, Structural)]
pub enum SyncCheckpointIden {
    Table,
    Stream,
    CursorJson,
    FetchedCount,
    LastSequence,
    UpdatedAt,
}

/// The table or column name.
pub open spec fn sync_checkpoint_column(x: SyncCheckpointIden) -> Seq<char> {
    match x {
        SyncCheckpointIden::Table => "sync_checkpoints"@,
        SyncCheckpointIden::Stream => "stream"@,
        SyncCheckpointIden::CursorJson => "cursor_json"@,
        SyncCheckpointIden::FetchedCount => "fetched_count"@,
        SyncCheckpointIden::LastSequence => "last_sequence"@,
        SyncCheckpointIden::UpdatedAt => "updated_at"@,
    }
}

impl SyncCheckpointIden {
    /// The table or column name.
    pub fn name(&self) -> (r: &'static str)
        ensures
            r@ == sync_checkpoint_column(*self),
    {
        match self {
            SyncCheckpointIden::Table => "sync_checkpoints",
            SyncCheckpointIden::Stream => "stream",
            SyncCheckpointIden::CursorJson => "cursor_json",
            SyncCheckpointIden::FetchedCount => "fetched_count",
            SyncCheckpointIden::LastSequence => "last_sequence",
            SyncCheckpointIden::UpdatedAt => "updated_at",
        }
    }
}

/// The processed event table and its columns.
#[derive(Debug, Clone, Copy, PartialEq, Eq, Structural)]
pub enum ProcessedEventIden {
    Table,
    Id,
    EventId,
    Stream,
    Sequence,
    RequestId,
    ProcessedAt,
}

/// The table or column name.
pub open spec fn processed_event_column(x: ProcessedEventIden) -> Seq<char> {
    match x {
        ProcessedEventIden::Table => "processed_events"@,
        ProcessedEventIden::Id => "id"@,
        ProcessedEventIden::EventId => "event_id"@,
        ProcessedEventIden::Stream => "stream"@,
        ProcessedEventIden::Sequence => "sequence"@,
        ProcessedEventIden::RequestId => "request_id"@,
        ProcessedEventIden::ProcessedAt => "processed_at"@,
    }
}

impl ProcessedEventIden {
    /// The table or column name.
    pub fn name(&self) -> (r: &'static str)
        ensures
            r@ == processed_event_column(*self),
    {
        match self {
            ProcessedEventIden::Table => "processed_events",
            ProcessedEventIden::Id => "id",
            ProcessedEventIden::EventId => "event_id",
            ProcessedEventIden::Stream => "stream",
            ProcessedEventIden::Sequence => "sequence",
            ProcessedEventIden::RequestId => "request_id",
            ProcessedEventIden::ProcessedAt => "processed_at",
        }
    }
}

/// A comment row.
#[derive(Debug, PartialEq, Eq)]
pub struct CommentDto {
    pub id: i64,
    pub post_id: i64,
    pub root_id: Option<i64>,
    pub parent_id: Option<i64>,
    pub user_id: Option<i64>,
    pub text: String,
    pub created_at: String,
    pub depth: i64,
    pub child_count: i64,
    pub like_count: i64,
    pub source: Option<String>,
    pub media_json: Option<String>,
    pub raw_data: Option<String>,
    pub content_status: String,
    pub deleted: bool,
    pub first_fetched_at: Option<String>,
    pub last_refreshed_at: Option<String>,
}

/// A row of the media queue.
#[derive(Debug, PartialEq, Eq)]
pub struct MediaDto {
    pub id: i64,
    pub owner_type: String,
    pub owner_id: Option<i64>,
    pub media_type: String,
    pub url: String,
    pub local_path: Option<String>,
    pub status: String,
    pub retry_count: i64,
    pub last_error: Option<String>,
    pub created_at: String,
    pub updated_at: Option<String>,
}

/// An account whose session the collector may use.
#[derive(Debug, PartialEq, Eq)]
pub struct AccountDto {
    pub id: i64,
    pub provider: String,
    pub uid: String,
    pub display_name: Option<String>,
    pub session_ref: String,
    pub enabled: bool,
    pub created_at: String,
    pub updated_at: Option<String>,
}

/// A user who is refreshed on a schedule.
#[derive(Debug, PartialEq, Eq)]
pub struct MonitoredUserDto {
    pub account_id: i64,
    pub uid: i64,
    pub screen_name: Option<String>,
    pub refresh_strategy: String,
    pub enabled: bool,
    pub last_refreshed_at: Option<String>,
    pub created_at: String,
    pub updated_at: Option<String>,
    pub tier: RefreshTier,
    pub interval_secs: i64,
    pub jitter_secs: i64,
    pub next_refresh_epoch: i64,
    pub last_refresh_epoch: Option<i64>,
}

/// A durable sync job.
#[derive(Debug, PartialEq, Eq)]
pub struct SyncJobDto {
    pub id: i64,
    pub resource_key: String,
    pub name: String,
    pub kind: String,
    pub status: String,
    pub priority: i64,
    pub schedule_config: Option<String>,
    pub enabled: bool,
    pub recovery_count: i64,
    pub max_recovery_attempts: i64,
    pub available_at: Option<String>,
    pub available_at_epoch: i64,
    pub claimed_at: Option<String>,
    pub current_run_id: Option<i64>,
    pub created_at: String,
    pub updated_at: Option<String>,
    pub account_id: i64,
    pub endpoint_key: String,
    pub payload_json: Option<String>,
    pub generation: i64,
}

/// One run of a sync job.
#[derive(Debug, PartialEq, Eq)]
pub struct SyncRunDto {
    pub id: i64,
    pub job_id: i64,
    pub status: String,
    pub started_at: String,
    pub finished_at: Option<String>,
    pub stats_json: Option<String>,
    pub error: Option<String>,
    pub attempt: i64,
    pub updated_at: Option<String>,
}

/// Who may move a checkpoint.
#[derive(Debug, PartialEq, Eq)]
pub enum CheckpointOwner {
    /// A collection outside the durable queue.
    AdHoc,
    /// The run of a durable job that holds the lease.
    Persistent { run_id: i64, generation: i64, owner_token: String },
}

/// How far a stream has been collected.
#[derive(Debug, PartialEq, Eq)]
pub struct SyncCheckpointDto {
    pub stream: String,
    pub cursor_json: Option<String>,
    pub fetched_count: i64,
    pub last_sequence: Option<i64>,
    pub updated_at: String,
    pub job_id: Option<i64>,
    pub run_id: Option<i64>,
    pub generation: Option<i64>,
    pub owner_token: Option<String>,
    pub owner: CheckpointOwner,
}

/// An event that has been applied.
#[derive(Debug, PartialEq, Eq)]
pub struct ProcessedEventDto {
    pub id: i64,
    pub event_id: String,
    pub stream: Option<String>,
    pub sequence: Option<i64>,
    pub request_id: Option<String>,
    pub processed_at: String,
}

/// The state of a durable job.
#[derive(Debug, Clone, Copy, PartialEq, Eq, Structural)]
pub enum SyncJobStatus {
    Pending,
    Running,
    Paused,
    Completed,
    Failed,
    Cancelled,
    Interrupted,
}

/// The name in the database.
pub open spec fn job_status_name(x: SyncJobStatus) -> Seq<char> {
    match x {
        SyncJobStatus::Pending => "pending"@,
        SyncJobStatus::Running => "running"@,
        SyncJobStatus::Paused => "paused"@,
        SyncJobStatus::Completed => "completed"@,
        SyncJobStatus::Failed => "failed"@,
        SyncJobStatus::Cancelled => "cancelled"@,
        SyncJobStatus::Interrupted => "interrupted"@,
    }
}

impl SyncJobStatus {
    /// The name in the database.
    pub fn as_str(&self) -> (r: &'static str)
        ensures
            r@ == job_status_name(*self),
    {
        match self {
            SyncJobStatus::Pending => "pending",
            SyncJobStatus::Running => "running",
            SyncJobStatus::Paused => "paused",
            SyncJobStatus::Completed => "completed",
            SyncJobStatus::Failed => "failed",
            SyncJobStatus::Cancelled => "cancelled",
            SyncJobStatus::Interrupted => "interrupted",
        }
    }
}

/// A request for the lease of the next due job.
#[derive(Debug, PartialEq, Eq)]
pub struct ClaimRequest {
    pub owner_token: String,
    pub now_epoch: i64,
    pub lease_until_epoch: i64,
    pub claimed_at: String,
}

/// A request to end the run of a leased job.
#[derive(Debug, PartialEq, Eq)]
pub struct FinishRunRequest {
    pub job_id: i64,
    pub run_id: i64,
    pub owner_token: String,
    pub generation: i64,
    pub next_status: SyncJobStatus,
    pub finished_at: String,
    pub stats_json: Option<String>,
    pub error: Option<String>,
}

/// What a durable job collects.
#[derive(Debug, Clone, Copy, PartialEq, Eq, Structural)]
pub enum SyncJobSpec {
    CollectUserPosts { account_id: i64, uid: i64, max_pages: Option<u64>, priority: i64 },
    CollectComments { account_id: i64, post_id: i64, max_pages: Option<u64>, priority: i64 },
    CollectCommentReplies {
        account_id: i64,
        post_id: i64,
        root_comment_id: i64,
        max_pages: Option<u64>,
        priority: i64,
    },
}

/// The media row after an item has been saved: a stored row keeps its identifier and its time of
/// creation and takes everything else from the item.
pub open spec fn saved_media(stored: Option<MediaDto>, media: MediaDto) -> MediaDto {
    match stored {
        Some(row) => MediaDto { id: row.id, created_at: row.created_at, ..media },
        None => media,
    }
}

/// The media row after an item has been saved.
pub fn save_media(stored: Option<MediaDto>, media: MediaDto) -> (r: MediaDto)
    ensures
        r == saved_media(stored, media),
{
    match stored {
        Some(row) => MediaDto { id: row.id, created_at: row.created_at, ..media },
        None => media,
    }
}

/// The media row after a reference has been collected: a stored row stays as it is, so that the
/// state of its download survives.
pub open spec fn referenced_media(stored: Option<MediaDto>, media: MediaDto) -> MediaDto {
    match stored {
        Some(row) => row,
        None => media,
    }
}

/// The media row after a reference has been collected.
pub fn save_media_reference(stored: Option<MediaDto>, media: MediaDto) -> (r: MediaDto)
    ensures
        r == referenced_media(stored, media),
{
    match stored {
        Some(row) => row,
        None => media,
    }
}

/// The row of a monitored user after a save: a stored row keeps its time of creation.
pub open spec fn saved_monitored_user(
    stored: Option<MonitoredUserDto>,
    user: MonitoredUserDto,
) -> MonitoredUserDto {
    match stored {
        Some(row) => MonitoredUserDto { created_at: row.created_at, ..user },
        None => user,
    }
}

/// The row of a monitored user after a save.
pub fn save_monitored_user(stored: Option<MonitoredUserDto>, user: MonitoredUserDto) -> (r:
    MonitoredUserDto)
    ensures
        r == saved_monitored_user(stored, user),
{
    match stored {
        Some(row) => MonitoredUserDto { created_at: row.created_at, ..user },
        None => user,
    }
}

/// Saving a media item again changes nothing.
pub proof fn saving_media_again_changes_nothing(stored: Option<MediaDto>, media: MediaDto)
    ensures
        saved_media(Some(saved_media(stored, media)), media) == saved_media(stored, media),
{
}

/// Collecting references to a media item any number of times leaves what the first save made of
/// it.
pub proof fn references_leave_media_alone(
    stored: Option<MediaDto>,
    media: MediaDto,
    reference: MediaDto,
)
    ensures
        referenced_media(Some(saved_media(stored, media)), reference) == saved_media(stored, media),
        referenced_media(Some(referenced_media(stored, media)), reference) == referenced_media(
            stored,
            media,
        ),
{
}

/// Saving a monitored user again changes nothing.
pub proof fn saving_a_monitored_user_again_changes_nothing(
    stored: Option<MonitoredUserDto>,
    user: MonitoredUserDto,
)
    ensures
        saved_monitored_user(Some(saved_monitored_user(stored, user)), user)
            == saved_monitored_user(stored, user),
{
}

/// How many rows have a greater identifier.
pub open spec fn newer_rows(ids: Seq<i64>, id: i64) -> nat
    decreases ids.len(),
{
    if ids.len() == 0 {
        0
    } else {
        newer_rows(ids.drop_last(), id) + if ids.last() > id {
            1nat
        } else {
            0nat
        }
    }
}

/// The rows of processed events that do not belong to the `keep` newest ones, in the given order.
pub open spec fn expired_rows(ids: Seq<i64>, all: Seq<i64>, keep: nat) -> Seq<i64>
    decreases ids.len(),
{
    if ids.len() == 0 {
        Seq::empty()
    } else {
        let rest = expired_rows(ids.drop_last(), all, keep);
        if newer_rows(all, ids.last()) >= keep {
            rest.push(ids.last())
        } else {
            rest
        }
    }
}

fn count_newer(ids: &Vec<i64>, id: i64) -> (n: usize)
    ensures
        n == newer_rows(ids@, id),
        n <= ids@.len(),
{
    let mut n: usize = 0;
    let mut i: usize = 0;
    while i < ids.len()
        invariant
            i <= ids@.len(),
            n <= i,
            n == newer_rows(ids@.subrange(0, i as int), id),
        decreases ids@.len() - i,
    {
        assert(ids@.subrange(0, i + 1).drop_last() == ids@.subrange(0, i as int));
        if ids[i] > id {
            n = n + 1;
        }
        i = i + 1;
    }
    assert(ids@.subrange(0, i as int) == ids@);
    n
}

/// Which of the processed events to delete so that the `keep` newest remain.
pub fn prune_processed_events(ids: &Vec<i64>, keep: u64) -> (r: Vec<i64>)
    ensures
        r@ == expired_rows(ids@, ids@, keep as nat),
{
    let mut r: Vec<i64> = Vec::new();
    let mut i: usize = 0;
    while i < ids.len()
        invariant
            i <= ids@.len(),
            r@ == expired_rows(ids@.subrange(0, i as int), ids@, keep as nat),
        decreases ids@.len() - i,
    {
        assert(ids@.subrange(0, i + 1).drop_last() == ids@.subrange(0, i as int));
        if count_newer(ids, ids[i]) as u64 >= keep {
            r.push(ids[i]);
        }
        i = i + 1;
    }
    assert(ids@.subrange(0, i as int) == ids@);
    r
}

} // verus!
