//! Collection of sidecar events: events become records, records become batches, and each batch is
//! committed together with the checkpoint that closes it.
use vstd::prelude::*;

use crate::error;
use crate::error::{Error, Result};
use crate::json;
use crate::json::{Json, JsonView};
use crate::models::user::User;
use crate::sidecar::protocol;
use crate::sidecar::protocol::CommandType;
use crate::storage::internal::entities::{CheckpointOwner, CommentDto, MediaDto, SyncCheckpointDto};
use crate::storage::internal::post::PostInternal;
use crate::text;
use crate::web;

verus! {

/// A request to collect something.
#[derive(Debug)]
pub struct CollectionRequest {
    /// One of the collecting command types.
    pub command_type: CommandType,
    /// The logical resource stream, which is also the key of ad-hoc checkpoints.
    pub stream: String,
    /// The data of the command, without a checkpoint.
    pub payload: Json,
}

/// How a collection ended.
#[derive(Debug, Clone, Copy, PartialEq, Eq, Structural)]
pub enum CollectionStatus {
    /// Everything was collected.
    Completed,
    /// The sidecar stopped early.
    Stopped,
    /// A durable job was paused.
    Paused,
    /// A durable job was cancelled.
    Cancelled,
    /// The sidecar crashed or timed out.
    Interrupted,
    /// The application is shutting down.
    Shutdown,
    /// The source reported an error.
    Failed,
    /// The source limits the rate of a durable job.
    RateLimited,
}

/// What a rate limit applies to.
#[derive(Debug, Clone, Copy, PartialEq, Eq, Structural)]
pub enum RateLimitScope {
    Account,
    Endpoint,
    Request,
}

/// The scope with a name.
pub open spec fn scope_named(name: Seq<char>) -> Option<RateLimitScope> {
    if name == "request"@ {
        Some(RateLimitScope::Request)
    } else if name == "endpoint"@ {
        Some(RateLimitScope::Endpoint)
    } else if name == "account"@ {
        Some(RateLimitScope::Account)
    } else {
        None
    }
}

impl RateLimitScope {
    /// Finds the scope with the given name.
    pub fn parse_protocol(value: &str) -> (r: Result<Self>)
        ensures
            match r {
                Ok(scope) => scope_named(value@) == Some(scope),
                Err(e) => scope_named(value@) is None && error::is_format_error(
                    e,
                    "unknown rate-limit scope: "@ + value@,
                ),
            },
    {
        if text::same_text(value, "request") {
            Ok(RateLimitScope::Request)
        } else if text::same_text(value, "endpoint") {
            Ok(RateLimitScope::Endpoint)
        } else if text::same_text(value, "account") {
            Ok(RateLimitScope::Account)
        } else {
            Err(Error::FormatError(text::join2("unknown rate-limit scope: ", value)))
        }
    }
}

/// A rate limit that the source reported.
#[derive(Debug, Clone, Copy, PartialEq, Eq, Structural)]
pub struct RateLimitInfo {
    pub scope: RateLimitScope,
    pub retry_after_ms: Option<u64>,
}

/// What a durable collection can be told to do.
#[derive(Debug, Clone, Copy, PartialEq, Eq, Structural)]
pub enum ExecutionControl {
    Pause,
    Cancel,
    Shutdown,
}

/// A control request. Under its ticket the requester waits for the confirmation that the sidecar
/// has been killed.
#[derive(Debug, Clone, Copy, PartialEq, Eq, Structural)]
pub struct ExecutionControlRequest {
    pub action: ExecutionControl,
    pub ticket: u64,
}

/// The identity under which a durable job runs, and its intervals.
#[derive(Debug)]
pub struct PersistentExecution {
    pub job_id: i64,
    pub run_id: i64,
    pub generation: i64,
    pub owner_token: String,
    /// The durable checkpoint key of the account, distinct from the protocol stream.
    pub checkpoint_stream: String,
    pub poll_interval_ms: u64,
    pub heartbeat_interval_ms: u64,
    pub lease_secs: u64,
}

/// The outcome of a collection.
#[derive(Debug, PartialEq, Eq)]
pub struct CollectionSummary {
    /// How it ended.
    pub status: CollectionStatus,
    /// The count of the last committed checkpoint.
    pub fetched_count: u64,
    /// The number of committed pages.
    pub pages: u64,
    /// A diagnosis when it failed or was interrupted.
    pub error: Option<String>,
    /// The reported rate limit.
    pub rate_limit: Option<RateLimitInfo>,
}

impl Default for CollectionSummary {
    fn default() -> (r: Self)
        ensures
            r == (CollectionSummary {
                status: CollectionStatus::Stopped,
                fetched_count: 0,
                pages: 0,
                error: None,
                rate_limit: None,
            }),
    {
        CollectionSummary {
            status: CollectionStatus::Stopped,
            fetched_count: 0,
            pages: 0,
            error: None,
            rate_limit: None,
        }
    }
}

/// The integer under a key: a number, or a string that denotes one.
pub open spec fn int_field(v: JsonView, key: Seq<char>) -> Option<i64> {
    match json::field(v, key) {
        Some(JsonView::Number(n)) => json::i64_of(JsonView::Number(n)),
        Some(JsonView::Text(s)) => text::i64_value(s),
        _ => None,
    }
}

/// The value under a key, unless it is `null`.
pub open spec fn value_field(v: JsonView, key: Seq<char>) -> Option<JsonView> {
    match json::field(v, key) {
        Some(JsonView::Null) => None,
        other => other,
    }
}

/// The value under a key as text: a string as it is, another value as JSON, `null` as nothing.
pub open spec fn flat_field(v: JsonView, key: Seq<char>) -> Option<Seq<char>> {
    match json::field(v, key) {
        Some(JsonView::Text(s)) => Some(s),
        Some(JsonView::Null) => None,
        Some(x) => Some(json::rendered(x)),
        None => None,
    }
}

/// The string under a key, or a default.
pub open spec fn text_or(v: JsonView, key: Seq<char>, default: Seq<char>) -> Seq<char> {
    match json::text_field(v, key) {
        Some(s) => s,
        None => default,
    }
}

/// The integer under a key, or zero.
pub open spec fn int_or_zero(v: JsonView, key: Seq<char>) -> i64 {
    match int_field(v, key) {
        Some(i) => i,
        None => 0,
    }
}

/// Whether the value under a key is `true`.
pub open spec fn flag(v: JsonView, key: Seq<char>) -> bool {
    json::bool_field(v, key) == Some(true)
}

/// The completeness under `content_status`: `partial` where it says so, `complete` otherwise.
pub open spec fn content_status_of(v: JsonView) -> Seq<char> {
    if json::text_field(v, "content_status"@) == Some("partial"@) {
        "partial"@
    } else {
        "complete"@
    }
}

/// Whether `is_long_text` is `true` or a number other than zero.
pub open spec fn long_text(v: JsonView) -> bool {
    match json::field(v, "is_long_text"@) {
        Some(JsonView::Bool(b)) => b,
        Some(JsonView::Number(n)) => json::i64_of(JsonView::Number(n)) matches Some(i) && i != 0,
        _ => false,
    }
}

fn get_str<'a>(payload: &'a Json, key: &str) -> (r: Option<&'a str>)
    ensures
        match r {
            Some(s) => json::text_field(payload@, key@) == Some(s@),
            None => json::text_field(payload@, key@) is None,
        },
{
    payload.str_field(key)
}

fn get_opt_str(payload: &Json, key: &str) -> (r: Option<String>)
    ensures
        text::opt_view(r) == json::text_field(payload@, key@),
{
    match payload.str_field(key) {
        Some(s) => Some(s.to_owned()),
        None => None,
    }
}

fn get_str_or(payload: &Json, key: &str, default: &str) -> (r: String)
    ensures
        r@ == text_or(payload@, key@, default@),
{
    match payload.str_field(key) {
        Some(s) => s.to_owned(),
        None => default.to_owned(),
    }
}

/// The integer under a key: a number, or a string that denotes one.
pub fn get_i64(payload: &Json, key: &str) -> (r: Option<i64>)
    ensures
        r == int_field(payload@, key@),
{
    match payload.get(key) {
        Some(value) => match value {
            Json::Number(_) => value.as_i64(),
            Json::Text(s) => text::parse_i64(s.as_str()),
            _ => None,
        },
        None => None,
    }
}

fn get_i64_or_zero(payload: &Json, key: &str) -> (r: i64)
    ensures
        r == int_or_zero(payload@, key@),
{
    match get_i64(payload, key) {
        Some(i) => i,
        None => 0,
    }
}

fn get_flag(payload: &Json, key: &str) -> (r: bool)
    ensures
        r == flag(payload@, key@),
{
    match payload.bool_field(key) {
        Some(b) => b,
        None => false,
    }
}

fn get_value(payload: &Json, key: &str) -> (r: Option<Json>)
    ensures
        json::opt_view(r) == value_field(payload@, key@),
{
    match payload.get(key) {
        Some(value) => if value.is_null() {
            None
        } else {
            Some(value.clone())
        },
        None => None,
    }
}

fn get_string_value(payload: &Json, key: &str) -> (r: Option<String>)
    ensures
        text::opt_view(r) == flat_field(payload@, key@),
{
    match payload.get(key) {
        Some(value) => match value {
            Json::Text(s) => Some(s.clone()),
            Json::Null => None,
            _ => Some(value.to_text()),
        },
        None => None,
    }
}

fn get_content_status(payload: &Json) -> (r: String)
    ensures
        r@ == content_status_of(payload@),
{
    match payload.str_field("content_status") {
        Some(s) => if text::same_text(s, "partial") {
            "partial".to_owned()
        } else {
            "complete".to_owned()
        },
        None => "complete".to_owned(),
    }
}

/// The normal form of a URL, or the placeholder where there is none.
pub open spec fn url_or_placeholder(raw: Option<Seq<char>>) -> Seq<char> {
    match raw {
        Some(s) => match web::parsed_url(s) {
            Ok(parts) => parts.text,
            Err(_) => web::placeholder_url(),
        },
        None => web::placeholder_url(),
    }
}

/// The normal form of a parsed URL, or the placeholder.
pub fn url_text_or_placeholder(parsed: std::result::Result<web::UrlParts, String>) -> (r: String)
    ensures
        r@ == match parsed {
            Ok(parts) => parts.text@,
            Err(_) => web::placeholder_url(),
        },
{
    match parsed {
        Ok(parts) => parts.text,
        Err(_) => "https://example.invalid/".to_owned(),
    }
}

/// Brings a URL into normal form; a missing or unusable one becomes the placeholder.
pub fn parse_url_or_placeholder(raw: Option<&str>) -> (r: String)
    ensures
        r@ == url_or_placeholder(
            match raw {
                Some(s) => Some(s@),
                None => None,
            },
        ),
{
    match raw {
        Some(s) => url_text_or_placeholder(web::parse_url(s)),
        None => "https://example.invalid/".to_owned(),
    }
}

/// What is read from the payload of a user event.
pub open spec fn is_user_of(u: User, v: JsonView) -> bool {
    &&& int_field(v, "id"@) == Some(u.id)
    &&& u.screen_name@ == text_or(v, "screen_name"@, ""@)
    &&& u.domain@ == text_or(v, "domain"@, ""@)
    &&& u.avatar_hd@ == url_or_placeholder(json::text_field(v, "avatar_hd"@))
    &&& u.avatar_large@ == url_or_placeholder(json::text_field(v, "avatar_large"@))
    &&& u.profile_image_url@ == url_or_placeholder(json::text_field(v, "profile_image_url"@))
    &&& u.following == flag(v, "following"@)
    &&& u.follow_me == flag(v, "follow_me"@)
}

/// Reads the payload of a user event. Only the identifier is required.
pub fn user_from_payload(payload: &Json) -> (r: Option<User>)
    ensures
        match r {
            Some(u) => is_user_of(u, payload@),
            None => int_field(payload@, "id"@) is None,
        },
{
    let id: i64 = match get_i64(payload, "id") {
        Some(id) => id,
        None => return None,
    };
    Some(
        User {
            id,
            screen_name: get_str_or(payload, "screen_name", ""),
            domain: get_str_or(payload, "domain", ""),
            avatar_hd: parse_url_or_placeholder(get_str(payload, "avatar_hd")),
            avatar_large: parse_url_or_placeholder(get_str(payload, "avatar_large")),
            profile_image_url: parse_url_or_placeholder(get_str(payload, "profile_image_url")),
            following: get_flag(payload, "following"),
            follow_me: get_flag(payload, "follow_me"),
        },
    )
}

/// What is read from the payload of a post event.
pub open spec fn is_post_of(p: PostInternal, v: JsonView) -> bool {
    &&& int_field(v, "id"@) == Some(p.id)
    &&& p.uid is Some && p.uid == int_field(v, "uid"@)
    &&& p.text@ == text_or(v, "text"@, ""@)
    &&& p.created_at@ == text_or(v, "created_at"@, ""@)
    &&& p.attitudes_status == int_or_zero(v, "attitudes_status"@)
    &&& p.attitudes_count == int_field(v, "attitudes_count"@)
    &&& p.comments_count == int_field(v, "comments_count"@)
    &&& p.reposts_count == int_field(v, "reposts_count"@)
    &&& p.repost_type == int_field(v, "repost_type"@)
    &&& p.retweeted_id == int_field(v, "retweeted_id"@)
    &&& p.pic_num == int_field(v, "pic_num"@)
    &&& p.edit_count == int_field(v, "edit_count"@)
    &&& p.deleted == flag(v, "deleted"@)
    &&& p.favorited == flag(v, "favorited"@)
    &&& p.mblogid@ == text_or(v, "mblogid"@, ""@)
    &&& json::opt_view(p.geo) == value_field(v, "geo"@)
    &&& json::opt_view(p.mix_media_ids) == value_field(v, "mix_media_ids"@)
    &&& json::opt_view(p.mix_media_info) == value_field(v, "mix_media_info"@)
    &&& json::opt_view(p.page_info) == value_field(v, "page_info"@)
    &&& json::opt_view(p.pic_ids) == value_field(v, "pic_ids"@)
    &&& json::opt_view(p.pic_infos) == value_field(v, "pic_infos"@)
    &&& json::opt_view(p.url_struct) == value_field(v, "url_struct"@)
    &&& json::opt_view(p.tag_struct) == value_field(v, "tag_struct"@)
    &&& json::opt_view(p.topic_ids) == value_field(v, "topic_ids"@)
    &&& json::opt_view(p.at_users) == value_field(v, "at_users"@)
    &&& json::opt_view(p.raw_data) == value_field(v, "raw_data"@)
    &&& text::opt_view(p.source) == json::text_field(v, "source"@)
    &&& text::opt_view(p.region_name) == json::text_field(v, "region_name"@)
    &&& text::opt_view(p.bid) == json::text_field(v, "bid"@)
    &&& text::opt_view(p.location) == json::text_field(v, "location"@)
    &&& text::opt_view(p.video_url) == json::text_field(v, "video_url"@)
    &&& text::opt_view(p.fetch_error) == json::text_field(v, "fetch_error"@)
    &&& text::opt_view(p.first_fetched_at) == json::text_field(v, "first_fetched_at"@)
    &&& text::opt_view(p.last_refreshed_at) == json::text_field(v, "last_refreshed_at"@)
    &&& p.content_status@ == content_status_of(v)
    &&& p.is_long_text == long_text(v)
}

/// Reads the payload of a post event. The identifiers of the post and of its author are required;
/// anything else has a default, so that one poor post does not hold up a batch.
pub fn post_from_payload(payload: &Json) -> (r: Result<PostInternal>)
    ensures
        match r {
            Ok(p) => is_post_of(p, payload@),
            Err(e) => if int_field(payload@, "id"@) is None {
                error::is_format_error(e, "post.id missing"@)
            } else {
                int_field(payload@, "uid"@) is None && error::is_format_error(
                    e,
                    "post.uid missing"@,
                )
            },
        },
{
    let id: i64 = match get_i64(payload, "id") {
        Some(id) => id,
        None => return Err(error::format_error("post.id missing")),
    };
    let uid: i64 = match get_i64(payload, "uid") {
        Some(uid) => uid,
        None => return Err(error::format_error("post.uid missing")),
    };
    let is_long_text = match payload.get("is_long_text") {
        Some(value) => match value {
            Json::Bool(b) => *b,
            Json::Number(_) => match value.as_i64() {
                Some(i) => i != 0,
                None => false,
            },
            _ => false,
        },
        None => false,
    };
    Ok(
        PostInternal {
            id,
            uid: Some(uid),
            text: get_str_or(payload, "text", ""),
            created_at: get_str_or(payload, "created_at", ""),
            attitudes_status: get_i64_or_zero(payload, "attitudes_status"),
            attitudes_count: get_i64(payload, "attitudes_count"),
            comments_count: get_i64(payload, "comments_count"),
            reposts_count: get_i64(payload, "reposts_count"),
            repost_type: get_i64(payload, "repost_type"),
            retweeted_id: get_i64(payload, "retweeted_id"),
            pic_num: get_i64(payload, "pic_num"),
            edit_count: get_i64(payload, "edit_count"),
            deleted: get_flag(payload, "deleted"),
            favorited: get_flag(payload, "favorited"),
            mblogid: get_str_or(payload, "mblogid", ""),
            geo: get_value(payload, "geo"),
            mix_media_ids: get_value(payload, "mix_media_ids"),
            mix_media_info: get_value(payload, "mix_media_info"),
            page_info: get_value(payload, "page_info"),
            pic_ids: get_value(payload, "pic_ids"),
            pic_infos: get_value(payload, "pic_infos"),
            url_struct: get_value(payload, "url_struct"),
            tag_struct: get_value(payload, "tag_struct"),
            topic_ids: get_value(payload, "topic_ids"),
            at_users: get_value(payload, "at_users"),
            raw_data: get_value(payload, "raw_data"),
            source: get_opt_str(payload, "source"),
            region_name: get_opt_str(payload, "region_name"),
            bid: get_opt_str(payload, "bid"),
            location: get_opt_str(payload, "location"),
            video_url: get_opt_str(payload, "video_url"),
            fetch_error: get_opt_str(payload, "fetch_error"),
            first_fetched_at: get_opt_str(payload, "first_fetched_at"),
            last_refreshed_at: get_opt_str(payload, "last_refreshed_at"),
            content_status: get_content_status(payload),
            is_long_text,
        },
    )
}

/// What is read from the payload of a comment event.
pub open spec fn is_comment_of(c: CommentDto, v: JsonView) -> bool {
    &&& int_field(v, "id"@) == Some(c.id)
    &&& int_field(v, "post_id"@) == Some(c.post_id)
    &&& c.root_id == int_field(v, "root_id"@)
    &&& c.parent_id == int_field(v, "parent_id"@)
    &&& c.user_id == int_field(v, "user_id"@)
    &&& c.text@ == text_or(v, "text"@, ""@)
    &&& c.created_at@ == text_or(v, "created_at"@, ""@)
    &&& c.depth == int_or_zero(v, "depth"@)
    &&& c.child_count == int_or_zero(v, "child_count"@)
    &&& c.like_count == int_or_zero(v, "like_count"@)
    &&& text::opt_view(c.source) == json::text_field(v, "source"@)
    &&& c.media_json is None
    &&& text::opt_view(c.raw_data) == flat_field(v, "raw_data"@)
    &&& c.content_status@ == content_status_of(v)
    &&& c.deleted == flag(v, "deleted"@)
    &&& text::opt_view(c.first_fetched_at) == json::text_field(v, "first_fetched_at"@)
    &&& text::opt_view(c.last_refreshed_at) == json::text_field(v, "last_refreshed_at"@)
}

/// Reads the payload of a comment event. The identifiers of comment and post are required.
pub fn comment_from_payload(payload: &Json) -> (r: Result<CommentDto>)
    ensures
        match r {
            Ok(c) => is_comment_of(c, payload@),
            Err(e) => if int_field(payload@, "id"@) is None {
                error::is_format_error(e, "comment.id missing"@)
            } else {
                int_field(payload@, "post_id"@) is None && error::is_format_error(
                    e,
                    "comment.post_id missing"@,
                )
            },
        },
{
    let id: i64 = match get_i64(payload, "id") {
        Some(id) => id,
        None => return Err(error::format_error("comment.id missing")),
    };
    let post_id: i64 = match get_i64(payload, "post_id") {
        Some(id) => id,
        None => return Err(error::format_error("comment.post_id missing")),
    };
    Ok(
        CommentDto {
            id,
            post_id,
            root_id: get_i64(payload, "root_id"),
            parent_id: get_i64(payload, "parent_id"),
            user_id: get_i64(payload, "user_id"),
            text: get_str_or(payload, "text", ""),
            created_at: get_str_or(payload, "created_at", ""),
            depth: get_i64_or_zero(payload, "depth"),
            child_count: get_i64_or_zero(payload, "child_count"),
            like_count: get_i64_or_zero(payload, "like_count"),
            source: get_opt_str(payload, "source"),
            media_json: None,
            raw_data: get_string_value(payload, "raw_data"),
            content_status: get_content_status(payload),
            deleted: get_flag(payload, "deleted"),
            first_fetched_at: get_opt_str(payload, "first_fetched_at"),
            last_refreshed_at: get_opt_str(payload, "last_refreshed_at"),
        },
    )
}

/// What is read from the payload of a media reference event.
pub open spec fn is_media_of(m: MediaDto, v: JsonView, now: Seq<char>) -> bool {
    &&& json::text_field(v, "url"@) == Some(m.url@)
    &&& m.id == 0
    &&& m.owner_type@ == text_or(v, "owner_type"@, "post"@)
    &&& m.owner_id == int_field(v, "owner_id"@)
    &&& m.media_type@ == text_or(v, "media_type"@, "picture"@)
    &&& m.local_path is None
    &&& m.status@ == "pending"@
    &&& m.retry_count == 0
    &&& m.last_error is None
    &&& m.created_at@ == now
    &&& m.updated_at is None
}

/// Reads the payload of a media reference event at the given time. The URL is required.
pub fn media_from_payload(payload: &Json, now: &str) -> (r: Result<MediaDto>)
    ensures
        match r {
            Ok(m) => is_media_of(m, payload@, now@),
            Err(e) => json::text_field(payload@, "url"@) is None && error::is_format_error(
                e,
                "media_reference.url missing"@,
            ),
        },
{
    let url = match get_opt_str(payload, "url") {
        Some(url) => url,
        None => return Err(error::format_error("media_reference.url missing")),
    };
    Ok(
        MediaDto {
            id: 0,
            owner_type: get_str_or(payload, "owner_type", "post"),
            owner_id: get_i64(payload, "owner_id"),
            media_type: get_str_or(payload, "media_type", "picture"),
            url,
            local_path: None,
            status: "pending".to_owned(),
            retry_count: 0,
            last_error: None,
            created_at: now.to_owned(),
            updated_at: None,
        },
    )
}

/// The cursor of a checkpoint payload: an object with a `max_id` and an integer `max_id_type`.
pub open spec fn cursor_of(v: JsonView) -> Option<JsonView> {
    match json::field(v, "cursor"@) {
        Some(c) => if c is Object && json::field(c, "max_id"@) is Some && (json::field(
            c,
            "max_id_type"@,
        ) matches Some(t) && json::i64_of(t) is Some) {
            Some(c)
        } else {
            None
        },
        None => None,
    }
}

/// The count of a checkpoint payload, within the signed range.
pub open spec fn fetched_count_of(v: JsonView) -> Option<i64> {
    match json::u64_field(v, "fetched_count"@) {
        Some(n) => if n <= i64::MAX {
            Some(n as i64)
        } else {
            None
        },
        None => None,
    }
}

/// The stored form of a cursor.
pub open spec fn wrapped_cursor(cursor: JsonView) -> JsonView {
    JsonView::Object(Map::empty().insert("cursor"@, cursor))
}

/// What is read from the payload of a checkpoint event.
pub open spec fn is_checkpoint_of(
    c: SyncCheckpointDto,
    stream: Seq<char>,
    v: JsonView,
    sequence: u64,
    now: Seq<char>,
) -> bool {
    &&& c.stream@ == stream
    &&& cursor_of(v) matches Some(cursor) && text::opt_view(c.cursor_json) == Some(
        json::rendered(wrapped_cursor(cursor)),
    ) && (json::plain(cursor, (json::MAX_DEPTH - 1) as nat) ==> json::reads_as(
        c.cursor_json->0@,
        wrapped_cursor(cursor),
    ))
    &&& fetched_count_of(v) == Some(c.fetched_count)
    &&& c.last_sequence == Some(sequence as i64)
    &&& c.updated_at@ == now
    &&& c.job_id is None
    &&& c.run_id is None
    &&& c.generation is None
    &&& c.owner_token is None
    &&& c.owner is AdHoc
}

/// Reads the payload of a checkpoint event at the given time. Cursor and count are required.
pub fn checkpoint_from_payload(stream: &str, payload: &Json, sequence: u64, now: &str) -> (r:
    Result<SyncCheckpointDto>)
    ensures
        match r {
            Ok(c) => is_checkpoint_of(c, stream@, payload@, sequence, now@),
            Err(e) => if cursor_of(payload@) is None {
                error::is_format_error(e, "invalid checkpoint cursor"@)
            } else {
                fetched_count_of(payload@) is None && error::is_format_error(
                    e,
                    "invalid checkpoint fetched_count"@,
                )
            },
        },
{
    let cursor = match payload.get("cursor") {
        Some(cursor) => {
            let typed = match cursor.get("max_id_type") {
                Some(t) => t.as_i64().is_some(),
                None => false,
            };
            if !(cursor.is_object() && cursor.get("max_id").is_some() && typed) {
                return Err(error::format_error("invalid checkpoint cursor"));
            }
            cursor
        },
        None => return Err(error::format_error("invalid checkpoint cursor")),
    };
    let mut wrapped = Json::empty_object();
    wrapped.insert("cursor", cursor.clone());
    let cursor_json = wrapped.to_text();
    proof {
        reveal_with_fuel(json::plain, 2);
    }
    let fetched_count: i64 = match payload.u64_field("fetched_count") {
        Some(n) => {
            if n > 0x7fff_ffff_ffff_ffff {
                return Err(error::format_error("invalid checkpoint fetched_count"));
            }
            n as i64
        },
        None => return Err(error::format_error("invalid checkpoint fetched_count")),
    };
    Ok(
        SyncCheckpointDto {
            stream: stream.to_owned(),
            cursor_json: Some(cursor_json),
            fetched_count,
            last_sequence: Some(sequence as i64),
            updated_at: now.to_owned(),
            job_id: None,
            run_id: None,
            generation: None,
            owner_token: None,
            owner: CheckpointOwner::AdHoc,
        },
    )
}

/// The status under `status` of the payload of a final event.
pub open spec fn done_status_of(v: JsonView) -> Option<CollectionStatus> {
    if json::text_field(v, "status"@) == Some("completed"@) {
        Some(CollectionStatus::Completed)
    } else if json::text_field(v, "status"@) == Some("stopped"@) {
        Some(CollectionStatus::Stopped)
    } else {
        None
    }
}

/// Reads the payload of a final event.
pub fn done_status_from_payload(payload: &Json) -> (r: Result<CollectionStatus>)
    ensures
        match r {
            Ok(status) => done_status_of(payload@) == Some(status),
            Err(e) => done_status_of(payload@) is None && error::is_format_error(
                e,
                match json::text_field(payload@, "status"@) {
                    Some(s) => "invalid sidecar done status: "@ + s,
                    None => "sidecar done status missing"@,
                },
            ),
        },
{
    match payload.str_field("status") {
        Some(s) => if text::same_text(s, "completed") {
            Ok(CollectionStatus::Completed)
        } else if text::same_text(s, "stopped") {
            proof {
                reveal_strlit("completed");
                reveal_strlit("stopped");
                assert("completed"@.len() != "stopped"@.len());
            }
            Ok(CollectionStatus::Stopped)
        } else {
            Err(Error::FormatError(text::join2("invalid sidecar done status: ", s)))
        },
        None => Err(error::format_error("sidecar done status missing")),
    }
}

/// Whether an event may follow another: it is the very next one.
pub open spec fn follows(previous: u64, current: u64) -> bool {
    current == previous + 1
}

/// Checks that an event is the very next one of its stream.
pub fn validate_event_sequence(previous: u64, current: u64) -> (r: Result<()>)
    ensures
        match r {
            Ok(_) => follows(previous, current),
            Err(e) => !follows(previous, current) && error::is_format_error(
                e,
                if previous == u64::MAX {
                    "sidecar event sequence overflow"@
                } else {
                    "sidecar event sequence gap or reordering: expected "@ + text::decimal(
                        (previous + 1) as nat,
                    ) + ", got "@ + text::decimal(current as nat)
                },
            ),
        },
{
    if previous == u64::MAX {
        return Err(error::format_error("sidecar event sequence overflow"));
    }
    let expected: u64 = previous + 1;
    if current != expected {
        let mut message = text::join3(
            "sidecar event sequence gap or reordering: expected ",
            text::u64_text(expected).as_str(),
            ", got ",
        );
        message.append(text::u64_text(current).as_str());
        return Err(Error::FormatError(message));
    }
    Ok(())
}

} // verus!
