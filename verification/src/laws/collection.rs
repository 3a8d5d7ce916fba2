//! Collected records: what a payload says is what is stored.
use vstd::prelude::*;

use crate::error::Result;
use crate::json;
use crate::json::{Json, JsonView, NumberView};
use crate::models::user::User;
use crate::sidecar::collector::{
    checkpoint_from_payload, comment_from_payload, done_status_from_payload, media_from_payload,
    post_from_payload, user_from_payload, validate_event_sequence, CollectionStatus, RateLimitScope,
};
use crate::storage::internal::entities::{CommentDto, MediaDto, SyncCheckpointDto};
use crate::storage::internal::post::PostInternal;
use crate::text;
use crate::web;

verus! {

/// Whether an object holds an integer under a name, as a number or as its numeral.
pub open spec fn writes_int(m: Map<Seq<char>, JsonView>, name: Seq<char>, n: i64) -> bool {
    m.contains_key(name) && (m[name] == JsonView::Number(NumberView::Integer(n as int)) || m[name]
        == JsonView::Text(text::signed_decimal(n as int)))
}

/// Whether an object holds nothing under a name.
pub open spec fn omits(m: Map<Seq<char>, JsonView>, name: Seq<char>) -> bool {
    !m.contains_key(name) || m[name] is Null
}

/// Whether an object holds an optional integer under a name.
pub open spec fn writes_opt_int(
    m: Map<Seq<char>, JsonView>,
    name: Seq<char>,
    n: Option<i64>,
) -> bool {
    match n {
        Some(n) => writes_int(m, name, n),
        None => omits(m, name),
    }
}

/// Whether an object holds a text under a name.
pub open spec fn writes_text(m: Map<Seq<char>, JsonView>, name: Seq<char>, t: Seq<char>) -> bool {
    m.contains_key(name) && m[name] == JsonView::Text(t)
}

/// Whether an object holds an optional text under a name.
pub open spec fn writes_opt_text(
    m: Map<Seq<char>, JsonView>,
    name: Seq<char>,
    t: Option<String>,
) -> bool {
    match t {
        Some(t) => writes_text(m, name, t@),
        None => omits(m, name),
    }
}

/// Whether an object holds an optional value under a name.
pub open spec fn writes_opt_value(
    m: Map<Seq<char>, JsonView>,
    name: Seq<char>,
    v: Option<Json>,
) -> bool {
    match v {
        Some(v) => m.contains_key(name) && m[name] == v@ && !(v@ is Null),
        None => omits(m, name),
    }
}

/// Whether an object holds a truth value under a name.
pub open spec fn writes_bool(m: Map<Seq<char>, JsonView>, name: Seq<char>, b: bool) -> bool {
    m.contains_key(name) && m[name] == JsonView::Bool(b)
}

/// Whether an object is a comment written out, each column under its name.
pub open spec fn writes_comment(m: Map<Seq<char>, JsonView>, c: CommentDto) -> bool {
    &&& writes_int(m, "id"@, c.id)
    &&& writes_int(m, "post_id"@, c.post_id)
    &&& writes_opt_int(m, "root_id"@, c.root_id)
    &&& writes_opt_int(m, "parent_id"@, c.parent_id)
    &&& writes_opt_int(m, "user_id"@, c.user_id)
    &&& writes_text(m, "text"@, c.text@)
    &&& writes_text(m, "created_at"@, c.created_at@)
    &&& writes_int(m, "depth"@, c.depth)
    &&& writes_int(m, "child_count"@, c.child_count)
    &&& writes_int(m, "like_count"@, c.like_count)
    &&& writes_opt_text(m, "source"@, c.source)
    &&& writes_opt_text(m, "raw_data"@, c.raw_data)
    &&& writes_text(m, "content_status"@, c.content_status@)
    &&& writes_bool(m, "deleted"@, c.deleted)
    &&& writes_opt_text(m, "first_fetched_at"@, c.first_fetched_at)
    &&& writes_opt_text(m, "last_refreshed_at"@, c.last_refreshed_at)
}

proof fn lemma_int(m: Map<Seq<char>, JsonView>, name: Seq<char>, n: i64)
    requires
        writes_int(m, name, n),
    ensures
        crate::sidecar::collector::int_field(JsonView::Object(m), name) == Some(n),
{
    text::signed_decimal_parses_back(n);
}

proof fn lemma_opt_int(m: Map<Seq<char>, JsonView>, name: Seq<char>, n: Option<i64>)
    requires
        writes_opt_int(m, name, n),
    ensures
        crate::sidecar::collector::int_field(JsonView::Object(m), name) == n,
{
    if n is Some {
        lemma_int(m, name, n->0);
    }
}

/// Reading a comment that was written out, each column under its name, gives the same comment: no
/// column is read from another one's place. So a reply hangs on the comment that it answers, and
/// belongs to the thread that it names.
pub proof fn comments_read_back(
    payload: Json,
    fields: Map<Seq<char>, JsonView>,
    c: CommentDto,
    r: Result<CommentDto>,
)
    requires
        payload@ == JsonView::Object(fields),
        writes_comment(fields, c),
        c.content_status@ == "complete"@ || c.content_status@ == "partial"@,
        call_ensures(comment_from_payload, (&payload,), r),
    ensures
        r matches Ok(d) && {
            &&& d.id == c.id
            &&& d.post_id == c.post_id
            &&& d.root_id == c.root_id
            &&& d.parent_id == c.parent_id
            &&& d.user_id == c.user_id
            &&& d.text@ == c.text@
            &&& d.created_at@ == c.created_at@
            &&& d.depth == c.depth
            &&& d.child_count == c.child_count
            &&& d.like_count == c.like_count
            &&& text::opt_view(d.source) == text::opt_view(c.source)
            &&& text::opt_view(d.raw_data) == text::opt_view(c.raw_data)
            &&& d.content_status@ == c.content_status@
            &&& d.deleted == c.deleted
            &&& text::opt_view(d.first_fetched_at) == text::opt_view(c.first_fetched_at)
            &&& text::opt_view(d.last_refreshed_at) == text::opt_view(c.last_refreshed_at)
            &&& d.media_json is None
        },
{
    lemma_int(fields, "id"@, c.id);
    lemma_int(fields, "post_id"@, c.post_id);
    lemma_opt_int(fields, "root_id"@, c.root_id);
    lemma_opt_int(fields, "parent_id"@, c.parent_id);
    lemma_opt_int(fields, "user_id"@, c.user_id);
    lemma_int(fields, "depth"@, c.depth);
    lemma_int(fields, "child_count"@, c.child_count);
    lemma_int(fields, "like_count"@, c.like_count);
}

/// A comment needs nothing but its identifier and that of its post: what is missing is empty, zero
/// or absent, and a comment that says nothing of its completeness is complete.
pub proof fn poor_comments_are_kept(
    payload: Json,
    fields: Map<Seq<char>, JsonView>,
    id: i64,
    post_id: i64,
    r: Result<CommentDto>,
)
    requires
        payload@ == JsonView::Object(fields),
        writes_int(fields, "id"@, id),
        writes_int(fields, "post_id"@, post_id),
        call_ensures(comment_from_payload, (&payload,), r),
    ensures
        r matches Ok(d) && {
            &&& d.id == id
            &&& d.post_id == post_id
            &&& omits(fields, "root_id"@) ==> d.root_id is None
            &&& omits(fields, "parent_id"@) ==> d.parent_id is None
            &&& omits(fields, "text"@) ==> d.text@ == ""@
            &&& omits(fields, "depth"@) ==> d.depth == 0
            &&& omits(fields, "deleted"@) ==> !d.deleted
            &&& omits(fields, "content_status"@) ==> d.content_status@ == "complete"@
        },
{
    lemma_int(fields, "id"@, id);
    lemma_int(fields, "post_id"@, post_id);
}

/// A comment without its identifier or that of its post is refused.
pub proof fn nameless_comments_are_refused(
    payload: Json,
    fields: Map<Seq<char>, JsonView>,
    r: Result<CommentDto>,
)
    requires
        payload@ == JsonView::Object(fields),
        omits(fields, "id"@) || omits(fields, "post_id"@),
        call_ensures(comment_from_payload, (&payload,), r),
    ensures
        r is Err,
{
}

/// Whether an object is a post written out, each column under its name.
pub open spec fn writes_post(m: Map<Seq<char>, JsonView>, p: PostInternal) -> bool {
    &&& writes_int(m, "id"@, p.id)
    &&& writes_opt_int(m, "uid"@, p.uid)
    &&& writes_text(m, "text"@, p.text@)
    &&& writes_text(m, "created_at"@, p.created_at@)
    &&& writes_opt_int(m, "attitudes_count"@, p.attitudes_count)
    &&& writes_int(m, "attitudes_status"@, p.attitudes_status)
    &&& writes_opt_int(m, "comments_count"@, p.comments_count)
    &&& writes_opt_int(m, "reposts_count"@, p.reposts_count)
    &&& writes_opt_int(m, "repost_type"@, p.repost_type)
    &&& writes_opt_int(m, "retweeted_id"@, p.retweeted_id)
    &&& writes_opt_int(m, "pic_num"@, p.pic_num)
    &&& writes_opt_int(m, "edit_count"@, p.edit_count)
    &&& writes_bool(m, "deleted"@, p.deleted)
    &&& writes_bool(m, "favorited"@, p.favorited)
    &&& writes_text(m, "mblogid"@, p.mblogid@)
    &&& writes_opt_value(m, "geo"@, p.geo)
    &&& writes_opt_value(m, "mix_media_ids"@, p.mix_media_ids)
    &&& writes_opt_value(m, "mix_media_info"@, p.mix_media_info)
    &&& writes_opt_value(m, "page_info"@, p.page_info)
    &&& writes_opt_value(m, "pic_ids"@, p.pic_ids)
    &&& writes_opt_value(m, "pic_infos"@, p.pic_infos)
    &&& writes_opt_value(m, "url_struct"@, p.url_struct)
    &&& writes_opt_value(m, "tag_struct"@, p.tag_struct)
    &&& writes_opt_value(m, "topic_ids"@, p.topic_ids)
    &&& writes_opt_value(m, "at_users"@, p.at_users)
    &&& writes_opt_value(m, "raw_data"@, p.raw_data)
    &&& writes_opt_text(m, "source"@, p.source)
    &&& writes_opt_text(m, "region_name"@, p.region_name)
    &&& writes_opt_text(m, "bid"@, p.bid)
    &&& writes_opt_text(m, "location"@, p.location)
    &&& writes_opt_text(m, "video_url"@, p.video_url)
    &&& writes_text(m, "content_status"@, p.content_status@)
    &&& writes_opt_text(m, "fetch_error"@, p.fetch_error)
    &&& writes_opt_text(m, "first_fetched_at"@, p.first_fetched_at)
    &&& writes_opt_text(m, "last_refreshed_at"@, p.last_refreshed_at)
    &&& writes_bool(m, "is_long_text"@, p.is_long_text)
}

/// Reading a post that was written out, each column under its name, gives the same post.
pub proof fn posts_read_back(
    payload: Json,
    fields: Map<Seq<char>, JsonView>,
    p: PostInternal,
    r: Result<PostInternal>,
)
    requires
        payload@ == JsonView::Object(fields),
        writes_post(fields, p),
        p.uid is Some,
        p.content_status@ == "complete"@ || p.content_status@ == "partial"@,
        call_ensures(post_from_payload, (&payload,), r),
    ensures
        r matches Ok(q) && {
            &&& q.id == p.id
            &&& q.uid == p.uid
            &&& q.text@ == p.text@
            &&& q.created_at@ == p.created_at@
            &&& q.attitudes_count == p.attitudes_count
            &&& q.attitudes_status == p.attitudes_status
            &&& q.comments_count == p.comments_count
            &&& q.reposts_count == p.reposts_count
            &&& q.repost_type == p.repost_type
            &&& q.retweeted_id == p.retweeted_id
            &&& q.pic_num == p.pic_num
            &&& q.edit_count == p.edit_count
            &&& q.deleted == p.deleted
            &&& q.favorited == p.favorited
            &&& q.mblogid@ == p.mblogid@
            &&& json::opt_view(q.geo) == json::opt_view(p.geo)
            &&& json::opt_view(q.mix_media_ids) == json::opt_view(p.mix_media_ids)
            &&& json::opt_view(q.mix_media_info) == json::opt_view(p.mix_media_info)
            &&& json::opt_view(q.page_info) == json::opt_view(p.page_info)
            &&& json::opt_view(q.pic_ids) == json::opt_view(p.pic_ids)
            &&& json::opt_view(q.pic_infos) == json::opt_view(p.pic_infos)
            &&& json::opt_view(q.url_struct) == json::opt_view(p.url_struct)
            &&& json::opt_view(q.tag_struct) == json::opt_view(p.tag_struct)
            &&& json::opt_view(q.topic_ids) == json::opt_view(p.topic_ids)
            &&& json::opt_view(q.at_users) == json::opt_view(p.at_users)
            &&& json::opt_view(q.raw_data) == json::opt_view(p.raw_data)
            &&& text::opt_view(q.source) == text::opt_view(p.source)
            &&& text::opt_view(q.region_name) == text::opt_view(p.region_name)
            &&& text::opt_view(q.bid) == text::opt_view(p.bid)
            &&& text::opt_view(q.location) == text::opt_view(p.location)
            &&& text::opt_view(q.video_url) == text::opt_view(p.video_url)
            &&& q.content_status@ == p.content_status@
            &&& text::opt_view(q.fetch_error) == text::opt_view(p.fetch_error)
            &&& text::opt_view(q.first_fetched_at) == text::opt_view(p.first_fetched_at)
            &&& text::opt_view(q.last_refreshed_at) == text::opt_view(p.last_refreshed_at)
            &&& q.is_long_text == p.is_long_text
        },
{
    lemma_int(fields, "id"@, p.id);
    lemma_opt_int(fields, "uid"@, p.uid);
    lemma_opt_int(fields, "attitudes_count"@, p.attitudes_count);
    lemma_int(fields, "attitudes_status"@, p.attitudes_status);
    lemma_opt_int(fields, "comments_count"@, p.comments_count);
    lemma_opt_int(fields, "reposts_count"@, p.reposts_count);
    lemma_opt_int(fields, "repost_type"@, p.repost_type);
    lemma_opt_int(fields, "retweeted_id"@, p.retweeted_id);
    lemma_opt_int(fields, "pic_num"@, p.pic_num);
    lemma_opt_int(fields, "edit_count"@, p.edit_count);
}

/// A post needs nothing but its identifier and that of its author; a flag for long texts may also be
/// a number, and only a post that calls itself partial is partial.
pub proof fn poor_posts_are_kept(
    payload: Json,
    fields: Map<Seq<char>, JsonView>,
    id: i64,
    uid: i64,
    long: i64,
    r: Result<PostInternal>,
)
    requires
        payload@ == JsonView::Object(fields),
        writes_int(fields, "id"@, id),
        writes_int(fields, "uid"@, uid),
        call_ensures(post_from_payload, (&payload,), r),
    ensures
        r matches Ok(p) && {
            &&& p.id == id
            &&& p.uid == Some(uid)
            &&& omits(fields, "text"@) ==> p.text@ == ""@
            &&& omits(fields, "retweeted_id"@) ==> p.retweeted_id is None
            &&& omits(fields, "deleted"@) ==> !p.deleted
            &&& omits(fields, "favorited"@) ==> !p.favorited
            &&& p.content_status@ == "partial"@ <==> writes_text(
                fields,
                "content_status"@,
                "partial"@,
            )
            &&& p.content_status@ == "partial"@ || p.content_status@ == "complete"@
            &&& omits(fields, "is_long_text"@) ==> !p.is_long_text
            &&& fields.contains_key("is_long_text"@) && fields["is_long_text"@] == JsonView::Number(
                NumberView::Integer(long as int),
            ) ==> p.is_long_text == (long != 0)
        },
{
    reveal_strlit("partial");
    reveal_strlit("complete");
    assert("partial"@.len() != "complete"@.len());
    lemma_int(fields, "id"@, id);
    lemma_int(fields, "uid"@, uid);
}

/// A post without its identifier or that of its author is refused.
pub proof fn nameless_posts_are_refused(
    payload: Json,
    fields: Map<Seq<char>, JsonView>,
    r: Result<PostInternal>,
)
    requires
        payload@ == JsonView::Object(fields),
        omits(fields, "id"@) || omits(fields, "uid"@),
        call_ensures(post_from_payload, (&payload,), r),
    ensures
        r is Err,
{
}

/// Whether an image address is what a payload says under a name: the normal form of its URL, or the
/// placeholder where it holds none.
pub open spec fn shows_image(m: Map<Seq<char>, JsonView>, name: Seq<char>, url: Seq<char>) -> bool {
    &&& omits(m, name) ==> url == "https://example.invalid/"@
    &&& m.contains_key(name) ==> (m[name] matches JsonView::Text(raw) ==> match web::parsed_url(
        raw,
    ) {
        Ok(parts) => url == parts.text,
        Err(_) => url == "https://example.invalid/"@,
    })
}

/// A user is read as written: each name under its own, each image from its own address, each
/// relationship only where it is reported.
pub proof fn users_are_read_as_written(
    payload: Json,
    fields: Map<Seq<char>, JsonView>,
    id: i64,
    r: Option<User>,
)
    requires
        payload@ == JsonView::Object(fields),
        writes_int(fields, "id"@, id),
        call_ensures(user_from_payload, (&payload,), r),
    ensures
        r matches Some(u) && {
            &&& u.id == id
            &&& forall|t: Seq<char>|
                writes_text(fields, "screen_name"@, t) ==> u.screen_name@ == t
            &&& forall|t: Seq<char>| writes_text(fields, "domain"@, t) ==> u.domain@ == t
            &&& omits(fields, "screen_name"@) ==> u.screen_name@ == ""@
            &&& omits(fields, "domain"@) ==> u.domain@ == ""@
            &&& shows_image(fields, "avatar_hd"@, u.avatar_hd@)
            &&& shows_image(fields, "avatar_large"@, u.avatar_large@)
            &&& shows_image(fields, "profile_image_url"@, u.profile_image_url@)
            &&& u.following <==> writes_bool(fields, "following"@, true)
            &&& u.follow_me <==> writes_bool(fields, "follow_me"@, true)
        },
{
    lemma_int(fields, "id"@, id);
}

/// A user without an identifier is none.
pub proof fn nameless_users_are_none(
    payload: Json,
    fields: Map<Seq<char>, JsonView>,
    r: Option<User>,
)
    requires
        payload@ == JsonView::Object(fields),
        omits(fields, "id"@),
        call_ensures(user_from_payload, (&payload,), r),
    ensures
        r is None,
{
}

/// A medium waits to be downloaded from the address that was collected, for the owner that was
/// collected; one that names none belongs to a post, and is a picture.
pub proof fn media_wait_as_collected(
    payload: Json,
    fields: Map<Seq<char>, JsonView>,
    url: Seq<char>,
    owner: Option<i64>,
    now: &str,
    r: Result<MediaDto>,
)
    requires
        payload@ == JsonView::Object(fields),
        writes_text(fields, "url"@, url),
        writes_opt_int(fields, "owner_id"@, owner),
        call_ensures(media_from_payload, (&payload, now), r),
    ensures
        r matches Ok(m) && {
            &&& m.url@ == url
            &&& m.owner_id == owner
            &&& forall|t: Seq<char>| writes_text(fields, "owner_type"@, t) ==> m.owner_type@ == t
            &&& forall|t: Seq<char>| writes_text(fields, "media_type"@, t) ==> m.media_type@ == t
            &&& omits(fields, "owner_type"@) ==> m.owner_type@ == "post"@
            &&& omits(fields, "media_type"@) ==> m.media_type@ == "picture"@
            &&& m.status@ == "pending"@
            &&& m.retry_count == 0
            &&& m.local_path is None
            &&& m.last_error is None
            &&& m.created_at@ == now@
        },
{
    lemma_opt_int(fields, "owner_id"@, owner);
}

/// A medium without an address is refused.
pub proof fn media_without_address_are_refused(
    payload: Json,
    fields: Map<Seq<char>, JsonView>,
    now: &str,
    r: Result<MediaDto>,
)
    requires
        payload@ == JsonView::Object(fields),
        omits(fields, "url"@),
        call_ensures(media_from_payload, (&payload, now), r),
    ensures
        r is Err,
{
}

/// A checkpoint keeps the stream, the position and the count that it was read with, and its cursor
/// under the name `cursor`; and what makes no cursor makes no checkpoint.
pub proof fn checkpoints_keep_their_cursor(
    stream: &str,
    payload: Json,
    fields: Map<Seq<char>, JsonView>,
    cursor: Map<Seq<char>, JsonView>,
    count: i64,
    kind: i64,
    sequence: u64,
    now: &str,
    r: Result<SyncCheckpointDto>,
)
    requires
        payload@ == JsonView::Object(fields),
        fields.contains_key("cursor"@) && fields["cursor"@] == JsonView::Object(cursor),
        fields.contains_key("fetched_count"@) && fields["fetched_count"@] == JsonView::Number(
            NumberView::Integer(count as int),
        ),
        count >= 0,
        sequence <= i64::MAX,
        call_ensures(checkpoint_from_payload, (stream, &payload, sequence, now), r),
    ensures
        cursor.contains_key("max_id"@) && cursor.contains_key("max_id_type"@) && cursor["max_id_type"@]
            == JsonView::Number(NumberView::Integer(kind as int)) ==> (r matches Ok(c) && {
            &&& c.stream@ == stream@
            &&& c.fetched_count == count
            &&& c.last_sequence == Some(sequence as i64)
            &&& c.updated_at@ == now@
            &&& c.job_id is None && c.run_id is None && c.generation is None && c.owner_token is None
            &&& text::opt_view(c.cursor_json) == Some(
                json::rendered(
                    JsonView::Object(map!["cursor"@ => JsonView::Object(cursor)]),
                ),
            )
        }),
        !cursor.contains_key("max_id"@) || !cursor.contains_key("max_id_type"@) ==> r is Err,
{
    assert(map!["cursor"@ => JsonView::Object(cursor)] =~= Map::<Seq<char>, JsonView>::empty().insert(
        "cursor"@,
        JsonView::Object(cursor),
    ));
}

/// A stream ends as its last event says: completed or stopped, and nothing else.
pub proof fn streams_end_as_they_say(
    payload: Json,
    fields: Map<Seq<char>, JsonView>,
    r: Result<CollectionStatus>,
)
    requires
        payload@ == JsonView::Object(fields),
        call_ensures(done_status_from_payload, (&payload,), r),
    ensures
        r matches Ok(status) ==> status == CollectionStatus::Completed || status
            == CollectionStatus::Stopped,
        (r is Ok && r->Ok_0 == CollectionStatus::Completed) <==> writes_text(
            fields,
            "status"@,
            "completed"@,
        ),
        (r is Ok && r->Ok_0 == CollectionStatus::Stopped) <==> writes_text(
            fields,
            "status"@,
            "stopped"@,
        ),
{
    reveal_strlit("completed");
    reveal_strlit("stopped");
    assert("completed"@.len() != "stopped"@.len());
}

/// Events are taken in order, without a gap and without a repetition.
pub proof fn events_come_one_by_one(previous: u64, current: u64, r: Result<()>)
    requires
        call_ensures(validate_event_sequence, (previous, current), r),
    ensures
        r is Ok <==> current as int == previous as int + 1,
{
}

/// The three scopes of a rate limit have their names, and no other name has a scope.
pub proof fn scopes_are_known_by_name(value: &str, r: Result<RateLimitScope>)
    requires
        call_ensures(RateLimitScope::parse_protocol, (value,), r),
    ensures
        value@ == "request"@ ==> (r matches Ok(s) && s == RateLimitScope::Request),
        value@ == "endpoint"@ ==> (r matches Ok(s) && s == RateLimitScope::Endpoint),
        value@ == "account"@ ==> (r matches Ok(s) && s == RateLimitScope::Account),
        r is Ok ==> value@ == "request"@ || value@ == "endpoint"@ || value@ == "account"@,
{
    reveal_strlit("request");
    reveal_strlit("endpoint");
    reveal_strlit("account");
    assert("request"@[0] != "endpoint"@[0]);
    assert("request"@[0] != "account"@[0]);
    assert("account"@[0] != "endpoint"@[0]);
}

} // verus!
