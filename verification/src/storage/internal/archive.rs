//! The archive as a whole, and what commits make of it.
use vstd::prelude::*;

use crate::models::user::User;
use crate::storage::internal::entities;
use crate::storage::internal::entities::{
    CommentDto, MediaDto, ProcessedEventDto, SyncCheckpointDto,
};
use crate::storage::internal::post::PostInternal;
use crate::storage::internal::transactional;
use crate::storage::internal::transactional::{CommitPlan, CommitWrites, PostSource};

verus! {

/// What the archive holds: each row under its key.
#[verifier::ext_equal]
pub struct Archive {
    pub users: Map<i64, User>,
    pub posts: Map<i64, PostInternal>,
    pub comments: Map<i64, CommentDto>,
    /// Media by URL.
    pub media: Map<Seq<char>, MediaDto>,
    /// Checkpoints by stream.
    pub checkpoints: Map<Seq<char>, SyncCheckpointDto>,
    /// Processed events by identifier.
    pub events: Map<Seq<char>, ProcessedEventDto>,
}

/// The users after collected ones have been merged in, one after the other.
pub open spec fn users_saved(users: Map<i64, User>, incoming: Seq<User>) -> Map<i64, User>
    decreases incoming.len(),
{
    if incoming.len() == 0 {
        users
    } else {
        let before = users_saved(users, incoming.drop_last());
        let u = incoming.last();
        before.insert(
            u.id,
            if before.contains_key(u.id) {
                transactional::merged_user(before[u.id], u)
            } else {
                u
            },
        )
    }
}

/// The post that is kept of a collected one and the one before it.
pub open spec fn kept_post(before: Option<PostInternal>, post: PostInternal) -> PostInternal {
    match before {
        Some(known) => if post.content_status@ == "partial"@ && known.content_status@
            == "complete"@ {
            known
        } else {
            post
        },
        None => post,
    }
}

/// The row under a key.
pub open spec fn row_of<K, V>(rows: Map<K, V>, key: K) -> Option<V> {
    if rows.contains_key(key) {
        Some(rows[key])
    } else {
        None
    }
}

/// The posts after the first `n` collected ones have been saved, one after the other.
pub open spec fn posts_saved(
    posts: Map<i64, PostInternal>,
    incoming: Seq<PostInternal>,
    n: int,
) -> Map<i64, PostInternal>
    decreases n,
{
    if n <= 0 {
        posts
    } else {
        let before = posts_saved(posts, incoming, n - 1);
        let p = incoming[n - 1];
        before.insert(p.id, kept_post(row_of(before, p.id), p))
    }
}

/// The comments after collected ones have replaced those with the same identifiers.
pub open spec fn comments_saved(
    comments: Map<i64, CommentDto>,
    incoming: Seq<CommentDto>,
) -> Map<i64, CommentDto>
    decreases incoming.len(),
{
    if incoming.len() == 0 {
        comments
    } else {
        comments_saved(comments, incoming.drop_last()).insert(incoming.last().id, incoming.last())
    }
}

/// The media after references to them have been collected.
pub open spec fn media_saved(
    media: Map<Seq<char>, MediaDto>,
    incoming: Seq<MediaDto>,
) -> Map<Seq<char>, MediaDto>
    decreases incoming.len(),
{
    if incoming.len() == 0 {
        media
    } else {
        let before = media_saved(media, incoming.drop_last());
        let m = incoming.last();
        before.insert(m.url@, entities::referenced_media(row_of(before, m.url@), m))
    }
}

/// The archive after a plan has been committed: all of it, or nothing where its event has been
/// processed.
pub open spec fn committed(a: Archive, plan: CommitPlan) -> Archive {
    if a.events.contains_key(plan.event_id@) {
        a
    } else {
        Archive {
            users: users_saved(a.users, plan.users@),
            posts: posts_saved(a.posts, plan.posts@, plan.posts@.len() as int),
            comments: comments_saved(a.comments, plan.comments@),
            media: media_saved(a.media, plan.media@),
            checkpoints: a.checkpoints.insert(plan.checkpoint.stream@, plan.checkpoint),
            events: a.events.insert(plan.event_id@, transactional::event_record(plan)),
        }
    }
}

/// The users after rows have been written, one after the other.
pub open spec fn users_written(users: Map<i64, User>, rows: Seq<User>) -> Map<i64, User>
    decreases rows.len(),
{
    if rows.len() == 0 {
        users
    } else {
        users_written(users, rows.drop_last()).insert(rows.last().id, rows.last())
    }
}

/// The posts after the rows of the first `n` sources have been written, one after the other.
pub open spec fn posts_written(
    posts: Map<i64, PostInternal>,
    sources: Seq<PostSource>,
    collected: Seq<PostInternal>,
    stored: Seq<PostInternal>,
    n: int,
) -> Map<i64, PostInternal>
    decreases n,
{
    if n <= 0 {
        posts
    } else {
        let row = transactional::sourced_post(sources[n - 1], collected, stored);
        posts_written(posts, sources, collected, stored, n - 1).insert(row.id, row)
    }
}

/// The archive after the given writes.
pub open spec fn written(
    a: Archive,
    w: CommitWrites<'_>,
    collected: Seq<PostInternal>,
    stored: Seq<PostInternal>,
) -> Archive {
    Archive {
        users: users_written(a.users, w.users@),
        posts: posts_written(a.posts, w.posts@, collected, stored, w.posts@.len() as int),
        comments: match w.comments {
            Some(rows) => comments_saved(a.comments, rows@),
            None => a.comments,
        },
        media: match w.media {
            Some(rows) => media_saved(a.media, rows@),
            None => a.media,
        },
        checkpoints: match w.checkpoint {
            Some(c) => a.checkpoints.insert(c.stream@, *c),
            None => a.checkpoints,
        },
        events: match w.event {
            Some(e) => a.events.insert(e.event_id@, e),
            None => a.events,
        },
    }
}

/// Whether rows are what the archive holds of the users that a plan mentions.
pub open spec fn shows_users(
    stored: Seq<User>,
    users: Map<i64, User>,
    mentioned: Seq<User>,
) -> bool {
    forall|i: int|
        0 <= i < mentioned.len() ==> transactional::latest_user(
            stored,
            (#[trigger] mentioned[i]).id,
        ) == row_of(users, mentioned[i].id)
}

/// The stored row with an identifier.
pub open spec fn stored_post(stored: Seq<PostInternal>, id: i64) -> Option<PostInternal> {
    match transactional::latest_post(stored, stored.len() as int, id) {
        Some(k) => Some(stored[k]),
        None => None,
    }
}

/// Whether rows are what the archive holds of the posts that a plan mentions.
pub open spec fn shows_posts(
    stored: Seq<PostInternal>,
    posts: Map<i64, PostInternal>,
    mentioned: Seq<PostInternal>,
) -> bool {
    forall|i: int|
        0 <= i < mentioned.len() ==> stored_post(stored, (#[trigger] mentioned[i]).id) == row_of(
            posts,
            mentioned[i].id,
        )
}

proof fn lemma_latest_after_push(rows: Seq<User>, row: User, id: i64)
    ensures
        transactional::latest_user(rows.push(row), id) == if row.id == id {
            Some(row)
        } else {
            transactional::latest_user(rows, id)
        },
{
    assert(rows.push(row).drop_last() == rows);
}

/// Writing the rows of collected users is merging the users in.
proof fn lemma_users(users: Map<i64, User>, stored: Seq<User>, all: Seq<User>, n: int)
    requires
        shows_users(stored, users, all),
        0 <= n <= all.len(),
    ensures
        ({
            let rows = transactional::user_rows(all.subrange(0, n), stored);
            let saved = users_saved(users, all.subrange(0, n));
            &&& users_written(users, rows) == saved
            &&& forall|i: int|
                0 <= i < all.len() ==> transactional::latest_user(
                    stored + rows,
                    (#[trigger] all[i]).id,
                ) == row_of(saved, all[i].id)
        }),
    decreases n,
{
    let taken = all.subrange(0, n);
    if n == 0 {
        assert(stored + transactional::user_rows(taken, stored) == stored);
    } else {
        lemma_users(users, stored, all, n - 1);
        assert(taken.drop_last() == all.subrange(0, n - 1));
        let before = transactional::user_rows(taken.drop_last(), stored);
        let rows = transactional::user_rows(taken, stored);
        assert(all[n - 1] == taken.last());
        assert(rows.drop_last() == before);
        assert(rows.last().id == taken.last().id);
        assert(stored + rows == (stored + before).push(rows.last()));
        assert forall|i: int| 0 <= i < all.len() implies transactional::latest_user(
            stored + rows,
            (#[trigger] all[i]).id,
        ) == row_of(users_saved(users, taken), all[i].id) by {
            lemma_latest_after_push(stored + before, rows.last(), all[i].id);
        }
    }
}

proof fn lemma_latest_post(posts: Seq<PostInternal>, n: int, id: i64)
    requires
        0 <= n <= posts.len(),
    ensures
        transactional::latest_post(posts, n, id) matches Some(k) ==> 0 <= k < n && posts[k].id
            == id,
    decreases n,
{
    if n > 0 {
        lemma_latest_post(posts, n - 1, id);
    }
}

/// The post that is written for the collected post at a position.
spec fn row_at(posts: Seq<PostInternal>, stored: Seq<PostInternal>, n: int) -> PostInternal {
    transactional::sourced_post(transactional::post_row(posts, stored, n), posts, stored)
}

/// The latest version of a post before the collected post at position `n` is saved.
spec fn row_before(
    posts: Seq<PostInternal>,
    stored: Seq<PostInternal>,
    n: int,
    id: i64,
) -> Option<PostInternal> {
    match transactional::latest_post(posts, n, id) {
        Some(k) => Some(row_at(posts, stored, k)),
        None => stored_post(stored, id),
    }
}

proof fn lemma_row_at(posts: Seq<PostInternal>, stored: Seq<PostInternal>, n: int)
    requires
        0 <= n < posts.len() <= usize::MAX,
        stored.len() <= usize::MAX,
    ensures
        row_at(posts, stored, n).id == posts[n].id,
        row_at(posts, stored, n) == kept_post(
            row_before(posts, stored, n, posts[n].id),
            posts[n],
        ),
    decreases n,
{
    lemma_latest_post(posts, n, posts[n].id);
    lemma_latest_post(stored, stored.len() as int, posts[n].id);
    if let Some(k) = transactional::latest_post(posts, n, posts[n].id) {
        lemma_row_at(posts, stored, k);
    }
}

/// Writing the rows of collected posts is saving the posts.
proof fn lemma_posts(
    posts: Map<i64, PostInternal>,
    stored: Seq<PostInternal>,
    all: Seq<PostInternal>,
    sources: Seq<PostSource>,
    n: int,
)
    requires
        shows_posts(stored, posts, all),
        sources == Seq::new(all.len(), |i: int| transactional::post_row(all, stored, i)),
        0 <= n <= all.len() <= usize::MAX,
        stored.len() <= usize::MAX,
    ensures
        posts_written(posts, sources, all, stored, n) == posts_saved(posts, all, n),
        forall|i: int|
            0 <= i < all.len() ==> row_before(all, stored, n, (#[trigger] all[i]).id) == row_of(
                posts_saved(posts, all, n),
                all[i].id,
            ),
    decreases n,
{
    if n > 0 {
        lemma_posts(posts, stored, all, sources, n - 1);
        lemma_row_at(all, stored, n - 1);
        assert(sources[n - 1] == transactional::post_row(all, stored, n - 1));
    }
}

/// The writes of a plan commit it: where they are made for what the archive holds, the archive is
/// then the one in which the plan is committed.
pub proof fn writes_commit_the_plan(
    a: Archive,
    plan: CommitPlan,
    w: CommitWrites<'_>,
    stored_users: Vec<User>,
    stored_posts: Vec<PostInternal>,
)
    requires
        shows_users(stored_users@, a.users, plan.users@),
        shows_posts(stored_posts@, a.posts, plan.posts@),
        transactional::executes(
            plan,
            a.events.contains_key(plan.event_id@),
            stored_users@,
            stored_posts@,
            w,
        ),
    ensures
        written(a, w, plan.posts@, stored_posts@) == committed(a, plan),
{
    vstd::std_specs::vec::axiom_spec_len(&plan.posts);
    vstd::std_specs::vec::axiom_spec_len(&stored_posts);
    if !a.events.contains_key(plan.event_id@) {
        lemma_users(a.users, stored_users@, plan.users@, plan.users@.len() as int);
        assert(plan.users@.subrange(0, plan.users@.len() as int) == plan.users@);
        lemma_posts(
            a.posts,
            stored_posts@,
            plan.posts@,
            w.posts@,
            plan.posts@.len() as int,
        );
    }
}

/// An event is applied at most once: a plan whose event has been committed, even with other data,
/// changes nothing.
pub proof fn committing_again_changes_nothing(a: Archive, plan: CommitPlan, again: CommitPlan)
    requires
        again.event_id@ == plan.event_id@,
    ensures
        committed(committed(a, plan), again) == committed(a, plan),
{
}

/// A commit is all or nothing. With a new event the checkpoint is the one that a stream resumes
/// from, the event is recorded, and every other stream and event is left alone.
pub proof fn committed_checkpoint_is_found(a: Archive, plan: CommitPlan)
    ensures
        a.events.contains_key(plan.event_id@) ==> committed(a, plan) == a,
        !a.events.contains_key(plan.event_id@) ==> row_of(
            committed(a, plan).checkpoints,
            plan.checkpoint.stream@,
        ) == Some(plan.checkpoint),
        row_of(committed(a, plan).events, plan.event_id@) is Some,
        forall|stream: Seq<char>|
            stream != plan.checkpoint.stream@ ==> row_of(committed(a, plan).checkpoints, stream)
                == #[trigger] row_of(a.checkpoints, stream),
        forall|event_id: Seq<char>|
            event_id != plan.event_id@ ==> row_of(committed(a, plan).events, event_id)
                == #[trigger] row_of(a.events, event_id),
{
}

/// The last comment that a list holds under an identifier.
pub open spec fn latest_comment(rows: Seq<CommentDto>, id: i64) -> Option<CommentDto>
    decreases rows.len(),
{
    if rows.len() == 0 {
        None
    } else if rows.last().id == id {
        Some(rows.last())
    } else {
        latest_comment(rows.drop_last(), id)
    }
}

proof fn lemma_comments(comments: Map<i64, CommentDto>, rows: Seq<CommentDto>, id: i64)
    ensures
        row_of(comments_saved(comments, rows), id) == match latest_comment(rows, id) {
            Some(c) => Some(c),
            None => row_of(comments, id),
        },
    decreases rows.len(),
{
    if rows.len() > 0 {
        lemma_comments(comments, rows.drop_last(), id);
    }
}

/// A comment is read back as it was committed last, and one that is not mentioned stays as it was.
pub proof fn committed_comment_is_found(a: Archive, plan: CommitPlan, id: i64)
    requires
        !a.events.contains_key(plan.event_id@),
    ensures
        row_of(committed(a, plan).comments, id) == match latest_comment(plan.comments@, id) {
            Some(c) => Some(c),
            None => row_of(a.comments, id),
        },
{
    lemma_comments(a.comments, plan.comments@, id);
}

proof fn lemma_media(media: Map<Seq<char>, MediaDto>, rows: Seq<MediaDto>, url: Seq<char>)
    requires
        media.contains_key(url),
    ensures
        row_of(media_saved(media, rows), url) == Some(media[url]),
    decreases rows.len(),
{
    if rows.len() > 0 {
        lemma_media(media, rows.drop_last(), url);
    }
}

/// A commit never touches a media row that is there, so that the state of its download survives.
pub proof fn commits_keep_media(a: Archive, plan: CommitPlan, url: Seq<char>)
    requires
        a.media.contains_key(url),
    ensures
        row_of(committed(a, plan).media, url) == Some(a.media[url]),
{
    lemma_media(a.media, plan.media@, url);
}

proof fn lemma_complete(posts: Map<i64, PostInternal>, rows: Seq<PostInternal>, n: int, id: i64)
    requires
        0 <= n <= rows.len(),
        posts.contains_key(id),
        posts[id].content_status@ == "complete"@,
        forall|i: int|
            0 <= i < rows.len() && (#[trigger] rows[i]).id == id ==> rows[i].content_status@
                == "partial"@,
    ensures
        row_of(posts_saved(posts, rows, n), id) == Some(posts[id]),
    decreases n,
{
    if n > 0 {
        lemma_complete(posts, rows, n - 1, id);
        assert(rows[n - 1].id == id ==> rows[n - 1].content_status@ == "partial"@);
    }
}

/// A complete post survives any number of partial versions of it.
pub proof fn commits_keep_complete_posts(a: Archive, plan: CommitPlan, id: i64)
    requires
        a.posts.contains_key(id),
        a.posts[id].content_status@ == "complete"@,
        forall|i: int|
            0 <= i < plan.posts@.len() && (#[trigger] plan.posts@[i]).id == id
                ==> plan.posts@[i].content_status@ == "partial"@,
    ensures
        row_of(committed(a, plan).posts, id) == Some(a.posts[id]),
{
    lemma_complete(a.posts, plan.posts@, plan.posts@.len() as int, id);
}

} // verus!
