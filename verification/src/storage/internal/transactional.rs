//! One transaction for collected data, its checkpoint and the event that delivered it.
use vstd::prelude::*;

use crate::models::user::User;
use crate::storage::internal::entities::{
    CommentDto, MediaDto, ProcessedEventDto, SyncCheckpointDto,
};
use crate::storage::internal::post::PostInternal;
use crate::text;
use crate::web;

verus! {

/// Whether a URL points to the placeholder host.
pub open spec fn placeholder(url: Seq<char>) -> bool {
    match web::parsed_url(url) {
        Ok(parts) => parts.host_text == Some("example.invalid"@),
        Err(_) => false,
    }
}

/// Whether collected user data lacks a name, a domain or an image.
pub open spec fn sparse(u: User) -> bool {
    u.screen_name@.len() == 0 || u.domain@.len() == 0 || placeholder(u.avatar_hd@) || placeholder(
        u.avatar_large@,
    ) || placeholder(u.profile_image_url@)
}

/// Collected user data merged into what is known: what is missing stays as it was, and sparse data
/// takes no relationship away.
pub open spec fn merged_user(existing: User, incoming: User) -> User {
    User {
        id: incoming.id,
        screen_name: if incoming.screen_name@.len() == 0 {
            existing.screen_name
        } else {
            incoming.screen_name
        },
        domain: if incoming.domain@.len() == 0 {
            existing.domain
        } else {
            incoming.domain
        },
        avatar_hd: if placeholder(incoming.avatar_hd@) {
            existing.avatar_hd
        } else {
            incoming.avatar_hd
        },
        avatar_large: if placeholder(incoming.avatar_large@) {
            existing.avatar_large
        } else {
            incoming.avatar_large
        },
        profile_image_url: if placeholder(incoming.profile_image_url@) {
            existing.profile_image_url
        } else {
            incoming.profile_image_url
        },
        following: incoming.following || (sparse(incoming) && existing.following),
        follow_me: incoming.follow_me || (sparse(incoming) && existing.follow_me),
    }
}

/// Tests whether a URL, already parsed, points to the placeholder host.
pub fn is_placeholder_host(parts: &web::UrlParts) -> (r: bool)
    ensures
        r == (text::opt_view(parts.host_text) == Some("example.invalid"@)),
{
    match &parts.host_text {
        Some(host) => text::same_text(host.as_str(), "example.invalid"),
        None => false,
    }
}

/// Tests whether a URL points to the placeholder host.
pub fn is_placeholder_url(url: &str) -> (r: bool)
    ensures
        r == placeholder(url@),
{
    match web::parse_url(url) {
        Ok(parts) => is_placeholder_host(&parts),
        Err(_) => false,
    }
}

/// Merges collected user data into what is known.
pub fn merge_collected_user(existing: User, incoming: &User) -> (r: User)
    ensures
        r == merged_user(existing, *incoming),
{
    let no_name = incoming.screen_name.as_str().is_empty();
    let no_domain = incoming.domain.as_str().is_empty();
    let no_hd = is_placeholder_url(incoming.avatar_hd.as_str());
    let no_large = is_placeholder_url(incoming.avatar_large.as_str());
    let no_profile = is_placeholder_url(incoming.profile_image_url.as_str());
    let sparse = no_name || no_domain || no_hd || no_large || no_profile;
    User {
        id: incoming.id,
        screen_name: if no_name {
            existing.screen_name
        } else {
            incoming.screen_name.clone()
        },
        domain: if no_domain {
            existing.domain
        } else {
            incoming.domain.clone()
        },
        avatar_hd: if no_hd {
            existing.avatar_hd
        } else {
            incoming.avatar_hd.clone()
        },
        avatar_large: if no_large {
            existing.avatar_large
        } else {
            incoming.avatar_large.clone()
        },
        profile_image_url: if no_profile {
            existing.profile_image_url
        } else {
            incoming.profile_image_url.clone()
        },
        following: if sparse {
            incoming.following || existing.following
        } else {
            incoming.following
        },
        follow_me: if sparse {
            incoming.follow_me || existing.follow_me
        } else {
            incoming.follow_me
        },
    }
}

/// Merging the same collected data twice is merging it once.
pub proof fn merging_again_changes_nothing(existing: User, incoming: User)
    ensures
        merged_user(merged_user(existing, incoming), incoming) == merged_user(existing, incoming),
{
}

/// Data without names and images changes nothing of a user with the same identifier but
/// relationships that it reports.
pub proof fn sparse_data_keeps_what_is_known(existing: User, incoming: User)
    requires
        existing.id == incoming.id,
        incoming.screen_name@.len() == 0,
        incoming.domain@.len() == 0,
        placeholder(incoming.avatar_hd@),
        placeholder(incoming.avatar_large@),
        placeholder(incoming.profile_image_url@),
    ensures
        merged_user(existing, incoming) == (User {
            following: existing.following || incoming.following,
            follow_me: existing.follow_me || incoming.follow_me,
            ..existing
        }),
{
}

/// The last row with an identifier.
pub open spec fn latest_user(rows: Seq<User>, id: i64) -> Option<User>
    decreases rows.len(),
{
    if rows.len() == 0 {
        None
    } else if rows.last().id == id {
        Some(rows.last())
    } else {
        latest_user(rows.drop_last(), id)
    }
}

/// The rows to write for collected users, in order: each is merged into the latest row of that
/// user, be it stored or written before.
pub open spec fn user_rows(incoming: Seq<User>, stored: Seq<User>) -> Seq<User>
    decreases incoming.len(),
{
    if incoming.len() == 0 {
        Seq::empty()
    } else {
        let before = user_rows(incoming.drop_last(), stored);
        let u = incoming.last();
        before.push(
            match latest_user(stored + before, u.id) {
                Some(existing) => merged_user(existing, u),
                None => u,
            },
        )
    }
}

/// Where the row to write for a post comes from.
#[derive(Debug, Clone, Copy, PartialEq, Eq, Structural)]
pub enum PostSource {
    /// The collected post at this position.
    Collected(usize),
    /// The stored row at this position.
    Stored(usize),
}

/// The position of the last post with an identifier among the first `n`.
pub open spec fn latest_post(posts: Seq<PostInternal>, n: int, id: i64) -> Option<int>
    decreases n,
{
    if n <= 0 {
        None
    } else if posts[n - 1].id == id {
        Some(n - 1)
    } else {
        latest_post(posts, n - 1, id)
    }
}

/// The post that a source stands for.
pub open spec fn sourced_post(
    source: PostSource,
    posts: Seq<PostInternal>,
    stored: Seq<PostInternal>,
) -> PostInternal {
    match source {
        PostSource::Collected(i) => posts[i as int],
        PostSource::Stored(i) => stored[i as int],
    }
}

/// The version of a post before the collected post at position `n` is written: what was written
/// for it before, or else its stored row.
pub open spec fn version_before(
    posts: Seq<PostInternal>,
    stored: Seq<PostInternal>,
    n: int,
) -> Option<PostSource>
    decreases n, 0nat,
{
    match latest_post(posts, n, posts[n].id) {
        Some(k) => if 0 <= k < n {
            Some(post_row(posts, stored, k))
        } else {
            None
        },
        None => match latest_post(stored, stored.len() as int, posts[n].id) {
            Some(k) => Some(PostSource::Stored(k as usize)),
            None => None,
        },
    }
}

/// What is written for the collected post at position `n`: a partial post does not replace a
/// complete version of itself.
pub open spec fn post_row(
    posts: Seq<PostInternal>,
    stored: Seq<PostInternal>,
    n: int,
) -> PostSource
    decreases n, 1nat,
{
    match version_before(posts, stored, n) {
        Some(source) => if posts[n].content_status@ == "partial"@ && sourced_post(
            source,
            posts,
            stored,
        ).content_status@ == "complete"@ {
            source
        } else {
            PostSource::Collected(n as usize)
        },
        None => PostSource::Collected(n as usize),
    }
}

/// Whether a source refers to one of the given posts.
pub open spec fn source_fits(
    source: PostSource,
    posts: Seq<PostInternal>,
    stored: Seq<PostInternal>,
) -> bool {
    match source {
        PostSource::Collected(i) => i < posts.len(),
        PostSource::Stored(i) => i < stored.len(),
    }
}

/// A partial post never takes the place of a complete one: where the version before it was
/// complete, that version is what is written.
pub proof fn partial_never_replaces_complete(
    posts: Seq<PostInternal>,
    stored: Seq<PostInternal>,
    n: int,
)
    requires
        0 <= n < posts.len(),
        posts[n].content_status@ == "partial"@,
        version_before(posts, stored, n) matches Some(source) && sourced_post(
            source,
            posts,
            stored,
        ).content_status@ == "complete"@,
    ensures
        sourced_post(post_row(posts, stored, n), posts, stored).content_status@ == "complete"@,
        Some(post_row(posts, stored, n)) == version_before(posts, stored, n),
{
}

/// Data, checkpoint and event to be committed together.
#[derive(Debug)]
pub struct CommitPlan {
    /// The request that the event belongs to.
    pub request_id: Option<String>,
    /// The stream of the event.
    pub stream: String,
    /// The position of the event in its stream, counted from 1.
    pub sequence: i64,
    /// The identifier that makes the commit idempotent.
    pub event_id: String,
    /// Collected users.
    pub users: Vec<User>,
    /// Collected posts.
    pub posts: Vec<PostInternal>,
    /// Collected comments.
    pub comments: Vec<CommentDto>,
    /// Collected media references.
    pub media: Vec<MediaDto>,
    /// The checkpoint to write.
    pub checkpoint: SyncCheckpointDto,
    /// When the event was processed.
    pub processed_at: String,
}

/// How a commit ended.
#[derive(Debug, Clone, Copy, PartialEq, Eq, Structural)]
pub enum CommitOutcome {
    /// The event was new; data and checkpoint were written.
    Applied,
    /// The event had been processed before; nothing was written.
    Duplicate,
}

/// What a transaction writes, in this order. A duplicate writes nothing.
#[derive(Debug)]
pub struct CommitWrites<'a> {
    pub outcome: CommitOutcome,
    /// The user rows, in order.
    pub users: Vec<User>,
    /// Where each post row comes from, in order.
    pub posts: Vec<PostSource>,
    /// The comment rows, in order.
    pub comments: Option<&'a Vec<CommentDto>>,
    /// The media references, in order.
    pub media: Option<&'a Vec<MediaDto>>,
    /// The checkpoint.
    pub checkpoint: Option<&'a SyncCheckpointDto>,
    /// The event to record.
    pub event: Option<ProcessedEventDto>,
}

/// The record of the event that a plan commits.
pub open spec fn event_record(plan: CommitPlan) -> ProcessedEventDto {
    ProcessedEventDto {
        id: 0,
        event_id: plan.event_id,
        stream: Some(plan.stream),
        sequence: Some(plan.sequence),
        request_id: plan.request_id,
        processed_at: plan.processed_at,
    }
}

/// Whether these are the writes of a plan, given whether its event has been processed and the stored
/// rows of the users and posts that it mentions.
pub open spec fn executes(
    plan: CommitPlan,
    already_processed: bool,
    stored_users: Seq<User>,
    stored_posts: Seq<PostInternal>,
    w: CommitWrites<'_>,
) -> bool {
    if already_processed {
        &&& w.outcome == CommitOutcome::Duplicate
        &&& w.users@.len() == 0
        &&& w.posts@.len() == 0
        &&& w.comments is None
        &&& w.media is None
        &&& w.checkpoint is None
        &&& w.event is None
    } else {
        &&& w.outcome == CommitOutcome::Applied
        &&& w.users@ == user_rows(plan.users@, stored_users)
        &&& w.posts@ == Seq::new(
            plan.posts@.len(),
            |i: int| post_row(plan.posts@, stored_posts, i),
        )
        &&& w.comments == Some(&plan.comments)
        &&& w.media == Some(&plan.media)
        &&& w.checkpoint == Some(&plan.checkpoint)
        &&& w.event == Some(event_record(plan))
    }
}

fn find_user(stored: &Vec<User>, written: &Vec<User>, id: i64) -> (r: Option<User>)
    ensures
        r == latest_user(stored@ + written@, id),
{
    let ghost rows = stored@ + written@;
    assert(rows.subrange(0, rows.len() as int) == rows);
    let mut i: usize = written.len();
    while i > 0
        invariant
            i <= written@.len(),
            rows == stored@ + written@,
            latest_user(rows.subrange(0, stored@.len() + i), id) == latest_user(rows, id),
        decreases i,
    {
        proof {
            let t = rows.subrange(0, stored@.len() + i);
            assert(t.last() == written@[i - 1]);
            assert(t.drop_last() == rows.subrange(0, stored@.len() + i - 1));
        }
        if written[i - 1].id == id {
            return Some(written[i - 1].clone());
        }
        i = i - 1;
    }
    assert(rows.subrange(0, stored@.len() as int) == stored@);
    assert(stored@.subrange(0, stored@.len() as int) == stored@);
    let mut j: usize = stored.len();
    while j > 0
        invariant
            j <= stored@.len(),
            rows == stored@ + written@,
            latest_user(stored@.subrange(0, j as int), id) == latest_user(rows, id),
        decreases j,
    {
        proof {
            let t = stored@.subrange(0, j as int);
            assert(t.last() == stored@[j - 1]);
            assert(t.drop_last() == stored@.subrange(0, j - 1));
        }
        if stored[j - 1].id == id {
            return Some(stored[j - 1].clone());
        }
        j = j - 1;
    }
    None
}

fn merge_users(incoming: &Vec<User>, stored: &Vec<User>) -> (r: Vec<User>)
    ensures
        r@ == user_rows(incoming@, stored@),
{
    let mut r: Vec<User> = Vec::new();
    let mut i: usize = 0;
    while i < incoming.len()
        invariant
            i <= incoming@.len(),
            r@ == user_rows(incoming@.subrange(0, i as int), stored@),
        decreases incoming@.len() - i,
    {
        proof {
            let t = incoming@.subrange(0, i + 1);
            assert(t.drop_last() == incoming@.subrange(0, i as int));
            assert(t.last() == incoming@[i as int]);
        }
        let row = match find_user(stored, &r, incoming[i].id) {
            Some(existing) => merge_collected_user(existing, &incoming[i]),
            None => incoming[i].clone(),
        };
        r.push(row);
        i = i + 1;
    }
    assert(incoming@.subrange(0, i as int) == incoming@);
    r
}

fn find_post(posts: &Vec<PostInternal>, n: usize, id: i64) -> (r: Option<usize>)
    requires
        n <= posts@.len(),
    ensures
        match r {
            Some(k) => k < n && latest_post(posts@, n as int, id) == Some(k as int),
            None => latest_post(posts@, n as int, id) is None,
        },
{
    let mut i: usize = n;
    while i > 0
        invariant
            i <= n <= posts@.len(),
            latest_post(posts@, i as int, id) == latest_post(posts@, n as int, id),
        decreases i,
    {
        if posts[i - 1].id == id {
            return Some(i - 1);
        }
        i = i - 1;
    }
    None
}

fn choose_posts(posts: &Vec<PostInternal>, stored: &Vec<PostInternal>) -> (r: Vec<PostSource>)
    ensures
        r@ == Seq::new(posts@.len(), |i: int| post_row(posts@, stored@, i)),
        forall|i: int| 0 <= i < r@.len() ==> source_fits(#[trigger] r@[i], posts@, stored@),
{
    let mut r: Vec<PostSource> = Vec::new();
    let mut i: usize = 0;
    while i < posts.len()
        invariant
            i <= posts@.len(),
            r@.len() == i,
            forall|j: int| 0 <= j < i ==> #[trigger] r@[j] == post_row(posts@, stored@, j),
            forall|j: int| 0 <= j < i ==> source_fits(#[trigger] r@[j], posts@, stored@),
        decreases posts@.len() - i,
    {
        let post = &posts[i];
        let before = match find_post(posts, i, post.id) {
            Some(k) => Some(r[k]),
            None => match find_post(stored, stored.len(), post.id) {
                Some(k) => Some(PostSource::Stored(k)),
                None => None,
            },
        };
        assert(before == version_before(posts@, stored@, i as int));
        let source = match before {
            Some(source) => {
                let complete = match source {
                    PostSource::Collected(k) => text::same_text(
                        posts[k].content_status.as_str(),
                        "complete",
                    ),
                    PostSource::Stored(k) => text::same_text(
                        stored[k].content_status.as_str(),
                        "complete",
                    ),
                };
                if text::same_text(post.content_status.as_str(), "partial") && complete {
                    source
                } else {
                    PostSource::Collected(i)
                }
            },
            None => PostSource::Collected(i),
        };
        r.push(source);
        i = i + 1;
    }
    r
}

impl CommitPlan {
    /// What the transaction writes, given whether the event has been processed and the stored rows
    /// of the users and posts that the plan mentions. A processed event writes nothing.
    pub fn execute(
        &self,
        already_processed: bool,
        stored_users: &Vec<User>,
        stored_posts: &Vec<PostInternal>,
    ) -> (r: CommitWrites<'_>)
        ensures
            executes(*self, already_processed, stored_users@, stored_posts@, r),
            forall|i: int|
                0 <= i < r.posts@.len() ==> source_fits(
                    #[trigger] r.posts@[i],
                    self.posts@,
                    stored_posts@,
                ),
    {
        if already_processed {
            return CommitWrites {
                outcome: CommitOutcome::Duplicate,
                users: Vec::new(),
                posts: Vec::new(),
                comments: None,
                media: None,
                checkpoint: None,
                event: None,
            };
        }
        CommitWrites {
            outcome: CommitOutcome::Applied,
            users: merge_users(&self.users, stored_users),
            posts: choose_posts(&self.posts, stored_posts),
            comments: Some(&self.comments),
            media: Some(&self.media),
            checkpoint: Some(&self.checkpoint),
            event: Some(
                ProcessedEventDto {
                    id: 0,
                    event_id: self.event_id.clone(),
                    stream: Some(self.stream.clone()),
                    sequence: Some(self.sequence),
                    request_id: text::clone_opt(&self.request_id),
                    processed_at: self.processed_at.clone(),
                },
            ),
        }
    }
}

} // verus!
