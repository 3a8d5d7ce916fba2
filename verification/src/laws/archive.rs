//! The archive: what a commit of collected data leaves in it.
use vstd::prelude::*;

use crate::models::user::User;
use crate::storage::internal::entities;
use crate::storage::internal::entities::{
    prune_processed_events, save_media, save_media_reference, save_monitored_user, MediaDto,
    MonitoredUserDto,
};
use crate::storage::internal::post::PostInternal;
use crate::storage::internal::transactional;
use crate::storage::internal::transactional::{
    is_placeholder_url, merge_collected_user, CommitOutcome, CommitPlan, CommitWrites, PostSource,
};
use crate::web;

verus! {

/// Whether an image address is no more than the placeholder for one.
pub open spec fn no_image(url: Seq<char>) -> bool {
    web::parsed_url(url) matches Ok(parts) && parts.host_text == Some("example.invalid"@)
}

/// Whether collected data names everything that a user shows.
pub open spec fn names_everything(u: User) -> bool {
    &&& u.screen_name@.len() > 0
    &&& u.domain@.len() > 0
    &&& !no_image(u.avatar_hd@)
    &&& !no_image(u.avatar_large@)
    &&& !no_image(u.profile_image_url@)
}

/// Whether a row shows what was collected of a user, field by field: whatever was collected counts,
/// no matter what else is missing.
pub open spec fn shows_what_was_collected(r: User, incoming: User) -> bool {
    &&& r.id == incoming.id
    &&& incoming.screen_name@.len() > 0 ==> r.screen_name@ == incoming.screen_name@
    &&& incoming.domain@.len() > 0 ==> r.domain@ == incoming.domain@
    &&& !no_image(incoming.avatar_hd@) ==> r.avatar_hd@ == incoming.avatar_hd@
    &&& !no_image(incoming.avatar_large@) ==> r.avatar_large@ == incoming.avatar_large@
    &&& !no_image(incoming.profile_image_url@) ==> r.profile_image_url@
        == incoming.profile_image_url@
    &&& incoming.following ==> r.following
    &&& incoming.follow_me ==> r.follow_me
}

/// Whether a row keeps what was known of a user wherever nothing was collected.
pub open spec fn keeps_what_was_known(r: User, existing: User, incoming: User) -> bool {
    &&& incoming.screen_name@.len() == 0 ==> r.screen_name@ == existing.screen_name@
    &&& incoming.domain@.len() == 0 ==> r.domain@ == existing.domain@
    &&& no_image(incoming.avatar_hd@) ==> r.avatar_hd@ == existing.avatar_hd@
    &&& no_image(incoming.avatar_large@) ==> r.avatar_large@ == existing.avatar_large@
    &&& no_image(incoming.profile_image_url@) ==> r.profile_image_url@
        == existing.profile_image_url@
}

/// Each field of a user is merged on its own: what was collected counts, and only what was not
/// collected stays as it was. A relationship ends only by data that is otherwise complete.
pub proof fn each_field_is_merged_on_its_own(existing: User, incoming: User, r: User)
    requires
        call_ensures(merge_collected_user, (existing, &incoming), r),
    ensures
        shows_what_was_collected(r, incoming),
        keeps_what_was_known(r, existing, incoming),
        names_everything(incoming) ==> r.following == incoming.following && r.follow_me
            == incoming.follow_me,
        !names_everything(incoming) ==> (r.following <==> existing.following || incoming.following)
            && (r.follow_me <==> existing.follow_me || incoming.follow_me),
{
}

/// Merging data twice is merging it once, and later data has the last word.
pub proof fn merges_settle(
    existing: User,
    incoming: User,
    later: User,
    once: User,
    twice: User,
    last: User,
)
    requires
        call_ensures(merge_collected_user, (existing, &incoming), once),
        call_ensures(merge_collected_user, (once, &incoming), twice),
        call_ensures(merge_collected_user, (once, &later), last),
    ensures
        twice == once,
        shows_what_was_collected(last, later),
        later.screen_name@.len() == 0 && incoming.screen_name@.len() > 0 ==> last.screen_name@
            == incoming.screen_name@,
        later.domain@.len() == 0 && incoming.domain@.len() > 0 ==> last.domain@ == incoming.domain@,
{
}

/// An address is a placeholder exactly when its host is the placeholder host.
pub proof fn placeholders_are_known_by_their_host(url: &str, r: bool)
    requires
        call_ensures(is_placeholder_url, (url,), r),
    ensures
        r <==> no_image(url@),
{
}

proof fn lemma_user_row(incoming: Seq<User>, stored: Seq<User>, i: int)
    requires
        0 <= i < incoming.len(),
    ensures
        transactional::user_rows(incoming, stored).len() == incoming.len(),
        shows_what_was_collected(transactional::user_rows(incoming, stored)[i], incoming[i]),
    decreases incoming.len(),
{
    let before = transactional::user_rows(incoming.drop_last(), stored);
    if incoming.len() > 1 {
        if i < incoming.len() - 1 {
            lemma_user_row(incoming.drop_last(), stored, i);
        } else {
            lemma_user_row(incoming.drop_last(), stored, 0);
        }
    }
    assert(before.len() == incoming.len() - 1);
}

proof fn lemma_only_row(rows: Seq<User>, id: i64, k: int)
    requires
        0 <= k < rows.len(),
        rows[k].id == id,
        forall|j: int| 0 <= j < rows.len() && j != k ==> (#[trigger] rows[j]).id != id,
    ensures
        transactional::latest_user(rows, id) == Some(rows[k]),
    decreases rows.len(),
{
    if k < rows.len() - 1 {
        assert(rows[rows.len() - 1].id != id);
        lemma_only_row(rows.drop_last(), id, k);
    }
}

/// A commit writes everything that was collected, with its checkpoint and its event, or nothing at
/// all where the event has been applied before.
pub proof fn commits_are_complete(
    plan: CommitPlan,
    applied: bool,
    users: Vec<User>,
    posts: Vec<PostInternal>,
    w: CommitWrites<'_>,
)
    requires
        call_ensures(CommitPlan::execute, (&plan, applied, &users, &posts), w),
    ensures
        applied ==> w.outcome == CommitOutcome::Duplicate && w.users@.len() == 0 && w.posts@.len()
            == 0 && w.comments is None && w.media is None && w.checkpoint is None && w.event is None,
        !applied ==> {
            &&& w.outcome == CommitOutcome::Applied
            &&& w.users@.len() == plan.users@.len()
            &&& w.posts@.len() == plan.posts@.len()
            &&& w.comments matches Some(rows) && rows@ == plan.comments@
            &&& w.media matches Some(rows) && rows@ == plan.media@
            &&& w.checkpoint matches Some(c) && *c == plan.checkpoint
            &&& w.event matches Some(e) && e.event_id@ == plan.event_id@ && e.sequence == Some(
                plan.sequence,
            ) && e.processed_at@ == plan.processed_at@ && (e.stream matches Some(s) && s@
                == plan.stream@) && crate::text::opt_view(e.request_id)
                == crate::text::opt_view(plan.request_id)
        },
{
    if plan.users@.len() > 0 {
        lemma_user_row(plan.users@, users@, 0);
    }
}

/// Every user that was collected is written as collected, field by field.
pub proof fn committed_users_show_what_was_collected(
    plan: CommitPlan,
    users: Vec<User>,
    posts: Vec<PostInternal>,
    w: CommitWrites<'_>,
    i: int,
)
    requires
        call_ensures(CommitPlan::execute, (&plan, false, &users, &posts), w),
        0 <= i < plan.users@.len(),
    ensures
        w.users@.len() == plan.users@.len(),
        shows_what_was_collected(w.users@[i], plan.users@[i]),
{
    lemma_user_row(plan.users@, users@, i);
}

/// What a commit does not know of a user stays as it is stored.
pub proof fn committed_users_keep_what_was_known(
    plan: CommitPlan,
    users: Vec<User>,
    posts: Vec<PostInternal>,
    w: CommitWrites<'_>,
    incoming: User,
    k: int,
)
    requires
        call_ensures(CommitPlan::execute, (&plan, false, &users, &posts), w),
        plan.users@ == seq![incoming],
        0 <= k < users@.len(),
        users@[k].id == incoming.id,
        forall|j: int|
            0 <= j < users@.len() && j != k ==> (#[trigger] users@[j]).id != incoming.id,
    ensures
        w.users@.len() == 1,
        keeps_what_was_known(w.users@[0], users@[k], incoming),
        !names_everything(incoming) && users@[k].following ==> w.users@[0].following,
        !names_everything(incoming) && users@[k].follow_me ==> w.users@[0].follow_me,
{
    assert(plan.users@.drop_last() =~= Seq::<User>::empty());
    assert(plan.users@.last() == incoming);
    reveal_with_fuel(transactional::user_rows, 2);
    assert(users@ + Seq::<User>::empty() =~= users@);
    lemma_only_row(users@, incoming.id, k);
}

/// The post that is written for a collected one.
pub open spec fn post_written(
    w: CommitWrites<'_>,
    plan: CommitPlan,
    stored: Seq<PostInternal>,
    i: int,
) -> PostInternal {
    match w.posts@[i] {
        PostSource::Collected(k) => plan.posts@[k as int],
        PostSource::Stored(k) => stored[k as int],
    }
}

proof fn lemma_latest_post(posts: Seq<PostInternal>, n: int, id: i64)
    requires
        0 <= n <= posts.len(),
    ensures
        transactional::latest_post(posts, n, id) matches Some(k) ==> 0 <= k < n && posts[k].id == id,
        transactional::latest_post(posts, n, id) is None ==> forall|j: int|
            0 <= j < n ==> (#[trigger] posts[j]).id != id,
    decreases n,
{
    if n > 0 {
        lemma_latest_post(posts, n - 1, id);
    }
}

proof fn lemma_row_has_id(posts: Seq<PostInternal>, stored: Seq<PostInternal>, n: int)
    requires
        0 <= n < posts.len() <= usize::MAX,
        stored.len() <= usize::MAX,
    ensures
        transactional::sourced_post(
            transactional::post_row(posts, stored, n),
            posts,
            stored,
        ).id == posts[n].id,
    decreases n,
{
    lemma_latest_post(posts, n, posts[n].id);
    lemma_latest_post(stored, stored.len() as int, posts[n].id);
    if let Some(k) = transactional::latest_post(posts, n, posts[n].id) {
        lemma_row_has_id(posts, stored, k);
    }
}

/// For every collected post a version of that post is written: the collected one, unless it is
/// partial and a complete one is known. So nothing new is dropped, and nothing complete is lost.
pub proof fn committed_posts_are_the_best_known(
    plan: CommitPlan,
    users: Vec<User>,
    posts: Vec<PostInternal>,
    w: CommitWrites<'_>,
    i: int,
)
    requires
        call_ensures(CommitPlan::execute, (&plan, false, &users, &posts), w),
        0 <= i < plan.posts@.len(),
    ensures
        post_written(w, plan, posts@, i).id == plan.posts@[i].id,
        plan.posts@[i].content_status@ != "partial"@ ==> w.posts@[i] == PostSource::Collected(
            i as usize,
        ),
        w.posts@[i] != PostSource::Collected(i as usize) ==> post_written(
            w,
            plan,
            posts@,
            i,
        ).content_status@ == "complete"@,
        (forall|j: int| 0 <= j < i ==> (#[trigger] plan.posts@[j]).id != plan.posts@[i].id) && (
        forall|j: int| 0 <= j < posts@.len() ==> (#[trigger] posts@[j]).id != plan.posts@[i].id)
            ==> w.posts@[i] == PostSource::Collected(i as usize),
{
    vstd::std_specs::vec::axiom_spec_len(&plan.posts);
    vstd::std_specs::vec::axiom_spec_len(&posts);
    lemma_row_has_id(plan.posts@, posts@, i);
    lemma_latest_post(plan.posts@, i, plan.posts@[i].id);
    lemma_latest_post(posts@, posts@.len() as int, plan.posts@[i].id);
    assert(w.posts@[i] == transactional::post_row(plan.posts@, posts@, i));
}

/// A complete post that is stored is written again where only partial versions of it were collected.
pub proof fn stored_complete_posts_survive(
    plan: CommitPlan,
    users: Vec<User>,
    posts: Vec<PostInternal>,
    w: CommitWrites<'_>,
    i: int,
    k: int,
)
    requires
        call_ensures(CommitPlan::execute, (&plan, false, &users, &posts), w),
        0 <= i < plan.posts@.len(),
        plan.posts@[i].content_status@ == "partial"@,
        forall|j: int| 0 <= j < i ==> (#[trigger] plan.posts@[j]).id != plan.posts@[i].id,
        0 <= k < posts@.len(),
        posts@[k].id == plan.posts@[i].id,
        posts@[k].content_status@ == "complete"@,
        forall|j: int|
            0 <= j < posts@.len() && j != k ==> (#[trigger] posts@[j]).id != plan.posts@[i].id,
    ensures
        post_written(w, plan, posts@, i) == posts@[k],
{
    vstd::std_specs::vec::axiom_spec_len(&plan.posts);
    vstd::std_specs::vec::axiom_spec_len(&posts);
    lemma_latest_post(plan.posts@, i, plan.posts@[i].id);
    lemma_latest_post(posts@, posts@.len() as int, plan.posts@[i].id);
    assert(w.posts@[i] == transactional::post_row(plan.posts@, posts@, i));
}

/// A media row keeps its identity and its age when it is saved again, and shows what was saved.
pub proof fn saved_media_show_what_was_saved(
    row: MediaDto,
    media: MediaDto,
    r: MediaDto,
    fresh: MediaDto,
)
    requires
        call_ensures(save_media, (Some(row), media), r),
        call_ensures(save_media, (None::<MediaDto>, media), fresh),
    ensures
        r.id == row.id,
        r.created_at@ == row.created_at@,
        r.url@ == media.url@,
        r.owner_type@ == media.owner_type@,
        r.owner_id == media.owner_id,
        r.media_type@ == media.media_type@,
        r.status@ == media.status@,
        r.retry_count == media.retry_count,
        crate::text::opt_view(r.local_path) == crate::text::opt_view(media.local_path),
        crate::text::opt_view(r.last_error) == crate::text::opt_view(media.last_error),
        crate::text::opt_view(r.updated_at) == crate::text::opt_view(media.updated_at),
        fresh == media,
{
}

/// A reference to a medium that is known leaves it alone, so that nothing is downloaded twice; one
/// to a new medium is saved.
pub proof fn references_keep_downloads(
    row: MediaDto,
    media: MediaDto,
    r: MediaDto,
    fresh: MediaDto,
)
    requires
        call_ensures(save_media_reference, (Some(row), media), r),
        call_ensures(save_media_reference, (None::<MediaDto>, media), fresh),
    ensures
        r == row,
        fresh == media,
{
}

/// A monitored user is saved as entered, and stays as old as they are.
pub proof fn monitored_users_keep_their_age(
    row: MonitoredUserDto,
    user: MonitoredUserDto,
    r: MonitoredUserDto,
    fresh: MonitoredUserDto,
)
    requires
        call_ensures(save_monitored_user, (Some(row), user), r),
        call_ensures(save_monitored_user, (None::<MonitoredUserDto>, user), fresh),
    ensures
        r.created_at@ == row.created_at@,
        r == (MonitoredUserDto { created_at: r.created_at, ..user }),
        fresh == user,
{
}

proof fn lemma_newer(ids: Seq<i64>, id: i64)
    ensures
        entities::newer_rows(ids, id) == ids.filter(|x: i64| x > id).len(),
    decreases ids.len(),
{
    reveal(Seq::filter);
    if ids.len() > 0 {
        lemma_newer(ids.drop_last(), id);
    }
}

proof fn lemma_expired(ids: Seq<i64>, all: Seq<i64>, keep: nat, id: i64)
    ensures
        entities::expired_rows(ids, all, keep).contains(id) <==> ids.contains(id)
            && entities::newer_rows(all, id) >= keep,
    decreases ids.len(),
{
    if ids.len() > 0 {
        let rest = entities::expired_rows(ids.drop_last(), all, keep);
        lemma_expired(ids.drop_last(), all, keep, id);
        assert(ids =~= ids.drop_last().push(ids.last()));
        let whole = entities::expired_rows(ids, all, keep);
        if ids.drop_last().contains(id) {
            let j = choose|j: int| 0 <= j < ids.len() - 1 && ids.drop_last()[j] == id;
            assert(ids[j] == id);
        }
        if ids.contains(id) && !ids.drop_last().contains(id) {
            let j = choose|j: int| 0 <= j < ids.len() && ids[j] == id;
            if j < ids.len() - 1 {
                assert(ids.drop_last()[j] == id);
            }
            assert(ids.last() == id);
        }
        if id == ids.last() {
            assert(ids[ids.len() - 1] == id);
        }
        if rest.contains(id) {
            let j = choose|j: int| 0 <= j < rest.len() && rest[j] == id;
            assert(whole[j] == id);
        }
        if whole.contains(id) && !rest.contains(id) {
            let j = choose|j: int| 0 <= j < whole.len() && whole[j] == id;
            if j < rest.len() {
                assert(rest[j] == id);
            }
        }
        if newer(all, keep, ids.last()) {
            assert(whole[whole.len() - 1] == ids.last());
        }
    }
}

spec fn newer(all: Seq<i64>, keep: nat, id: i64) -> bool {
    entities::newer_rows(all, id) >= keep
}

/// Of the processed events the newest remain: one is deleted exactly when as many newer ones as are
/// to be kept are there.
pub proof fn newest_events_remain(ids: Vec<i64>, keep: u64, r: Vec<i64>, id: i64)
    requires
        call_ensures(prune_processed_events, (&ids, keep), r),
    ensures
        r@.contains(id) <==> ids@.contains(id) && ids@.filter(|x: i64| x > id).len() >= keep,
{
    lemma_newer(ids@, id);
    lemma_expired(ids@, ids@, keep as nat, id);
}

} // verus!
