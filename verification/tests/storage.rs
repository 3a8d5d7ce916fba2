use weiback::json::Json;
use weiback::models::user::User;
use weiback::sidecar::collector::{comment_from_payload, post_from_payload, user_from_payload};
use weiback::storage::database::{
    backup_before_migration, create_db_pool_with_url, has_pending_migrations, needs_backup,
    PoolPlan,
};
use weiback::storage::internal::entities::{
    prune_processed_events, save_media, save_media_reference, save_monitored_user,
    CheckpointOwner, CommentIden, MediaDto, MediaIden, MediaOwnerType, MediaStatus, MediaType,
    MonitoredUserDto, MonitoredUserIden, ProcessedEventIden, RefreshTier, SyncCheckpointDto,
    SyncCheckpointIden, SyncJobIden, SyncJobStatus, SyncRunIden,
};
use weiback::storage::internal::post::PostInternal;
use weiback::storage::internal::transactional::{
    is_placeholder_url, merge_collected_user, CommitOutcome, CommitPlan, PostSource,
};

fn user(id: i64, name: &str, avatar: &str, following: bool) -> User {
    User {
        id,
        screen_name: name.into(),
        domain: "d".into(),
        avatar_hd: avatar.into(),
        avatar_large: avatar.into(),
        profile_image_url: avatar.into(),
        following,
        follow_me: false,
    }
}

fn post(id: i64, text: &str, status: &str) -> PostInternal {
    let payload = format!(
        r#"{{"id":"{id}","uid":"10001","text":"{text}","content_status":"{status}"}}"#
    );
    post_from_payload(&Json::parse(&payload).unwrap()).unwrap()
}

fn media(id: i64, url: &str, status: &str, created_at: &str) -> MediaDto {
    MediaDto {
        id,
        owner_type: "post".into(),
        owner_id: Some(9001),
        media_type: "picture".into(),
        url: url.into(),
        local_path: None,
        status: status.into(),
        retry_count: 0,
        last_error: None,
        created_at: created_at.into(),
        updated_at: None,
    }
}

fn plan(users: Vec<User>, posts: Vec<PostInternal>) -> CommitPlan {
    CommitPlan {
        request_id: Some("r".into()),
        stream: "user:1:posts".into(),
        sequence: 3,
        event_id: "e".into(),
        users,
        posts,
        comments: Vec::new(),
        media: Vec::new(),
        checkpoint: SyncCheckpointDto {
            stream: "user:1:posts".into(),
            cursor_json: None,
            fetched_count: 1,
            last_sequence: Some(3),
            updated_at: "now".into(),
            job_id: None,
            run_id: None,
            generation: None,
            owner_token: None,
            owner: CheckpointOwner::AdHoc,
        },
        processed_at: "now".into(),
    }
}

#[test]
fn media_are_saved_by_url() {
    let url = "https://wx1.example.com/a.jpg";
    let first = save_media(None, media(7, url, "pending", "t1"));
    assert_eq!(first.id, 7);
    let second = save_media(Some(first), media(0, url, "downloaded", "t2"));
    assert_eq!(second.id, 7);
    assert_eq!(second.status, "downloaded");
    assert_eq!(second.created_at, "t1");
    let third = save_media_reference(Some(second), media(0, url, "pending", "t3"));
    assert_eq!(third.status, "downloaded");
    assert_eq!(save_media_reference(None, media(0, url, "pending", "t3")).status, "pending");
}

#[test]
fn monitored_users_keep_their_creation() {
    let row = |created_at: &str, uid: i64| MonitoredUserDto {
        account_id: 1,
        uid,
        screen_name: None,
        refresh_strategy: "hot".into(),
        enabled: true,
        last_refreshed_at: None,
        created_at: created_at.into(),
        updated_at: None,
        tier: RefreshTier::Hot,
        interval_secs: 60,
        jitter_secs: 5,
        next_refresh_epoch: 0,
        last_refresh_epoch: None,
    };
    assert_eq!(save_monitored_user(None, row("a", 2)).created_at, "a");
    let saved = save_monitored_user(Some(row("a", 2)), row("b", 2));
    assert_eq!(saved.created_at, "a");
    assert_eq!(save_monitored_user(Some(saved), row("b", 2)).created_at, "a");
}

#[test]
fn newest_events_are_kept() {
    assert_eq!(prune_processed_events(&vec![1, 5, 3, 2, 4], 2), vec![1, 3, 2]);
    assert!(prune_processed_events(&vec![1, 2], 5).is_empty());
    assert_eq!(prune_processed_events(&vec![1, 2], 0), vec![1, 2]);
}

#[test]
fn placeholders_are_recognised_by_host() {
    assert!(is_placeholder_url("https://example.invalid/"));
    assert!(is_placeholder_url("https://EXAMPLE.invalid/x?y"));
    assert!(!is_placeholder_url("https://example.invalid.org/"));
    assert!(!is_placeholder_url("https://wx1.example.com/a.jpg"));
}

#[test]
fn sparse_user_data_keeps_what_is_known() {
    let known = user(1, "小明", "https://a.example/x.jpg", true);
    let sparse =
        user_from_payload(&Json::parse(r#"{"id":"1","screen_name":""}"#).unwrap()).unwrap();
    let merged = merge_collected_user(known, &sparse);
    assert_eq!(merged.screen_name, "小明");
    assert_eq!(merged.domain, "d");
    assert_eq!(merged.avatar_hd, "https://a.example/x.jpg");
    assert!(merged.following);
    let full = user(1, "小红", "https://b.example/y.jpg", false);
    let merged = merge_collected_user(merged, &full);
    assert_eq!(merged, full);
    let again = merge_collected_user(merged, &full);
    assert_eq!(again, full);
}

#[test]
fn commits_merge_users_in_order() {
    let plan = plan(
        vec![
            user(1, "", "https://example.invalid/", true),
            user(2, "new", "https://a.example/", false),
            user(2, "", "https://example.invalid/", true),
        ],
        Vec::new(),
    );
    let stored = vec![user(1, "old", "https://o.example/", false)];
    let writes = plan.execute(false, &stored, &Vec::new());
    assert_eq!(writes.outcome, CommitOutcome::Applied);
    let names: Vec<(&str, bool)> =
        writes.users.iter().map(|u| (u.screen_name.as_str(), u.following)).collect();
    assert_eq!(names, vec![("old", true), ("new", false), ("new", true)]);
    let event = writes.event.unwrap();
    assert_eq!(event.event_id, "e");
    assert_eq!(event.sequence, Some(3));
    assert_eq!(event.request_id.as_deref(), Some("r"));
}

#[test]
fn partial_posts_do_not_replace_complete_ones() {
    let posts = vec![
        post(1, "short", "partial"),
        post(2, "short", "partial"),
        post(2, "long", "complete"),
        post(2, "short", "partial"),
        post(3, "other", "complete"),
    ];
    let stored = vec![post(1, "long", "complete"), post(3, "old", "complete")];
    let plan = plan(Vec::new(), posts);
    let writes = plan.execute(false, &Vec::new(), &stored);
    assert_eq!(
        writes.posts,
        vec![
            PostSource::Stored(0),
            PostSource::Collected(1),
            PostSource::Collected(2),
            PostSource::Collected(2),
            PostSource::Collected(4),
        ]
    );
}

#[test]
fn processed_events_write_nothing() {
    let plan = plan(vec![user(1, "a", "https://a.example/", false)], vec![post(1, "x", "complete")]);
    let writes = plan.execute(true, &Vec::new(), &Vec::new());
    assert_eq!(writes.outcome, CommitOutcome::Duplicate);
    assert!(writes.users.is_empty() && writes.posts.is_empty() && writes.event.is_none());
    assert!(writes.comments.is_none() && writes.media.is_none() && writes.checkpoint.is_none());
}

#[test]
fn commits_carry_comments_media_and_checkpoint() {
    let mut plan = plan(Vec::new(), Vec::new());
    let payload = Json::parse(r#"{"id":"7","post_id":"9","text":"hi"}"#).unwrap();
    plan.comments.push(comment_from_payload(&payload).unwrap());
    let writes = plan.execute(false, &Vec::new(), &Vec::new());
    assert_eq!(writes.comments.unwrap().len(), 1);
    assert_eq!(writes.comments.unwrap()[0].id, 7);
    assert!(writes.media.unwrap().is_empty());
    assert_eq!(writes.checkpoint.unwrap(), &plan.checkpoint);
    assert_eq!(writes.event.unwrap().event_id, plan.event_id);
}

#[test]
fn database_files_are_created_where_missing() {
    assert_eq!(
        create_db_pool_with_url(":memory:", false, false),
        PoolPlan { is_memory: true, create_parent: false, create_database: false }
    );
    assert_eq!(
        create_db_pool_with_url("/d/weiback.db", false, false),
        PoolPlan { is_memory: false, create_parent: true, create_database: true }
    );
    assert_eq!(
        create_db_pool_with_url("/d/weiback.db", true, true),
        PoolPlan { is_memory: false, create_parent: false, create_database: false }
    );
}

#[test]
fn existing_databases_are_copied_before_migrations() {
    let migrations = vec![1, 2, 3];
    assert!(has_pending_migrations(&migrations, None));
    assert!(!has_pending_migrations(&Vec::new(), None));
    assert!(has_pending_migrations(&migrations, Some(&vec![1, 3])));
    assert!(!has_pending_migrations(&migrations, Some(&vec![3, 2, 1, 0])));
    let existing = create_db_pool_with_url("/d/weiback.db", true, true);
    let fresh = create_db_pool_with_url("/d/weiback.db", false, true);
    assert!(needs_backup(existing, true));
    assert!(!needs_backup(existing, false));
    assert!(!needs_backup(fresh, true));
    assert_eq!(
        backup_before_migration("/d/weiback.db", "20260731", 0),
        "/d/weiback-migrate-backup-20260731.db"
    );
    assert_eq!(
        backup_before_migration("x.tar.db", "t", 2),
        "x.tar-migrate-backup-t-2.db"
    );
    assert_eq!(backup_before_migration("/", "t", 0), "/weiback-migrate-backup-t.db");
    assert_eq!(backup_before_migration("..", "t", 0), "../weiback-migrate-backup-t.db");
    assert_eq!(backup_before_migration("", "t", 0), "weiback-migrate-backup-t.db");
}

#[test]
fn columns_and_states_have_names() {
    assert_eq!(MediaOwnerType::Comment.as_str(), "comment");
    assert_eq!(MediaType::Emoji.as_str(), "emoji");
    assert_eq!(MediaStatus::Downloaded.as_str(), "downloaded");
    assert_eq!(RefreshTier::Warm.as_str(), "warm");
    assert_eq!(SyncJobStatus::Interrupted.as_str(), "interrupted");
    assert_eq!(CommentIden::Table.name(), "comments");
    assert_eq!(MediaIden::LocalPath.name(), "local_path");
    assert_eq!(MonitoredUserIden::Table.name(), "monitored_users");
    assert_eq!(SyncJobIden::Table.name(), "sync_jobs");
    assert_eq!(SyncRunIden::StatsJson.name(), "stats_json");
    assert_eq!(SyncCheckpointIden::Table.name(), "sync_checkpoints");
    assert_eq!(ProcessedEventIden::Table.name(), "processed_events");
}
