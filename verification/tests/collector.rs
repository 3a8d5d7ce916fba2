use weiback::error::Error;
use weiback::json::Json;
use weiback::sidecar::collector::{
    checkpoint_from_payload, comment_from_payload, done_status_from_payload, get_i64,
    media_from_payload, parse_url_or_placeholder, post_from_payload, user_from_payload,
    validate_event_sequence, CollectionStatus, RateLimitScope,
};
use weiback::sidecar::run::{load_checkpoint_cursor, restore_cursor};
use weiback::storage::internal::entities::{CheckpointOwner, SyncCheckpointDto};

fn json(text: &str) -> Json {
    Json::parse(text).unwrap()
}

fn payload_with(extra: &str) -> Json {
    json(&format!(
        r#"{{"id": "9001", "uid": "10001", "text": "你好", "content_status": "partial",
        "is_long_text": true, "attitudes_count": "3", "pic_ids": ["a", "b"],
        "raw_data": {{"status": 200}}{extra}}}"#
    ))
}

#[test]
fn post_payload_parses_extended_fields() {
    let post = post_from_payload(&payload_with("")).unwrap();
    assert_eq!(post.id, 9001);
    assert_eq!(post.uid, Some(10001));
    assert_eq!(post.text, "你好");
    assert_eq!(post.content_status, "partial");
    assert!(post.is_long_text);
    assert_eq!(post.attitudes_count, Some(3));
    assert_eq!(post.pic_ids, Some(json(r#"["a", "b"]"#)));
    assert_eq!(post.raw_data, Some(json(r#"{"status": 200}"#)));
}

#[test]
fn post_payload_missing_id_errors() {
    assert!(post_from_payload(&json(r#"{"uid": "10001"}"#)).is_err());
}

#[test]
fn post_payload_missing_uid_errors() {
    let anonymous = post_from_payload(&json(r#"{"id": "1"}"#));
    assert!(matches!(anonymous, Err(Error::FormatError(why)) if why == "post.uid missing"));
}

#[test]
fn post_payload_defaults_when_missing() {
    let post = post_from_payload(&json(r#"{"id": "1", "uid": "2"}"#)).unwrap();
    assert_eq!(post.text, "");
    assert_eq!(post.content_status, "complete");
    assert!(!post.is_long_text);
    assert_eq!(post.attitudes_count, None);
}

#[test]
fn post_payload_invalid_content_status_falls_back() {
    let post = post_from_payload(&payload_with(r#", "content_status": "weird""#)).unwrap();
    assert_eq!(post.content_status, "complete");
}

#[test]
fn comment_payload_parses() {
    let comment = comment_from_payload(&json(
        r#"{"id": "42", "post_id": "9001", "root_id": "42", "user_id": "10001",
        "text": "二楼", "depth": 1, "child_count": "3", "like_count": "5"}"#,
    ))
    .unwrap();
    assert_eq!(comment.id, 42);
    assert_eq!(comment.post_id, 9001);
    assert_eq!(comment.depth, 1);
    assert_eq!(comment.child_count, 3);
    assert_eq!(comment.like_count, 5);
    assert_eq!(comment.content_status, "complete");
}

#[test]
fn media_payload_requires_url() {
    assert!(media_from_payload(&json(r#"{"owner_type": "post"}"#), "now").is_err());
    let media = media_from_payload(
        &json(
            r#"{"owner_type": "post", "owner_id": "9001", "media_type": "picture",
            "url": "https://wx1.example.com/a.jpg"}"#,
        ),
        "now",
    )
    .unwrap();
    assert_eq!(media.url, "https://wx1.example.com/a.jpg");
    assert_eq!(media.status, "pending");
    assert_eq!(media.owner_id, Some(9001));
}

#[test]
fn done_status_rejects_missing_and_unknown_values() {
    assert!(done_status_from_payload(&json("{}")).is_err());
    assert!(done_status_from_payload(&json(r#"{"status": "unexpected"}"#)).is_err());
    assert_eq!(
        done_status_from_payload(&json(r#"{"status": "completed"}"#)).unwrap(),
        CollectionStatus::Completed
    );
    assert_eq!(
        done_status_from_payload(&json(r#"{"status": "stopped"}"#)).unwrap(),
        CollectionStatus::Stopped
    );
}

#[test]
fn event_sequence_rejects_gaps_duplicates_and_out_of_order_values() {
    assert!(validate_event_sequence(0, 1).is_ok());
    assert!(validate_event_sequence(1, 2).is_ok());
    assert!(validate_event_sequence(0, 2).is_err());
    assert!(validate_event_sequence(2, 2).is_err());
    assert!(validate_event_sequence(2, 1).is_err());
}

#[test]
fn checkpoint_payload_parses_with_cursor_envelope() {
    let payload = json(
        r#"{"cursor": {"max_id": "p1_after", "max_id_type": 0}, "fetched_count": 20,
        "has_more": true}"#,
    );
    let checkpoint = checkpoint_from_payload("user:123:posts", &payload, 20, "now").unwrap();
    assert_eq!(checkpoint.stream, "user:123:posts");
    assert_eq!(checkpoint.fetched_count, 20);
    assert_eq!(checkpoint.last_sequence, Some(20));
    let cursor_json = json(&checkpoint.cursor_json.unwrap());
    assert_eq!(cursor_json.get("cursor").unwrap().str_field("max_id"), Some("p1_after"));
}

#[test]
fn checkpoint_payload_rejects_missing_required_fields() {
    assert!(checkpoint_from_payload("user:123:posts", &json("{}"), 1, "now").is_err());
    assert!(checkpoint_from_payload(
        "user:123:posts",
        &json(r#"{"cursor": {"max_id": "next", "max_id_type": 0}, "fetched_count": -1}"#),
        1,
        "now",
    )
    .is_err());
}

#[test]
fn user_payload_parses_with_placeholder_urls() {
    let user = user_from_payload(&json(
        r#"{"id": "10001", "screen_name": "小明", "domain": "xiaoming"}"#,
    ))
    .unwrap();
    assert_eq!(user.id, 10001);
    assert_eq!(user.screen_name, "小明");
    assert!(user.avatar_hd.as_str().starts_with("https://"));
}

#[test]
fn checkpoint_storage_is_wrapped_and_command_payload_is_cursor() {
    let stored = json(r#"{"cursor": {"max_id": "p1", "max_id_type": 0}}"#);
    let command_checkpoint = restore_cursor(&stored, 0).unwrap();
    assert_eq!(command_checkpoint.str_field("max_id"), Some("p1"));
    assert_eq!(command_checkpoint.u64_field("max_id_type"), Some(0));
}

#[test]
fn urls_are_brought_into_normal_form() {
    assert_eq!(
        parse_url_or_placeholder(Some("HTTPS://Example.COM/a/../b")),
        "https://example.com/b"
    );
    assert_eq!(parse_url_or_placeholder(Some("not a url")), "https://example.invalid/");
    assert_eq!(parse_url_or_placeholder(None), "https://example.invalid/");
}

#[test]
fn integers_come_as_numbers_or_texts() {
    let payload = json(r#"{"a": 7, "b": "-8", "c": "x", "d": 1.5, "e": "+9", "f": null}"#);
    assert_eq!(get_i64(&payload, "a"), Some(7));
    assert_eq!(get_i64(&payload, "b"), Some(-8));
    assert_eq!(get_i64(&payload, "c"), None);
    assert_eq!(get_i64(&payload, "d"), None);
    assert_eq!(get_i64(&payload, "e"), Some(9));
    assert_eq!(get_i64(&payload, "f"), None);
    assert_eq!(get_i64(&payload, "g"), None);
}

#[test]
fn scopes_have_names() {
    assert_eq!(RateLimitScope::parse_protocol("account").unwrap(), RateLimitScope::Account);
    assert_eq!(RateLimitScope::parse_protocol("endpoint").unwrap(), RateLimitScope::Endpoint);
    assert_eq!(RateLimitScope::parse_protocol("request").unwrap(), RateLimitScope::Request);
    assert!(matches!(RateLimitScope::parse_protocol("world"), Err(Error::FormatError(_))));
}

#[test]
fn stored_cursors_resume_with_their_count() {
    let payload = json(
        r#"{"cursor": {"max_id": "p1", "max_id_type": 0}, "fetched_count": 20,
        "has_more": true}"#,
    );
    let row: SyncCheckpointDto = checkpoint_from_payload("s", &payload, 3, "now").unwrap();
    assert_eq!(row.owner, CheckpointOwner::AdHoc);
    let cursor = load_checkpoint_cursor(Some(&row)).unwrap().unwrap();
    assert_eq!(cursor.str_field("max_id"), Some("p1"));
    assert_eq!(cursor.u64_field("fetched_count"), Some(20));
    assert!(load_checkpoint_cursor(None).unwrap().is_none());
}
