use weiback::json::Json;
use weiback::sidecar::protocol::{
    is_uuid_v7, new_uuid_v7, parse_command_line, parse_event_line, CommandEnvelope, CommandType,
    EventType, ProtocolError, MAX_MESSAGE_BYTES,
};

fn rid() -> String {
    new_uuid_v7()
}

fn json(text: &str) -> Json {
    Json::parse(text).unwrap()
}

#[test]
fn command_envelope_round_trip() {
    let mut payload = Json::empty_object();
    payload.insert("post_id", Json::Text("123".into()));
    payload.insert("max_pages", Json::integer(3));
    let envelope = CommandEnvelope::new(rid(), CommandType::CollectComments, payload);
    let line = envelope.to_line().unwrap();
    let parsed = parse_command_line(&line).unwrap();
    assert_eq!(parsed, envelope);
}

#[test]
fn command_line_ends_with_newline() {
    let envelope = CommandEnvelope::new(rid(), CommandType::Health, json("{}"));
    let line = envelope.to_line().unwrap();
    assert!(line.ends_with('\n'));
}

#[test]
fn event_line_parses_ready() {
    let line = format!(
        r#"{{"protocol_version": 1, "request_id": null, "event_id": "{}", "type": "ready",
        "occurred_at": "2026-07-31T12:34:56.789Z",
        "payload": {{"sidecar_name": "weiback-collector", "sidecar_version": "0.3.1",
        "protocol_version": 1}}}}"#,
        rid()
    );
    let event = parse_event_line(&line).unwrap();
    assert_eq!(event.event_type, EventType::Ready);
    assert_eq!(event.request_id, None);
    assert_eq!(event.payload.str_field("sidecar_name"), Some("weiback-collector"));
}

#[test]
fn event_line_parses_stream_event() {
    let line = format!(
        r#"{{"protocol_version": 1, "request_id": "{}", "event_id": "{}", "type": "post",
        "stream": "user:123:posts", "sequence": 42, "total_expected": 500,
        "occurred_at": "2026-07-31T12:34:56.789Z",
        "payload": {{"id": "42", "uid": "123"}}}}"#,
        rid(),
        rid()
    );
    let event = parse_event_line(&line).unwrap();
    assert_eq!(event.event_type, EventType::Post);
    assert_eq!(event.sequence, Some(42));
    assert_eq!(event.total_expected, Some(500));
    assert_eq!(event.stream.as_deref(), Some("user:123:posts"));
}

fn ready_line(version: u32, id: &str, kind: &str) -> String {
    format!(
        r#"{{"protocol_version": {version}, "request_id": null, "event_id": "{id}",
        "type": "{kind}", "occurred_at": "2026-07-31T12:34:56.789Z", "payload": {{}}}}"#
    )
}

#[test]
fn rejects_wrong_protocol_version() {
    let err = parse_event_line(&ready_line(2, &rid(), "ready")).unwrap_err();
    assert!(matches!(err, ProtocolError::UnsupportedVersion(2)));
}

#[test]
fn rejects_invalid_json() {
    assert!(matches!(parse_event_line("not json"), Err(ProtocolError::InvalidJson(_))));
}

#[test]
fn rejects_non_object() {
    assert!(matches!(parse_event_line("[1,2,3]"), Err(ProtocolError::NotAnObject)));
}

#[test]
fn rejects_unknown_event_type() {
    assert!(matches!(
        parse_event_line(&ready_line(1, &rid(), "nope")),
        Err(ProtocolError::UnknownEvent(_))
    ));
}

#[test]
fn rejects_invalid_event_id() {
    assert!(matches!(
        parse_event_line(&ready_line(1, "not-a-uuid", "ready")),
        Err(ProtocolError::InvalidEventId(_))
    ));
}

#[test]
fn rejects_missing_occurred_at() {
    let line = format!(
        r#"{{"protocol_version": 1, "request_id": null, "event_id": "{}", "type": "ready",
        "payload": {{}}}}"#,
        rid()
    );
    assert!(matches!(parse_event_line(&line), Err(ProtocolError::MissingField(_))));
}

#[test]
fn rejects_message_too_large() {
    let line = " ".repeat(MAX_MESSAGE_BYTES + 1);
    assert!(matches!(parse_event_line(&line), Err(ProtocolError::MessageTooLarge)));
}

#[test]
fn uuid_v7_validation() {
    let good = rid();
    assert!(is_uuid_v7(&good));
    assert!(!is_uuid_v7("0198-0000-0000-0000-0000"));
    assert!(!is_uuid_v7(&good.replace('7', "8")));
}

#[test]
fn names_parse_back() {
    for name in [
        "hello",
        "health",
        "collect_user_posts",
        "collect_comments",
        "collect_comment_replies",
        "cancel",
        "shutdown",
    ] {
        assert_eq!(CommandType::parse(name).unwrap().as_str(), name);
    }
    assert!(CommandType::parse("ready").is_none());
    for name in [
        "ready",
        "capabilities",
        "started",
        "progress",
        "user",
        "post",
        "comment",
        "media_reference",
        "checkpoint",
        "rate_limited",
        "auth_required",
        "warning",
        "error",
        "done",
        "cancelled",
    ] {
        assert_eq!(EventType::parse(name).unwrap().as_str(), name);
    }
    assert!(EventType::parse("hello").is_none());
}

#[test]
fn rejects_commands_with_their_reasons() {
    let line = |id: &str, kind: &str| {
        format!(r#"{{"protocol_version":1,"request_id":"{id}","type":"{kind}"}}"#)
    };
    let parsed = parse_command_line(&line(&rid(), "hello")).unwrap();
    assert_eq!(parsed.payload, Json::empty_object());
    assert!(matches!(
        parse_command_line(&line("x", "hello")),
        Err(ProtocolError::InvalidRequestId(id)) if id == "x"
    ));
    assert!(matches!(
        parse_command_line(&line(&rid(), "sing")),
        Err(ProtocolError::UnknownCommand(name)) if name == "sing"
    ));
    assert!(matches!(
        parse_command_line(r#"{"protocol_version":1}"#),
        Err(ProtocolError::MissingField(_))
    ));
    assert!(parse_command_line("{").unwrap_err().message().len() > 0);
}

#[test]
fn identifiers_are_new_each_time() {
    assert_ne!(rid(), rid());
}
