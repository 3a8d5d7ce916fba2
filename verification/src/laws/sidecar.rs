//! The sidecar: how messages travel, how it is greeted, and how it is made to exit.
use vstd::prelude::*;

use crate::json;
use crate::json::{Json, JsonView, NumberView};
use crate::sidecar::protocol;
use crate::sidecar::protocol::{
    command_from_json, event_from_json, is_uuid_v7, new_uuid_v7, parse_command_line,
    parse_event_line, CommandEnvelope, CommandType, EventEnvelope, EventType, ProtocolError,
};
use crate::sidecar::supervisor::{
    bundled_sidecar_name, collection_spawn_options, command_line_for, duration_text, exit_code_text,
    exit_step, handshake_receive_error, hello_command, resolve_sidecar_command, shutdown_command,
    sort_line, ExitStep, Handshake, HandshakeFailure, HandshakeStep, LineOutcome, SidecarError,
    SpawnOptions,
};
use crate::text;

verus! {

/// Whether a value has a text under a key.
pub open spec fn has_text(v: JsonView, key: Seq<char>, s: Seq<char>) -> bool {
    json::field(v, key) == Some(JsonView::Text(s))
}

/// Whether a value has an integer under a key.
pub open spec fn has_integer(v: JsonView, key: Seq<char>, n: int) -> bool {
    json::field(v, key) == Some(JsonView::Number(NumberView::Integer(n)))
}

/// The name of a command is read back as that command, and unknown names as none.
pub proof fn command_names_read_back(
    c: CommandType,
    name: &'static str,
    r: Option<CommandType>,
    unknown: &str,
    u: Option<CommandType>,
)
    requires
        call_ensures(CommandType::as_str, (&c,), name),
        call_ensures(CommandType::parse, (name,), r),
        call_ensures(CommandType::parse, (unknown,), u),
    ensures
        r == Some(c),
        u matches Some(d) && d == c ==> unknown@ == name@,
        c == CommandType::Hello <==> name@ == "hello"@,
        c == CommandType::Health <==> name@ == "health"@,
        c == CommandType::CollectUserPosts <==> name@ == "collect_user_posts"@,
        c == CommandType::CollectComments <==> name@ == "collect_comments"@,
        c == CommandType::CollectCommentReplies <==> name@ == "collect_comment_replies"@,
        c == CommandType::Cancel <==> name@ == "cancel"@,
        c == CommandType::Shutdown <==> name@ == "shutdown"@,
{
    protocol::command_name_identifies(c);
    protocol::command_name_identifies(CommandType::Hello);
    protocol::command_name_identifies(CommandType::Health);
    protocol::command_name_identifies(CommandType::CollectUserPosts);
    protocol::command_name_identifies(CommandType::CollectComments);
    protocol::command_name_identifies(CommandType::CollectCommentReplies);
    protocol::command_name_identifies(CommandType::Cancel);
    protocol::command_name_identifies(CommandType::Shutdown);
}

/// The name of an event is read back as that event.
pub proof fn event_names_read_back(
    e: EventType,
    name: &'static str,
    r: Option<EventType>,
    unknown: &str,
    u: Option<EventType>,
)
    requires
        call_ensures(EventType::as_str, (&e,), name),
        call_ensures(EventType::parse, (name,), r),
        call_ensures(EventType::parse, (unknown,), u),
    ensures
        r == Some(e),
        u matches Some(d) && d == e ==> unknown@ == name@,
        e == EventType::Ready ==> name@ == "ready"@,
        e == EventType::Capabilities ==> name@ == "capabilities"@,
        e == EventType::Started ==> name@ == "started"@,
        e == EventType::Progress ==> name@ == "progress"@,
        e == EventType::User ==> name@ == "user"@,
        e == EventType::Post ==> name@ == "post"@,
        e == EventType::Comment ==> name@ == "comment"@,
        e == EventType::MediaReference ==> name@ == "media_reference"@,
        e == EventType::Checkpoint ==> name@ == "checkpoint"@,
        e == EventType::RateLimited ==> name@ == "rate_limited"@,
        e == EventType::AuthRequired ==> name@ == "auth_required"@,
        e == EventType::Warning ==> name@ == "warning"@,
        e == EventType::Error ==> name@ == "error"@,
        e == EventType::Done ==> name@ == "done"@,
        e == EventType::Cancelled ==> name@ == "cancelled"@,
{
    protocol::event_name_identifies(e);
}

/// An identifier has groups of lower-case hexadecimal digits, the version digit seven and one of
/// four variant digits; every fresh one is accepted.
pub proof fn identifiers_have_their_form(s: &str, r: bool, fresh: String, t: &str, f: bool)
    requires
        call_ensures(is_uuid_v7, (s,), r),
        call_ensures(new_uuid_v7, (), fresh),
        t@ == fresh@,
        call_ensures(is_uuid_v7, (t,), f),
    ensures
        r <==> s@.len() == 36 && s@[8] == '-' && s@[13] == '-' && s@[18] == '-' && s@[23] == '-'
            && s@[14] == '7' && (s@[19] == '8' || s@[19] == '9' || s@[19] == 'a' || s@[19] == 'b')
            && (forall|i: int|
            0 <= i < 36 && i != 8 && i != 13 && i != 18 && i != 23 ==> ('0' <= #[trigger] s@[i]
                <= '9' || 'a' <= s@[i] <= 'f')),
        f,
{
    if s@.len() == 36 && s@[8] == '-' && s@[13] == '-' && s@[18] == '-' && s@[23] == '-' && s@[14]
        == '7' && (s@[19] == '8' || s@[19] == '9' || s@[19] == 'a' || s@[19] == 'b') && (forall|
        i: int,
    |
        0 <= i < 36 && i != 8 && i != 13 && i != 18 && i != 23 ==> ('0' <= #[trigger] s@[i] <= '9'
            || 'a' <= s@[i] <= 'f')) {
        assert forall|i: int| 0 <= i < 36 implies protocol::uuid_v7_char(i, #[trigger] s@[i]) by {}
    }
    if r {
        assert(protocol::uuid_v7_char(8, s@[8]));
        assert(protocol::uuid_v7_char(13, s@[13]));
        assert(protocol::uuid_v7_char(18, s@[18]));
        assert(protocol::uuid_v7_char(23, s@[23]));
        assert(protocol::uuid_v7_char(14, s@[14]));
        assert(protocol::uuid_v7_char(19, s@[19]));
        assert forall|i: int| 0 <= i < 36 && i != 8 && i != 13 && i != 18 && i != 23 implies ('0'
            <= #[trigger] s@[i] <= '9' || 'a' <= s@[i] <= 'f') by {
            assert(protocol::uuid_v7_char(i, s@[i]));
        }
    }
}

/// An event is read as it was written: each of its parts from the field of its own name, and what
/// may be missing is none where it is.
pub proof fn events_are_read_as_written(
    v: Json,
    e: EventType,
    name: &'static str,
    event_id: &str,
    request_id: Option<&str>,
    stream: Option<&str>,
    sequence: Option<u64>,
    total_expected: Option<u64>,
    occurred_at: Seq<char>,
    payload: Option<JsonView>,
    r: std::result::Result<EventEnvelope, ProtocolError>,
)
    requires
        v@ is Object,
        call_ensures(EventType::as_str, (&e,), name),
        call_ensures(is_uuid_v7, (event_id,), true),
        request_id matches Some(id) ==> call_ensures(is_uuid_v7, (id,), true),
        has_integer(v@, "protocol_version"@, 1),
        has_text(v@, "type"@, name@),
        has_text(v@, "event_id"@, event_id@),
        has_text(v@, "occurred_at"@, occurred_at),
        match request_id {
            Some(id) => has_text(v@, "request_id"@, id@),
            None => json::field(v@, "request_id"@) is None || json::field(v@, "request_id"@)
                == Some(JsonView::Null),
        },
        match stream {
            Some(s) => has_text(v@, "stream"@, s@),
            None => json::field(v@, "stream"@) is None || json::field(v@, "stream"@) == Some(
                JsonView::Null,
            ),
        },
        match sequence {
            Some(n) => has_integer(v@, "sequence"@, n as int),
            None => json::field(v@, "sequence"@) is None || json::field(v@, "sequence"@) == Some(
                JsonView::Null,
            ),
        },
        match total_expected {
            Some(n) => has_integer(v@, "total_expected"@, n as int),
            None => json::field(v@, "total_expected"@) is None || json::field(
                v@,
                "total_expected"@,
            ) == Some(JsonView::Null),
        },
        json::field(v@, "payload"@) == payload,
        call_ensures(event_from_json, (&v,), r),
    ensures
        r is Ok,
        r matches Ok(x) ==> x.protocol_version == 1 && x.event_type == e && x.event_id@
            == event_id@ && x.occurred_at@ == occurred_at && x.sequence == sequence
            && x.total_expected == total_expected,
        r matches Ok(x) ==> (match (x.request_id, request_id) {
            (Some(a), Some(b)) => a@ == b@,
            (None, None) => true,
            _ => false,
        }),
        r matches Ok(x) ==> (match (x.stream, stream) {
            (Some(a), Some(b)) => a@ == b@,
            (None, None) => true,
            _ => false,
        }),
        r matches Ok(x) ==> (payload matches Some(p) ==> x.payload@ == p),
        r matches Ok(x) ==> (payload is None ==> x.payload@ == JsonView::Object(Map::empty())),
{
    protocol::event_name_identifies(e);
}

/// A value that is no object, that is of another version, or that misses its type, its identifier or
/// its time is no event, and neither is one with an unknown type or an identifier of another form.
pub proof fn broken_events_are_refused(
    v: Json,
    bad: &str,
    e: EventType,
    name: &'static str,
    unknown: &str,
    event_id: &str,
    r: std::result::Result<EventEnvelope, ProtocolError>,
)
    requires
        call_ensures(is_uuid_v7, (bad,), false),
        call_ensures(is_uuid_v7, (event_id,), true),
        call_ensures(EventType::as_str, (&e,), name),
        call_ensures(EventType::parse, (unknown,), None),
        call_ensures(event_from_json, (&v,), r),
    ensures
        !(v@ is Object) ==> (r matches Err(ProtocolError::NotAnObject)),
        v@ is Object && json::field(v@, "protocol_version"@) is None ==> (r matches Err(
            ProtocolError::MissingField(f),
        ) && f@ == "protocol_version"@),
        v@ is Object && has_integer(v@, "protocol_version"@, 2) ==> (r matches Err(
            ProtocolError::UnsupportedVersion(n),
        ) && n == 2),
        v@ is Object && has_integer(v@, "protocol_version"@, 1) && json::field(v@, "type"@) is None
            ==> (r matches Err(ProtocolError::MissingField(f)) && f@ == "type"@),
        json::field(v@, "event_id"@) is None ==> r is Err,
        json::field(v@, "occurred_at"@) is None ==> r is Err,
        has_text(v@, "event_id"@, bad@) ==> r is Err,
        has_text(v@, "request_id"@, bad@) ==> r is Err,
        v@ is Object && has_integer(v@, "protocol_version"@, 1) && has_text(v@, "type"@, unknown@)
            ==> (r matches Err(ProtocolError::UnknownEvent(t)) && t@ == unknown@),
        v@ is Object && has_integer(v@, "protocol_version"@, 1) && has_text(v@, "type"@, name@)
            && has_text(v@, "request_id"@, bad@) ==> (r matches Err(
            ProtocolError::InvalidRequestId(id),
        ) && id@ == bad@),
        v@ is Object && has_integer(v@, "protocol_version"@, 1) && has_text(v@, "type"@, name@)
            && json::field(v@, "request_id"@) is None && json::field(v@, "event_id"@) is None ==> (
        r matches Err(ProtocolError::MissingField(f)) && f@ == "event_id"@),
        v@ is Object && has_integer(v@, "protocol_version"@, 1) && has_text(v@, "type"@, name@)
            && json::field(v@, "request_id"@) is None && has_text(v@, "event_id"@, bad@) ==> (
        r matches Err(ProtocolError::InvalidEventId(id)) && id@ == bad@),
        v@ is Object && has_integer(v@, "protocol_version"@, 1) && has_text(v@, "type"@, name@)
            && json::field(v@, "request_id"@) is None && has_text(v@, "event_id"@, event_id@)
            && json::field(v@, "occurred_at"@) is None ==> (r matches Err(
            ProtocolError::MissingField(f),
        ) && f@ == "occurred_at"@),
{
    protocol::event_name_identifies(e);
}

/// A command is read as it was written.
pub proof fn commands_are_read_as_written(
    v: Json,
    c: CommandType,
    name: &'static str,
    request_id: &str,
    bad: &str,
    payload: Option<JsonView>,
    r: std::result::Result<CommandEnvelope, ProtocolError>,
)
    requires
        v@ is Object,
        call_ensures(CommandType::as_str, (&c,), name),
        call_ensures(is_uuid_v7, (request_id,), true),
        call_ensures(is_uuid_v7, (bad,), false),
        has_integer(v@, "protocol_version"@, 1),
        has_text(v@, "type"@, name@),
        json::field(v@, "payload"@) == payload,
        call_ensures(command_from_json, (&v,), r),
    ensures
        has_text(v@, "request_id"@, request_id@) ==> (r matches Ok(x) && x.protocol_version == 1
            && x.command_type == c && x.request_id@ == request_id@ && (payload matches Some(p)
            ==> x.payload@ == p) && (payload is None ==> x.payload@ == JsonView::Object(
            Map::empty(),
        ))),
        json::field(v@, "request_id"@) is None ==> (r matches Err(ProtocolError::MissingField(f))
            && f@ == "request_id"@),
        has_text(v@, "request_id"@, bad@) ==> (r matches Err(ProtocolError::InvalidRequestId(id))
            && id@ == bad@),
{
    protocol::command_name_identifies(c);
}

/// A value that is no object, that is of another version, or that misses its type is no command, and
/// neither is one with an unknown type.
pub proof fn broken_commands_are_refused(
    v: Json,
    unknown: &str,
    r: std::result::Result<CommandEnvelope, ProtocolError>,
)
    requires
        call_ensures(CommandType::parse, (unknown,), None),
        call_ensures(command_from_json, (&v,), r),
    ensures
        !(v@ is Object) ==> (r matches Err(ProtocolError::NotAnObject)),
        v@ is Object && json::field(v@, "protocol_version"@) is None ==> (r matches Err(
            ProtocolError::MissingField(f),
        ) && f@ == "protocol_version"@),
        v@ is Object && has_integer(v@, "protocol_version"@, 2) ==> (r matches Err(
            ProtocolError::UnsupportedVersion(n),
        ) && n == 2),
        v@ is Object && has_integer(v@, "protocol_version"@, 1) && json::field(v@, "type"@) is None
            ==> (r matches Err(ProtocolError::MissingField(f)) && f@ == "type"@),
        v@ is Object && has_integer(v@, "protocol_version"@, 1) && has_text(v@, "type"@, unknown@)
            ==> (r matches Err(ProtocolError::UnknownCommand(t)) && t@ == unknown@),
{
}

/// A command that is sent as a line is received as the same command, as long as its payload is plain
/// and the line is not too long.
pub proof fn sent_commands_are_received(
    request_id: String,
    id: &str,
    c: CommandType,
    payload: Json,
    command: CommandEnvelope,
    line: std::result::Result<String, String>,
    sent: &str,
    r: std::result::Result<CommandEnvelope, ProtocolError>,
)
    requires
        id@ == request_id@,
        call_ensures(is_uuid_v7, (id,), true),
        json::plain(payload@, (json::MAX_DEPTH - 1) as nat),
        call_ensures(CommandEnvelope::new, (request_id, c, payload), command),
        call_ensures(CommandEnvelope::to_line, (&command,), line),
        line matches Ok(l) ==> l@ == sent@,
        call_ensures(parse_command_line, (sent,), r),
    ensures
        line is Ok,
        sent@.last() == '\n',
        vstd::utf8::encode_utf8(sent@).len() <= 131_072 ==> (r matches Ok(x) && x.protocol_version
            == 1 && x.request_id@ == request_id@ && x.command_type == c && x.payload@
            == payload@),
        vstd::utf8::encode_utf8(sent@).len() > 131_072 ==> (r matches Err(
            ProtocolError::MessageTooLarge,
        )),
{
}

/// A line is read as the value that it denotes, unless it is too long or denotes none.
pub proof fn lines_are_read_as_values(
    line: &str,
    v: Json,
    e: std::result::Result<EventEnvelope, ProtocolError>,
    r: std::result::Result<EventEnvelope, ProtocolError>,
)
    requires
        json::parsed(line@) == Ok::<JsonView, Seq<char>>(v@),
        call_ensures(event_from_json, (&v,), e),
        call_ensures(parse_event_line, (line,), r),
    ensures
        vstd::utf8::encode_utf8(line@).len() > 131_072 ==> (r matches Err(
            ProtocolError::MessageTooLarge,
        )),
        vstd::utf8::encode_utf8(line@).len() <= 131_072 ==> (r is Ok <==> e is Ok) && (
        r matches Ok(x) ==> x@ == e->Ok_0@) && (r matches Err(f) ==> f@ == e->Err_0@),
{
}

/// Blank lines and lines that are no object are passed over, a line with an event gives that event,
/// and anything else breaks the protocol.
pub proof fn output_is_sorted(
    line: &str,
    blank: bool,
    p: std::result::Result<EventEnvelope, ProtocolError>,
    r: LineOutcome,
)
    requires
        call_ensures(text::is_blank, (line,), blank),
        call_ensures(parse_event_line, (line,), p),
        call_ensures(sort_line, (line,), r),
    ensures
        blank ==> r is Discarded,
        !blank && p is Ok ==> (r matches LineOutcome::Event(e) && e@ == p->Ok_0@),
        !blank && (p matches Err(ProtocolError::InvalidJson(_))) ==> r is Discarded,
        !blank && (p matches Err(ProtocolError::NotAnObject)) ==> r is Discarded,
        !blank && p is Err && !(p->Err_0 is InvalidJson) && !(p->Err_0 is NotAnObject) ==> (
        r matches LineOutcome::Broken(SidecarError::Protocol(f)) && f@ == p->Err_0@),
{
}

/// A command is sent as its line unless that exceeds the limit of a message.
pub proof fn long_commands_are_not_sent(
    command: CommandEnvelope,
    line: std::result::Result<String, String>,
    r: std::result::Result<String, SidecarError>,
)
    requires
        call_ensures(CommandEnvelope::to_line, (&command,), line),
        call_ensures(command_line_for, (&command,), r),
    ensures
        line matches Ok(l) ==> (vstd::utf8::encode_utf8(l@).len() <= 131_072 <==> r is Ok),
        line matches Ok(l) ==> (r matches Ok(s) ==> s@ == l@),
        r is Err ==> (r matches Err(SidecarError::CommandTooLarge)),
{
}

/// The first command greets, and the last one asks to exit within the time given.
pub proof fn greetings_and_farewells(
    request_id: String,
    grace_ms: u64,
    hello: CommandEnvelope,
    bye: CommandEnvelope,
)
    requires
        call_ensures(hello_command, (request_id,), hello),
        call_ensures(shutdown_command, (request_id, grace_ms), bye),
    ensures
        hello.protocol_version == 1 && hello.request_id == request_id && hello.command_type
            == CommandType::Hello && has_text(hello.payload@, "client_name"@, "weiback-next"@),
        bye.protocol_version == 1 && bye.request_id == request_id && bye.command_type
            == CommandType::Shutdown && has_integer(bye.payload@, "grace_ms"@, grace_ms as int),
{
}

/// A sidecar that should exit is given its grace period and two seconds more, and is killed after
/// that; one that has exited is left alone.
pub proof fn sidecars_are_given_time_to_exit(
    exited: bool,
    elapsed_ms: u64,
    grace_ms: u64,
    r: ExitStep,
)
    requires
        call_ensures(exit_step, (exited, elapsed_ms, grace_ms), r),
    ensures
        r == ExitStep::Exited <==> exited,
        r == ExitStep::Kill <==> !exited && elapsed_ms >= grace_ms + 2000,
        r matches ExitStep::Wait(ms) ==> ms == 50,
{
}

/// A handshake is complete once both introductions have come, in whichever order, with what they
/// said; until then it waits for the time that is left, and fails when there is none.
pub proof fn handshakes_take_both_introductions(
    a: EventEnvelope,
    b: EventEnvelope,
    ready_first: bool,
    start: Handshake,
    one: &mut Handshake,
    two: &mut Handshake,
    timeout_ms: u64,
    elapsed_ms: u64,
    x: Option<HandshakeFailure>,
    y: Option<HandshakeFailure>,
    early: (Handshake, HandshakeStep),
    half: (Handshake, HandshakeStep),
    full: (Handshake, HandshakeStep),
)
    requires
        ready_first ==> a.event_type == EventType::Ready && b.event_type == EventType::Capabilities,
        !ready_first ==> a.event_type == EventType::Capabilities && b.event_type
            == EventType::Ready,
        call_ensures(Handshake::start, (timeout_ms,), start),
        call_ensures(Handshake::next, (start, elapsed_ms), early),
        *old(one) == start,
        call_ensures(Handshake::receive, (one, a), x),
        call_ensures(Handshake::next, (*final(one), elapsed_ms), half),
        *old(two) == *final(one),
        call_ensures(Handshake::receive, (two, b), y),
        call_ensures(Handshake::next, (*final(two), elapsed_ms), full),
    ensures
        x is None && y is None,
        full.1 matches HandshakeStep::Complete(ready, capabilities) && (if ready_first {
            ready == a.payload && capabilities == b.payload
        } else {
            ready == b.payload && capabilities == a.payload
        }),
        elapsed_ms < timeout_ms ==> (early.1 matches HandshakeStep::Wait(ms) && ms == timeout_ms
            - elapsed_ms) && (half.1 matches HandshakeStep::Wait(ms) && ms == timeout_ms
            - elapsed_ms),
        elapsed_ms >= timeout_ms ==> (early.1 matches HandshakeStep::Fail {
            error: SidecarError::HandshakeTimeout(ms),
            kill,
        } && ms == timeout_ms && kill) && half.1 is Fail,
{
}

/// An error ends a handshake, and the sidecar is killed; other events change nothing. When nothing
/// can be received, a timeout kills, and any other error is passed on.
pub proof fn errors_end_handshakes(
    handshake: &mut Handshake,
    event: EventEnvelope,
    timeout_ms: u64,
    waited: u64,
    error: SidecarError,
    r: Option<HandshakeFailure>,
    late: HandshakeFailure,
    other: HandshakeFailure,
)
    requires
        !(error is RecvTimeout),
        call_ensures(Handshake::receive, (handshake, event), r),
        call_ensures(handshake_receive_error, (SidecarError::RecvTimeout(waited), timeout_ms), late),
        call_ensures(handshake_receive_error, (error, timeout_ms), other),
    ensures
        r is Some <==> event.event_type == EventType::Error,
        r matches Some(f) ==> f.kill && f.error is HandshakeFailed,
        event.event_type != EventType::Ready && event.event_type != EventType::Capabilities
            ==> final(handshake).ready == old(handshake).ready && final(handshake).capabilities
            == old(handshake).capabilities,
        final(handshake).timeout_ms == old(handshake).timeout_ms,
        late == (HandshakeFailure { error: SidecarError::HandshakeTimeout(timeout_ms), kill: true }),
        other == (HandshakeFailure { error, kill: false }),
{
}

/// The configured program is used where it is a file, and the delivered one otherwise where that is
/// one.
pub proof fn configured_programs_come_first(
    configured: Option<String>,
    bundled: String,
    is_file: bool,
    bundled_is_file: bool,
    r: Option<String>,
    windows: String,
    elsewhere: String,
)
    requires
        call_ensures(
            resolve_sidecar_command,
            (configured, is_file, Some(bundled), bundled_is_file),
            r,
        ),
        call_ensures(bundled_sidecar_name, (true,), windows),
        call_ensures(bundled_sidecar_name, (false,), elsewhere),
    ensures
        configured is Some && is_file ==> r == configured,
        !(configured is Some && is_file) && bundled_is_file ==> r == Some(bundled),
        !(configured is Some && is_file) && !bundled_is_file ==> r is None,
        windows@ == "weiback-collector.exe"@,
        elsewhere@ == "weiback-collector"@,
{
}

/// A collection is started with the words of the configured arguments and with its session in the
/// environment only; without a program it is not started.
pub proof fn sessions_travel_by_environment(
    program: String,
    args: &str,
    words: Vec<String>,
    session: &str,
    r: std::result::Result<SpawnOptions, SidecarError>,
    bare: std::result::Result<SpawnOptions, SidecarError>,
    none: std::result::Result<SpawnOptions, SidecarError>,
)
    requires
        call_ensures(text::split_words, (args,), words),
        call_ensures(collection_spawn_options, (Some(program), Some(args), session), r),
        call_ensures(collection_spawn_options, (Some(program), None, session), bare),
        call_ensures(collection_spawn_options, (None, Some(args), session), none),
    ensures
        r matches Ok(o) && o.program == program && text::list_view(o.args@) == text::list_view(
            words@,
        ) && o.cwd is None && o.handshake_timeout_ms == 10_000 && o.env@.len() == 2 && o.env@[0].0@
            == "PYTHONUTF8"@ && o.env@[0].1@ == "1"@ && o.env@[1].0@
            == "WEIBACK_COLLECTOR_SESSION_PATH"@ && o.env@[1].1@ == session@,
        bare matches Ok(o) && o.args@.len() == 0 && o.program == program,
        none matches Err(SidecarError::SidecarNotFound),
{
    if let Ok(o) = bare {
        assert(text::list_view(o.args@).len() == o.args@.len());
    }
}

/// Durations read in milliseconds below a second and in seconds from there on.
pub proof fn durations_read_in_their_unit(
    ms: u64,
    r: String,
    number: String,
    seconds: String,
)
    requires
        call_ensures(duration_text, (ms,), r),
        call_ensures(text::u64_text, (ms,), number),
        call_ensures(text::u64_text, ((ms / 1000) as u64,), seconds),
    ensures
        ms == 0 ==> r@ == "0ns"@,
        0 < ms < 1000 ==> r@ == number@ + "ms"@,
        ms >= 1000 && ms % 1000 == 0 ==> r@ == seconds@ + "s"@,
        ms >= 1000 && ms % 1000 != 0 ==> text::has_prefix(r@, seconds@ + "."@),
{
    if ms >= 1000 && ms % 1000 != 0 {
        let head = seconds@ + "."@;
        assert(r@.subrange(0, head.len() as int) == head);
    }
}

/// The tenths, hundredths and thousandths of a second follow one another, and zeros at the end are
/// left out.
pub proof fn fractions_are_as_short_as_they_can_be(
    ms: u64,
    r: String,
    seconds: String,
    tenths: String,
    hundredths: String,
    thousandths: String,
)
    requires
        ms >= 1000,
        call_ensures(duration_text, (ms,), r),
        call_ensures(text::u64_text, ((ms / 1000) as u64,), seconds),
        call_ensures(text::u64_text, ((ms % 1000 / 100) as u64,), tenths),
        call_ensures(text::u64_text, ((ms % 1000 / 10 % 10) as u64,), hundredths),
        call_ensures(text::u64_text, ((ms % 1000 % 10) as u64,), thousandths),
    ensures
        ms % 10 != 0 ==> r@ == seconds@ + "."@ + (tenths@ + hundredths@ + thousandths@) + "s"@,
        ms % 10 == 0 && ms % 100 != 0 ==> r@ == seconds@ + "."@ + (tenths@ + hundredths@) + "s"@,
        ms % 100 == 0 && ms % 1000 != 0 ==> r@ == seconds@ + "."@ + tenths@ + "s"@,
{
}

/// Every error of the sidecar says what happened, with what is known of it.
pub proof fn sidecar_errors_say_what_happened(
    why: String,
    ms: u64,
    duration: String,
    code: Option<i32>,
    shown: String,
    f: ProtocolError,
    fault: String,
    io: String,
    missing: String,
    broken: String,
    greeted_late: String,
    cancelled: String,
    exited: String,
    failed: String,
    late: String,
    closed: String,
)
    requires
        call_ensures(duration_text, (ms,), duration),
        call_ensures(exit_code_text, (code,), shown),
        call_ensures(ProtocolError::message, (&f,), fault),
        call_ensures(SidecarError::message, (&SidecarError::Io(why),), io),
        call_ensures(SidecarError::message, (&SidecarError::SidecarNotFound,), missing),
        call_ensures(SidecarError::message, (&SidecarError::Protocol(f),), broken),
        call_ensures(SidecarError::message, (&SidecarError::HandshakeTimeout(ms),), greeted_late),
        call_ensures(SidecarError::message, (&SidecarError::HandshakeCancelled,), cancelled),
        call_ensures(SidecarError::message, (&SidecarError::Exited { code, detail: why },), exited),
        call_ensures(SidecarError::message, (&SidecarError::HandshakeFailed(why),), failed),
        call_ensures(SidecarError::message, (&SidecarError::RecvTimeout(ms),), late),
        call_ensures(SidecarError::message, (&SidecarError::StdoutClosed,), closed),
    ensures
        io@ == "io error: "@ + why@,
        missing@ == "sidecar executable not found"@,
        broken@ == "protocol error: "@ + fault@,
        greeted_late@ == "sidecar handshake timed out after "@ + duration@,
        cancelled@ == "sidecar handshake cancelled"@,
        exited@ == "sidecar exited with code "@ + shown@ + ": "@ + why@,
        failed@ == "sidecar handshake failed: "@ + why@,
        late@ == "sidecar event receive timed out after "@ + duration@,
        closed@ == "sidecar stdout closed"@,
        code is None ==> shown@ == "None"@,
{
}

/// Exit codes are shown with their sign.
pub proof fn exit_codes_are_shown(code: i32, number: String, shown: String)
    requires
        call_ensures(text::i64_text, (code as i64,), number),
        call_ensures(exit_code_text, (Some(code),), shown),
    ensures
        shown@ == "Some("@ + number@ + ")"@,
{
}

/// Every error of the protocol says what is wrong, with the field or value that is.
pub proof fn protocol_errors_say_what_is_wrong(
    name: String,
    detail: String,
    v: u64,
    version: String,
    invalid: String,
    shape: String,
    missing: String,
    wrong: String,
    unsupported: String,
    request: String,
    event: String,
    large: String,
    command: String,
    unknown: String,
)
    requires
        call_ensures(text::u64_text, (v,), version),
        call_ensures(ProtocolError::message, (&ProtocolError::InvalidJson(name),), invalid),
        call_ensures(ProtocolError::message, (&ProtocolError::NotAnObject,), shape),
        call_ensures(ProtocolError::message, (&ProtocolError::MissingField(name),), missing),
        call_ensures(
            ProtocolError::message,
            (&ProtocolError::WrongType { field: name, detail },),
            wrong,
        ),
        call_ensures(ProtocolError::message, (&ProtocolError::UnsupportedVersion(v),), unsupported),
        call_ensures(ProtocolError::message, (&ProtocolError::InvalidRequestId(name),), request),
        call_ensures(ProtocolError::message, (&ProtocolError::InvalidEventId(name),), event),
        call_ensures(ProtocolError::message, (&ProtocolError::MessageTooLarge,), large),
        call_ensures(ProtocolError::message, (&ProtocolError::UnknownCommand(name),), command),
        call_ensures(ProtocolError::message, (&ProtocolError::UnknownEvent(name),), unknown),
    ensures
        invalid@ == "invalid json line: "@ + name@,
        shape@ == "message must be a json object"@,
        missing@ == "missing required field: "@ + name@,
        wrong@ == "field "@ + name@ + " has wrong type: "@ + detail@,
        unsupported@ == "unsupported protocol version: "@ + version@,
        request@ == "request_id is not a uuid v7: "@ + name@,
        event@ == "event_id is not a uuid v7: "@ + name@,
        large@ == "message exceeds 131072 bytes"@,
        command@ == "unknown command type: "@ + name@,
        unknown@ == "unknown event type: "@ + name@,
{
}

} // verus!
