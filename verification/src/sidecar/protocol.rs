//! Version 1 of the JSON-lines protocol between the application and its sidecar.
//!
//! This module covers the envelopes: protocol version, message types, identifiers and the
//! translation between envelopes and lines. Payloads stay JSON values.
use vstd::prelude::*;

use crate::json;
use crate::json::{Json, JsonNumber, JsonView};
use crate::text;

verus! {

/// The protocol version.
pub const PROTOCOL_VERSION: u64 = 1;

/// The size limit of a single message in bytes.
pub const MAX_MESSAGE_BYTES: usize = 128 * 1024;

/// The type of a command.
#[derive(Debug, Clone, Copy, PartialEq, Eq, Structural)]
pub enum CommandType {
    Hello,
    Health,
    CollectUserPosts,
    CollectComments,
    CollectCommentReplies,
    Cancel,
    Shutdown,
}

/// The name of a command type on the wire.
pub open spec fn command_name(c: CommandType) -> Seq<char> {
    match c {
        CommandType::Hello => "hello"@,
        CommandType::Health => "health"@,
        CommandType::CollectUserPosts => "collect_user_posts"@,
        CommandType::CollectComments => "collect_comments"@,
        CommandType::CollectCommentReplies => "collect_comment_replies"@,
        CommandType::Cancel => "cancel"@,
        CommandType::Shutdown => "shutdown"@,
    }
}

/// The command type with a name.
pub open spec fn command_named(s: Seq<char>) -> Option<CommandType> {
    if s == "hello"@ {
        Some(CommandType::Hello)
    } else if s == "health"@ {
        Some(CommandType::Health)
    } else if s == "collect_user_posts"@ {
        Some(CommandType::CollectUserPosts)
    } else if s == "collect_comments"@ {
        Some(CommandType::CollectComments)
    } else if s == "collect_comment_replies"@ {
        Some(CommandType::CollectCommentReplies)
    } else if s == "cancel"@ {
        Some(CommandType::Cancel)
    } else if s == "shutdown"@ {
        Some(CommandType::Shutdown)
    } else {
        None
    }
}

/// Command types have different names, so a name leads back to its type.
pub proof fn command_name_identifies(c: CommandType)
    ensures
        command_named(command_name(c)) == Some(c),
{
    reveal_strlit("hello");
    reveal_strlit("health");
    reveal_strlit("collect_user_posts");
    reveal_strlit("collect_comments");
    reveal_strlit("collect_comment_replies");
    reveal_strlit("cancel");
    reveal_strlit("shutdown");
    assert("hello"@.len() == 5);
    assert("health"@.len() == 6);
    assert("collect_user_posts"@.len() == 18);
    assert("collect_comments"@.len() == 16);
    assert("collect_comment_replies"@.len() == 23);
    assert("cancel"@.len() == 6);
    assert("shutdown"@.len() == 8);
    assert("health"@[0] != "cancel"@[0]);
}

impl CommandType {
    /// Finds the command type with the given name.
    pub fn parse(s: &str) -> (r: Option<CommandType>)
        ensures
            r == command_named(s@),
    {
        if text::same_text(s, "hello") {
            Some(CommandType::Hello)
        } else if text::same_text(s, "health") {
            Some(CommandType::Health)
        } else if text::same_text(s, "collect_user_posts") {
            Some(CommandType::CollectUserPosts)
        } else if text::same_text(s, "collect_comments") {
            Some(CommandType::CollectComments)
        } else if text::same_text(s, "collect_comment_replies") {
            Some(CommandType::CollectCommentReplies)
        } else if text::same_text(s, "cancel") {
            Some(CommandType::Cancel)
        } else if text::same_text(s, "shutdown") {
            Some(CommandType::Shutdown)
        } else {
            None
        }
    }

    /// The name of the command type on the wire.
    pub fn as_str(&self) -> (r: &'static str)
        ensures
            r@ == command_name(*self),
    {
        match self {
            CommandType::Hello => "hello",
            CommandType::Health => "health",
            CommandType::CollectUserPosts => "collect_user_posts",
            CommandType::CollectComments => "collect_comments",
            CommandType::CollectCommentReplies => "collect_comment_replies",
            CommandType::Cancel => "cancel",
            CommandType::Shutdown => "shutdown",
        }
    }
}

/// The type of an event.
#[derive(Debug, Clone, Copy, PartialEq, Eq, Structural)]
pub enum EventType {
    Ready,
    Capabilities,
    Started,
    Progress,
    User,
    Post,
    Comment,
    MediaReference,
    Checkpoint,
    RateLimited,
    AuthRequired,
    Warning,
    Error,
    Done,
    Cancelled,
}

/// The name of an event type on the wire.
pub open spec fn event_name(c: EventType) -> Seq<char> {
    match c {
        EventType::Ready => "ready"@,
        EventType::Capabilities => "capabilities"@,
        EventType::Started => "started"@,
        EventType::Progress => "progress"@,
        EventType::User => "user"@,
        EventType::Post => "post"@,
        EventType::Comment => "comment"@,
        EventType::MediaReference => "media_reference"@,
        EventType::Checkpoint => "checkpoint"@,
        EventType::RateLimited => "rate_limited"@,
        EventType::AuthRequired => "auth_required"@,
        EventType::Warning => "warning"@,
        EventType::Error => "error"@,
        EventType::Done => "done"@,
        EventType::Cancelled => "cancelled"@,
    }
}

/// The event type with a name.
pub open spec fn event_named(s: Seq<char>) -> Option<EventType> {
    if s == "ready"@ {
        Some(EventType::Ready)
    } else if s == "capabilities"@ {
        Some(EventType::Capabilities)
    } else if s == "started"@ {
        Some(EventType::Started)
    } else if s == "progress"@ {
        Some(EventType::Progress)
    } else if s == "user"@ {
        Some(EventType::User)
    } else if s == "post"@ {
        Some(EventType::Post)
    } else if s == "comment"@ {
        Some(EventType::Comment)
    } else if s == "media_reference"@ {
        Some(EventType::MediaReference)
    } else if s == "checkpoint"@ {
        Some(EventType::Checkpoint)
    } else if s == "rate_limited"@ {
        Some(EventType::RateLimited)
    } else if s == "auth_required"@ {
        Some(EventType::AuthRequired)
    } else if s == "warning"@ {
        Some(EventType::Warning)
    } else if s == "error"@ {
        Some(EventType::Error)
    } else if s == "done"@ {
        Some(EventType::Done)
    } else if s == "cancelled"@ {
        Some(EventType::Cancelled)
    } else {
        None
    }
}

/// Event types have different names, so a name leads back to its type.
pub proof fn event_name_identifies(c: EventType)
    ensures
        event_named(event_name(c)) == Some(c),
{
    reveal_strlit("ready");
    reveal_strlit("capabilities");
    reveal_strlit("started");
    reveal_strlit("progress");
    reveal_strlit("user");
    reveal_strlit("post");
    reveal_strlit("comment");
    reveal_strlit("media_reference");
    reveal_strlit("checkpoint");
    reveal_strlit("rate_limited");
    reveal_strlit("auth_required");
    reveal_strlit("warning");
    reveal_strlit("error");
    reveal_strlit("done");
    reveal_strlit("cancelled");
    assert("ready"@.len() == 5);
    assert("capabilities"@.len() == 12);
    assert("started"@.len() == 7);
    assert("progress"@.len() == 8);
    assert("user"@.len() == 4);
    assert("post"@.len() == 4);
    assert("comment"@.len() == 7);
    assert("media_reference"@.len() == 15);
    assert("checkpoint"@.len() == 10);
    assert("rate_limited"@.len() == 12);
    assert("auth_required"@.len() == 13);
    assert("warning"@.len() == 7);
    assert("error"@.len() == 5);
    assert("done"@.len() == 4);
    assert("cancelled"@.len() == 9);
    assert("ready"@[0] != "error"@[0]);
    assert("capabilities"@[0] != "rate_limited"@[0]);
    assert("started"@[0] != "comment"@[0]);
    assert("started"@[0] != "warning"@[0]);
    assert("comment"@[0] != "warning"@[0]);
    assert("user"@[0] != "post"@[0]);
    assert("user"@[0] != "done"@[0]);
    assert("post"@[0] != "done"@[0]);
}

impl EventType {
    /// Finds the event type with the given name.
    pub fn parse(s: &str) -> (r: Option<EventType>)
        ensures
            r == event_named(s@),
    {
        if text::same_text(s, "ready") {
            Some(EventType::Ready)
        } else if text::same_text(s, "capabilities") {
            Some(EventType::Capabilities)
        } else if text::same_text(s, "started") {
            Some(EventType::Started)
        } else if text::same_text(s, "progress") {
            Some(EventType::Progress)
        } else if text::same_text(s, "user") {
            Some(EventType::User)
        } else if text::same_text(s, "post") {
            Some(EventType::Post)
        } else if text::same_text(s, "comment") {
            Some(EventType::Comment)
        } else if text::same_text(s, "media_reference") {
            Some(EventType::MediaReference)
        } else if text::same_text(s, "checkpoint") {
            Some(EventType::Checkpoint)
        } else if text::same_text(s, "rate_limited") {
            Some(EventType::RateLimited)
        } else if text::same_text(s, "auth_required") {
            Some(EventType::AuthRequired)
        } else if text::same_text(s, "warning") {
            Some(EventType::Warning)
        } else if text::same_text(s, "error") {
            Some(EventType::Error)
        } else if text::same_text(s, "done") {
            Some(EventType::Done)
        } else if text::same_text(s, "cancelled") {
            Some(EventType::Cancelled)
        } else {
            None
        }
    }

    /// The name of the event type on the wire.
    pub fn as_str(&self) -> (r: &'static str)
        ensures
            r@ == event_name(*self),
    {
        match self {
            EventType::Ready => "ready",
            EventType::Capabilities => "capabilities",
            EventType::Started => "started",
            EventType::Progress => "progress",
            EventType::User => "user",
            EventType::Post => "post",
            EventType::Comment => "comment",
            EventType::MediaReference => "media_reference",
            EventType::Checkpoint => "checkpoint",
            EventType::RateLimited => "rate_limited",
            EventType::AuthRequired => "auth_required",
            EventType::Warning => "warning",
            EventType::Error => "error",
            EventType::Done => "done",
            EventType::Cancelled => "cancelled",
        }
    }
}

/// Whether a character is a lower-case hexadecimal digit.
pub open spec fn is_hex_lower(c: char) -> bool {
    '0' <= c <= '9' || 'a' <= c <= 'f'
}

/// Whether a character may stand at a position of a version 7 UUID.
pub open spec fn uuid_v7_char(i: int, c: char) -> bool {
    if i == 8 || i == 13 || i == 18 || i == 23 {
        c == '-'
    } else if i == 14 {
        c == '7'
    } else if i == 19 {
        c == '8' || c == '9' || c == 'a' || c == 'b'
    } else {
        is_hex_lower(c)
    }
}

/// Whether a text is a version 7 UUID: lower-case hexadecimal groups of 8, 4, 4, 4 and 12 digits,
/// version digit 7, variant digit 8, 9, a or b.
pub open spec fn uuid_v7_text(s: Seq<char>) -> bool {
    s.len() == 36 && forall|i: int| 0 <= i < 36 ==> uuid_v7_char(i, #[trigger] s[i])
}

/// Tests whether a string is a version 7 UUID.
pub fn is_uuid_v7(s: &str) -> (r: bool)
    ensures
        r == uuid_v7_text(s@),
{
    let v = text::chars_of(s);
    if v.len() != 36 {
        return false;
    }
    let mut i: usize = 0;
    while i < 36
        invariant
            v@ == s@,
            v@.len() == 36,
            i <= 36,
            forall|j: int| 0 <= j < i ==> uuid_v7_char(j, #[trigger] s@[j]),
        decreases 36 - i,
    {
        let c = v[i];
        let fits = if i == 8 || i == 13 || i == 18 || i == 23 {
            c == '-'
        } else if i == 14 {
            c == '7'
        } else if i == 19 {
            c == '8' || c == '9' || c == 'a' || c == 'b'
        } else {
            ('0' <= c && c <= '9') || ('a' <= c && c <= 'f')
        };
        if !fits {
            assert(!uuid_v7_char(i as int, s@[i as int]));
            return false;
        }
        i = i + 1;
    }
    true
}

/// `uuid::Uuid::now_v7`, rendered by its `to_string`: a fresh version 7 UUID in lower-case
/// hyphenated form. Which one is not stated: it depends on the clock and on chance.
#[verifier::external_body]
pub fn new_uuid_v7() -> (r: String)
    ensures
        uuid_v7_text(r@),
{
    uuid::Uuid::now_v7().to_string()
}

/// What is wrong with a message.
#[derive(Debug)]
pub enum ProtocolError {
    /// The message is not JSON; the reason is given.
    InvalidJson(String),
    /// The message is not a JSON object.
    NotAnObject,
    /// A required field is missing or of another type.
    MissingField(String),
    /// A field has the wrong type.
    WrongType { field: String, detail: String },
    /// The protocol version is not supported.
    UnsupportedVersion(u64),
    /// The request identifier is not a version 7 UUID.
    InvalidRequestId(String),
    /// The event identifier is not a version 7 UUID.
    InvalidEventId(String),
    /// The message exceeds the size limit.
    MessageTooLarge,
    /// The command type is unknown.
    UnknownCommand(String),
    /// The event type is unknown.
    UnknownEvent(String),
}

/// What a protocol error says.
pub enum Fault {
    InvalidJson(Seq<char>),
    NotAnObject,
    MissingField(Seq<char>),
    WrongType(Seq<char>, Seq<char>),
    UnsupportedVersion(u64),
    InvalidRequestId(Seq<char>),
    InvalidEventId(Seq<char>),
    MessageTooLarge,
    UnknownCommand(Seq<char>),
    UnknownEvent(Seq<char>),
}

impl View for ProtocolError {
    type V = Fault;

    open spec fn view(&self) -> Fault {
        match self {
            ProtocolError::InvalidJson(why) => Fault::InvalidJson(why@),
            ProtocolError::NotAnObject => Fault::NotAnObject,
            ProtocolError::MissingField(name) => Fault::MissingField(name@),
            ProtocolError::WrongType { field, detail } => Fault::WrongType(field@, detail@),
            ProtocolError::UnsupportedVersion(v) => Fault::UnsupportedVersion(*v),
            ProtocolError::InvalidRequestId(id) => Fault::InvalidRequestId(id@),
            ProtocolError::InvalidEventId(id) => Fault::InvalidEventId(id@),
            ProtocolError::MessageTooLarge => Fault::MessageTooLarge,
            ProtocolError::UnknownCommand(name) => Fault::UnknownCommand(name@),
            ProtocolError::UnknownEvent(name) => Fault::UnknownEvent(name@),
        }
    }
}

/// How a protocol error reads.
pub open spec fn fault_message(f: Fault) -> Seq<char> {
    match f {
        Fault::InvalidJson(why) => "invalid json line: "@ + why,
        Fault::NotAnObject => "message must be a json object"@,
        Fault::MissingField(name) => "missing required field: "@ + name,
        Fault::WrongType(name, detail) => "field "@ + name + " has wrong type: "@ + detail,
        Fault::UnsupportedVersion(v) => "unsupported protocol version: "@ + text::decimal(v as nat),
        Fault::InvalidRequestId(id) => "request_id is not a uuid v7: "@ + id,
        Fault::InvalidEventId(id) => "event_id is not a uuid v7: "@ + id,
        Fault::MessageTooLarge => "message exceeds 131072 bytes"@,
        Fault::UnknownCommand(name) => "unknown command type: "@ + name,
        Fault::UnknownEvent(name) => "unknown event type: "@ + name,
    }
}

impl ProtocolError {
    /// The error as a message for people.
    pub fn message(&self) -> (r: String)
        ensures
            r@ == fault_message(self@),
    {
        match self {
            ProtocolError::InvalidJson(why) => text::join2("invalid json line: ", why.as_str()),
            ProtocolError::NotAnObject => "message must be a json object".to_owned(),
            ProtocolError::MissingField(name) => text::join2(
                "missing required field: ",
                name.as_str(),
            ),
            ProtocolError::WrongType { field, detail } => {
                let mut r = text::join3("field ", field.as_str(), " has wrong type: ");
                r.append(detail.as_str());
                r
            },
            ProtocolError::UnsupportedVersion(v) => text::join2(
                "unsupported protocol version: ",
                text::u64_text(*v).as_str(),
            ),
            ProtocolError::InvalidRequestId(id) => text::join2(
                "request_id is not a uuid v7: ",
                id.as_str(),
            ),
            ProtocolError::InvalidEventId(id) => text::join2(
                "event_id is not a uuid v7: ",
                id.as_str(),
            ),
            ProtocolError::MessageTooLarge => "message exceeds 131072 bytes".to_owned(),
            ProtocolError::UnknownCommand(name) => text::join2(
                "unknown command type: ",
                name.as_str(),
            ),
            ProtocolError::UnknownEvent(name) => text::join2(
                "unknown event type: ",
                name.as_str(),
            ),
        }
    }
}

/// A command to the sidecar.
#[derive(Debug, PartialEq)]
pub struct CommandEnvelope {
    /// The protocol version.
    pub protocol_version: u64,
    /// The identifier of the request, a version 7 UUID.
    pub request_id: String,
    /// The type of the command.
    pub command_type: CommandType,
    /// The data of the command; an empty object when there is none.
    pub payload: Json,
}

/// What a command envelope says.
pub struct CommandView {
    pub protocol_version: u64,
    pub request_id: Seq<char>,
    pub command_type: CommandType,
    pub payload: JsonView,
}

impl View for CommandEnvelope {
    type V = CommandView;

    open spec fn view(&self) -> CommandView {
        CommandView {
            protocol_version: self.protocol_version,
            request_id: self.request_id@,
            command_type: self.command_type,
            payload: self.payload@,
        }
    }
}

/// The JSON object that carries a command.
pub open spec fn command_tree(c: CommandView) -> JsonView {
    JsonView::Object(
        Map::empty().insert(
            "protocol_version"@,
            JsonView::Number(json::NumberView::Integer(c.protocol_version as int)),
        ).insert("request_id"@, JsonView::Text(c.request_id)).insert(
            "type"@,
            JsonView::Text(command_name(c.command_type)),
        ).insert("payload"@, c.payload),
    )
}

/// The payload of a message: an empty object when the field is missing.
pub open spec fn payload_of(v: JsonView) -> JsonView {
    match json::field(v, "payload"@) {
        Some(p) => p,
        None => JsonView::Object(Map::empty()),
    }
}

/// The command that a JSON value carries, or the first thing that is wrong with it.
pub open spec fn command_of(v: JsonView) -> std::result::Result<CommandView, Fault> {
    if !(v is Object) {
        Err(Fault::NotAnObject)
    } else if json::u64_field(v, "protocol_version"@) is None {
        Err(Fault::MissingField("protocol_version"@))
    } else if json::u64_field(v, "protocol_version"@)->0 != PROTOCOL_VERSION {
        Err(Fault::UnsupportedVersion(json::u64_field(v, "protocol_version"@)->0))
    } else if json::text_field(v, "type"@) is None {
        Err(Fault::MissingField("type"@))
    } else if command_named(json::text_field(v, "type"@)->0) is None {
        Err(Fault::UnknownCommand(json::text_field(v, "type"@)->0))
    } else if json::text_field(v, "request_id"@) is None {
        Err(Fault::MissingField("request_id"@))
    } else if !uuid_v7_text(json::text_field(v, "request_id"@)->0) {
        Err(Fault::InvalidRequestId(json::text_field(v, "request_id"@)->0))
    } else {
        Ok(
            CommandView {
                protocol_version: PROTOCOL_VERSION,
                request_id: json::text_field(v, "request_id"@)->0,
                command_type: command_named(json::text_field(v, "type"@)->0)->0,
                payload: payload_of(v),
            },
        )
    }
}

/// The command that a line carries, or the first thing that is wrong with it.
pub open spec fn command_line(line: Seq<char>) -> std::result::Result<CommandView, Fault> {
    if vstd::utf8::encode_utf8(line).len() > MAX_MESSAGE_BYTES {
        Err(Fault::MessageTooLarge)
    } else {
        match json::parsed(line) {
            Ok(v) => command_of(v),
            Err(why) => Err(Fault::InvalidJson(why)),
        }
    }
}

/// An object that carries a supported command with a valid identifier carries that command.
pub proof fn command_tree_carries(c: CommandView)
    requires
        c.protocol_version == PROTOCOL_VERSION,
        uuid_v7_text(c.request_id),
    ensures
        command_of(command_tree(c)) == Ok::<CommandView, Fault>(c),
{
    reveal_strlit("protocol_version");
    reveal_strlit("request_id");
    reveal_strlit("type");
    reveal_strlit("payload");
    assert("protocol_version"@.len() == 16);
    assert("request_id"@.len() == 10);
    assert("type"@.len() == 4);
    assert("payload"@.len() == 7);
    command_name_identifies(c.command_type);
}

impl CommandEnvelope {
    /// A command in the supported protocol version.
    pub fn new(request_id: String, command_type: CommandType, payload: Json) -> (r: Self)
        ensures
            r == (CommandEnvelope {
                protocol_version: PROTOCOL_VERSION,
                request_id,
                command_type,
                payload,
            }),
    {
        CommandEnvelope { protocol_version: PROTOCOL_VERSION, request_id, command_type, payload }
    }

    /// Renders the command as one line, line feed included. A line of a supported version with a
    /// valid identifier and a payload of moderate depth without fractions reads back as the
    /// command, as long as it is within the size limit.
    pub fn to_line(&self) -> (r: std::result::Result<String, String>)
        ensures
            r is Ok,
            r->Ok_0@ == json::rendered(command_tree(self@)).push('\n'),
            !json::rendered(command_tree(self@)).contains('\n'),
            self.protocol_version == PROTOCOL_VERSION && uuid_v7_text(self.request_id@)
                && json::plain(self.payload@, (json::MAX_DEPTH - 1) as nat)
                && vstd::utf8::encode_utf8(r->Ok_0@).len() <= MAX_MESSAGE_BYTES ==> command_line(
                r->Ok_0@,
            ) == Ok::<CommandView, Fault>(self@),
    {
        let mut obj = Json::empty_object();
        obj.insert(
            "protocol_version",
            Json::Number(JsonNumber::Unsigned(self.protocol_version)),
        );
        obj.insert("request_id", Json::Text(self.request_id.clone()));
        obj.insert("type", Json::Text(self.command_type.as_str().to_owned()));
        obj.insert("payload", self.payload.clone());
        assert(obj@ == command_tree(self@));
        let mut line = obj.to_text();
        line.push('\n');
        proof {
            if json::plain(self.payload@, (json::MAX_DEPTH - 1) as nat) {
                reveal_with_fuel(json::plain, 2);
                assert(json::plain(obj@, json::MAX_DEPTH as nat));
            }
            if self.protocol_version == PROTOCOL_VERSION && uuid_v7_text(self.request_id@) {
                command_tree_carries(self@);
            }
        }
        Ok(line)
    }
}

/// An event of the sidecar.
#[derive(Debug, PartialEq)]
pub struct EventEnvelope {
    /// The protocol version.
    pub protocol_version: u64,
    /// The request that the event belongs to; none for events outside a request.
    pub request_id: Option<String>,
    /// The identifier of the event, a version 7 UUID.
    pub event_id: String,
    /// The type of the event.
    pub event_type: EventType,
    /// The logical resource stream of the event.
    pub stream: Option<String>,
    /// The position within request and stream, counted from 1.
    pub sequence: Option<u64>,
    /// An estimate of the visible total.
    pub total_expected: Option<u64>,
    /// When the sidecar produced the event.
    pub occurred_at: String,
    /// The data of the event.
    pub payload: Json,
}

/// What an event envelope says.
pub struct EventView {
    pub protocol_version: u64,
    pub request_id: Option<Seq<char>>,
    pub event_id: Seq<char>,
    pub event_type: EventType,
    pub stream: Option<Seq<char>>,
    pub sequence: Option<u64>,
    pub total_expected: Option<u64>,
    pub occurred_at: Seq<char>,
    pub payload: JsonView,
}

impl View for EventEnvelope {
    type V = EventView;

    open spec fn view(&self) -> EventView {
        EventView {
            protocol_version: self.protocol_version,
            request_id: text::opt_view(self.request_id),
            event_id: self.event_id@,
            event_type: self.event_type,
            stream: text::opt_view(self.stream),
            sequence: self.sequence,
            total_expected: self.total_expected,
            occurred_at: self.occurred_at@,
            payload: self.payload@,
        }
    }
}

/// The event that a JSON value carries, or the first thing that is wrong with it.
pub open spec fn event_of(v: JsonView) -> std::result::Result<EventView, Fault> {
    if !(v is Object) {
        Err(Fault::NotAnObject)
    } else if json::u64_field(v, "protocol_version"@) is None {
        Err(Fault::MissingField("protocol_version"@))
    } else if json::u64_field(v, "protocol_version"@)->0 != PROTOCOL_VERSION {
        Err(Fault::UnsupportedVersion(json::u64_field(v, "protocol_version"@)->0))
    } else if json::text_field(v, "type"@) is None {
        Err(Fault::MissingField("type"@))
    } else if event_named(json::text_field(v, "type"@)->0) is None {
        Err(Fault::UnknownEvent(json::text_field(v, "type"@)->0))
    } else if json::text_field(v, "request_id"@) is Some && !uuid_v7_text(
        json::text_field(v, "request_id"@)->0,
    ) {
        Err(Fault::InvalidRequestId(json::text_field(v, "request_id"@)->0))
    } else if json::text_field(v, "event_id"@) is None {
        Err(Fault::MissingField("event_id"@))
    } else if !uuid_v7_text(json::text_field(v, "event_id"@)->0) {
        Err(Fault::InvalidEventId(json::text_field(v, "event_id"@)->0))
    } else if json::text_field(v, "occurred_at"@) is None {
        Err(Fault::MissingField("occurred_at"@))
    } else {
        Ok(
            EventView {
                protocol_version: PROTOCOL_VERSION,
                request_id: json::text_field(v, "request_id"@),
                event_id: json::text_field(v, "event_id"@)->0,
                event_type: event_named(json::text_field(v, "type"@)->0)->0,
                stream: json::text_field(v, "stream"@),
                sequence: json::u64_field(v, "sequence"@),
                total_expected: json::u64_field(v, "total_expected"@),
                occurred_at: json::text_field(v, "occurred_at"@)->0,
                payload: payload_of(v),
            },
        )
    }
}

/// The event that a line carries, or the first thing that is wrong with it.
pub open spec fn event_line(line: Seq<char>) -> std::result::Result<EventView, Fault> {
    if vstd::utf8::encode_utf8(line).len() > MAX_MESSAGE_BYTES {
        Err(Fault::MessageTooLarge)
    } else {
        match json::parsed(line) {
            Ok(v) => event_of(v),
            Err(why) => Err(Fault::InvalidJson(why)),
        }
    }
}

/// The string under a key.
fn get_str<'a>(obj: &'a Json, key: &str) -> (r: Option<&'a str>)
    ensures
        match r {
            Some(s) => json::text_field(obj@, key@) == Some(s@),
            None => json::text_field(obj@, key@) is None,
        },
{
    obj.str_field(key)
}

/// A copy of the string under a key.
fn get_opt_str(obj: &Json, key: &str) -> (r: Option<String>)
    ensures
        text::opt_view(r) == json::text_field(obj@, key@),
{
    match obj.str_field(key) {
        Some(s) => Some(s.to_owned()),
        None => None,
    }
}

/// The unsigned integer under a key, which is required.
fn get_u64(obj: &Json, key: &str) -> (r: std::result::Result<u64, ProtocolError>)
    ensures
        match r {
            Ok(n) => json::u64_field(obj@, key@) == Some(n),
            Err(e) => json::u64_field(obj@, key@) is None && e@ == Fault::MissingField(key@),
        },
{
    match obj.u64_field(key) {
        Some(n) => Ok(n),
        None => Err(ProtocolError::MissingField(key.to_owned())),
    }
}

/// The unsigned integer under a key.
fn get_opt_u64(obj: &Json, key: &str) -> (r: Option<u64>)
    ensures
        r == json::u64_field(obj@, key@),
{
    obj.u64_field(key)
}

/// The payload of a message.
fn get_payload(obj: &Json) -> (r: Json)
    ensures
        r@ == payload_of(obj@),
{
    match obj.get("payload") {
        Some(p) => p.clone(),
        None => Json::empty_object(),
    }
}

/// Takes an event envelope out of a JSON value.
pub fn event_from_json(value: &Json) -> (r: std::result::Result<EventEnvelope, ProtocolError>)
    ensures
        match r {
            Ok(e) => event_of(value@) == Ok::<EventView, Fault>(e@),
            Err(f) => event_of(value@) == Err::<EventView, Fault>(f@),
        },
{
    if !value.is_object() {
        return Err(ProtocolError::NotAnObject);
    }
    let version: u64 = match get_u64(value, "protocol_version") {
        Ok(version) => version,
        Err(e) => return Err(e),
    };
    if version != PROTOCOL_VERSION {
        return Err(ProtocolError::UnsupportedVersion(version));
    }
    let event_type = match get_str(value, "type") {
        None => return Err(ProtocolError::MissingField("type".to_owned())),
        Some(name) => match EventType::parse(name) {
            None => return Err(ProtocolError::UnknownEvent(name.to_owned())),
            Some(event_type) => event_type,
        },
    };
    if let Some(rid) = get_str(value, "request_id") {
        if !is_uuid_v7(rid) {
            return Err(ProtocolError::InvalidRequestId(rid.to_owned()));
        }
    }
    let event_id = match get_str(value, "event_id") {
        None => return Err(ProtocolError::MissingField("event_id".to_owned())),
        Some(id) => {
            if !is_uuid_v7(id) {
                return Err(ProtocolError::InvalidEventId(id.to_owned()));
            }
            id.to_owned()
        },
    };
    let occurred_at = match get_str(value, "occurred_at") {
        None => return Err(ProtocolError::MissingField("occurred_at".to_owned())),
        Some(at) => at.to_owned(),
    };
    Ok(
        EventEnvelope {
            protocol_version: version,
            request_id: get_opt_str(value, "request_id"),
            event_id,
            event_type,
            stream: get_opt_str(value, "stream"),
            sequence: get_opt_u64(value, "sequence"),
            total_expected: get_opt_u64(value, "total_expected"),
            occurred_at,
            payload: get_payload(value),
        },
    )
}

/// Takes a command envelope out of a JSON value.
pub fn command_from_json(value: &Json) -> (r: std::result::Result<CommandEnvelope, ProtocolError>)
    ensures
        match r {
            Ok(c) => command_of(value@) == Ok::<CommandView, Fault>(c@),
            Err(f) => command_of(value@) == Err::<CommandView, Fault>(f@),
        },
{
    if !value.is_object() {
        return Err(ProtocolError::NotAnObject);
    }
    let version: u64 = match get_u64(value, "protocol_version") {
        Ok(version) => version,
        Err(e) => return Err(e),
    };
    if version != PROTOCOL_VERSION {
        return Err(ProtocolError::UnsupportedVersion(version));
    }
    let command_type = match get_str(value, "type") {
        None => return Err(ProtocolError::MissingField("type".to_owned())),
        Some(name) => match CommandType::parse(name) {
            None => return Err(ProtocolError::UnknownCommand(name.to_owned())),
            Some(command_type) => command_type,
        },
    };
    let request_id = match get_str(value, "request_id") {
        None => return Err(ProtocolError::MissingField("request_id".to_owned())),
        Some(id) => {
            if !is_uuid_v7(id) {
                return Err(ProtocolError::InvalidRequestId(id.to_owned()));
            }
            id.to_owned()
        },
    };
    Ok(
        CommandEnvelope {
            protocol_version: version,
            request_id,
            command_type,
            payload: get_payload(value),
        },
    )
}

/// Reads an event envelope from a line.
pub fn parse_event_line(line: &str) -> (r: std::result::Result<EventEnvelope, ProtocolError>)
    ensures
        match r {
            Ok(e) => event_line(line@) == Ok::<EventView, Fault>(e@),
            Err(f) => event_line(line@) == Err::<EventView, Fault>(f@),
        },
{
    if line.as_bytes().len() > MAX_MESSAGE_BYTES {
        return Err(ProtocolError::MessageTooLarge);
    }
    match Json::parse(line) {
        Ok(value) => event_from_json(&value),
        Err(why) => Err(ProtocolError::InvalidJson(why)),
    }
}

/// Reads a command envelope from a line.
pub fn parse_command_line(line: &str) -> (r: std::result::Result<CommandEnvelope, ProtocolError>)
    ensures
        match r {
            Ok(c) => command_line(line@) == Ok::<CommandView, Fault>(c@),
            Err(f) => command_line(line@) == Err::<CommandView, Fault>(f@),
        },
{
    if line.as_bytes().len() > MAX_MESSAGE_BYTES {
        return Err(ProtocolError::MessageTooLarge);
    }
    match Json::parse(line) {
        Ok(value) => command_from_json(&value),
        Err(why) => Err(ProtocolError::InvalidJson(why)),
    }
}

} // verus!
