//! Supervision of the sidecar process: how it is started, how its output lines are sorted, how the
//! handshake proceeds and when a shutdown turns into a kill.
use vstd::prelude::*;

use crate::json;
use crate::json::{Json, JsonNumber, JsonView};
use crate::sidecar::protocol;
use crate::sidecar::protocol::{
    CommandEnvelope, CommandType, EventEnvelope, EventType, ProtocolError, MAX_MESSAGE_BYTES,
};
use crate::text;

verus! {

/// How long a handshake may take, in milliseconds.
pub const DEFAULT_HANDSHAKE_TIMEOUT_MS: u64 = 10_000;

/// How long beyond its grace period a sidecar may take to exit, in milliseconds.
pub const EXIT_MARGIN_MS: u64 = 2_000;

/// How often a sidecar that should exit is looked at, in milliseconds.
pub const EXIT_POLL_MS: u64 = 50;

/// How to start the sidecar.
#[derive(Debug, PartialEq, Eq)]
pub struct SpawnOptions {
    /// The path of the executable.
    pub program: String,
    /// Additional command line arguments.
    pub args: Vec<String>,
    /// Additional environment variables.
    pub env: Vec<(String, String)>,
    /// The working directory.
    pub cwd: Option<String>,
    /// How long the handshake may take, in milliseconds.
    pub handshake_timeout_ms: u64,
}

impl Default for SpawnOptions {
    fn default() -> (r: Self)
        ensures
            r.program@ == ""@,
            r.args@.len() == 0,
            r.env@.len() == 0,
            r.cwd is None,
            r.handshake_timeout_ms == DEFAULT_HANDSHAKE_TIMEOUT_MS,
    {
        proof {
            reveal_strlit("");
            assert(""@ == Seq::<char>::empty());
        }
        SpawnOptions {
            program: String::new(),
            args: Vec::new(),
            env: Vec::new(),
            cwd: None,
            handshake_timeout_ms: DEFAULT_HANDSHAKE_TIMEOUT_MS,
        }
    }
}

/// What can go wrong with the sidecar.
#[derive(Debug)]
pub enum SidecarError {
    /// Starting the process or using its pipes failed.
    Io(String),
    /// The executable was not found.
    SidecarNotFound,
    /// A message breaks the protocol.
    Protocol(ProtocolError),
    /// The handshake took longer than the given milliseconds.
    HandshakeTimeout(u64),
    /// The handshake was cancelled.
    HandshakeCancelled,
    /// The process exited.
    Exited { code: Option<i32>, detail: String },
    /// The handshake failed.
    HandshakeFailed(String),
    /// No event arrived within the given milliseconds.
    RecvTimeout(u64),
    /// The output pipe is closed.
    StdoutClosed,
    /// A command exceeds the size limit.
    CommandTooLarge,
}

/// The digits of the thousandths of a second, without zeros at the end.
pub open spec fn fraction_digits(thousandths: nat) -> Seq<char> {
    if thousandths % 100 == 0 {
        text::decimal(thousandths / 100)
    } else if thousandths % 10 == 0 {
        text::decimal(thousandths / 100) + text::decimal(thousandths / 10 % 10)
    } else {
        text::decimal(thousandths / 100) + text::decimal(thousandths / 10 % 10) + text::decimal(
            thousandths % 10,
        )
    }
}

/// How a duration of milliseconds reads: in seconds from one second on, with the fraction as short as
/// it can be, in milliseconds below that, and as no nanoseconds where it is nothing.
pub open spec fn duration_text_of(ms: u64) -> Seq<char> {
    if ms == 0 {
        "0ns"@
    } else if ms < 1000 {
        text::decimal(ms as nat) + "ms"@
    } else if ms % 1000 == 0 {
        text::decimal((ms / 1000) as nat) + "s"@
    } else {
        text::decimal((ms / 1000) as nat) + "."@ + fraction_digits((ms % 1000) as nat) + "s"@
    }
}

/// Renders a duration of milliseconds.
pub fn duration_text(ms: u64) -> (r: String)
    ensures
        r@ == duration_text_of(ms),
{
    if ms == 0 {
        return "0ns".to_owned();
    }
    if ms < 1000 {
        return text::join2(text::u64_text(ms).as_str(), "ms");
    }
    let mut r = text::u64_text(ms / 1000);
    let thousandths: u64 = ms % 1000;
    if thousandths > 0 {
        r.append(".");
        r.append(text::u64_text(thousandths / 100).as_str());
        if thousandths % 100 > 0 {
            r.append(text::u64_text(thousandths / 10 % 10).as_str());
            if thousandths % 10 > 0 {
                r.append(text::u64_text(thousandths % 10).as_str());
            }
        }
    }
    r.append("s");
    assert(r@ =~= duration_text_of(ms));
    r
}

/// How an exit code reads.
pub open spec fn exit_code_text_of(code: Option<i32>) -> Seq<char> {
    match code {
        Some(c) => "Some("@ + text::signed_decimal(c as int) + ")"@,
        None => "None"@,
    }
}

/// Renders an exit code.
pub fn exit_code_text(code: Option<i32>) -> (r: String)
    ensures
        r@ == exit_code_text_of(code),
{
    match code {
        Some(c) => text::join3("Some(", text::i64_text(c as i64).as_str(), ")"),
        None => "None".to_owned(),
    }
}

/// How a sidecar error reads.
pub open spec fn sidecar_message(e: SidecarError) -> Seq<char> {
    match e {
        SidecarError::Io(why) => "io error: "@ + why@,
        SidecarError::SidecarNotFound => "sidecar executable not found"@,
        SidecarError::Protocol(p) => "protocol error: "@ + protocol::fault_message(p@),
        SidecarError::HandshakeTimeout(ms) => "sidecar handshake timed out after "@
            + duration_text_of(ms),
        SidecarError::HandshakeCancelled => "sidecar handshake cancelled"@,
        SidecarError::Exited { code, detail } => "sidecar exited with code "@ + exit_code_text_of(
            code,
        ) + ": "@ + detail@,
        SidecarError::HandshakeFailed(why) => "sidecar handshake failed: "@ + why@,
        SidecarError::RecvTimeout(ms) => "sidecar event receive timed out after "@
            + duration_text_of(ms),
        SidecarError::StdoutClosed => "sidecar stdout closed"@,
        SidecarError::CommandTooLarge => "command line exceeds 131072 bytes"@,
    }
}

impl SidecarError {
    /// The error as a message for people.
    pub fn message(&self) -> (r: String)
        ensures
            r@ == sidecar_message(*self),
    {
        match self {
            SidecarError::Io(why) => text::join2("io error: ", why.as_str()),
            SidecarError::SidecarNotFound => "sidecar executable not found".to_owned(),
            SidecarError::Protocol(p) => text::join2("protocol error: ", p.message().as_str()),
            SidecarError::HandshakeTimeout(ms) => text::join2(
                "sidecar handshake timed out after ",
                duration_text(*ms).as_str(),
            ),
            SidecarError::HandshakeCancelled => "sidecar handshake cancelled".to_owned(),
            SidecarError::Exited { code, detail } => {
                let mut r = text::join3(
                    "sidecar exited with code ",
                    exit_code_text(*code).as_str(),
                    ": ",
                );
                r.append(detail.as_str());
                r
            },
            SidecarError::HandshakeFailed(why) => text::join2(
                "sidecar handshake failed: ",
                why.as_str(),
            ),
            SidecarError::RecvTimeout(ms) => text::join2(
                "sidecar event receive timed out after ",
                duration_text(*ms).as_str(),
            ),
            SidecarError::StdoutClosed => "sidecar stdout closed".to_owned(),
            SidecarError::CommandTooLarge => "command line exceeds 131072 bytes".to_owned(),
        }
    }
}

/// The name of the executable that is delivered with the application.
pub open spec fn bundled_name(windows: bool) -> Seq<char> {
    if windows {
        "weiback-collector.exe"@
    } else {
        "weiback-collector"@
    }
}

/// The executable that is delivered with the application, in the application's directory.
pub fn bundled_sidecar_name(windows: bool) -> (r: String)
    ensures
        r@ == bundled_name(windows),
{
    if windows {
        "weiback-collector.exe".to_owned()
    } else {
        "weiback-collector".to_owned()
    }
}

/// Picks the sidecar executable: the configured path where it is a file, or else the delivered
/// executable where that is a file.
pub fn resolve_sidecar_command(
    configured: Option<String>,
    configured_is_file: bool,
    bundled: Option<String>,
    bundled_is_file: bool,
) -> (r: Option<String>)
    ensures
        r == if configured is Some && configured_is_file {
            configured
        } else if bundled_is_file {
            bundled
        } else {
            None
        },
{
    match configured {
        Some(path) => if configured_is_file {
            Some(path)
        } else if bundled_is_file {
            bundled
        } else {
            None
        },
        None => if bundled_is_file {
            bundled
        } else {
            None
        },
    }
}

/// The options for collecting with the session of an account. The session path goes to the process
/// by environment variable only, so that neither its command line nor a log holds it.
pub fn collection_spawn_options(
    program: Option<String>,
    configured_args: Option<&str>,
    session_path: &str,
) -> (r: std::result::Result<SpawnOptions, SidecarError>)
    ensures
        match r {
            Ok(o) => {
                &&& program == Some(o.program)
                &&& text::list_view(o.args@) == match configured_args {
                    Some(args) => text::words_of(args@),
                    None => Seq::empty(),
                }
                &&& o.env@.len() == 2
                &&& o.env@[0].0@ == "PYTHONUTF8"@
                &&& o.env@[0].1@ == "1"@
                &&& o.env@[1].0@ == "WEIBACK_COLLECTOR_SESSION_PATH"@
                &&& o.env@[1].1@ == session_path@
                &&& o.cwd is None
                &&& o.handshake_timeout_ms == DEFAULT_HANDSHAKE_TIMEOUT_MS
            },
            Err(e) => program is None && e is SidecarNotFound,
        },
{
    let program = match program {
        Some(program) => program,
        None => return Err(SidecarError::SidecarNotFound),
    };
    let args: Vec<String> = match configured_args {
        Some(args) => text::split_words(args),
        None => Vec::new(),
    };
    assert(configured_args is None ==> text::list_view(args@) == Seq::<Seq<char>>::empty());
    let mut env: Vec<(String, String)> = Vec::new();
    env.push(("PYTHONUTF8".to_owned(), "1".to_owned()));
    env.push(("WEIBACK_COLLECTOR_SESSION_PATH".to_owned(), session_path.to_owned()));
    Ok(
        SpawnOptions {
            program,
            args,
            env,
            cwd: None,
            handshake_timeout_ms: DEFAULT_HANDSHAKE_TIMEOUT_MS,
        },
    )
}

/// What a line of output amounts to.
pub enum LineOutcome {
    /// The line is blank or no JSON object; it is passed over.
    Discarded,
    /// The line carries an event.
    Event(EventEnvelope),
    /// The line breaks the protocol.
    Broken(SidecarError),
}

/// Sorts a line of output: blank lines and lines that are no JSON object are passed over, other
/// violations of the protocol are errors.
pub fn sort_line(line: &str) -> (r: LineOutcome)
    ensures
        match r {
            LineOutcome::Discarded => text::blank(line@) || (protocol::event_line(
                line@,
            ) matches Err(f) && (f is InvalidJson || f is NotAnObject)),
            LineOutcome::Event(e) => !text::blank(line@) && protocol::event_line(line@) == Ok::<
                protocol::EventView,
                protocol::Fault,
            >(e@),
            LineOutcome::Broken(e) => !text::blank(line@) && (e matches SidecarError::Protocol(p)
                && !(p@ is InvalidJson) && !(p@ is NotAnObject) && protocol::event_line(line@)
                == Err::<protocol::EventView, protocol::Fault>(p@)),
        },
{
    if text::is_blank(line) {
        return LineOutcome::Discarded;
    }
    match protocol::parse_event_line(line) {
        Ok(event) => LineOutcome::Event(event),
        Err(e) => match e {
            ProtocolError::InvalidJson(_) => LineOutcome::Discarded,
            ProtocolError::NotAnObject => LineOutcome::Discarded,
            other => LineOutcome::Broken(SidecarError::Protocol(other)),
        },
    }
}

/// The line that sends a command, unless it exceeds the size limit.
pub fn command_line_for(command: &CommandEnvelope) -> (r: std::result::Result<String, SidecarError>)
    ensures
        match r {
            Ok(line) => line@ == json::rendered(protocol::command_tree(command@)).push('\n')
                && vstd::utf8::encode_utf8(line@).len() <= MAX_MESSAGE_BYTES,
            Err(e) => e is CommandTooLarge && vstd::utf8::encode_utf8(
                json::rendered(protocol::command_tree(command@)).push('\n'),
            ).len() > MAX_MESSAGE_BYTES,
        },
{
    match command.to_line() {
        Ok(line) => if line.as_str().as_bytes().len() > MAX_MESSAGE_BYTES {
            Err(SidecarError::CommandTooLarge)
        } else {
            Ok(line)
        },
        Err(why) => Err(SidecarError::Protocol(ProtocolError::InvalidJson(why))),
    }
}

/// The command that opens the handshake.
pub fn hello_command(request_id: String) -> (r: CommandEnvelope)
    ensures
        r.protocol_version == protocol::PROTOCOL_VERSION,
        r.request_id == request_id,
        r.command_type == CommandType::Hello,
        r.payload@ == JsonView::Object(
            Map::empty().insert("client_name"@, JsonView::Text("weiback-next"@)),
        ),
{
    let mut payload = Json::empty_object();
    payload.insert("client_name", Json::Text("weiback-next".to_owned()));
    CommandEnvelope::new(request_id, CommandType::Hello, payload)
}

/// The command that asks the sidecar to exit within a grace period.
pub fn shutdown_command(request_id: String, grace_ms: u64) -> (r: CommandEnvelope)
    ensures
        r.protocol_version == protocol::PROTOCOL_VERSION,
        r.request_id == request_id,
        r.command_type == CommandType::Shutdown,
        r.payload@ == JsonView::Object(
            Map::empty().insert(
                "grace_ms"@,
                JsonView::Number(json::NumberView::Integer(grace_ms as int)),
            ),
        ),
{
    let mut payload = Json::empty_object();
    payload.insert("grace_ms", Json::Number(JsonNumber::Unsigned(grace_ms)));
    CommandEnvelope::new(request_id, CommandType::Shutdown, payload)
}

/// What to do while a sidecar should exit.
#[derive(Debug, Clone, Copy, PartialEq, Eq, Structural)]
pub enum ExitStep {
    /// It has exited.
    Exited,
    /// It has had its time: kill it and wait for it.
    Kill,
    /// Look again after the given milliseconds.
    Wait(u64),
}

/// Decides what to do while a sidecar should exit: `elapsed_ms` after it was asked to exit within
/// `grace_ms`, it is killed once the grace period and a margin have passed.
pub fn exit_step(exited: bool, elapsed_ms: u64, grace_ms: u64) -> (r: ExitStep)
    ensures
        r == if exited {
            ExitStep::Exited
        } else if elapsed_ms >= grace_ms + EXIT_MARGIN_MS {
            ExitStep::Kill
        } else {
            ExitStep::Wait(EXIT_POLL_MS)
        },
{
    if exited {
        ExitStep::Exited
    } else if elapsed_ms >= EXIT_MARGIN_MS && elapsed_ms - EXIT_MARGIN_MS >= grace_ms {
        ExitStep::Kill
    } else {
        ExitStep::Wait(EXIT_POLL_MS)
    }
}

/// A handshake in progress: the payloads of `ready` and `capabilities`, as far as they have come.
pub struct Handshake {
    pub timeout_ms: u64,
    pub ready: Option<Json>,
    pub capabilities: Option<Json>,
}

/// What to do in a handshake.
pub enum HandshakeStep {
    /// Wait for an event for at most the given milliseconds.
    Wait(u64),
    /// The handshake is complete with the payloads of `ready` and `capabilities`.
    Complete(Json, Json),
    /// The handshake failed; kill the sidecar where `kill` says so.
    Fail { error: SidecarError, kill: bool },
}

/// How a handshake failed.
#[derive(Debug)]
pub struct HandshakeFailure {
    pub error: SidecarError,
    /// Whether the sidecar is to be killed.
    pub kill: bool,
}

impl Handshake {
    /// Starts a handshake.
    pub fn start(timeout_ms: u64) -> (r: Handshake)
        ensures
            r == (Handshake { timeout_ms, ready: None, capabilities: None }),
    {
        Handshake { timeout_ms, ready: None, capabilities: None }
    }

    /// Decides how to go on, `elapsed_ms` after the start.
    pub fn next(self, elapsed_ms: u64) -> (r: (Handshake, HandshakeStep))
        ensures
            match r.1 {
                HandshakeStep::Complete(ready, capabilities) => self.ready == Some(ready)
                    && self.capabilities == Some(capabilities),
                HandshakeStep::Fail { error, kill } => (self.ready is None || self.capabilities
                    is None) && elapsed_ms >= self.timeout_ms && error
                    == SidecarError::HandshakeTimeout(self.timeout_ms) && kill,
                HandshakeStep::Wait(ms) => (self.ready is None || self.capabilities is None)
                    && elapsed_ms < self.timeout_ms && ms == self.timeout_ms - elapsed_ms && r.0
                    == self,
            },
    {
        let timeout_ms: u64 = self.timeout_ms;
        match (self.ready, self.capabilities) {
            (Some(ready), Some(capabilities)) => (
                Handshake::start(timeout_ms),
                HandshakeStep::Complete(ready, capabilities),
            ),
            (ready, capabilities) => {
                let back = Handshake { timeout_ms, ready, capabilities };
                if elapsed_ms >= timeout_ms {
                    return (
                        back,
                        HandshakeStep::Fail {
                            error: SidecarError::HandshakeTimeout(timeout_ms),
                            kill: true,
                        },
                    );
                }
                (back, HandshakeStep::Wait(timeout_ms - elapsed_ms))
            },
        }
    }

    /// Takes an event. An error event ends the handshake, and the sidecar is killed; other events than
    /// `ready` and `capabilities` are ignored.
    pub fn receive(&mut self, event: EventEnvelope) -> (r: Option<HandshakeFailure>)
        ensures
            final(self).timeout_ms == old(self).timeout_ms,
            final(self).ready == if event.event_type == EventType::Ready {
                Some(event.payload)
            } else {
                old(self).ready
            },
            final(self).capabilities == if event.event_type == EventType::Capabilities {
                Some(event.payload)
            } else {
                old(self).capabilities
            },
            match r {
                Some(failure) => event.event_type == EventType::Error && failure.kill && (
                failure.error matches SidecarError::HandshakeFailed(why) && why@
                    == "sidecar reported error: "@ + json::rendered(event.payload@)),
                None => event.event_type != EventType::Error,
            },
    {
        if event.event_type == EventType::Ready {
            self.ready = Some(event.payload);
            None
        } else if event.event_type == EventType::Capabilities {
            self.capabilities = Some(event.payload);
            None
        } else if event.event_type == EventType::Error {
            let why = text::join2("sidecar reported error: ", event.payload.to_text().as_str());
            Some(HandshakeFailure { error: SidecarError::HandshakeFailed(why), kill: true })
        } else {
            None
        }
    }
}

/// How a handshake ends when no event can be received: a timeout of the reception is a timeout of
/// the handshake and calls for a kill, another error is passed on.
pub fn handshake_receive_error(error: SidecarError, timeout_ms: u64) -> (r: HandshakeFailure)
    ensures
        r == if error is RecvTimeout {
            HandshakeFailure { error: SidecarError::HandshakeTimeout(timeout_ms), kill: true }
        } else {
            HandshakeFailure { error, kill: false }
        },
{
    match error {
        SidecarError::RecvTimeout(_) => HandshakeFailure {
            error: SidecarError::HandshakeTimeout(timeout_ms),
            kill: true,
        },
        other => HandshakeFailure { error: other, kill: false },
    }
}

} // verus!
