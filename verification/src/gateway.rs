//! The session on the gateway: handshake, heartbeats, dispatch and the
//! reconnection after a fault.
//!
//! The session is a state machine. Whoever owns the connection reports what
//! happened on it, one event at a time, and is told what to do next. The
//! session never touches the connection itself.

use crate::antinuke::EventKind;
use crate::json::{
    as_text, as_unsigned, duplicate, is_null, member, parse, parsed, tree, unsigned_field, Json,
};
use crate::models::op;
use crate::models::GatewayPayload;
use crate::text::{ends_with, has_suffix, str_eq};
use vstd::prelude::*;
use vstd::string::StringExecFns;

verus! {

/// How long the supervisor waits after a session has closed before it starts
/// the next one, in milliseconds.
pub const RECONNECT_DELAY_MS: u64 = 5000;

/// The capabilities that the session asks for when it identifies itself.
pub const IDENTIFY_INTENTS: u32 = 37391;

/// The operating system that the session gives as its client's.
pub const CLIENT_OS: &'static str = "windows";

/// The browser and the device that the session gives as its client's.
pub const CLIENT_NAME: &'static str = "rimuru-bot";

/// What is appended to the gateway's address: the protocol's version and the
/// encoding of its frames.
pub const GATEWAY_QUERY: &'static str = "?v=10&encoding=json";

/// The intents are the four capabilities of messaging and three more bits.
pub proof fn lemma_identify_intents()
    ensures
        IDENTIFY_INTENTS == 37377u32 | 4u32 | 32768u32 | 2u32 | 8u32,
        37377u32 == crate::models::intent::GUILDS | crate::models::intent::GUILD_MESSAGES
            | crate::models::intent::DIRECT_MESSAGES | crate::models::intent::MESSAGE_CONTENT,
{
    assert(37391u32 == 37377u32 | 4u32 | 32768u32 | 2u32 | 8u32) by (bit_vector);
    assert(37377u32 == 0x0001u32 | 0x0200u32 | 0x1000u32 | 0x8000u32) by (bit_vector);
}

/// The address to connect to, made from the address that the platform gave:
/// a `/` is added where it does not end in one, and the query after it.
pub open spec fn connect_address(base: Seq<char>) -> Seq<char> {
    if has_suffix(base, "/"@) {
        base + GATEWAY_QUERY@
    } else {
        base + "/"@ + GATEWAY_QUERY@
    }
}

/// The address to connect to, made from the address that the platform gave.
pub fn gateway_url(base: &str) -> (url: String)
    ensures
        url@ == connect_address(base@),
{
    let mut url = String::from_str(base);
    if !ends_with(base, "/") {
        url.append("/");
    }
    url.append(GATEWAY_QUERY);
    url
}

/// Where a session stands.
#[derive(Clone, Copy, PartialEq, Eq, Structural, Debug)]
pub enum SessionState {
    /// The connection is being made.
    Connecting,
    /// The connection stands; the server's hello is awaited.
    AwaitingHello,
    /// The session has identified itself and sends heartbeats.
    Identified,
    /// The server has declared the session ready.
    Ready,
    /// The session is over.
    Closed,
}

/// One connection attempt.
#[derive(Clone, Copy, PartialEq, Eq, Debug)]
pub struct Session {
    pub state: SessionState,
    /// The time between two heartbeats that the server asked for; 0 until it
    /// has.
    pub heartbeat_interval_ms: u64,
    /// Whether the server has acknowledged the last heartbeat.
    pub last_ack_received: bool,
    /// The sequence number of the last dispatch seen.
    pub sequence_number: Option<u64>,
}

/// What went wrong on the connection.
#[derive(Clone, Copy, PartialEq, Eq, Structural, Debug)]
pub enum Fault {
    /// The connection could not be read.
    Read,
    /// A frame could not be decoded.
    Decode,
    /// The connection was closed.
    Closed,
}

/// What a frame means to the session.
#[derive(Clone, Copy, PartialEq, Eq, Debug)]
pub enum Frame {
    /// The server's hello, with the heartbeat interval where it carries one.
    Hello { heartbeat_interval: Option<u64> },
    /// An event, with its sequence number; `ready` where the event declares
    /// the session ready.
    Dispatch { sequence: Option<u64>, ready: bool },
    /// The server acknowledges a heartbeat.
    HeartbeatAck,
    /// A control code that the session does not act on.
    Other,
}

/// What the owner of the connection reports to the session.
#[derive(Clone, Copy, PartialEq, Eq, Debug)]
pub enum SessionEvent {
    /// The connection stands.
    Opened,
    /// A frame came in.
    Received(Frame),
    /// The heartbeat ticker fired.
    Tick,
    /// The connection failed.
    Failed(Fault),
}

/// What the owner of the connection is to do next.
#[derive(Clone, Copy, PartialEq, Eq, Debug)]
pub enum SessionAction {
    /// Nothing.
    Idle,
    /// Start the heartbeat ticker at this interval and send the identify
    /// frame.
    Identify { heartbeat_interval_ms: u64 },
    /// Send a heartbeat frame that carries this sequence number.
    Heartbeat { sequence: Option<u64> },
    /// Hand the event of the frame to the router.
    Route,
    /// Close the connection and tell the supervisor.
    Close,
}

/// What the supervisor does about a session.
#[derive(Clone, Copy, PartialEq, Eq, Debug)]
pub enum Supervision {
    /// The session is alive: leave it alone.
    Continue,
    /// The session is over: wait this long, then connect again.
    Restart { backoff_ms: u64 },
}

impl Session {
    /// A session that has not connected yet.
    pub open spec fn fresh() -> Session {
        Session {
            state: SessionState::Connecting,
            heartbeat_interval_ms: 0,
            last_ack_received: true,
            sequence_number: None,
        }
    }

    /// A session that sends heartbeats knows an interval to send them at.
    pub open spec fn wf(self) -> bool {
        (self.state == SessionState::Identified || self.state == SessionState::Ready)
            ==> self.heartbeat_interval_ms > 0
    }

    /// The session has identified itself and is not over.
    pub open spec fn live(self) -> bool {
        self.state == SessionState::Identified || self.state == SessionState::Ready
    }

    /// The session and the action that follow from a frame.
    pub open spec fn after_frame(self, frame: Frame) -> (Session, SessionAction) {
        match self.state {
            SessionState::AwaitingHello => match frame {
                Frame::Hello { heartbeat_interval: Some(ms) } => if ms > 0 {
                    (
                        Session {
                            state: SessionState::Identified,
                            heartbeat_interval_ms: ms,
                            ..self
                        },
                        SessionAction::Identify { heartbeat_interval_ms: ms },
                    )
                } else {
                    (Session { state: SessionState::Closed, ..self }, SessionAction::Close)
                },
                _ => (Session { state: SessionState::Closed, ..self }, SessionAction::Close),
            },
            SessionState::Identified | SessionState::Ready => match frame {
                Frame::Dispatch { sequence, ready } => (
                    Session {
                        state: if ready {
                            SessionState::Ready
                        } else {
                            self.state
                        },
                        sequence_number: if sequence is Some {
                            sequence
                        } else {
                            self.sequence_number
                        },
                        ..self
                    },
                    SessionAction::Route,
                ),
                Frame::HeartbeatAck => (
                    Session { last_ack_received: true, ..self },
                    SessionAction::Idle,
                ),
                _ => (self, SessionAction::Idle),
            },
            _ => (self, SessionAction::Idle),
        }
    }

    /// The session and the action that follow from an event.
    ///
    /// A closed session stays closed and asks for nothing. Any fault closes
    /// a session. The first frame of a connection must be a hello with a
    /// heartbeat interval, or the session closes. From then on every tick
    /// sends a heartbeat and every dispatch is routed; the dispatch that
    /// declares the session ready makes it so.
    pub open spec fn step(self, event: SessionEvent) -> (Session, SessionAction) {
        if self.state == SessionState::Closed {
            (self, SessionAction::Idle)
        } else {
            match event {
                SessionEvent::Failed(_) => (
                    Session { state: SessionState::Closed, ..self },
                    SessionAction::Close,
                ),
                SessionEvent::Opened => if self.state == SessionState::Connecting {
                    (Session { state: SessionState::AwaitingHello, ..self }, SessionAction::Idle)
                } else {
                    (self, SessionAction::Idle)
                },
                SessionEvent::Tick => if self.live() {
                    (
                        Session { last_ack_received: false, ..self },
                        SessionAction::Heartbeat { sequence: self.sequence_number },
                    )
                } else {
                    (self, SessionAction::Idle)
                },
                SessionEvent::Received(frame) => self.after_frame(frame),
            }
        }
    }

    /// A session that has not connected yet.
    pub fn new() -> (s: Session)
        ensures
            s == Session::fresh(),
            s.wf(),
    {
        Session {
            state: SessionState::Connecting,
            heartbeat_interval_ms: 0,
            last_ack_received: true,
            sequence_number: None,
        }
    }

    /// Whether the session is over.
    pub fn is_closed(&self) -> (closed: bool)
        ensures
            closed == (self.state == SessionState::Closed),
    {
        match self.state {
            SessionState::Closed => true,
            _ => false,
        }
    }

    /// Takes the session one step further on an event and says what to do
    /// next.
    pub fn handle(&mut self, event: SessionEvent) -> (action: SessionAction)
        ensures
            (*final(self), action) == old(self).step(event),
            old(self).wf() ==> final(self).wf(),
    {
        if self.is_closed() {
            return SessionAction::Idle;
        }
        match event {
            SessionEvent::Failed(_) => {
                self.state = SessionState::Closed;
                SessionAction::Close
            },
            SessionEvent::Opened => {
                if let SessionState::Connecting = self.state {
                    self.state = SessionState::AwaitingHello;
                }
                SessionAction::Idle
            },
            SessionEvent::Tick => match self.state {
                SessionState::Identified | SessionState::Ready => {
                    self.last_ack_received = false;
                    SessionAction::Heartbeat { sequence: self.sequence_number }
                },
                _ => SessionAction::Idle,
            },
            SessionEvent::Received(frame) => match self.state {
                SessionState::AwaitingHello => match frame {
                    Frame::Hello { heartbeat_interval: Some(ms) } => {
                        if ms > 0 {
                            self.state = SessionState::Identified;
                            self.heartbeat_interval_ms = ms;
                            SessionAction::Identify { heartbeat_interval_ms: ms }
                        } else {
                            self.state = SessionState::Closed;
                            SessionAction::Close
                        }
                    },
                    _ => {
                        self.state = SessionState::Closed;
                        SessionAction::Close
                    },
                },
                SessionState::Identified | SessionState::Ready => match frame {
                    Frame::Dispatch { sequence, ready } => {
                        if ready {
                            self.state = SessionState::Ready;
                        }
                        if sequence.is_some() {
                            self.sequence_number = sequence;
                        }
                        SessionAction::Route
                    },
                    Frame::HeartbeatAck => {
                        self.last_ack_received = true;
                        SessionAction::Idle
                    },
                    _ => SessionAction::Idle,
                },
                _ => SessionAction::Idle,
            },
        }
    }
}

/// A closed session takes no event: nothing that still arrives on an old
/// connection is routed, and nothing is sent on it.
pub proof fn lemma_closed_is_final(s: Session, event: SessionEvent)
    requires
        s.state == SessionState::Closed,
    ensures
        s.step(event) == (s, SessionAction::Idle),
{
}

/// Any fault closes a session that is not over, whatever it was doing.
pub proof fn lemma_fault_closes(s: Session, fault: Fault)
    requires
        s.state != SessionState::Closed,
    ensures
        s.step(SessionEvent::Failed(fault)).0.state == SessionState::Closed,
        s.step(SessionEvent::Failed(fault)).1 == SessionAction::Close,
{
}

/// Events are routed and heartbeats sent only by a session that has
/// identified itself, and a session gets there only by a hello that carries
/// a heartbeat interval.
pub proof fn lemma_traffic_needs_handshake(s: Session, event: SessionEvent)
    ensures
        s.step(event).1 == SessionAction::Route ==> s.live(),
        s.step(event).1 is Heartbeat ==> s.live(),
        s.step(event).0.live() && !s.live() ==> {
            &&& s.state == SessionState::AwaitingHello
            &&& event matches SessionEvent::Received(
                Frame::Hello { heartbeat_interval: Some(ms) },
            )
            &&& ms > 0
            &&& s.step(event).1 == SessionAction::Identify { heartbeat_interval_ms: ms }
        },
        s.step(event).0.state == SessionState::Ready && s.state != SessionState::Ready ==> {
            &&& s.state == SessionState::Identified
            &&& event matches SessionEvent::Received(Frame::Dispatch { ready: true, .. })
        },
{
}

/// The supervisor's part: a session that is over is replaced by a fresh one
/// after the reconnect delay; nothing of the old session is kept. A session
/// that is not over is left alone.
pub fn run(session: &mut Session) -> (s: Supervision)
    ensures
        old(session).state == SessionState::Closed ==> {
            &&& s == Supervision::Restart { backoff_ms: RECONNECT_DELAY_MS }
            &&& *final(session) == Session::fresh()
        },
        old(session).state != SessionState::Closed ==> {
            &&& s == Supervision::Continue
            &&& *final(session) == *old(session)
        },
{
    if session.is_closed() {
        *session = Session::new();
        Supervision::Restart { backoff_ms: RECONNECT_DELAY_MS }
    } else {
        Supervision::Continue
    }
}

/// The member `key` of a frame as a number: `Some(None)` where the frame has
/// no such member or holds null there, `Some(Some(n))` where it holds the
/// number `n`, `None` where it holds anything else.
pub open spec fn optional_number(j: Json, key: Seq<char>) -> Option<Option<u64>> {
    match j.field(key) {
        None => Some(None),
        Some(Json::Null) => Some(None),
        Some(Json::Unsigned(n)) => Some(Some(n)),
        Some(_) => None,
    }
}

/// The member `key` of a frame as a string, in the same way.
pub open spec fn optional_text(j: Json, key: Seq<char>) -> Option<Option<Seq<char>>> {
    match j.field(key) {
        None => Some(None),
        Some(Json::Null) => Some(None),
        Some(Json::Text(s)) => Some(Some(s)),
        Some(_) => None,
    }
}

/// The payload of a frame: its member `d`, unless that is missing or null.
pub open spec fn payload_in(j: Json) -> Option<Json> {
    match j.field("d"@) {
        None => None,
        Some(Json::Null) => None,
        Some(d) => Some(d),
    }
}

/// The JSON value `j` is a frame: it has a control code that fits into 8
/// bits, and its sequence number and event name, where it has them, are a
/// number and a string.
pub open spec fn is_frame(j: Json) -> bool {
    &&& j.unsigned_field("op"@) matches Some(code) && code <= u8::MAX
    &&& optional_number(j, "s"@) is Some
    &&& optional_text(j, "t"@) is Some
}

impl GatewayPayload {
    /// What `self` holds is what the frame `j` says.
    pub open spec fn reads(&self, j: Json) -> bool {
        &&& j.unsigned_field("op"@) == Some(self.op as u64)
        &&& optional_number(j, "s"@) == Some(self.s)
        &&& optional_text(j, "t"@) == Some(event_name(self.t))
        &&& match self.d {
            Some(v) => payload_in(j) == Some(tree(v)),
            None => payload_in(j) is None,
        }
    }
}

/// Reads a frame out of a JSON value; nothing where the value is no frame.
pub fn frame_from_value(value: &serde_json::Value) -> (r: Option<GatewayPayload>)
    ensures
        match r {
            Some(payload) => is_frame(tree(*value)) && payload.reads(tree(*value)),
            None => !is_frame(tree(*value)),
        },
{
    let code = match unsigned_field(value, "op") {
        Some(code) => code,
        None => {
            return None;
        },
    };
    if code > u8::MAX as u64 {
        return None;
    }
    let s = match member(value, "s") {
        Some(x) => {
            if is_null(x) {
                None
            } else {
                match as_unsigned(x) {
                    Some(n) => Some(n),
                    None => {
                        return None;
                    },
                }
            }
        },
        None => None,
    };
    let t = match member(value, "t") {
        Some(x) => {
            if is_null(x) {
                None
            } else {
                match as_text(x) {
                    Some(name) => Some(name.to_owned()),
                    None => {
                        return None;
                    },
                }
            }
        },
        None => None,
    };
    let d = match member(value, "d") {
        Some(x) => {
            if is_null(x) {
                None
            } else {
                Some(duplicate(x))
            }
        },
        None => None,
    };
    Some(GatewayPayload { op: code as u8, d, s, t })
}

/// Decodes a frame from its text. A text that is no JSON, or whose JSON is
/// no frame, gives nothing: the session treats that as a fault.
pub fn decode_frame(text: &str) -> (r: Option<GatewayPayload>)
    ensures
        match r {
            Some(payload) => parsed(text@) matches Some(j) && is_frame(j) && payload.reads(j),
            None => !(parsed(text@) matches Some(j) && is_frame(j)),
        },
{
    match parse(text) {
        Some(value) => frame_from_value(&value),
        None => None,
    }
}

/// What a frame with the control code `op` means, given the heartbeat
/// interval, the sequence number and the event's name that it carries.
pub open spec fn frame_of(
    op: u8,
    heartbeat_interval: Option<u64>,
    sequence: Option<u64>,
    event_type: Option<Seq<char>>,
) -> Frame {
    if op == op::HELLO {
        Frame::Hello { heartbeat_interval }
    } else if op == op::DISPATCH {
        Frame::Dispatch { sequence, ready: event_type == Some("READY"@) }
    } else if op == op::HEARTBEAT_ACK {
        Frame::HeartbeatAck
    } else {
        Frame::Other
    }
}

/// The heartbeat interval that a frame's payload carries.
pub open spec fn interval_in(d: Option<serde_json::Value>) -> Option<u64> {
    match d {
        Some(v) => tree(v).unsigned_field("heartbeat_interval"@),
        None => None,
    }
}

/// The name of the event that a frame carries, as characters.
pub open spec fn event_name(t: Option<String>) -> Option<Seq<char>> {
    match t {
        Some(name) => Some(name@),
        None => None,
    }
}

/// Reads the heartbeat interval out of a hello's payload.
pub fn heartbeat_interval(d: &Option<serde_json::Value>) -> (ms: Option<u64>)
    ensures
        ms == interval_in(*d),
{
    match d {
        Some(v) => unsigned_field(v, "heartbeat_interval"),
        None => None,
    }
}

/// Tells what a frame means to the session.
pub fn classify(payload: &GatewayPayload) -> (frame: Frame)
    ensures
        frame == frame_of(
            payload.op,
            interval_in(payload.d),
            payload.s,
            event_name(payload.t),
        ),
{
    if payload.op == op::HELLO {
        Frame::Hello { heartbeat_interval: heartbeat_interval(&payload.d) }
    } else if payload.op == op::DISPATCH {
        let ready = match &payload.t {
            Some(name) => str_eq(name.as_str(), "READY"),
            None => false,
        };
        Frame::Dispatch { sequence: payload.s, ready }
    } else if payload.op == op::HEARTBEAT_ACK {
        Frame::HeartbeatAck
    } else {
        Frame::Other
    }
}

/// The handlers that an event goes to.
#[derive(Clone, Copy, PartialEq, Eq, Debug)]
pub struct Routes {
    /// The event is a message: the command handler reads it.
    pub commands: bool,
    /// The event is an interaction: the interaction handler reads it.
    pub interactions: bool,
    /// The detector has a handler for the event, under this kind.
    pub detector: Option<EventKind>,
}

/// The handlers that an event named `event_type` goes to: every handler
/// that is registered for it, and none for a name that nobody knows.
pub open spec fn routes_of(event_type: Seq<char>) -> Routes {
    Routes {
        commands: event_type == "MESSAGE_CREATE"@,
        interactions: event_type == "INTERACTION_CREATE"@,
        detector: EventKind::named(event_type),
    }
}

/// Tells which handlers an event goes to.
pub fn route(event_type: &str) -> (r: Routes)
    ensures
        r == routes_of(event_type@),
{
    Routes {
        commands: str_eq(event_type, "MESSAGE_CREATE"),
        interactions: str_eq(event_type, "INTERACTION_CREATE"),
        detector: EventKind::from_name(event_type),
    }
}

} // verus!
