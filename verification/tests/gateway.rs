use rimuru_bot::antinuke::EventKind;
use rimuru_bot::gateway::{
    classify, gateway_url, heartbeat_interval, route, run, Fault, Frame, Routes, Session,
    SessionAction, SessionEvent, SessionState, Supervision, CLIENT_NAME, CLIENT_OS,
    IDENTIFY_INTENTS, RECONNECT_DELAY_MS,
};
use rimuru_bot::models::{intent, op, GatewayPayload};

fn json(text: &str) -> serde_json::Value {
    serde_json::from_str(text).unwrap()
}

fn hello(ms: Option<u64>) -> SessionEvent {
    SessionEvent::Received(Frame::Hello { heartbeat_interval: ms })
}

fn dispatch(sequence: Option<u64>, ready: bool) -> SessionEvent {
    SessionEvent::Received(Frame::Dispatch { sequence, ready })
}

fn ready_session() -> Session {
    let mut s = Session::new();
    s.handle(SessionEvent::Opened);
    s.handle(hello(Some(41_250)));
    s.handle(dispatch(Some(1), true));
    s
}

#[test]
fn a_fresh_session_is_connecting() {
    let s = Session::new();
    assert_eq!(s.state, SessionState::Connecting);
    assert_eq!(s.heartbeat_interval_ms, 0);
    assert!(s.last_ack_received);
    assert_eq!(s.sequence_number, None);
    assert!(!s.is_closed());
}

#[test]
fn the_handshake_leads_to_ready() {
    let mut s = Session::new();
    assert_eq!(s.handle(SessionEvent::Opened), SessionAction::Idle);
    assert_eq!(s.state, SessionState::AwaitingHello);
    assert_eq!(
        s.handle(hello(Some(41_250))),
        SessionAction::Identify { heartbeat_interval_ms: 41_250 }
    );
    assert_eq!(s.state, SessionState::Identified);
    assert_eq!(s.heartbeat_interval_ms, 41_250);
    assert_eq!(s.handle(dispatch(Some(1), true)), SessionAction::Route);
    assert_eq!(s.state, SessionState::Ready);
    assert_eq!(s.sequence_number, Some(1));
}

#[test]
fn a_hello_without_an_interval_ends_the_attempt() {
    let mut s = Session::new();
    s.handle(SessionEvent::Opened);
    assert_eq!(s.handle(hello(None)), SessionAction::Close);
    assert!(s.is_closed());

    let mut s = Session::new();
    s.handle(SessionEvent::Opened);
    assert_eq!(s.handle(hello(Some(0))), SessionAction::Close);
    assert!(s.is_closed());

    let mut s = Session::new();
    s.handle(SessionEvent::Opened);
    assert_eq!(s.handle(dispatch(Some(3), false)), SessionAction::Close);
    assert!(s.is_closed());
    assert_eq!(s.sequence_number, None);
}

#[test]
fn heartbeats_carry_the_last_sequence_number() {
    let mut s = Session::new();
    assert_eq!(s.handle(SessionEvent::Tick), SessionAction::Idle);
    s.handle(SessionEvent::Opened);
    assert_eq!(s.handle(SessionEvent::Tick), SessionAction::Idle);
    s.handle(hello(Some(100)));
    assert_eq!(s.handle(SessionEvent::Tick), SessionAction::Heartbeat { sequence: None });
    assert!(!s.last_ack_received);
    assert_eq!(s.handle(SessionEvent::Received(Frame::HeartbeatAck)), SessionAction::Idle);
    assert!(s.last_ack_received);
    s.handle(dispatch(Some(7), true));
    s.handle(dispatch(None, false));
    assert_eq!(s.sequence_number, Some(7));
    s.handle(dispatch(Some(8), false));
    assert_eq!(s.handle(SessionEvent::Tick), SessionAction::Heartbeat { sequence: Some(8) });
    assert_eq!(s.state, SessionState::Ready);
}

#[test]
fn frames_that_mean_nothing_are_passed_over() {
    let mut s = ready_session();
    let before = s;
    assert_eq!(s.handle(SessionEvent::Received(Frame::Other)), SessionAction::Idle);
    assert_eq!(s.handle(hello(Some(5))), SessionAction::Idle);
    assert_eq!(s.handle(SessionEvent::Opened), SessionAction::Idle);
    assert_eq!(s, before);
}

#[test]
fn any_fault_closes_the_session() {
    for fault in [Fault::Read, Fault::Decode, Fault::Closed] {
        let mut s = ready_session();
        assert_eq!(s.handle(SessionEvent::Failed(fault)), SessionAction::Close);
        assert!(s.is_closed());
        let mut s = Session::new();
        assert_eq!(s.handle(SessionEvent::Failed(fault)), SessionAction::Close);
        assert!(s.is_closed());
    }
}

#[test]
fn a_session_reconnects_after_a_fault_without_help() {
    let mut s = ready_session();
    assert_eq!(run(&mut s), Supervision::Continue);
    assert_eq!(s.state, SessionState::Ready);

    assert_eq!(s.handle(SessionEvent::Failed(Fault::Read)), SessionAction::Close);
    assert_eq!(s.state, SessionState::Closed);
    assert_eq!(s.handle(dispatch(Some(2), false)), SessionAction::Idle);
    assert_eq!(s.handle(SessionEvent::Tick), SessionAction::Idle);
    assert_eq!(s.handle(SessionEvent::Failed(Fault::Closed)), SessionAction::Idle);
    assert_eq!(s.sequence_number, Some(1));

    assert_eq!(run(&mut s), Supervision::Restart { backoff_ms: 5_000 });
    assert_eq!(RECONNECT_DELAY_MS, 5_000);
    assert_eq!(s, Session::new());
    assert_eq!(s.sequence_number, None);

    s.handle(SessionEvent::Opened);
    assert_eq!(
        s.handle(hello(Some(45_000))),
        SessionAction::Identify { heartbeat_interval_ms: 45_000 }
    );
    assert_eq!(s.state, SessionState::Identified);
    assert_eq!(s.handle(dispatch(Some(1), true)), SessionAction::Route);
    assert_eq!(s.state, SessionState::Ready);
}

#[test]
fn frames_are_classified_by_their_control_code() {
    let hello = GatewayPayload {
        op: op::HELLO,
        d: Some(json(r#"{"heartbeat_interval":41250,"_trace":["x"]}"#)),
        s: None,
        t: None,
    };
    assert_eq!(classify(&hello), Frame::Hello { heartbeat_interval: Some(41_250) });
    let bare = GatewayPayload { op: 10, d: None, s: None, t: None };
    assert_eq!(classify(&bare), Frame::Hello { heartbeat_interval: None });
    let wrong = GatewayPayload { op: 10, d: Some(json(r#"{"heartbeat_interval":"soon"}"#)), s: None, t: None };
    assert_eq!(classify(&wrong), Frame::Hello { heartbeat_interval: None });

    let ready = GatewayPayload {
        op: op::DISPATCH,
        d: Some(json("{}")),
        s: Some(1),
        t: Some("READY".to_string()),
    };
    assert_eq!(classify(&ready), Frame::Dispatch { sequence: Some(1), ready: true });
    let message = GatewayPayload {
        op: 0,
        d: Some(json("{}")),
        s: Some(2),
        t: Some("MESSAGE_CREATE".to_string()),
    };
    assert_eq!(classify(&message), Frame::Dispatch { sequence: Some(2), ready: false });
    let nameless = GatewayPayload { op: 0, d: None, s: None, t: None };
    assert_eq!(classify(&nameless), Frame::Dispatch { sequence: None, ready: false });

    let ack = GatewayPayload { op: op::HEARTBEAT_ACK, d: None, s: None, t: None };
    assert_eq!(classify(&ack), Frame::HeartbeatAck);
    for code in [op::HEARTBEAT, op::IDENTIFY, op::RESUME, op::RECONNECT, op::INVALID_SESSION, 200] {
        let other = GatewayPayload { op: code, d: None, s: None, t: Some("READY".to_string()) };
        assert_eq!(classify(&other), Frame::Other);
    }
}

#[test]
fn the_heartbeat_interval_is_read_from_the_payload() {
    assert_eq!(heartbeat_interval(&Some(json(r#"{"heartbeat_interval":1}"#))), Some(1));
    assert_eq!(heartbeat_interval(&Some(json(r#"{"heartbeat_interval":-1}"#))), None);
    assert_eq!(heartbeat_interval(&Some(json(r#"{"heartbeat_interval":1.5}"#))), None);
    assert_eq!(heartbeat_interval(&Some(json(r#"{"interval":1}"#))), None);
    assert_eq!(heartbeat_interval(&Some(json("17"))), None);
    assert_eq!(heartbeat_interval(&None), None);
}

#[test]
fn events_go_to_the_handlers_registered_for_them() {
    assert_eq!(
        route("MESSAGE_CREATE"),
        Routes { commands: true, interactions: false, detector: Some(EventKind::MessageCreate) }
    );
    assert_eq!(
        route("INTERACTION_CREATE"),
        Routes { commands: false, interactions: true, detector: None }
    );
    assert_eq!(
        route("GUILD_BAN_ADD"),
        Routes { commands: false, interactions: false, detector: Some(EventKind::GuildBanAdd) }
    );
    assert_eq!(
        route("THREAD_CREATE"),
        Routes { commands: false, interactions: false, detector: Some(EventKind::ThreadCreate) }
    );
    assert_eq!(
        route("WEBHOOKS_UPDATE"),
        Routes { commands: false, interactions: false, detector: Some(EventKind::WebhooksUpdate) }
    );
}

#[test]
fn unknown_events_go_nowhere() {
    let nowhere = Routes { commands: false, interactions: false, detector: None };
    assert_eq!(route("READY"), nowhere);
    assert_eq!(route("TYPING_START"), nowhere);
    assert_eq!(route("GUILD_CREATE"), nowhere);
    assert_eq!(route(""), nowhere);
    assert_eq!(route("message_create"), nowhere);
}

#[test]
fn the_gateway_address_gets_its_query() {
    assert_eq!(gateway_url("wss://gateway.discord.gg"), "wss://gateway.discord.gg/?v=10&encoding=json");
    assert_eq!(gateway_url("wss://gateway.discord.gg/"), "wss://gateway.discord.gg/?v=10&encoding=json");
    assert_eq!(gateway_url(""), "/?v=10&encoding=json");
    assert_eq!(gateway_url("/"), "/?v=10&encoding=json");
}

#[test]
fn the_session_identifies_with_its_intents() {
    assert_eq!(IDENTIFY_INTENTS, 37377 | 4 | 32768 | 2 | 8);
    assert_eq!(
        37377,
        intent::GUILDS | intent::GUILD_MESSAGES | intent::DIRECT_MESSAGES | intent::MESSAGE_CONTENT
    );
    assert_eq!(intent::GUILDS, 1 << 0);
    assert_eq!(intent::GUILD_MESSAGES, 1 << 9);
    assert_eq!(intent::DIRECT_MESSAGES, 1 << 12);
    assert_eq!(intent::MESSAGE_CONTENT, 1 << 15);
    assert_eq!(CLIENT_OS, "windows");
    assert_eq!(CLIENT_NAME, "rimuru-bot");
}
