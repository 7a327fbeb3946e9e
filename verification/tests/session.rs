use clipsync::events::{Level, RuntimeEvent, RuntimeLogEvent};
use clipsync::lan::protocol::{decode_peer_message, PeerMessage};
use clipsync::lan::session::{
    PeerSession, SendKind, SessionAction, SessionError, SessionEvent, HEARTBEAT_TIMEOUT_MS,
};
use clipsync::messages::{ClipboardBroadcastPayload, ClipboardUpdate};

fn log(level: Level, message: &str) -> RuntimeEvent {
    RuntimeEvent::Log(RuntimeLogEvent { level, message: message.to_string() })
}

fn sent_message(action: &SessionAction) -> (SendKind, PeerMessage) {
    match action {
        SessionAction::Send { kind, frame } => {
            let len = u32::from_be_bytes([frame[0], frame[1], frame[2], frame[3]]) as usize;
            assert_eq!(len, frame.len() - 4);
            (*kind, decode_peer_message(&frame[4..]).unwrap())
        }
        other => panic!("not a send: {:?}", other),
    }
}

#[test]
fn timeout_is_fifteen_seconds() {
    assert_eq!(HEARTBEAT_TIMEOUT_MS, 15_000);
}

#[test]
fn session_lives_until_the_timeout_has_passed() {
    let mut session = PeerSession::start(1_000);
    assert_eq!(session.before_wait(1_000).action, SessionAction::Continue);
    assert_eq!(session.before_wait(16_000).action, SessionAction::Continue);
    assert!(session.open);
    let out = session.before_wait(16_001);
    assert_eq!(out.action, SessionAction::Close(Some(SessionError::HeartbeatTimeout)));
    assert_eq!(out.events, vec![log(Level::Warn, "LAN peer heartbeat timeout, closing session")]);
    assert!(!session.open);
}

#[test]
fn heartbeat_timeout_is_told_apart_by_its_text() {
    assert_eq!(SessionError::HeartbeatTimeout.message(), "heartbeat timeout");
    assert_eq!(
        SessionError::WriteFailed { kind: SendKind::Ping, message: "broken pipe".to_string() }.message(),
        "failed to send ping: broken pipe"
    );
    assert_eq!(
        SessionError::WriteFailed { kind: SendKind::Pong, message: "x".to_string() }.message(),
        "failed to send pong: x"
    );
    assert_eq!(
        SessionError::WriteFailed { kind: SendKind::Clipboard, message: "x".to_string() }.message(),
        "failed to send clipboard: x"
    );
    assert_eq!(SessionError::ReadFailed("eof".to_string()).message(), "LAN peer read error: eof");
}

#[test]
fn clock_running_backwards_does_not_time_out() {
    let mut session = PeerSession::start(50_000);
    assert_eq!(session.before_wait(10).action, SessionAction::Continue);
}

#[test]
fn pong_moves_the_deadline() {
    let mut session = PeerSession::start(0);
    let out = session.step(SessionEvent::Inbound(PeerMessage::Pong { ts: 1 }), 14_000);
    assert_eq!(out.action, SessionAction::Continue);
    assert!(out.events.is_empty());
    assert_eq!(session.last_pong_ms, 14_000);
    assert_eq!(session.before_wait(29_000).action, SessionAction::Continue);
    assert_eq!(
        session.before_wait(29_001).action,
        SessionAction::Close(Some(SessionError::HeartbeatTimeout))
    );
}

#[test]
fn nothing_but_a_pong_moves_the_deadline() {
    let mut session = PeerSession::start(0);
    session.step(SessionEvent::Tick { ts: 5 }, 5_000);
    session.step(SessionEvent::Inbound(PeerMessage::Ping { ts: 9 }), 6_000);
    session.step(
        SessionEvent::Inbound(PeerMessage::Clipboard { content_type: "text/plain".to_string(), data: "x".to_string() }),
        7_000,
    );
    session.step(SessionEvent::Lagged(3), 8_000);
    session.step(
        SessionEvent::Outbound(ClipboardUpdate::new("text/plain", "y".to_string(), "me")),
        9_000,
    );
    assert_eq!(session.last_pong_ms, 0);
    assert_eq!(
        session.before_wait(15_001).action,
        SessionAction::Close(Some(SessionError::HeartbeatTimeout))
    );
}

#[test]
fn tick_sends_a_ping_with_the_wall_clock() {
    let mut session = PeerSession::start(0);
    let out = session.step(SessionEvent::Tick { ts: 1_700_000_000_123 }, 5_000);
    assert!(out.events.is_empty());
    assert_eq!(sent_message(&out.action), (SendKind::Ping, PeerMessage::Ping { ts: 1_700_000_000_123 }));
    let out = session.step(SessionEvent::Tick { ts: u64::MAX }, 10_000);
    assert_eq!(sent_message(&out.action), (SendKind::Ping, PeerMessage::Ping { ts: u64::MAX }));
}

#[test]
fn ping_is_answered_with_its_own_timestamp() {
    let mut session = PeerSession::start(0);
    let out = session.step(SessionEvent::Inbound(PeerMessage::Ping { ts: 777 }), 100);
    assert!(out.events.is_empty());
    assert_eq!(sent_message(&out.action), (SendKind::Pong, PeerMessage::Pong { ts: 777 }));
}

#[test]
fn update_is_sent_without_the_sender_id() {
    let mut session = PeerSession::start(0);
    let update = ClipboardUpdate::new("text/plain", "h\u{e9}llo".to_string(), "secret-device-id");
    let out = session.step(SessionEvent::Outbound(update), 100);
    assert_eq!(out.events, vec![log(Level::Debug, "LAN sent clipboard (text/plain) 6 bytes")]);
    match &out.action {
        SessionAction::Send { frame, .. } => {
            assert!(!String::from_utf8_lossy(frame).contains("secret-device-id"));
        }
        other => panic!("not a send: {:?}", other),
    }
    assert_eq!(
        sent_message(&out.action),
        (
            SendKind::Clipboard,
            PeerMessage::Clipboard { content_type: "text/plain".to_string(), data: "h\u{e9}llo".to_string() }
        )
    );
}

#[test]
fn update_over_the_frame_limit_is_dropped() {
    let mut session = PeerSession::start(0);
    let update = ClipboardUpdate::new("text/plain", "a".repeat(16 * 1024 * 1024), "me");
    let out = session.step(SessionEvent::Outbound(update), 100);
    assert_eq!(out.action, SessionAction::Continue);
    assert_eq!(out.events, vec![log(Level::Warn, "LAN message Clipboard exceeds the frame limit, dropped")]);
    assert!(session.open);
}

#[test]
fn inbound_clipboard_is_delivered_and_reported() {
    let mut session = PeerSession::start(0);
    let out = session.step(
        SessionEvent::Inbound(PeerMessage::Clipboard { content_type: "text/plain".to_string(), data: "hi".to_string() }),
        100,
    );
    assert_eq!(
        out.action,
        SessionAction::Deliver(ClipboardBroadcastPayload { content_type: "text/plain".to_string(), data: "hi".to_string() })
    );
    assert_eq!(
        out.events,
        vec![
            log(Level::Info, "LAN received clipboard (text)"),
            RuntimeEvent::ClipboardReceived { content_type: "text/plain".to_string() },
        ]
    );
    let out = session.step(
        SessionEvent::Inbound(PeerMessage::Clipboard { content_type: "image/png".to_string(), data: "AA==".to_string() }),
        100,
    );
    assert_eq!(out.events[0], log(Level::Info, "LAN received clipboard (image)"));
    let out = session.step(
        SessionEvent::Inbound(PeerMessage::Clipboard { content_type: "x/y".to_string(), data: "".to_string() }),
        100,
    );
    assert_eq!(out.events[0], log(Level::Info, "LAN received clipboard (x/y)"));
}

#[test]
fn handshake_messages_after_the_handshake_are_ignored() {
    let mut session = PeerSession::start(0);
    let out = session.step(
        SessionEvent::Inbound(PeerMessage::Hello { device_id: "a".to_string(), device_name: "b".to_string() }),
        100,
    );
    assert_eq!(out.action, SessionAction::Continue);
    assert_eq!(out.events, vec![log(Level::Warn, "LAN peer session: unexpected message type Hello")]);
    let out = session.step(
        SessionEvent::Inbound(PeerMessage::Welcome { device_id: "a".to_string(), device_name: "b".to_string() }),
        100,
    );
    assert_eq!(out.events, vec![log(Level::Warn, "LAN peer session: unexpected message type Welcome")]);
    assert!(session.open);
}

#[test]
fn lag_is_logged_and_survived() {
    let mut session = PeerSession::start(0);
    let out = session.step(SessionEvent::Lagged(12), 100);
    assert_eq!(out.action, SessionAction::Continue);
    assert_eq!(out.events, vec![log(Level::Warn, "LAN outbound clipboard lagged by 12 messages")]);
    assert!(session.open);
}

#[test]
fn closed_channel_ends_the_session_in_order() {
    let mut session = PeerSession::start(0);
    let out = session.step(SessionEvent::OutboundClosed, 100);
    assert_eq!(out.action, SessionAction::Close(None));
    assert!(!session.open);
}

#[test]
fn cancellation_ends_the_session_in_order() {
    let mut session = PeerSession::start(0);
    let out = session.step(SessionEvent::Cancelled, 100);
    assert_eq!(out.action, SessionAction::Close(None));
    assert_eq!(out.events, vec![log(Level::Debug, "LAN peer session cancelled")]);
    assert!(!session.open);
}

#[test]
fn io_errors_end_the_session_with_their_error() {
    let mut session = PeerSession::start(0);
    let out = session.step(SessionEvent::ReadFailed("frame too large: 16777217 bytes".to_string()), 100);
    assert_eq!(
        out.action,
        SessionAction::Close(Some(SessionError::ReadFailed("frame too large: 16777217 bytes".to_string())))
    );
    let mut session = PeerSession::start(0);
    let out = session.step(SessionEvent::WriteFailed { kind: SendKind::Ping, message: "reset".to_string() }, 100);
    assert_eq!(
        out.action,
        SessionAction::Close(Some(SessionError::WriteFailed { kind: SendKind::Ping, message: "reset".to_string() }))
    );
    assert!(!session.open);
}

#[test]
fn ended_session_answers_everything_with_close() {
    let mut session = PeerSession::start(0);
    session.step(SessionEvent::Cancelled, 1);
    assert_eq!(session.step(SessionEvent::Tick { ts: 1 }, 2).action, SessionAction::Close(None));
    assert_eq!(session.before_wait(100_000).action, SessionAction::Close(None));
}
