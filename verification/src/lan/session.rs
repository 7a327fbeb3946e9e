//! The steady state of a TCP session between two peers: heartbeat, clipboard
//! relay in both directions, and the ways a session ends.
//!
//! The embedder owns the socket, the timers and the channels. Before each
//! wait it asks [`PeerSession::before_wait`] whether the peer is still alive;
//! after each wait it reports what happened to [`PeerSession::step`].

use vstd::prelude::*;
use vstd::string::*;
use vstd::utf8::encode_utf8;
use crate::events::{
    emit, events_view, log_event, log_line, log_view, no_events, Level, RuntimeEvent,
    RuntimeEventView,
};
use crate::json::{decimal_text, push_decimal};
use crate::clipboard::{
    applier_begin, text_step, ApplierView, ApplyActionView, MonitorView,
};
use crate::lan::protocol::{
    encode_peer_message, frame_for, lemma_heartbeat_fits, msg_type_name, type_name_of,
    PeerMessage, PeerMessageView,
};
use crate::messages::{
    ClipboardBroadcastPayload, ClipboardBroadcastPayloadView, ClipboardUpdate, ClipboardUpdateView,
    CONTENT_TYPE_IMAGE_PNG, CONTENT_TYPE_TEXT,
};
use crate::text::{concat2, concat3, owned, str_eq};

verus! {

/// Milliseconds without a pong after which the peer counts as dead.
pub const HEARTBEAT_TIMEOUT_MS: u64 = 15000;

/// What a frame carries, for the error that names a failed write.
#[derive(Debug, Clone, Copy, PartialEq, Eq, Structural)]
pub enum SendKind {
    Ping,
    Pong,
    Clipboard,
}

/// Why a session ended other than by being closed in order.
#[derive(Debug, PartialEq, Eq)]
pub enum SessionError {
    /// No pong for longer than the heartbeat timeout.
    HeartbeatTimeout,
    WriteFailed { kind: SendKind, message: String },
    ReadFailed(String),
}

pub enum SessionErrorView {
    HeartbeatTimeout,
    WriteFailed { kind: SendKind, message: Seq<char> },
    ReadFailed(Seq<char>),
}

impl View for SessionError {
    type V = SessionErrorView;

    open spec fn view(&self) -> SessionErrorView {
        match self {
            SessionError::HeartbeatTimeout => SessionErrorView::HeartbeatTimeout,
            SessionError::WriteFailed { kind, message } => SessionErrorView::WriteFailed {
                kind: *kind,
                message: message@,
            },
            SessionError::ReadFailed(m) => SessionErrorView::ReadFailed(m@),
        }
    }
}

/// The text that describes the end of a session.
pub open spec fn session_error_text(e: SessionErrorView) -> Seq<char> {
    match e {
        SessionErrorView::HeartbeatTimeout => "heartbeat timeout"@,
        SessionErrorView::WriteFailed { kind, message } => match kind {
            SendKind::Ping => "failed to send ping: "@ + message,
            SendKind::Pong => "failed to send pong: "@ + message,
            SendKind::Clipboard => "failed to send clipboard: "@ + message,
        },
        SessionErrorView::ReadFailed(m) => "LAN peer read error: "@ + m,
    }
}

impl SessionError {
    /// Describes the end of the session; a heartbeat timeout reads
    /// `heartbeat timeout`.
    pub fn message(&self) -> (r: String)
        ensures
            r@ == session_error_text(self@),
    {
        match self {
            SessionError::HeartbeatTimeout => owned("heartbeat timeout"),
            SessionError::WriteFailed { kind, message } => match kind {
                SendKind::Ping => concat2("failed to send ping: ", message.as_str()),
                SendKind::Pong => concat2("failed to send pong: ", message.as_str()),
                SendKind::Clipboard => concat2("failed to send clipboard: ", message.as_str()),
            },
            SessionError::ReadFailed(m) => concat2("LAN peer read error: ", m.as_str()),
        }
    }
}

/// What the embedder observed.
#[derive(Debug, PartialEq, Eq)]
pub enum SessionEvent {
    /// The heartbeat interval is over; `ts` is the wall clock in milliseconds.
    Tick { ts: u64 },
    /// The monitor published a clipboard change.
    Outbound(ClipboardUpdate),
    /// The monitor's channel dropped this many updates.
    Lagged(u64),
    /// The monitor's channel is gone.
    OutboundClosed,
    /// A frame arrived and was decoded.
    Inbound(PeerMessage),
    ReadFailed(String),
    WriteFailed { kind: SendKind, message: String },
    Cancelled,
}

pub enum SessionEventView {
    Tick { ts: u64 },
    Outbound(ClipboardUpdateView),
    Lagged(u64),
    OutboundClosed,
    Inbound(PeerMessageView),
    ReadFailed(Seq<char>),
    WriteFailed { kind: SendKind, message: Seq<char> },
    Cancelled,
}

impl View for SessionEvent {
    type V = SessionEventView;

    open spec fn view(&self) -> SessionEventView {
        match self {
            SessionEvent::Tick { ts } => SessionEventView::Tick { ts: *ts },
            SessionEvent::Outbound(u) => SessionEventView::Outbound(u@),
            SessionEvent::Lagged(n) => SessionEventView::Lagged(*n),
            SessionEvent::OutboundClosed => SessionEventView::OutboundClosed,
            SessionEvent::Inbound(m) => SessionEventView::Inbound(m@),
            SessionEvent::ReadFailed(m) => SessionEventView::ReadFailed(m@),
            SessionEvent::WriteFailed { kind, message } => SessionEventView::WriteFailed {
                kind: *kind,
                message: message@,
            },
            SessionEvent::Cancelled => SessionEventView::Cancelled,
        }
    }
}

/// What the embedder does next.
#[derive(Debug, PartialEq, Eq)]
pub enum SessionAction {
    /// Write the frame to the socket.
    Send { kind: SendKind, frame: Vec<u8> },
    /// Hand the payload to the clipboard applier.
    Deliver(ClipboardBroadcastPayload),
    /// Nothing to do.
    Continue,
    /// Close the socket; with an error where the session did not end in order.
    Close(Option<SessionError>),
}

pub enum SessionActionView {
    Send { kind: SendKind, frame: Seq<u8> },
    Deliver(ClipboardBroadcastPayloadView),
    Continue,
    Close(Option<SessionErrorView>),
}

impl View for SessionAction {
    type V = SessionActionView;

    open spec fn view(&self) -> SessionActionView {
        match self {
            SessionAction::Send { kind, frame } => SessionActionView::Send {
                kind: *kind,
                frame: frame@,
            },
            SessionAction::Deliver(p) => SessionActionView::Deliver(p@),
            SessionAction::Continue => SessionActionView::Continue,
            SessionAction::Close(e) => SessionActionView::Close(
                match e {
                    Some(e) => Some(e@),
                    None => None,
                },
            ),
        }
    }
}

/// The answer to one event.
#[derive(Debug, PartialEq, Eq)]
pub struct SessionOutput {
    pub events: Vec<RuntimeEvent>,
    pub action: SessionAction,
}

pub struct SessionOutputView {
    pub events: Seq<RuntimeEventView>,
    pub action: SessionActionView,
}

impl View for SessionOutput {
    type V = SessionOutputView;

    open spec fn view(&self) -> SessionOutputView {
        SessionOutputView { events: events_view(self.events@), action: self.action@ }
    }
}

/// One session after its handshake. Times are milliseconds of a clock that
/// never runs backwards.
#[derive(Debug, Clone, Copy, PartialEq, Eq, Structural)]
pub struct PeerSession {
    /// When the last pong arrived, or when the session began.
    pub last_pong_ms: u64,
    /// False once the session has ended.
    pub open: bool,
}

/// Whether a peer last heard at `last_pong_ms` counts as dead at `now_ms`.
pub open spec fn heartbeat_expired(last_pong_ms: u64, now_ms: u64) -> bool {
    now_ms - last_pong_ms > HEARTBEAT_TIMEOUT_MS
}

/// The session closed, otherwise as `s`.
pub open spec fn closed(s: PeerSession) -> PeerSession {
    PeerSession { open: false, ..s }
}

/// The answer of a session that has ended.
pub open spec fn ended() -> SessionOutputView {
    SessionOutputView { events: Seq::empty(), action: SessionActionView::Close(None) }
}

/// The check before each wait: a session whose peer is dead closes with
/// [`SessionError::HeartbeatTimeout`]; any other goes on.
pub open spec fn session_check(s: PeerSession, now_ms: u64) -> (PeerSession, SessionOutputView) {
    if !s.open {
        (s, ended())
    } else if heartbeat_expired(s.last_pong_ms, now_ms) {
        (
            closed(s),
            SessionOutputView {
                events: seq![
                    log_view(Level::Warn, "LAN peer heartbeat timeout, closing session"@),
                ],
                action: SessionActionView::Close(Some(SessionErrorView::HeartbeatTimeout)),
            },
        )
    } else {
        (s, SessionOutputView { events: Seq::empty(), action: SessionActionView::Continue })
    }
}

/// The answer that sends `m`, with `sent` as events; a message over the frame
/// limit is dropped with a warning instead.
pub open spec fn send_or_drop(kind: SendKind, m: PeerMessageView, sent: Seq<RuntimeEventView>)
    -> SessionOutputView {
    match frame_for(m) {
        Some(frame) => SessionOutputView {
            events: sent,
            action: SessionActionView::Send { kind, frame },
        },
        None => SessionOutputView {
            events: seq![
                log_view(
                    Level::Warn,
                    "LAN message "@ + type_name_of(m) + " exceeds the frame limit, dropped"@,
                ),
            ],
            action: SessionActionView::Continue,
        },
    }
}

/// How a content type is called in log lines.
pub open spec fn content_label(content_type: Seq<char>) -> Seq<char> {
    if content_type == CONTENT_TYPE_TEXT@ {
        "text"@
    } else if content_type == CONTENT_TYPE_IMAGE_PNG@ {
        "image"@
    } else {
        content_type
    }
}

/// The answer to an inbound message. A ping is answered with a pong of the
/// same `ts`; clipboard content is delivered without a sender id; handshake
/// messages are out of place and ignored.
pub open spec fn inbound_answer(m: PeerMessageView) -> SessionOutputView {
    match m {
        PeerMessageView::Ping { ts } => send_or_drop(
            SendKind::Pong,
            PeerMessageView::Pong { ts },
            Seq::empty(),
        ),
        PeerMessageView::Pong { .. } => SessionOutputView {
            events: Seq::empty(),
            action: SessionActionView::Continue,
        },
        PeerMessageView::Clipboard { content_type, data } => SessionOutputView {
            events: seq![
                log_view(
                    Level::Info,
                    "LAN received clipboard ("@ + content_label(content_type) + ")"@,
                ),
                RuntimeEventView::ClipboardReceived { content_type },
            ],
            action: SessionActionView::Deliver(
                ClipboardBroadcastPayloadView { content_type, data },
            ),
        },
        other => SessionOutputView {
            events: seq![
                log_view(
                    Level::Warn,
                    "LAN peer session: unexpected message type "@ + type_name_of(other),
                ),
            ],
            action: SessionActionView::Continue,
        },
    }
}

/// The message that carries an update to a peer: content type and data, not
/// the sender's id.
pub open spec fn clipboard_message(u: ClipboardUpdateView) -> PeerMessageView {
    PeerMessageView::Clipboard { content_type: u.payload.content_type, data: u.payload.data }
}

/// The log line for an update that is sent.
pub open spec fn sent_event(u: ClipboardUpdateView) -> RuntimeEventView {
    log_view(
        Level::Debug,
        "LAN sent clipboard ("@ + u.payload.content_type + ") "@ + decimal_text(
            encode_utf8(u.payload.data).len(),
        ) + " bytes"@,
    )
}

/// The transition function of a session at time `now_ms`. Only a pong moves
/// `last_pong_ms`.
pub open spec fn session_step(s: PeerSession, e: SessionEventView, now_ms: u64) -> (
    PeerSession,
    SessionOutputView,
) {
    if !s.open {
        (s, ended())
    } else {
        match e {
            SessionEventView::Cancelled => (
                closed(s),
                SessionOutputView {
                    events: seq![log_view(Level::Debug, "LAN peer session cancelled"@)],
                    action: SessionActionView::Close(None),
                },
            ),
            SessionEventView::Tick { ts } => (
                s,
                send_or_drop(SendKind::Ping, PeerMessageView::Ping { ts }, Seq::empty()),
            ),
            SessionEventView::Outbound(u) => (
                s,
                send_or_drop(SendKind::Clipboard, clipboard_message(u), seq![sent_event(u)]),
            ),
            SessionEventView::Lagged(n) => (
                s,
                SessionOutputView {
                    events: seq![
                        log_view(
                            Level::Warn,
                            "LAN outbound clipboard lagged by "@ + decimal_text(n as nat)
                                + " messages"@,
                        ),
                    ],
                    action: SessionActionView::Continue,
                },
            ),
            SessionEventView::OutboundClosed => (closed(s), ended()),
            SessionEventView::Inbound(m) => (
                if m is Pong {
                    PeerSession { last_pong_ms: now_ms, ..s }
                } else {
                    s
                },
                inbound_answer(m),
            ),
            SessionEventView::ReadFailed(m) => (
                closed(s),
                SessionOutputView {
                    events: Seq::empty(),
                    action: SessionActionView::Close(Some(SessionErrorView::ReadFailed(m))),
                },
            ),
            SessionEventView::WriteFailed { kind, message } => (
                closed(s),
                SessionOutputView {
                    events: Seq::empty(),
                    action: SessionActionView::Close(
                        Some(SessionErrorView::WriteFailed { kind, message }),
                    ),
                },
            ),
        }
    }
}

fn send(kind: SendKind, msg: &PeerMessage, sent: Vec<RuntimeEvent>) -> (r: SessionOutput)
    ensures
        r@ == send_or_drop(kind, msg@, events_view(sent@)),
{
    match encode_peer_message(msg) {
        Some(frame) => SessionOutput { events: sent, action: SessionAction::Send { kind, frame } },
        None => {
            let mut events = no_events();
            emit(&mut events, log_event(Level::Warn, concat3("LAN message ", msg_type_name(msg), " exceeds the frame limit, dropped")));
            assert(events_view(events@) =~= seq![
                log_view(
                    Level::Warn,
                    "LAN message "@ + type_name_of(msg@) + " exceeds the frame limit, dropped"@,
                ),
            ]);
            SessionOutput { events, action: SessionAction::Continue }
        },
    }
}

fn label_of(content_type: &str) -> (r: String)
    ensures
        r@ == content_label(content_type@),
{
    if str_eq(content_type, CONTENT_TYPE_TEXT) {
        owned("text")
    } else if str_eq(content_type, CONTENT_TYPE_IMAGE_PNG) {
        owned("image")
    } else {
        owned(content_type)
    }
}

fn answer_inbound(msg: PeerMessage) -> (r: SessionOutput)
    ensures
        r@ == inbound_answer(msg@),
{
    match msg {
        PeerMessage::Ping { ts } => send(SendKind::Pong, &PeerMessage::Pong { ts }, no_events()),
        PeerMessage::Pong { .. } => SessionOutput {
            events: no_events(),
            action: SessionAction::Continue,
        },
        PeerMessage::Clipboard { content_type, data } => {
            let mut events = no_events();
            emit(&mut events, log_event(Level::Info, concat3("LAN received clipboard (", label_of(content_type.as_str()).as_str(), ")")));
            emit(&mut events, RuntimeEvent::ClipboardReceived { content_type: content_type.clone() });
            assert(events_view(events@) =~= seq![
                log_view(
                    Level::Info,
                    "LAN received clipboard ("@ + content_label(content_type@) + ")"@,
                ),
                RuntimeEventView::ClipboardReceived { content_type: content_type@ },
            ]);
            SessionOutput {
                events,
                action: SessionAction::Deliver(ClipboardBroadcastPayload { content_type, data }),
            }
        },
        other => {
            let mut events = no_events();
            emit(&mut events, log_event(Level::Warn, concat2("LAN peer session: unexpected message type ", msg_type_name(&other))));
            assert(events_view(events@) =~= seq![
                log_view(
                    Level::Warn,
                    "LAN peer session: unexpected message type "@ + type_name_of(other@),
                ),
            ]);
            SessionOutput { events, action: SessionAction::Continue }
        },
    }
}

impl PeerSession {
    /// A session that begins at `now_ms`.
    pub fn start(now_ms: u64) -> (r: PeerSession)
        ensures
            r == (PeerSession { last_pong_ms: now_ms, open: true }),
    {
        PeerSession { last_pong_ms: now_ms, open: true }
    }

    /// The check before each wait. Closes the session with
    /// [`SessionError::HeartbeatTimeout`] exactly if it is open and the last
    /// pong is more than [`HEARTBEAT_TIMEOUT_MS`] old.
    pub fn before_wait(&mut self, now_ms: u64) -> (r: SessionOutput)
        ensures
            (*final(self), r@) == session_check(*old(self), now_ms),
    {
        if !self.open {
            return SessionOutput { events: no_events(), action: SessionAction::Close(None) };
        }
        if now_ms > self.last_pong_ms && now_ms - self.last_pong_ms > HEARTBEAT_TIMEOUT_MS {
            let mut events = no_events();
            emit(&mut events, log_line(Level::Warn, "LAN peer heartbeat timeout, closing session"));
            assert(events_view(events@) =~= seq![
                log_view(Level::Warn, "LAN peer heartbeat timeout, closing session"@),
            ]);
            self.open = false;
            return SessionOutput {
                events,
                action: SessionAction::Close(Some(SessionError::HeartbeatTimeout)),
            };
        }
        SessionOutput { events: no_events(), action: SessionAction::Continue }
    }

    /// Answers one event at time `now_ms`. An open session answers every
    /// tick with a ping and every ping with a pong; cancellation closes it.
    pub fn step(&mut self, event: SessionEvent, now_ms: u64) -> (r: SessionOutput)
        ensures
            (*final(self), r@) == session_step(*old(self), event@, now_ms),
            event@ is Cancelled ==> !final(self).open && r.action@ is Close,
            old(self).open && event@ is Tick ==> r.action@ is Send && r.action@->kind
                == SendKind::Ping,
            old(self).open && event@ is Inbound && event@->Inbound_0 is Ping ==> r.action@ is Send
                && r.action@->kind == SendKind::Pong,
    {
        proof {
            match event@ {
                SessionEventView::Tick { ts } => lemma_heartbeat_fits(ts),
                SessionEventView::Inbound(PeerMessageView::Ping { ts }) => lemma_heartbeat_fits(ts),
                _ => {},
            }
        }
        if !self.open {
            return SessionOutput { events: no_events(), action: SessionAction::Close(None) };
        }
        match event {
            SessionEvent::Cancelled => {
                let mut events = no_events();
                emit(&mut events, log_line(Level::Debug, "LAN peer session cancelled"));
                assert(events_view(events@) =~= seq![
                    log_view(Level::Debug, "LAN peer session cancelled"@),
                ]);
                self.open = false;
                SessionOutput { events, action: SessionAction::Close(None) }
            },
            SessionEvent::Tick { ts } => send(SendKind::Ping, &PeerMessage::Ping { ts }, no_events()),
            SessionEvent::Outbound(update) => {
                let mut line = concat3("LAN sent clipboard (", update.payload.content_type.as_str(), ") ");
                push_decimal(&mut line, update.payload.data.as_str().as_bytes().len() as u64);
                line.append(" bytes");
                let mut events = no_events();
                emit(&mut events, log_event(Level::Debug, line));
                assert(events_view(events@) =~= seq![sent_event(update@)]);
                let msg = PeerMessage::Clipboard {
                    content_type: update.payload.content_type,
                    data: update.payload.data,
                };
                send(SendKind::Clipboard, &msg, events)
            },
            SessionEvent::Lagged(n) => {
                let mut line = owned("LAN outbound clipboard lagged by ");
                push_decimal(&mut line, n);
                line.append(" messages");
                let mut events = no_events();
                emit(&mut events, log_event(Level::Warn, line));
                assert(events_view(events@) =~= seq![
                    log_view(
                        Level::Warn,
                        "LAN outbound clipboard lagged by "@ + decimal_text(n as nat)
                            + " messages"@,
                    ),
                ]);
                SessionOutput { events, action: SessionAction::Continue }
            },
            SessionEvent::OutboundClosed => {
                self.open = false;
                SessionOutput { events: no_events(), action: SessionAction::Close(None) }
            },
            SessionEvent::Inbound(msg) => {
                if let PeerMessage::Pong { .. } = msg {
                    self.last_pong_ms = now_ms;
                }
                answer_inbound(msg)
            },
            SessionEvent::ReadFailed(m) => {
                self.open = false;
                SessionOutput {
                    events: no_events(),
                    action: SessionAction::Close(Some(SessionError::ReadFailed(m))),
                }
            },
            SessionEvent::WriteFailed { kind, message } => {
                self.open = false;
                SessionOutput {
                    events: no_events(),
                    action: SessionAction::Close(Some(SessionError::WriteFailed { kind, message })),
                }
            },
        }
    }
}

/// One event of a session, and when it came.
pub struct Timed {
    pub event: SessionEventView,
    pub now_ms: u64,
}

/// The session after a run of events.
pub open spec fn session_after(s: PeerSession, run: Seq<Timed>) -> PeerSession
    decreases run.len(),
{
    if run.len() == 0 {
        s
    } else {
        session_step(session_after(s, run.drop_last()), run.last().event, run.last().now_ms).0
    }
}

/// Whether an event is a pong from the peer.
pub open spec fn is_pong(e: SessionEventView) -> bool {
    e is Inbound && e->Inbound_0 is Pong
}

/// Heartbeat timeout: whatever else happens, a session that gets no pong
/// keeps the time of its last one, so that once
/// [`HEARTBEAT_TIMEOUT_MS`] have passed since then, the check before the next
/// wait closes it, if it is still open, with
/// [`SessionError::HeartbeatTimeout`], whose text is `heartbeat timeout`.
pub proof fn lemma_silent_peer_times_out(s: PeerSession, run: Seq<Timed>, now_ms: u64)
    requires
        forall|i: int| 0 <= i < run.len() ==> !is_pong((#[trigger] run[i]).event),
        heartbeat_expired(s.last_pong_ms, now_ms),
    ensures
        session_after(s, run).last_pong_ms == s.last_pong_ms,
        session_after(s, run).open ==> session_check(session_after(s, run), now_ms).1.action
            == SessionActionView::Close(Some(SessionErrorView::HeartbeatTimeout)) && !session_check(
            session_after(s, run),
            now_ms,
        ).0.open,
        session_error_text(SessionErrorView::HeartbeatTimeout) == "heartbeat timeout"@,
    decreases run.len(),
{
    if run.len() > 0 {
        let front = run.drop_last();
        assert forall|i: int| 0 <= i < front.len() implies !is_pong((#[trigger] front[i]).event) by {
            assert(front[i] == run[i]);
        }
        lemma_silent_peer_times_out(s, front, now_ms);
        assert(!is_pong(run[run.len() - 1].event));
    }
}

/// Cancellation closes a session in order, and a closed session answers
/// everything with `Close`.
pub proof fn lemma_cancel_closes_session(
    s: PeerSession,
    now_ms: u64,
    later: SessionEventView,
    later_ms: u64,
)
    ensures
        !session_step(s, SessionEventView::Cancelled, now_ms).0.open,
        session_step(s, SessionEventView::Cancelled, now_ms).1.action == SessionActionView::Close(
            None,
        ),
        session_step(
            session_step(s, SessionEventView::Cancelled, now_ms).0,
            later,
            later_ms,
        ).1 == ended(),
        session_check(session_step(s, SessionEventView::Cancelled, now_ms).0, later_ms).1
            == ended(),
{
}

/// A pong keeps an open session alive for the next
/// [`HEARTBEAT_TIMEOUT_MS`]: the check does not close it before then.
pub proof fn lemma_pong_keeps_alive(s: PeerSession, ts: u64, pong_ms: u64, now_ms: u64)
    requires
        s.open,
        now_ms - pong_ms <= HEARTBEAT_TIMEOUT_MS,
    ensures
        session_check(
            session_step(
                s,
                SessionEventView::Inbound(PeerMessageView::Pong { ts }),
                pong_ms,
            ).0,
            now_ms,
        ).1.action == SessionActionView::Continue,
{
}

/// Round trip of text over the LAN: text that the monitor of one peer
/// announces is carried by the session as it is, delivered by the session of
/// the other peer as it is, and written to that peer's clipboard as it is.
pub proof fn lemma_text_reaches_remote_clipboard(
    monitor: MonitorView,
    text: Seq<char>,
    now_ms: u64,
    applier: ApplierView,
)
    requires
        text_step(monitor, false, text, now_ms).1.outcome is Emitted,
    ensures
        ({
            let update = text_step(monitor, false, text, now_ms).1.outcome->Emitted_0;
            let delivered = inbound_answer(clipboard_message(update)).action;
            &&& update.payload.sender_device_id == monitor.device_id
            &&& delivered is Deliver
            &&& applier_begin(applier, delivered->Deliver_0).1.action == Some(
                ApplyActionView::WriteText(text),
            )
        }),
{
}

} // verus!
