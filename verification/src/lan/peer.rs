//! Pairing of LAN peers: who connects to whom, the handshake, and the
//! connecting side's retry loop.

use vstd::prelude::*;
use vstd::string::*;
use crate::events::{
    emit, events_view, log_event, log_line, log_view, no_events, Level, RuntimeEvent,
    RuntimeEventView,
};
use crate::json::{decimal_text, push_decimal};
use crate::lan::protocol::{
    msg_type_name, type_name_of, PeerMessage, PeerMessageView, DEFAULT_TCP_PORT,
    INITIAL_RECONNECT_DELAY_SECS, MAX_RECONNECT_DELAY_SECS,
};
use crate::text::{concat2, concat3, lemma_text_greater_total, owned, str_gt, text_greater};

verus! {

/// The pairing rule: the peer called `own_id` opens the TCP session to the
/// peer called `other_id` exactly if its id is the greater string.
pub open spec fn initiates(own_id: Seq<char>, other_id: Seq<char>) -> bool {
    text_greater(own_id, other_id)
}

/// Whether this peer is the one that connects to `other_id`; if not, it waits
/// to be connected to.
pub fn should_initiate(own_id: &str, other_id: &str) -> (r: bool)
    ensures
        r == initiates(own_id@, other_id@),
{
    str_gt(own_id, other_id)
}

/// Between two peers with different ids, exactly one connects to the other.
pub proof fn lemma_one_side_initiates(a: Seq<char>, b: Seq<char>)
    requires
        a != b,
    ensures
        initiates(a, b) != initiates(b, a),
{
    lemma_text_greater_total(a, b);
}

/// No peer connects to itself.
pub proof fn lemma_no_self_session(a: Seq<char>)
    ensures
        !initiates(a, a),
{
    lemma_text_greater_total(a, a);
}

/// The port in use: `port`, or the default where it is zero.
pub open spec fn effective_tcp_port(port: u16) -> u16 {
    if port == 0 {
        DEFAULT_TCP_PORT
    } else {
        port
    }
}

/// The TCP port to listen on for a configured `port`; zero selects the
/// default.
pub fn tcp_port_or_default(port: u16) -> (r: u16)
    ensures
        r == effective_tcp_port(port),
{
    if port == 0 {
        DEFAULT_TCP_PORT
    } else {
        port
    }
}

/// The wait that follows a wait of `delay` seconds: twice as long, up to the
/// ceiling.
pub open spec fn backoff_after(delay: u64) -> u64 {
    if 2 * delay >= MAX_RECONNECT_DELAY_SECS {
        MAX_RECONNECT_DELAY_SECS
    } else {
        (2 * delay) as u64
    }
}

/// The wait that follows a wait of `delay` seconds.
pub fn next_delay(delay: u64) -> (r: u64)
    ensures
        r == backoff_after(delay),
        r <= MAX_RECONNECT_DELAY_SECS,
{
    if delay >= MAX_RECONNECT_DELAY_SECS / 2 {
        MAX_RECONNECT_DELAY_SECS
    } else {
        delay * 2
    }
}

/// Why a handshake failed.
#[derive(Debug, PartialEq, Eq)]
pub enum HandshakeError {
    /// The first message was not the one the role expects.
    Unexpected { expected: String, got: String },
}

pub enum HandshakeErrorView {
    Unexpected { expected: Seq<char>, got: Seq<char> },
}

impl View for HandshakeError {
    type V = HandshakeErrorView;

    open spec fn view(&self) -> HandshakeErrorView {
        match self {
            HandshakeError::Unexpected { expected, got } => HandshakeErrorView::Unexpected {
                expected: expected@,
                got: got@,
            },
        }
    }
}

/// The text that describes a failed handshake.
pub open spec fn handshake_error_text(e: HandshakeErrorView) -> Seq<char> {
    match e {
        HandshakeErrorView::Unexpected { expected, got } => "expected "@ + expected + ", got "@
            + got,
    }
}

impl HandshakeError {
    /// Describes the failure, naming what was expected and what came.
    pub fn message(&self) -> (r: String)
        ensures
            r@ == handshake_error_text(self@),
    {
        match self {
            HandshakeError::Unexpected { expected, got } => {
                let mut out = concat3("expected ", expected.as_str(), ", got ");
                out.append(got.as_str());
                out
            },
        }
    }
}

/// The other side of a session, as it named itself.
#[derive(Debug, PartialEq, Eq)]
pub struct RemotePeer {
    pub device_id: String,
    pub device_name: String,
}

/// What the accepting side makes of the first message: a `Hello` names the
/// remote peer and is answered with a `Welcome` that names this one; anything
/// else ends the session.
pub open spec fn host_handshake_of(first: PeerMessageView, own_id: Seq<char>, own_name: Seq<char>)
    -> Result<((Seq<char>, Seq<char>), PeerMessageView), HandshakeErrorView> {
    match first {
        PeerMessageView::Hello { device_id, device_name } => Ok(
            (
                (device_id, device_name),
                PeerMessageView::Welcome { device_id: own_id, device_name: own_name },
            ),
        ),
        other => Err(
            HandshakeErrorView::Unexpected { expected: "Hello"@, got: type_name_of(other) },
        ),
    }
}

/// Accepting side: checks the first message and builds the reply.
pub fn host_handshake(first: PeerMessage, own_id: &str, own_name: &str) -> (r: Result<
    (RemotePeer, PeerMessage),
    HandshakeError,
>)
    ensures
        match r {
            Ok((remote, reply)) => host_handshake_of(first@, own_id@, own_name@) == Ok::<
                ((Seq<char>, Seq<char>), PeerMessageView),
                HandshakeErrorView,
            >(((remote.device_id@, remote.device_name@), reply@)),
            Err(e) => host_handshake_of(first@, own_id@, own_name@) == Err::<
                ((Seq<char>, Seq<char>), PeerMessageView),
                HandshakeErrorView,
            >(e@),
        },
{
    match first {
        PeerMessage::Hello { device_id, device_name } => Ok(
            (
                RemotePeer { device_id, device_name },
                PeerMessage::Welcome { device_id: owned(own_id), device_name: owned(own_name) },
            ),
        ),
        other => Err(
            HandshakeError::Unexpected {
                expected: owned("Hello"),
                got: owned(msg_type_name(&other)),
            },
        ),
    }
}

/// Connecting side: the message that opens the session.
pub fn client_hello(own_id: &str, own_name: &str) -> (r: PeerMessage)
    ensures
        r@ == (PeerMessageView::Hello { device_id: own_id@, device_name: own_name@ }),
{
    PeerMessage::Hello { device_id: owned(own_id), device_name: owned(own_name) }
}

/// What the connecting side makes of the reply to its `Hello`: a `Welcome`
/// names the remote peer; anything else ends the session.
pub open spec fn client_handshake_of(reply: PeerMessageView) -> Result<
    (Seq<char>, Seq<char>),
    HandshakeErrorView,
> {
    match reply {
        PeerMessageView::Welcome { device_id, device_name } => Ok((device_id, device_name)),
        other => Err(
            HandshakeErrorView::Unexpected { expected: "Welcome"@, got: type_name_of(other) },
        ),
    }
}

/// Connecting side: checks the reply to `Hello`.
pub fn client_handshake(reply: PeerMessage) -> (r: Result<RemotePeer, HandshakeError>)
    ensures
        match r {
            Ok(remote) => client_handshake_of(reply@) == Ok::<
                (Seq<char>, Seq<char>),
                HandshakeErrorView,
            >((remote.device_id@, remote.device_name@)),
            Err(e) => client_handshake_of(reply@) == Err::<
                (Seq<char>, Seq<char>),
                HandshakeErrorView,
            >(e@),
        },
{
    match reply {
        PeerMessage::Welcome { device_id, device_name } => Ok(
            RemotePeer { device_id, device_name },
        ),
        other => Err(
            HandshakeError::Unexpected {
                expected: owned("Welcome"),
                got: owned(msg_type_name(&other)),
            },
        ),
    }
}

/// Where the connecting side's retry loop stands.
#[derive(Debug, Clone, Copy, PartialEq, Eq, Structural)]
pub enum DialPhase {
    /// A TCP connection attempt is under way.
    Connecting,
    /// A session is running.
    InSession,
    /// Waiting before the next attempt.
    Waiting,
    /// Cancelled.
    Stopped,
}

/// What the embedder observed.
#[derive(Debug, PartialEq, Eq)]
pub enum DialEvent {
    Connected,
    ConnectFailed(String),
    /// The session ended by itself.
    SessionClosed,
    /// The session ended with an error.
    SessionFailed(String),
    TimerElapsed,
    Cancelled,
}

pub enum DialEventView {
    Connected,
    ConnectFailed(Seq<char>),
    SessionClosed,
    SessionFailed(Seq<char>),
    TimerElapsed,
    Cancelled,
}

impl View for DialEvent {
    type V = DialEventView;

    open spec fn view(&self) -> DialEventView {
        match self {
            DialEvent::Connected => DialEventView::Connected,
            DialEvent::ConnectFailed(m) => DialEventView::ConnectFailed(m@),
            DialEvent::SessionClosed => DialEventView::SessionClosed,
            DialEvent::SessionFailed(m) => DialEventView::SessionFailed(m@),
            DialEvent::TimerElapsed => DialEventView::TimerElapsed,
            DialEvent::Cancelled => DialEventView::Cancelled,
        }
    }
}

/// What the embedder does next.
#[derive(Debug, Clone, Copy, PartialEq, Eq, Structural)]
pub enum DialAction {
    /// Open a TCP connection to the peer.
    Connect,
    /// Run the handshake and the session on the open connection.
    RunSession,
    /// Wait, unless cancelled first.
    Wait { seconds: u64 },
    /// Nothing to do until the next event.
    Continue,
    /// End the task.
    Stop,
}

/// The answer to one event.
#[derive(Debug, PartialEq, Eq)]
pub struct DialOutput {
    pub events: Vec<RuntimeEvent>,
    pub action: DialAction,
}

pub struct DialOutputView {
    pub events: Seq<RuntimeEventView>,
    pub action: DialAction,
}

impl View for DialOutput {
    type V = DialOutputView;

    open spec fn view(&self) -> DialOutputView {
        DialOutputView { events: events_view(self.events@), action: self.action }
    }
}

/// The connecting side's loop for one peer: connect, run the session, and
/// after a failure wait with exponential back-off.
#[derive(Debug, PartialEq, Eq)]
pub struct Dialer {
    pub phase: DialPhase,
    /// `"<ip>:<port>"` of the peer.
    pub peer_addr: String,
    /// The wait that the next failure is followed by, in seconds.
    pub delay_secs: u64,
}

pub struct DialerView {
    pub phase: DialPhase,
    pub peer_addr: Seq<char>,
    pub delay_secs: u64,
}

impl View for Dialer {
    type V = DialerView;

    open spec fn view(&self) -> DialerView {
        DialerView { phase: self.phase, peer_addr: self.peer_addr@, delay_secs: self.delay_secs }
    }
}

/// The log line that announces a connection attempt.
pub open spec fn dialing_event(addr: Seq<char>) -> RuntimeEventView {
    log_view(Level::Info, "LAN client connecting to "@ + addr)
}

/// The log line that announces a wait.
pub open spec fn waiting_event(seconds: u64) -> RuntimeEventView {
    log_view(Level::Info, "LAN client reconnecting in "@ + decimal_text(seconds as nat) + "s"@)
}

/// The dialer waiting for its current delay, with `before` and the
/// announcement of the wait as events.
pub open spec fn dial_wait(s: DialerView, before: Seq<RuntimeEventView>) -> (
    DialerView,
    DialOutputView,
) {
    (
        DialerView { phase: DialPhase::Waiting, ..s },
        DialOutputView {
            events: before.push(waiting_event(s.delay_secs)),
            action: DialAction::Wait { seconds: s.delay_secs },
        },
    )
}

/// The transition function of the retry loop. A connection that succeeds
/// resets the delay to its initial value; every wait that runs out doubles
/// it, up to the ceiling.
pub open spec fn dial_step(s: DialerView, e: DialEventView) -> (DialerView, DialOutputView) {
    let ignore = (s, DialOutputView { events: Seq::empty(), action: DialAction::Continue });
    match e {
        DialEventView::Cancelled => (
            DialerView { phase: DialPhase::Stopped, ..s },
            DialOutputView {
                events: seq![log_view(Level::Debug, "LAN client reconnect loop stopped"@)],
                action: DialAction::Stop,
            },
        ),
        _ => match s.phase {
            DialPhase::Stopped => (
                s,
                DialOutputView { events: Seq::empty(), action: DialAction::Stop },
            ),
            DialPhase::Connecting => match e {
                DialEventView::Connected => (
                    DialerView {
                        phase: DialPhase::InSession,
                        delay_secs: INITIAL_RECONNECT_DELAY_SECS,
                        ..s
                    },
                    DialOutputView {
                        events: seq![
                            log_view(Level::Info, "LAN client connected to "@ + s.peer_addr),
                        ],
                        action: DialAction::RunSession,
                    },
                ),
                DialEventView::ConnectFailed(m) => dial_wait(
                    s,
                    seq![
                        log_view(
                            Level::Warn,
                            "LAN client connect to "@ + s.peer_addr + " failed: "@ + m,
                        ),
                    ],
                ),
                _ => ignore,
            },
            DialPhase::InSession => match e {
                DialEventView::SessionClosed => dial_wait(s, Seq::empty()),
                DialEventView::SessionFailed(m) => dial_wait(
                    s,
                    seq![
                        log_view(
                            Level::Warn,
                            "LAN client session with "@ + s.peer_addr + " ended: "@ + m,
                        ),
                    ],
                ),
                _ => ignore,
            },
            DialPhase::Waiting => match e {
                DialEventView::TimerElapsed => (
                    DialerView {
                        phase: DialPhase::Connecting,
                        delay_secs: backoff_after(s.delay_secs),
                        ..s
                    },
                    DialOutputView {
                        events: seq![dialing_event(s.peer_addr)],
                        action: DialAction::Connect,
                    },
                ),
                _ => ignore,
            },
        },
    }
}

/// The dialer at its start and the answer that opens the first attempt.
pub open spec fn dial_start(peer_addr: Seq<char>) -> (DialerView, DialOutputView) {
    (
        DialerView {
            phase: DialPhase::Connecting,
            peer_addr,
            delay_secs: INITIAL_RECONNECT_DELAY_SECS,
        },
        DialOutputView { events: seq![dialing_event(peer_addr)], action: DialAction::Connect },
    )
}

/// The wait between two attempts is never shorter than the initial delay
/// nor longer than the ceiling, and each wait lasts as long as the delay
/// stood before it.
pub proof fn lemma_delay_in_bounds(s: DialerView, e: DialEventView)
    requires
        INITIAL_RECONNECT_DELAY_SECS <= s.delay_secs <= MAX_RECONNECT_DELAY_SECS,
    ensures
        INITIAL_RECONNECT_DELAY_SECS <= dial_step(s, e).0.delay_secs <= MAX_RECONNECT_DELAY_SECS,
        dial_step(s, e).1.action is Wait ==> dial_step(s, e).1.action->seconds == s.delay_secs,
        dial_step(s, e).0.delay_secs != s.delay_secs ==> (e is Connected && dial_step(
            s,
            e,
        ).0.delay_secs == INITIAL_RECONNECT_DELAY_SECS) || (e is TimerElapsed && dial_step(
            s,
            e,
        ).0.delay_secs == backoff_after(s.delay_secs)),
{
}

/// Cancellation ends the loop from every phase, for good.
pub proof fn lemma_cancel_stops_dialer(s: DialerView, later: DialEventView)
    ensures
        dial_step(s, DialEventView::Cancelled).0.phase == DialPhase::Stopped,
        dial_step(s, DialEventView::Cancelled).1.action == DialAction::Stop,
        dial_step(dial_step(s, DialEventView::Cancelled).0, later).1.action == DialAction::Stop,
{
}

impl Dialer {
    /// Starts the loop for the peer at `peer_addr`.
    pub fn start(peer_addr: String) -> (r: (Dialer, DialOutput))
        ensures
            (r.0@, r.1@) == dial_start(peer_addr@),
    {
        let mut events = no_events();
        emit(&mut events, log_event(Level::Info, concat2("LAN client connecting to ", peer_addr.as_str())));
        let out = DialOutput { events, action: DialAction::Connect };
        assert(out@.events =~= seq![dialing_event(peer_addr@)]);
        (
            Dialer {
                phase: DialPhase::Connecting,
                peer_addr,
                delay_secs: INITIAL_RECONNECT_DELAY_SECS,
            },
            out,
        )
    }

    fn wait(&mut self, events: Vec<RuntimeEvent>) -> (r: DialOutput)
        ensures
            (final(self)@, r@) == dial_wait(old(self)@, events_view(events@)),
    {
        let mut events = events;
        let mut line = owned("LAN client reconnecting in ");
        push_decimal(&mut line, self.delay_secs);
        line.append("s");
        emit(&mut events, log_event(Level::Info, line));
        self.phase = DialPhase::Waiting;
        DialOutput { events, action: DialAction::Wait { seconds: self.delay_secs } }
    }

    fn ignore(&self) -> (r: DialOutput)
        ensures
            r@ == (DialOutputView { events: Seq::empty(), action: DialAction::Continue }),
    {
        DialOutput { events: no_events(), action: DialAction::Continue }
    }

    /// Answers one event: the events to publish and what to do next.
    pub fn step(&mut self, event: DialEvent) -> (r: DialOutput)
        ensures
            (final(self)@, r@) == dial_step(old(self)@, event@),
            event@ is Cancelled ==> r.action == DialAction::Stop,
    {
        if let DialEvent::Cancelled = event {
            let mut events = no_events();
            emit(&mut events, log_line(Level::Debug, "LAN client reconnect loop stopped"));
            assert(events_view(events@) =~= seq![
                log_view(Level::Debug, "LAN client reconnect loop stopped"@),
            ]);
            self.phase = DialPhase::Stopped;
            return DialOutput { events, action: DialAction::Stop };
        }
        match self.phase {
            DialPhase::Stopped => DialOutput { events: no_events(), action: DialAction::Stop },
            DialPhase::Connecting => match event {
                DialEvent::Connected => {
                    let mut events = no_events();
                    emit(&mut events, log_event(Level::Info, concat2("LAN client connected to ", self.peer_addr.as_str())));
                    assert(events_view(events@) =~= seq![
                        log_view(Level::Info, "LAN client connected to "@ + self.peer_addr@),
                    ]);
                    self.phase = DialPhase::InSession;
                    self.delay_secs = INITIAL_RECONNECT_DELAY_SECS;
                    DialOutput { events, action: DialAction::RunSession }
                },
                DialEvent::ConnectFailed(m) => {
                    let mut events = no_events();
                    let mut line = concat3("LAN client connect to ", self.peer_addr.as_str(), " failed: ");
                    line.append(m.as_str());
                    emit(&mut events, log_event(Level::Warn, line));
                    assert(events_view(events@) =~= seq![
                        log_view(
                            Level::Warn,
                            "LAN client connect to "@ + self.peer_addr@ + " failed: "@ + m@,
                        ),
                    ]);
                    self.wait(events)
                },
                _ => self.ignore(),
            },
            DialPhase::InSession => match event {
                DialEvent::SessionClosed => self.wait(no_events()),
                DialEvent::SessionFailed(m) => {
                    let mut events = no_events();
                    let mut line = concat3("LAN client session with ", self.peer_addr.as_str(), " ended: ");
                    line.append(m.as_str());
                    emit(&mut events, log_event(Level::Warn, line));
                    assert(events_view(events@) =~= seq![
                        log_view(
                            Level::Warn,
                            "LAN client session with "@ + self.peer_addr@ + " ended: "@ + m@,
                        ),
                    ]);
                    self.wait(events)
                },
                _ => self.ignore(),
            },
            DialPhase::Waiting => match event {
                DialEvent::TimerElapsed => {
                    let mut events = no_events();
                    emit(&mut events, log_event(Level::Info, concat2("LAN client connecting to ", self.peer_addr.as_str())));
                    assert(events_view(events@) =~= seq![dialing_event(self.peer_addr@)]);
                    self.phase = DialPhase::Connecting;
                    self.delay_secs = next_delay(self.delay_secs);
                    DialOutput { events, action: DialAction::Connect }
                },
                _ => self.ignore(),
            },
        }
    }
}

} // verus!
