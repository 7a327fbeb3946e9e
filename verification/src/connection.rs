//! The life of the connection to the relay server, as a state machine.
//!
//! The embedder owns the socket and the timers. It reports what happened as a
//! [`LinkEvent`]; [`ServerLink::step`] answers with the events to publish and
//! the one thing to do next.

use vstd::prelude::*;
use vstd::string::*;
use crate::config::{Config, ConfigView};
use crate::events::{
    connection_view, emit, events_view, log_event, log_line, log_view, no_events, status_line,
    status_view, ConnectionStateEvent, Level, RuntimeEvent, RuntimeEventView,
};
use crate::messages::{
    ClipboardBroadcastPayload, ClipboardBroadcastPayloadView, ClipboardUpdate, ClipboardUpdateView,
};
use crate::server::{
    auth_error_text, auth_request_of, auth_request_text, check_auth_reply, classify_inbound,
    encode_update, inbound_of_text, reply_verdict_of_text, update_text, AuthError, AuthErrorView,
    Inbound, InboundView,
};
use crate::text::concat2;

verus! {

/// Seconds to wait before connecting again after a lost or failed connection.
pub const RECONNECT_DELAY_SECS: u64 = 5;

/// Seconds to wait before connecting again after a failed authentication.
pub const AUTH_RETRY_DELAY_SECS: u64 = 3;

/// Where the connection stands.
#[derive(Debug, Clone, Copy, PartialEq, Eq, Structural)]
pub enum Phase {
    /// A connection attempt is under way.
    Connecting,
    /// The request is sent; the first frame is awaited.
    Authenticating,
    /// Updates flow both ways.
    Streaming,
    /// Waiting after a failed authentication.
    AuthBackoff,
    /// Waiting after a lost or failed connection.
    ReconnectBackoff,
    /// Cancelled; nothing more happens.
    Stopped,
}

/// What the embedder observed.
#[derive(Debug, PartialEq, Eq)]
pub enum LinkEvent {
    Connected,
    ConnectFailed(String),
    /// A text frame arrived.
    Frame(String),
    /// A frame that is not text arrived.
    NonTextFrame,
    ReadFailed(String),
    /// The server closed the stream.
    Closed,
    /// The monitor published a clipboard change.
    Outbound(ClipboardUpdate),
    /// The monitor's channel is gone.
    OutboundClosed,
    SendFailed(String),
    /// The wait asked for by [`LinkAction::Wait`] is over.
    TimerElapsed,
    Cancelled,
}

pub enum LinkEventView {
    Connected,
    ConnectFailed(Seq<char>),
    Frame(Seq<char>),
    NonTextFrame,
    ReadFailed(Seq<char>),
    Closed,
    Outbound(ClipboardUpdateView),
    OutboundClosed,
    SendFailed(Seq<char>),
    TimerElapsed,
    Cancelled,
}

impl View for LinkEvent {
    type V = LinkEventView;

    open spec fn view(&self) -> LinkEventView {
        match self {
            LinkEvent::Connected => LinkEventView::Connected,
            LinkEvent::ConnectFailed(m) => LinkEventView::ConnectFailed(m@),
            LinkEvent::Frame(t) => LinkEventView::Frame(t@),
            LinkEvent::NonTextFrame => LinkEventView::NonTextFrame,
            LinkEvent::ReadFailed(m) => LinkEventView::ReadFailed(m@),
            LinkEvent::Closed => LinkEventView::Closed,
            LinkEvent::Outbound(u) => LinkEventView::Outbound(u@),
            LinkEvent::OutboundClosed => LinkEventView::OutboundClosed,
            LinkEvent::SendFailed(m) => LinkEventView::SendFailed(m@),
            LinkEvent::TimerElapsed => LinkEventView::TimerElapsed,
            LinkEvent::Cancelled => LinkEventView::Cancelled,
        }
    }
}

/// What the embedder does next.
#[derive(Debug, PartialEq, Eq)]
pub enum LinkAction {
    /// Open a WebSocket; with `insecure`, accept any certificate.
    Connect { insecure: bool },
    /// Send a text frame, then go on listening.
    Send(String),
    /// Hand the payload to the clipboard applier, then go on listening.
    Deliver(ClipboardBroadcastPayload),
    /// Drop the socket and wait, unless cancelled first.
    Wait { seconds: u64 },
    /// Go on listening.
    Continue,
    /// Drop the socket and end the task.
    Stop,
}

pub enum LinkActionView {
    Connect { insecure: bool },
    Send(Seq<char>),
    Deliver(ClipboardBroadcastPayloadView),
    Wait { seconds: u64 },
    Continue,
    Stop,
}

impl View for LinkAction {
    type V = LinkActionView;

    open spec fn view(&self) -> LinkActionView {
        match self {
            LinkAction::Connect { insecure } => LinkActionView::Connect { insecure: *insecure },
            LinkAction::Send(t) => LinkActionView::Send(t@),
            LinkAction::Deliver(p) => LinkActionView::Deliver(p@),
            LinkAction::Wait { seconds } => LinkActionView::Wait { seconds: *seconds },
            LinkAction::Continue => LinkActionView::Continue,
            LinkAction::Stop => LinkActionView::Stop,
        }
    }
}

/// The answer to one event.
#[derive(Debug, PartialEq, Eq)]
pub struct LinkOutput {
    /// Events to publish, in order.
    pub events: Vec<RuntimeEvent>,
    pub action: LinkAction,
}

pub struct LinkOutputView {
    pub events: Seq<RuntimeEventView>,
    pub action: LinkActionView,
}

impl View for LinkOutput {
    type V = LinkOutputView;

    open spec fn view(&self) -> LinkOutputView {
        LinkOutputView { events: events_view(self.events@), action: self.action@ }
    }
}

/// One connection to the relay server, from the first attempt until the task
/// is cancelled.
#[derive(Debug, PartialEq, Eq)]
pub struct ServerLink {
    pub phase: Phase,
    pub config: Config,
    /// Accept any certificate when connecting.
    pub insecure: bool,
    /// This session's device id.
    pub device_id: String,
}

pub struct ServerLinkView {
    pub phase: Phase,
    pub config: ConfigView,
    pub insecure: bool,
    pub device_id: Seq<char>,
}

impl View for ServerLink {
    type V = ServerLinkView;

    open spec fn view(&self) -> ServerLinkView {
        ServerLinkView {
            phase: self.phase,
            config: self.config@,
            insecure: self.insecure,
            device_id: self.device_id@,
        }
    }
}

/// Events that announce a connection attempt. One that will accept any
/// certificate is announced with a warning, each time.
pub open spec fn connecting_events(insecure: bool) -> Seq<RuntimeEventView> {
    if insecure {
        seq![
            log_view(Level::Warn, "TLS certificate verification is disabled"@),
            connection_view(ConnectionStateEvent::Connecting),
            status_view("connecting to server"@),
        ]
    } else {
        seq![
            connection_view(ConnectionStateEvent::Connecting),
            status_view("connecting to server"@),
        ]
    }
}

/// Events that announce an open socket.
pub open spec fn connected_events() -> Seq<RuntimeEventView> {
    seq![
        log_view(Level::Info, "WebSocket connected"@),
        connection_view(ConnectionStateEvent::Connected),
        status_view("connected"@),
    ]
}

/// Events that announce a failed authentication.
pub open spec fn auth_failed_events(e: AuthErrorView) -> Seq<RuntimeEventView> {
    seq![
        RuntimeEventView::Error("authentication failed: "@ + auth_error_text(e)),
        connection_view(ConnectionStateEvent::Disconnected),
    ]
}

/// Events that announce the wait before the next attempt.
pub open spec fn retry_events() -> Seq<RuntimeEventView> {
    seq![
        connection_view(ConnectionStateEvent::Reconnecting),
        status_view("reconnecting in 5 s"@),
    ]
}

/// Events that announce a lost connection and the wait that follows.
pub open spec fn lost_events() -> Seq<RuntimeEventView> {
    seq![
        connection_view(ConnectionStateEvent::Disconnected),
        status_view("connection lost, retrying"@),
    ] + retry_events()
}

/// Events that announce the end of the task.
pub open spec fn paused_events() -> Seq<RuntimeEventView> {
    seq![connection_view(ConnectionStateEvent::Paused), status_view("paused"@)]
}

/// The link in `phase`, otherwise as `s`.
pub open spec fn in_phase(s: ServerLinkView, phase: Phase) -> ServerLinkView {
    ServerLinkView { phase, ..s }
}

/// The link after a failed authentication, and what is answered.
pub open spec fn fail_auth(s: ServerLinkView, before: Seq<RuntimeEventView>, e: AuthErrorView) -> (
    ServerLinkView,
    LinkOutputView,
) {
    (
        in_phase(s, Phase::AuthBackoff),
        LinkOutputView {
            events: before + auth_failed_events(e),
            action: LinkActionView::Wait { seconds: AUTH_RETRY_DELAY_SECS },
        },
    )
}

/// The link after a lost connection, and what is answered.
pub open spec fn lose(s: ServerLinkView, before: Seq<RuntimeEventView>) -> (
    ServerLinkView,
    LinkOutputView,
) {
    (
        in_phase(s, Phase::ReconnectBackoff),
        LinkOutputView {
            events: before + lost_events(),
            action: LinkActionView::Wait { seconds: RECONNECT_DELAY_SECS },
        },
    )
}

/// The link unchanged, listening on.
pub open spec fn stay(s: ServerLinkView, events: Seq<RuntimeEventView>) -> (
    ServerLinkView,
    LinkOutputView,
) {
    (s, LinkOutputView { events, action: LinkActionView::Continue })
}

/// The link after cancellation, and what is answered.
pub open spec fn stop(s: ServerLinkView, before: Seq<RuntimeEventView>) -> (
    ServerLinkView,
    LinkOutputView,
) {
    (
        in_phase(s, Phase::Stopped),
        LinkOutputView { events: before + paused_events(), action: LinkActionView::Stop },
    )
}

/// An event while a connection attempt is under way.
pub open spec fn step_connecting(s: ServerLinkView, e: LinkEventView) -> (
    ServerLinkView,
    LinkOutputView,
) {
    match e {
        LinkEventView::Connected => match auth_request_of(s.config) {
            Ok(request) => (
                in_phase(s, Phase::Authenticating),
                LinkOutputView {
                    events: connected_events().push(
                        log_view(Level::Debug, "authentication request sent"@),
                    ),
                    action: LinkActionView::Send(request),
                },
            ),
            Err(err) => fail_auth(s, connected_events(), err),
        },
        LinkEventView::ConnectFailed(m) => (
            in_phase(s, Phase::ReconnectBackoff),
            LinkOutputView {
                events: seq![
                    log_view(Level::Error, "connect failed: "@ + m),
                    connection_view(ConnectionStateEvent::Disconnected),
                ] + retry_events(),
                action: LinkActionView::Wait { seconds: RECONNECT_DELAY_SECS },
            },
        ),
        LinkEventView::Cancelled => stop(s, Seq::empty()),
        _ => stay(s, Seq::empty()),
    }
}

/// An event while the authentication reply is awaited.
pub open spec fn step_authenticating(s: ServerLinkView, e: LinkEventView) -> (
    ServerLinkView,
    LinkOutputView,
) {
    match e {
        LinkEventView::Frame(text) => match reply_verdict_of_text(text) {
            Ok(p) => (
                in_phase(s, Phase::Streaming),
                LinkOutputView {
                    events: seq![
                        log_view(Level::Info, "authenticated: "@ + p.message),
                        status_view("authenticated"@),
                    ],
                    action: LinkActionView::Continue,
                },
            ),
            Err(err) => fail_auth(s, Seq::empty(), err),
        },
        LinkEventView::NonTextFrame => fail_auth(s, Seq::empty(), AuthErrorView::NotText),
        LinkEventView::ReadFailed(m) => fail_auth(s, Seq::empty(), AuthErrorView::Transport(m)),
        LinkEventView::SendFailed(m) => fail_auth(s, Seq::empty(), AuthErrorView::Transport(m)),
        LinkEventView::Closed => fail_auth(s, Seq::empty(), AuthErrorView::NoReply),
        LinkEventView::Cancelled => stop(s, Seq::empty()),
        _ => stay(s, Seq::empty()),
    }
}

/// An event in steady state.
pub open spec fn step_streaming(s: ServerLinkView, e: LinkEventView) -> (
    ServerLinkView,
    LinkOutputView,
) {
    match e {
        LinkEventView::Outbound(u) => (
            s,
            LinkOutputView { events: Seq::empty(), action: LinkActionView::Send(update_text(u)) },
        ),
        LinkEventView::OutboundClosed => lose(s, Seq::empty()),
        LinkEventView::SendFailed(m) => lose(s, seq![log_view(Level::Error, "send failed: "@ + m)]),
        LinkEventView::Frame(text) => match inbound_of_text(text, s.device_id) {
            InboundView::Apply(p) => (
                s,
                LinkOutputView {
                    events: seq![log_view(Level::Debug, "broadcast received"@)],
                    action: LinkActionView::Deliver(p),
                },
            ),
            InboundView::OwnEcho => stay(s, seq![log_view(Level::Debug, "own broadcast ignored"@)]),
            InboundView::Unrecognized => stay(
                s,
                seq![log_view(Level::Warn, "unrecognized broadcast: "@ + text)],
            ),
        },
        LinkEventView::NonTextFrame => stay(
            s,
            seq![log_view(Level::Warn, "ignoring non-text message"@)],
        ),
        LinkEventView::ReadFailed(m) => lose(s, seq![log_view(Level::Error, "read failed: "@ + m)]),
        LinkEventView::Closed => lose(s, Seq::empty()),
        LinkEventView::Cancelled => stop(
            s,
            seq![
                log_view(Level::Debug, "connection task cancelled"@),
                connection_view(ConnectionStateEvent::Disconnected),
            ],
        ),
        _ => stay(s, Seq::empty()),
    }
}

/// An event during one of the two waits.
pub open spec fn step_waiting(s: ServerLinkView, e: LinkEventView) -> (
    ServerLinkView,
    LinkOutputView,
) {
    match e {
        LinkEventView::TimerElapsed => (
            in_phase(s, Phase::Connecting),
            LinkOutputView {
                events: connecting_events(s.insecure),
                action: LinkActionView::Connect { insecure: s.insecure },
            },
        ),
        LinkEventView::Cancelled => stop(s, Seq::empty()),
        _ => stay(s, Seq::empty()),
    }
}

/// The transition function of the connection: the link after `e` and the
/// answer to it.
pub open spec fn link_step(s: ServerLinkView, e: LinkEventView) -> (ServerLinkView, LinkOutputView) {
    match s.phase {
        Phase::Connecting => step_connecting(s, e),
        Phase::Authenticating => step_authenticating(s, e),
        Phase::Streaming => step_streaming(s, e),
        Phase::AuthBackoff => step_waiting(s, e),
        Phase::ReconnectBackoff => step_waiting(s, e),
        Phase::Stopped => (
            s,
            LinkOutputView { events: Seq::empty(), action: LinkActionView::Stop },
        ),
    }
}

/// The link at its start and the answer that opens the first connection.
pub open spec fn link_start(config: ConfigView, insecure: bool, device_id: Seq<char>) -> (
    ServerLinkView,
    LinkOutputView,
) {
    (
        ServerLinkView { phase: Phase::Connecting, config, insecure, device_id },
        LinkOutputView {
            events: seq![log_view(Level::Info, "target server: "@ + config.server_url)]
                + connecting_events(insecure),
            action: LinkActionView::Connect { insecure },
        },
    )
}

fn push_connecting(events: &mut Vec<RuntimeEvent>, insecure: bool)
    ensures
        events_view(final(events)@) == events_view(old(events)@) + connecting_events(insecure),
{
    if insecure {
        emit(events, log_line(Level::Warn, "TLS certificate verification is disabled"));
    }
    emit(events, RuntimeEvent::Connection(ConnectionStateEvent::Connecting));
    emit(events, status_line("connecting to server"));
    assert(events_view(events@) =~= events_view(old(events)@) + connecting_events(insecure));
}

fn push_connected(events: &mut Vec<RuntimeEvent>)
    ensures
        events_view(final(events)@) == events_view(old(events)@) + connected_events(),
{
    emit(events, log_line(Level::Info, "WebSocket connected"));
    emit(events, RuntimeEvent::Connection(ConnectionStateEvent::Connected));
    emit(events, status_line("connected"));
    assert(events_view(events@) =~= events_view(old(events)@) + connected_events());
}

fn push_retry(events: &mut Vec<RuntimeEvent>)
    ensures
        events_view(final(events)@) == events_view(old(events)@) + retry_events(),
{
    emit(events, RuntimeEvent::Connection(ConnectionStateEvent::Reconnecting));
    emit(events, status_line("reconnecting in 5 s"));
    assert(events_view(events@) =~= events_view(old(events)@) + retry_events());
}

fn push_paused(events: &mut Vec<RuntimeEvent>)
    ensures
        events_view(final(events)@) == events_view(old(events)@) + paused_events(),
{
    emit(events, RuntimeEvent::Connection(ConnectionStateEvent::Paused));
    emit(events, status_line("paused"));
    assert(events_view(events@) =~= events_view(old(events)@) + paused_events());
}

impl ServerLink {
    /// Starts the life of a connection.
    pub fn open(config: Config, insecure: bool, device_id: String) -> (r: (ServerLink, LinkOutput))
        ensures
            (r.0@, r.1@) == link_start(config@, insecure, device_id@),
    {
        let mut events = no_events();
        emit(&mut events, log_event(Level::Info, concat2("target server: ", config.server_url.as_str())));
        push_connecting(&mut events, insecure);
        let link = ServerLink { phase: Phase::Connecting, config, insecure, device_id };
        let out = LinkOutput { events, action: LinkAction::Connect { insecure } };
        assert(out@.events =~= link_start(config@, insecure, device_id@).1.events);
        (link, out)
    }

    fn fail_auth(&mut self, events: Vec<RuntimeEvent>, err: AuthError) -> (r: LinkOutput)
        ensures
            (final(self)@, r@) == fail_auth(old(self)@, events_view(events@), err@),
    {
        let mut events = events;
        let ghost before = events_view(events@);
        emit(&mut events, RuntimeEvent::Error(concat2("authentication failed: ", err.message().as_str())));
        emit(&mut events, RuntimeEvent::Connection(ConnectionStateEvent::Disconnected));
        assert(events_view(events@) =~= before + auth_failed_events(err@));
        self.phase = Phase::AuthBackoff;
        LinkOutput { events, action: LinkAction::Wait { seconds: AUTH_RETRY_DELAY_SECS } }
    }

    fn lose(&mut self, events: Vec<RuntimeEvent>) -> (r: LinkOutput)
        ensures
            (final(self)@, r@) == lose(old(self)@, events_view(events@)),
    {
        let mut events = events;
        let ghost before = events_view(events@);
        emit(&mut events, RuntimeEvent::Connection(ConnectionStateEvent::Disconnected));
        emit(&mut events, status_line("connection lost, retrying"));
        push_retry(&mut events);
        assert(events_view(events@) =~= before + lost_events());
        self.phase = Phase::ReconnectBackoff;
        LinkOutput { events, action: LinkAction::Wait { seconds: RECONNECT_DELAY_SECS } }
    }

    fn stop(&mut self, events: Vec<RuntimeEvent>) -> (r: LinkOutput)
        ensures
            (final(self)@, r@) == stop(old(self)@, events_view(events@)),
    {
        let mut events = events;
        push_paused(&mut events);
        self.phase = Phase::Stopped;
        LinkOutput { events, action: LinkAction::Stop }
    }

    fn stay(&self, events: Vec<RuntimeEvent>) -> (r: LinkOutput)
        ensures
            (self@, r@) == stay(self@, events_view(events@)),
    {
        LinkOutput { events, action: LinkAction::Continue }
    }

    fn on_connecting(&mut self, event: LinkEvent) -> (r: LinkOutput)
        requires
            old(self).phase == Phase::Connecting,
        ensures
            (final(self)@, r@) == step_connecting(old(self)@, event@),
    {
        match event {
            LinkEvent::Connected => {
                let mut events = no_events();
                push_connected(&mut events);
                match auth_request_text(&self.config) {
                    Ok(request) => {
                        emit(&mut events, log_line(Level::Debug, "authentication request sent"));
                        self.phase = Phase::Authenticating;
                        let out = LinkOutput { events, action: LinkAction::Send(request) };
                        assert(out@.events =~= connected_events().push(
                            log_view(Level::Debug, "authentication request sent"@),
                        ));
                        out
                    },
                    Err(err) => {
                        assert(events_view(events@) =~= connected_events());
                        self.fail_auth(events, err)
                    },
                }
            },
            LinkEvent::ConnectFailed(m) => {
                let mut events = no_events();
                emit(&mut events, log_event(Level::Error, concat2("connect failed: ", m.as_str())));
                emit(&mut events, RuntimeEvent::Connection(ConnectionStateEvent::Disconnected));
                push_retry(&mut events);
                self.phase = Phase::ReconnectBackoff;
                let out = LinkOutput {
                    events,
                    action: LinkAction::Wait { seconds: RECONNECT_DELAY_SECS },
                };
                assert(out@.events =~= seq![
                    log_view(Level::Error, "connect failed: "@ + m@),
                    connection_view(ConnectionStateEvent::Disconnected),
                ] + retry_events());
                out
            },
            LinkEvent::Cancelled => self.stop(no_events()),
            _ => self.stay(no_events()),
        }
    }

    fn on_authenticating(&mut self, event: LinkEvent) -> (r: LinkOutput)
        requires
            old(self).phase == Phase::Authenticating,
        ensures
            (final(self)@, r@) == step_authenticating(old(self)@, event@),
    {
        match event {
            LinkEvent::Frame(text) => match check_auth_reply(text.as_str()) {
                Ok(p) => {
                    let mut events = no_events();
                    emit(&mut events, log_event(Level::Info, concat2("authenticated: ", p.message.as_str())));
                    emit(&mut events, status_line("authenticated"));
                    self.phase = Phase::Streaming;
                    let out = LinkOutput { events, action: LinkAction::Continue };
                    assert(out@.events =~= seq![
                        log_view(Level::Info, "authenticated: "@ + p.message@),
                        status_view("authenticated"@),
                    ]);
                    out
                },
                Err(err) => self.fail_auth(no_events(), err),
            },
            LinkEvent::NonTextFrame => self.fail_auth(no_events(), AuthError::NotText),
            LinkEvent::ReadFailed(m) => self.fail_auth(no_events(), AuthError::Transport(m)),
            LinkEvent::SendFailed(m) => self.fail_auth(no_events(), AuthError::Transport(m)),
            LinkEvent::Closed => self.fail_auth(no_events(), AuthError::NoReply),
            LinkEvent::Cancelled => self.stop(no_events()),
            _ => self.stay(no_events()),
        }
    }

    fn on_streaming(&mut self, event: LinkEvent) -> (r: LinkOutput)
        requires
            old(self).phase == Phase::Streaming,
        ensures
            (final(self)@, r@) == step_streaming(old(self)@, event@),
    {
        match event {
            LinkEvent::Outbound(update) => LinkOutput {
                events: no_events(),
                action: LinkAction::Send(encode_update(&update)),
            },
            LinkEvent::OutboundClosed => self.lose(no_events()),
            LinkEvent::SendFailed(m) => {
                let mut events = no_events();
                emit(&mut events, log_event(Level::Error, concat2("send failed: ", m.as_str())));
                assert(events_view(events@) =~= seq![log_view(Level::Error, "send failed: "@ + m@)]);
                self.lose(events)
            },
            LinkEvent::Frame(text) => match classify_inbound(text.as_str(), self.device_id.as_str()) {
                Inbound::Apply(p) => {
                    let mut events = no_events();
                    emit(&mut events, log_line(Level::Debug, "broadcast received"));
                    assert(events_view(events@) =~= seq![
                        log_view(Level::Debug, "broadcast received"@),
                    ]);
                    LinkOutput { events, action: LinkAction::Deliver(p) }
                },
                Inbound::OwnEcho => {
                    let mut events = no_events();
                    emit(&mut events, log_line(Level::Debug, "own broadcast ignored"));
                    assert(events_view(events@) =~= seq![
                        log_view(Level::Debug, "own broadcast ignored"@),
                    ]);
                    self.stay(events)
                },
                Inbound::Unrecognized => {
                    let mut events = no_events();
                    emit(&mut events, log_event(Level::Warn, concat2("unrecognized broadcast: ", text.as_str())));
                    assert(events_view(events@) =~= seq![
                        log_view(Level::Warn, "unrecognized broadcast: "@ + text@),
                    ]);
                    self.stay(events)
                },
            },
            LinkEvent::NonTextFrame => {
                let mut events = no_events();
                emit(&mut events, log_line(Level::Warn, "ignoring non-text message"));
                assert(events_view(events@) =~= seq![
                    log_view(Level::Warn, "ignoring non-text message"@),
                ]);
                self.stay(events)
            },
            LinkEvent::ReadFailed(m) => {
                let mut events = no_events();
                emit(&mut events, log_event(Level::Error, concat2("read failed: ", m.as_str())));
                assert(events_view(events@) =~= seq![log_view(Level::Error, "read failed: "@ + m@)]);
                self.lose(events)
            },
            LinkEvent::Closed => self.lose(no_events()),
            LinkEvent::Cancelled => {
                let mut events = no_events();
                emit(&mut events, log_line(Level::Debug, "connection task cancelled"));
                emit(&mut events, RuntimeEvent::Connection(ConnectionStateEvent::Disconnected));
                assert(events_view(events@) =~= seq![
                    log_view(Level::Debug, "connection task cancelled"@),
                    connection_view(ConnectionStateEvent::Disconnected),
                ]);
                self.stop(events)
            },
            _ => self.stay(no_events()),
        }
    }

    fn on_waiting(&mut self, event: LinkEvent) -> (r: LinkOutput)
        requires
            old(self).phase == Phase::AuthBackoff || old(self).phase == Phase::ReconnectBackoff,
        ensures
            (final(self)@, r@) == step_waiting(old(self)@, event@),
    {
        match event {
            LinkEvent::TimerElapsed => {
                let mut events = no_events();
                push_connecting(&mut events, self.insecure);
                assert(events_view(events@) =~= connecting_events(self.insecure));
                self.phase = Phase::Connecting;
                LinkOutput { events, action: LinkAction::Connect { insecure: self.insecure } }
            },
            LinkEvent::Cancelled => self.stop(no_events()),
            _ => self.stay(no_events()),
        }
    }

    /// Answers one event: the events to publish and what to do next.
    ///
    /// Cancellation ends the task from every phase, and a stopped link answers
    /// everything with [`LinkAction::Stop`].
    pub fn step(&mut self, event: LinkEvent) -> (r: LinkOutput)
        ensures
            (final(self)@, r@) == link_step(old(self)@, event@),
            event@ is Cancelled ==> final(self).phase == Phase::Stopped && r.action@ is Stop,
    {
        match self.phase {
            Phase::Connecting => self.on_connecting(event),
            Phase::Authenticating => self.on_authenticating(event),
            Phase::Streaming => self.on_streaming(event),
            Phase::AuthBackoff => self.on_waiting(event),
            Phase::ReconnectBackoff => self.on_waiting(event),
            Phase::Stopped => LinkOutput { events: no_events(), action: LinkAction::Stop },
        }
    }
}

/// Cancellation ends the task from every phase, and the link stays stopped
/// whatever is reported to it afterwards.
pub proof fn lemma_cancel_stops_link(s: ServerLinkView, later: LinkEventView)
    ensures
        link_step(s, LinkEventView::Cancelled).0.phase == Phase::Stopped,
        link_step(s, LinkEventView::Cancelled).1.action == LinkActionView::Stop,
        link_step(link_step(s, LinkEventView::Cancelled).0, later).0.phase == Phase::Stopped,
        link_step(link_step(s, LinkEventView::Cancelled).0, later).1.action
            == LinkActionView::Stop,
{
}

/// Clipboard content flows only in steady state: no payload is delivered
/// and no update is sent in any other phase. The one frame sent outside of
/// it is the authentication request, right after the socket opens.
pub proof fn lemma_clipboard_only_while_streaming(s: ServerLinkView, e: LinkEventView)
    requires
        s.phase != Phase::Streaming,
    ensures
        !(link_step(s, e).1.action is Deliver),
        link_step(s, e).1.action is Send ==> s.phase == Phase::Connecting && e is Connected
            && auth_request_of(s.config) == Ok::<Seq<char>, AuthErrorView>(
            link_step(s, e).1.action->Send_0,
        ),
{
}

/// A failed authentication is retried after [`AUTH_RETRY_DELAY_SECS`], a
/// lost or failed connection after [`RECONNECT_DELAY_SECS`]; nothing else
/// makes the link wait.
pub proof fn lemma_waits(s: ServerLinkView, e: LinkEventView)
    requires
        link_step(s, e).1.action is Wait,
    ensures
        link_step(s, e).0.phase == Phase::AuthBackoff ==> link_step(s, e).1.action
            == (LinkActionView::Wait { seconds: AUTH_RETRY_DELAY_SECS }),
        link_step(s, e).0.phase != Phase::AuthBackoff ==> link_step(s, e).0.phase
            == Phase::ReconnectBackoff && link_step(s, e).1.action == (LinkActionView::Wait {
            seconds: RECONNECT_DELAY_SECS,
        }),
{
}

} // verus!
