//! The events that the runtime reports to its embedder.

use vstd::prelude::*;
use vstd::string::*;
use crate::text::{owned, str_eq};

verus! {

/// Capacity of the queue of events to the embedder.
pub const EVENT_QUEUE_CAPACITY: usize = 512;

/// Capacity of the queue of commands from the embedder.
pub const COMMAND_QUEUE_CAPACITY: usize = 32;

/// Capacity of the ring that fans clipboard updates out to the transports,
/// and of the queue of payloads to the applier.
pub const CLIPBOARD_QUEUE_CAPACITY: usize = 100;

/// Severity of a log line.
#[derive(Debug, Clone, Copy, PartialEq, Eq, Structural)]
pub enum Level {
    Error,
    Warn,
    Info,
    Debug,
    Trace,
}

/// The level that a name stands for; anything unknown is `Info`.
pub open spec fn level_of_name(name: Seq<char>) -> Level {
    if name == "error"@ {
        Level::Error
    } else if name == "warn"@ {
        Level::Warn
    } else if name == "debug"@ {
        Level::Debug
    } else {
        Level::Info
    }
}

/// Reads the level of a log line that a user interface hands in.
pub fn level_from_name(name: &str) -> (r: Level)
    ensures
        r == level_of_name(name@),
{
    if str_eq(name, "error") {
        Level::Error
    } else if str_eq(name, "warn") {
        Level::Warn
    } else if str_eq(name, "debug") {
        Level::Debug
    } else {
        Level::Info
    }
}

/// State of the transport as the embedder sees it.
#[derive(Debug, Clone, Copy, PartialEq, Eq, Structural)]
pub enum ConnectionStateEvent {
    Idle,
    Connecting,
    Connected,
    Reconnecting,
    Disconnected,
    Paused,
}

/// One log line.
#[derive(Debug, Clone, PartialEq, Eq)]
pub struct RuntimeLogEvent {
    pub level: Level,
    pub message: String,
}

pub struct RuntimeLogEventView {
    pub level: Level,
    pub message: Seq<char>,
}

impl View for RuntimeLogEvent {
    type V = RuntimeLogEventView;

    open spec fn view(&self) -> RuntimeLogEventView {
        RuntimeLogEventView { level: self.level, message: self.message@ }
    }
}

impl RuntimeLogEvent {
    /// A log line of the given level.
    pub fn new(level: Level, message: String) -> (r: RuntimeLogEvent)
        ensures
            r.level == level,
            r.message@ == message@,
    {
        RuntimeLogEvent { level, message }
    }
}

/// Everything the runtime tells its embedder.
#[derive(Debug, Clone, PartialEq, Eq)]
pub enum RuntimeEvent {
    Status(String),
    Connection(ConnectionStateEvent),
    Log(RuntimeLogEvent),
    ClipboardSent { content_type: String },
    ClipboardReceived { content_type: String },
    Error(String),
    /// The peer table changed; carries its JSON snapshot.
    LanPeersChanged(String),
}

pub enum RuntimeEventView {
    Status(Seq<char>),
    Connection(ConnectionStateEvent),
    Log(RuntimeLogEventView),
    ClipboardSent { content_type: Seq<char> },
    ClipboardReceived { content_type: Seq<char> },
    Error(Seq<char>),
    LanPeersChanged(Seq<char>),
}

impl View for RuntimeEvent {
    type V = RuntimeEventView;

    open spec fn view(&self) -> RuntimeEventView {
        match self {
            RuntimeEvent::Status(s) => RuntimeEventView::Status(s@),
            RuntimeEvent::Connection(c) => RuntimeEventView::Connection(*c),
            RuntimeEvent::Log(l) => RuntimeEventView::Log(l@),
            RuntimeEvent::ClipboardSent { content_type } => RuntimeEventView::ClipboardSent {
                content_type: content_type@,
            },
            RuntimeEvent::ClipboardReceived { content_type } => RuntimeEventView::ClipboardReceived {
                content_type: content_type@,
            },
            RuntimeEvent::Error(s) => RuntimeEventView::Error(s@),
            RuntimeEvent::LanPeersChanged(s) => RuntimeEventView::LanPeersChanged(s@),
        }
    }
}

/// The log event with the given level and text.
pub open spec fn log_view(level: Level, message: Seq<char>) -> RuntimeEventView {
    RuntimeEventView::Log(RuntimeLogEventView { level, message })
}

/// The status event with the given text.
pub open spec fn status_view(message: Seq<char>) -> RuntimeEventView {
    RuntimeEventView::Status(message)
}

/// The connection event for `state`.
pub open spec fn connection_view(state: ConnectionStateEvent) -> RuntimeEventView {
    RuntimeEventView::Connection(state)
}

/// The views of a list of events, in order.
pub open spec fn events_view(events: Seq<RuntimeEvent>) -> Seq<RuntimeEventView> {
    events.map_values(|e: RuntimeEvent| e@)
}

/// A log event.
pub fn log_event(level: Level, message: String) -> (r: RuntimeEvent)
    ensures
        r@ == log_view(level, message@),
{
    RuntimeEvent::Log(RuntimeLogEvent::new(level, message))
}

/// A log event with a fixed text.
pub fn log_line(level: Level, message: &str) -> (r: RuntimeEvent)
    ensures
        r@ == log_view(level, message@),
{
    RuntimeEvent::Log(RuntimeLogEvent::new(level, owned(message)))
}

/// A status event with a fixed text.
pub fn status_line(message: &str) -> (r: RuntimeEvent)
    ensures
        r@ == status_view(message@),
{
    RuntimeEvent::Status(owned(message))
}

/// Appends `event` to `events`.
pub fn emit(events: &mut Vec<RuntimeEvent>, event: RuntimeEvent)
    ensures
        events_view(final(events)@) == events_view(old(events)@).push(event@),
{
    events.push(event);
    assert(events_view(events@) =~= events_view(old(events)@).push(event@));
}

/// An empty event list.
pub fn no_events() -> (r: Vec<RuntimeEvent>)
    ensures
        events_view(r@) == Seq::<RuntimeEventView>::empty(),
{
    let r: Vec<RuntimeEvent> = Vec::new();
    assert(events_view(r@) =~= Seq::<RuntimeEventView>::empty());
    r
}

} // verus!
