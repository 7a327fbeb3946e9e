//! What the embedder keeps for its user interface: the recent log lines and
//! whether synchronisation is paused.

use vstd::prelude::*;
use vstd::string::*;
use crate::config::{form_of, settings_form_from_config, Config, SettingsForm};
use crate::events::{ConnectionStateEvent, Level};
use crate::supervisor::{RuntimeCommand, RuntimeCommandView};
use crate::text::{concat2, strings_view};

verus! {

/// The number of lines that survive when the log is trimmed.
pub const LOG_KEEP: usize = 2000;

/// The log after `line` is added: a log of more than [`LOG_KEEP`] lines
/// first loses its oldest lines down to that number.
pub open spec fn logs_after_push(logs: Seq<Seq<char>>, line: Seq<char>) -> Seq<Seq<char>> {
    if logs.len() > LOG_KEEP {
        logs.subrange(logs.len() - LOG_KEEP, logs.len() as int).push(line)
    } else {
        logs.push(line)
    }
}

/// Whether the user interface shows synchronisation as paused in a
/// connection state: when paused, and before the first start.
pub open spec fn shown_paused(state: ConnectionStateEvent) -> bool {
    state == ConnectionStateEvent::Paused || state == ConnectionStateEvent::Idle
}

/// Whether the user interface shows synchronisation as paused.
pub fn connection_is_paused(state: ConnectionStateEvent) -> (r: bool)
    ensures
        r == shown_paused(state),
{
    match state {
        ConnectionStateEvent::Paused => true,
        ConnectionStateEvent::Idle => true,
        _ => false,
    }
}

/// The name of a level in a log line.
pub open spec fn level_text(level: Level) -> Seq<char> {
    match level {
        Level::Error => "ERROR"@,
        Level::Warn => "WARN"@,
        Level::Info => "INFO"@,
        Level::Debug => "DEBUG"@,
        Level::Trace => "TRACE"@,
    }
}

/// A log line as it is shown: the level in brackets, then the message.
pub open spec fn log_line_text(level: Level, message: Seq<char>) -> Seq<char> {
    "["@ + level_text(level) + "] "@ + message
}

/// Writes a log line as it is shown.
pub fn format_log_line(level: Level, message: &str) -> (r: String)
    ensures
        r@ == log_line_text(level, message@),
{
    let name = match level {
        Level::Error => "ERROR",
        Level::Warn => "WARN",
        Level::Info => "INFO",
        Level::Debug => "DEBUG",
        Level::Trace => "TRACE",
    };
    let mut out = concat2("[", name);
    out.append("] ");
    out.append(message);
    out
}

/// The embedder's state.
#[derive(Debug, PartialEq, Eq)]
pub struct AppState {
    pub logs: Vec<String>,
    pub paused: bool,
}

/// What a user interface is first filled with.
#[derive(Debug, PartialEq, Eq)]
pub struct InitialState {
    pub paused: bool,
    pub config: SettingsForm,
    pub logs: Vec<String>,
}

fn copy_lines(lines: &Vec<String>) -> (r: Vec<String>)
    ensures
        strings_view(r@) == strings_view(lines@),
{
    let mut out: Vec<String> = Vec::new();
    let mut i: usize = 0;
    while i < lines.len()
        invariant
            i <= lines@.len(),
            strings_view(out@) == strings_view(lines@).take(i as int),
        decreases lines@.len() - i,
    {
        let ghost copied = out@;
        let line = lines[i].clone();
        out.push(line);
        assert(strings_view(out@) =~= strings_view(copied).push(line@));
        i += 1;
        assert(strings_view(out@) =~= strings_view(lines@).take(i as int));
    }
    assert(strings_view(lines@).take(i as int) =~= strings_view(lines@));
    out
}

impl AppState {
    /// The state at launch: no log lines, paused.
    pub fn new() -> (r: AppState)
        ensures
            strings_view(r.logs@) == Seq::<Seq<char>>::empty(),
            r.paused,
    {
        let r = AppState { logs: Vec::new(), paused: true };
        assert(strings_view(r.logs@) =~= Seq::<Seq<char>>::empty());
        r
    }

    /// Adds a log line; a log that has grown over [`LOG_KEEP`] lines is
    /// trimmed first.
    pub fn push_log(&mut self, line: String)
        ensures
            strings_view(final(self).logs@) == logs_after_push(
                strings_view(old(self).logs@),
                line@,
            ),
            final(self).paused == old(self).paused,
    {
        let ghost before = strings_view(self.logs@);
        if self.logs.len() > LOG_KEEP {
            let remove = self.logs.len() - LOG_KEEP;
            let kept = self.logs.split_off(remove);
            assert(strings_view(kept@) =~= before.subrange(
                before.len() - LOG_KEEP,
                before.len() as int,
            ));
            self.logs = kept;
        }
        let ghost trimmed = strings_view(self.logs@);
        self.logs.push(line);
        assert(strings_view(self.logs@) =~= trimmed.push(line@));
    }

    /// A copy of the log lines, oldest first.
    pub fn get_logs(&self) -> (r: Vec<String>)
        ensures
            strings_view(r@) == strings_view(self.logs@),
    {
        copy_lines(&self.logs)
    }

    /// Forgets all log lines.
    pub fn clear_logs(&mut self)
        ensures
            final(self).logs@.len() == 0,
            final(self).paused == old(self).paused,
    {
        self.logs.clear();
    }

    /// Notes whether synchronisation is paused.
    pub fn set_paused(&mut self, paused: bool)
        ensures
            final(self).paused == paused,
            final(self).logs == old(self).logs,
    {
        self.paused = paused;
    }

    /// Whether synchronisation is paused.
    pub fn is_paused(&self) -> (r: bool)
        ensures
            r == self.paused,
    {
        self.paused
    }

    /// The command behind the pause button: resume when paused, else pause.
    pub fn toggle_command(&self) -> (r: RuntimeCommand)
        ensures
            r@ == if self.paused {
                RuntimeCommandView::Resume
            } else {
                RuntimeCommandView::Pause
            },
    {
        if self.paused {
            RuntimeCommand::Resume
        } else {
            RuntimeCommand::Pause
        }
    }

    /// What a user interface is first filled with, for the stored
    /// configuration.
    pub fn initial_state(&self, config: &Config) -> (r: InitialState)
        ensures
            r.paused == self.paused,
            r.config@ == form_of(config@),
            strings_view(r.logs@) == strings_view(self.logs@),
    {
        InitialState {
            paused: self.paused,
            config: settings_form_from_config(config),
            logs: self.get_logs(),
        }
    }
}

} // verus!
