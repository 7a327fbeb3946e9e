//! The supervisor: the one control loop that takes the embedder's commands
//! and decides which task set runs.
//!
//! The embedder owns the tasks. It hands each command to
//! [`Supervisor::step`], publishes the events of the answer and performs its
//! actions in order.
//!
//! The scheme of the server address is read by the `url` crate, through the
//! private wrapper at the end of this file.

use vstd::prelude::*;
use vstd::string::*;
use crate::config::{Config, ConfigView};
use crate::events::{
    connection_view, emit, events_view, log_event, log_view, no_events, status_line, status_view,
    ConnectionStateEvent, Level, RuntimeEvent, RuntimeEventView,
};
use crate::text::{concat2, owned, str_eq};

verus! {

/// The scheme, in lower case, of the URL that the `url` crate reads from
/// `text`; `None` where it reports an error.
pub uninterp spec fn url_scheme_of(text: Seq<char>) -> Option<Seq<char>>;

/// What a task set is started with.
#[derive(Debug, PartialEq, Eq)]
pub struct StartOptions {
    pub config: Config,
    /// Accept any TLS certificate, whatever the configuration says.
    pub insecure_override: bool,
}

pub struct StartOptionsView {
    pub config: ConfigView,
    pub insecure_override: bool,
}

impl View for StartOptions {
    type V = StartOptionsView;

    open spec fn view(&self) -> StartOptionsView {
        StartOptionsView { config: self.config@, insecure_override: self.insecure_override }
    }
}

impl StartOptions {
    /// A copy of these options.
    pub fn duplicate(&self) -> (r: StartOptions)
        ensures
            r@ == self@,
    {
        StartOptions {
            config: self.config.duplicate(),
            insecure_override: self.insecure_override,
        }
    }
}

/// Why a task set is not started.
#[derive(Debug, PartialEq, Eq)]
pub enum StartError {
    /// The server address is no URL; carries the address.
    BadUrl(String),
    /// Server mode without a token and without user name and password.
    MissingCredentials,
}

pub enum StartErrorView {
    BadUrl(Seq<char>),
    MissingCredentials,
}

impl View for StartError {
    type V = StartErrorView;

    open spec fn view(&self) -> StartErrorView {
        match self {
            StartError::BadUrl(u) => StartErrorView::BadUrl(u@),
            StartError::MissingCredentials => StartErrorView::MissingCredentials,
        }
    }
}

/// The text that describes a failed start.
pub open spec fn start_error_text(e: StartErrorView) -> Seq<char> {
    match e {
        StartErrorView::BadUrl(u) => "cannot parse server address: "@ + u,
        StartErrorView::MissingCredentials => "missing credentials: set a token, or username and password"@,
    }
}

impl StartError {
    /// Describes why nothing was started.
    pub fn message(&self) -> (r: String)
        ensures
            r@ == start_error_text(self@),
    {
        match self {
            StartError::BadUrl(u) => concat2("cannot parse server address: ", u.as_str()),
            StartError::MissingCredentials => owned(
                "missing credentials: set a token, or username and password",
            ),
        }
    }
}

/// The task set to spawn.
#[derive(Debug, PartialEq, Eq)]
pub struct StartPlan {
    pub config: Config,
    /// The LAN transport rather than the server transport.
    pub lan: bool,
    /// Connect without checking the server's certificate.
    pub insecure: bool,
}

pub struct StartPlanView {
    pub config: ConfigView,
    pub lan: bool,
    pub insecure: bool,
}

impl View for StartPlan {
    type V = StartPlanView;

    open spec fn view(&self) -> StartPlanView {
        StartPlanView { config: self.config@, lan: self.lan, insecure: self.insecure }
    }
}

/// Whether a configuration holds what the server asks for: a token, or a
/// user name with a password.
pub open spec fn has_credentials(c: ConfigView) -> bool {
    c.token is Some || (c.username is Some && c.password is Some)
}

/// The plan for a start, given the scheme of the server address. LAN mode
/// needs neither address nor credentials. Server mode needs both, and goes
/// without certificate checks only on `wss` and only where the configuration
/// or the override says so.
pub open spec fn plan_of(o: StartOptionsView, scheme: Option<Seq<char>>) -> Result<
    StartPlanView,
    StartErrorView,
> {
    if o.config.connection_mode == "lan"@ {
        Ok(StartPlanView { config: o.config, lan: true, insecure: false })
    } else {
        match scheme {
            None => Err(StartErrorView::BadUrl(o.config.server_url)),
            Some(scheme) => if !has_credentials(o.config) {
                Err(StartErrorView::MissingCredentials)
            } else {
                Ok(
                    StartPlanView {
                        config: o.config,
                        lan: false,
                        insecure: (o.config.trust_insecure_cert || o.insecure_override) && scheme
                            == "wss"@,
                    },
                )
            },
        }
    }
}

/// The plan for a start.
pub open spec fn start_plan_of(o: StartOptionsView) -> Result<StartPlanView, StartErrorView> {
    plan_of(o, url_scheme_of(o.config.server_url))
}

/// `r` is `expected`.
pub open spec fn plan_matches(
    r: Result<StartPlan, StartError>,
    expected: Result<StartPlanView, StartErrorView>,
) -> bool {
    match r {
        Ok(p) => expected == Ok::<StartPlanView, StartErrorView>(p@),
        Err(e) => expected == Err::<StartPlanView, StartErrorView>(e@),
    }
}

/// Plans a start, given the scheme of the server address, or `None` where
/// the address is no URL.
pub fn plan_with_scheme(options: &StartOptions, scheme: Option<String>) -> (r: Result<
    StartPlan,
    StartError,
>)
    ensures
        plan_matches(
            r,
            plan_of(
                options@,
                match scheme {
                    Some(s) => Some(s@),
                    None => None,
                },
            ),
        ),
{
    if options.config.is_lan_mode() {
        return Ok(StartPlan { config: options.config.duplicate(), lan: true, insecure: false });
    }
    let scheme = match scheme {
        Some(scheme) => scheme,
        None => { return Err(StartError::BadUrl(options.config.server_url.clone())); },
    };
    let with_token = options.config.token.is_some();
    let with_password = options.config.username.is_some() && options.config.password.is_some();
    if !with_token && !with_password {
        return Err(StartError::MissingCredentials);
    }
    let insecure = (options.config.trust_insecure_cert || options.insecure_override) && str_eq(
        scheme.as_str(),
        "wss",
    );
    Ok(StartPlan { config: options.config.duplicate(), lan: false, insecure })
}

/// Plans a start.
pub fn plan_start(options: &StartOptions) -> (r: Result<StartPlan, StartError>)
    ensures
        plan_matches(r, start_plan_of(options@)),
{
    let scheme = url_scheme(options.config.server_url.as_str());
    plan_with_scheme(options, scheme)
}

/// What the embedder asks for.
#[derive(Debug, PartialEq, Eq)]
pub enum RuntimeCommand {
    Start(StartOptions),
    Reload(StartOptions),
    Pause,
    Resume,
    Shutdown,
}

pub enum RuntimeCommandView {
    Start(StartOptionsView),
    Reload(StartOptionsView),
    Pause,
    Resume,
    Shutdown,
}

impl View for RuntimeCommand {
    type V = RuntimeCommandView;

    open spec fn view(&self) -> RuntimeCommandView {
        match self {
            RuntimeCommand::Start(o) => RuntimeCommandView::Start(o@),
            RuntimeCommand::Reload(o) => RuntimeCommandView::Reload(o@),
            RuntimeCommand::Pause => RuntimeCommandView::Pause,
            RuntimeCommand::Resume => RuntimeCommandView::Resume,
            RuntimeCommand::Shutdown => RuntimeCommandView::Shutdown,
        }
    }
}

/// What the embedder does to its tasks.
#[derive(Debug, PartialEq, Eq)]
pub enum SupervisorAction {
    /// Cancel the running task set. Soft: wait until every task has ended.
    /// Hard: abort the tasks that do not end at once.
    Cancel { hard: bool },
    /// Spawn a task set.
    Spawn(StartPlan),
    /// Leave the control loop.
    Exit,
}

pub enum SupervisorActionView {
    Cancel { hard: bool },
    Spawn(StartPlanView),
    Exit,
}

impl View for SupervisorAction {
    type V = SupervisorActionView;

    open spec fn view(&self) -> SupervisorActionView {
        match self {
            SupervisorAction::Cancel { hard } => SupervisorActionView::Cancel { hard: *hard },
            SupervisorAction::Spawn(p) => SupervisorActionView::Spawn(p@),
            SupervisorAction::Exit => SupervisorActionView::Exit,
        }
    }
}

/// The views of a list of actions, in order.
pub open spec fn actions_view(actions: Seq<SupervisorAction>) -> Seq<SupervisorActionView> {
    actions.map_values(|a: SupervisorAction| a@)
}

/// The answer to one command.
#[derive(Debug, PartialEq, Eq)]
pub struct SupervisorOutput {
    /// Events to publish, in order.
    pub events: Vec<RuntimeEvent>,
    /// What to do to the tasks, in order.
    pub actions: Vec<SupervisorAction>,
}

pub struct SupervisorOutputView {
    pub events: Seq<RuntimeEventView>,
    pub actions: Seq<SupervisorActionView>,
}

impl View for SupervisorOutput {
    type V = SupervisorOutputView;

    open spec fn view(&self) -> SupervisorOutputView {
        SupervisorOutputView {
            events: events_view(self.events@),
            actions: actions_view(self.actions@),
        }
    }
}

/// The supervisor between two commands.
#[derive(Debug, PartialEq, Eq)]
pub struct Supervisor {
    /// A task set is running.
    pub running: bool,
    pub paused: bool,
    /// The options of the last start or reload, for `Resume`.
    pub last_options: Option<StartOptions>,
    /// `Shutdown` was taken in.
    pub exited: bool,
}

pub struct SupervisorView {
    pub running: bool,
    pub paused: bool,
    pub last_options: Option<StartOptionsView>,
    pub exited: bool,
}

impl View for Supervisor {
    type V = SupervisorView;

    open spec fn view(&self) -> SupervisorView {
        SupervisorView {
            running: self.running,
            paused: self.paused,
            last_options: match self.last_options {
                Some(o) => Some(o@),
                None => None,
            },
            exited: self.exited,
        }
    }
}

/// The supervisor before its first command.
pub open spec fn supervisor_start() -> (SupervisorView, Seq<RuntimeEventView>) {
    (
        SupervisorView { running: false, paused: true, last_options: None, exited: false },
        seq![connection_view(ConnectionStateEvent::Idle)],
    )
}

/// The events of a failure that the user must see.
pub open spec fn error_events(message: Seq<char>) -> Seq<RuntimeEventView> {
    seq![RuntimeEventView::Error(message), log_view(Level::Error, message)]
}

/// The events that announce a task set.
pub open spec fn starting_events() -> Seq<RuntimeEventView> {
    seq![status_view("connecting"@), connection_view(ConnectionStateEvent::Connecting)]
}

/// The action that stops the running task set, if there is one.
pub open spec fn stop_actions(s: SupervisorView, hard: bool) -> Seq<SupervisorActionView> {
    if s.running {
        seq![SupervisorActionView::Cancel { hard }]
    } else {
        Seq::empty()
    }
}

/// Starting a task set with `o`. Nothing happens while one is running. A
/// start that cannot be planned is reported under `prefix` and spawns
/// nothing.
pub open spec fn start_tasks(s: SupervisorView, o: StartOptionsView, prefix: Seq<char>) -> (
    SupervisorView,
    SupervisorOutputView,
) {
    if s.running {
        (s, SupervisorOutputView { events: Seq::empty(), actions: Seq::empty() })
    } else {
        match start_plan_of(o) {
            Ok(plan) => (
                SupervisorView { running: true, paused: false, ..s },
                SupervisorOutputView {
                    events: starting_events(),
                    actions: seq![SupervisorActionView::Spawn(plan)],
                },
            ),
            Err(e) => (
                SupervisorView { paused: false, ..s },
                SupervisorOutputView {
                    events: error_events(prefix + start_error_text(e)),
                    actions: Seq::empty(),
                },
            ),
        }
    }
}

/// `first`, then `second`.
pub open spec fn then(first: SupervisorOutputView, second: SupervisorOutputView)
    -> SupervisorOutputView {
    SupervisorOutputView {
        events: first.events + second.events,
        actions: first.actions + second.actions,
    }
}

/// The transition function of the supervisor.
///
/// `Start` remembers its options and starts. `Pause` cancels softly.
/// `Resume` starts with the remembered options unless a task set is running.
/// `Reload` cancels hard, remembers the new options and starts with them.
/// `Shutdown` cancels hard and leaves the loop.
pub open spec fn supervisor_step(s: SupervisorView, c: RuntimeCommandView) -> (
    SupervisorView,
    SupervisorOutputView,
) {
    if s.exited {
        (
            s,
            SupervisorOutputView { events: Seq::empty(), actions: seq![SupervisorActionView::Exit] },
        )
    } else {
        match c {
            RuntimeCommandView::Start(o) => start_tasks(
                SupervisorView { last_options: Some(o), ..s },
                o,
                "start failed: "@,
            ),
            RuntimeCommandView::Pause => (
                SupervisorView { running: false, paused: true, ..s },
                SupervisorOutputView {
                    events: seq![
                        status_view("paused"@),
                        connection_view(ConnectionStateEvent::Paused),
                    ],
                    actions: stop_actions(s, false),
                },
            ),
            RuntimeCommandView::Resume => if s.running {
                (
                    s,
                    SupervisorOutputView {
                        events: seq![status_view("already running"@)],
                        actions: Seq::empty(),
                    },
                )
            } else {
                match s.last_options {
                    Some(o) => start_tasks(s, o, "resume failed: "@),
                    None => (
                        s,
                        SupervisorOutputView {
                            events: error_events("not configured, cannot resume"@),
                            actions: Seq::empty(),
                        },
                    ),
                }
            },
            RuntimeCommandView::Reload(o) => {
                let stopped = SupervisorView { running: false, last_options: Some(o), ..s };
                let started = start_tasks(stopped, o, "reload failed: "@);
                (
                    started.0,
                    then(
                        SupervisorOutputView {
                            events: seq![status_view("applying new configuration"@)],
                            actions: stop_actions(s, true),
                        },
                        started.1,
                    ),
                )
            },
            RuntimeCommandView::Shutdown => (
                SupervisorView { running: false, exited: true, ..s },
                SupervisorOutputView {
                    events: Seq::empty(),
                    actions: stop_actions(s, true).push(SupervisorActionView::Exit),
                },
            ),
        }
    }
}

/// The task set could not be spawned: nothing runs, and the failure is
/// reported.
pub open spec fn spawn_failed_step(s: SupervisorView, message: Seq<char>) -> (
    SupervisorView,
    Seq<RuntimeEventView>,
) {
    (SupervisorView { running: false, ..s }, error_events("start failed: "@ + message))
}

/// Tasks are aborted only for a reload or a shutdown; a pause waits until
/// they have ended.
pub proof fn lemma_abort_only_on_reload_or_shutdown(s: SupervisorView, c: RuntimeCommandView, i: int)
    requires
        !s.exited,
        0 <= i < supervisor_step(s, c).1.actions.len(),
        supervisor_step(s, c).1.actions[i] is Cancel,
    ensures
        supervisor_step(s, c).1.actions[i]->hard <==> (c is Reload || c is Shutdown),
        s.running,
        i == 0,
{
}

/// There is never more than one task set: one is spawned only while none
/// runs or right after the running one was cancelled, and the supervisor
/// counts it as running from then on.
pub proof fn lemma_one_task_set(s: SupervisorView, c: RuntimeCommandView, i: int)
    requires
        0 <= i < supervisor_step(s, c).1.actions.len(),
        supervisor_step(s, c).1.actions[i] is Spawn,
    ensures
        supervisor_step(s, c).0.running,
        !s.running || (i == 1 && supervisor_step(s, c).1.actions[0] is Cancel),
        s.running ==> c is Reload,
        supervisor_step(s, c).1.actions.len() == i + 1,
{
}

/// After a pause or a shutdown nothing runs, and after a shutdown nothing
/// is ever spawned again.
pub proof fn lemma_pause_and_shutdown_stop(s: SupervisorView, later: RuntimeCommandView)
    requires
        !s.exited,
    ensures
        !supervisor_step(s, RuntimeCommandView::Pause).0.running,
        !supervisor_step(s, RuntimeCommandView::Shutdown).0.running,
        supervisor_step(
            supervisor_step(s, RuntimeCommandView::Shutdown).0,
            later,
        ).1.actions == seq![SupervisorActionView::Exit],
        s.running ==> supervisor_step(s, RuntimeCommandView::Pause).1.actions == seq![
            SupervisorActionView::Cancel { hard: false },
        ],
{
}

fn push_error(events: &mut Vec<RuntimeEvent>, message: String)
    ensures
        events_view(final(events)@) == events_view(old(events)@) + error_events(message@),
{
    let copy = message.clone();
    emit(events, RuntimeEvent::Error(message));
    emit(events, log_event(Level::Error, copy));
    assert(events_view(events@) =~= events_view(old(events)@) + error_events(message@));
}

fn no_actions() -> (r: Vec<SupervisorAction>)
    ensures
        actions_view(r@) == Seq::<SupervisorActionView>::empty(),
{
    let r: Vec<SupervisorAction> = Vec::new();
    assert(actions_view(r@) =~= Seq::<SupervisorActionView>::empty());
    r
}

fn push_action(actions: &mut Vec<SupervisorAction>, action: SupervisorAction)
    ensures
        actions_view(final(actions)@) == actions_view(old(actions)@).push(action@),
{
    actions.push(action);
    assert(actions_view(actions@) =~= actions_view(old(actions)@).push(action@));
}

impl Supervisor {
    /// The supervisor before its first command, and the event that says so.
    pub fn new() -> (r: (Supervisor, Vec<RuntimeEvent>))
        ensures
            (r.0@, events_view(r.1@)) == supervisor_start(),
    {
        let mut events = no_events();
        emit(&mut events, RuntimeEvent::Connection(ConnectionStateEvent::Idle));
        assert(events_view(events@) =~= seq![connection_view(ConnectionStateEvent::Idle)]);
        (Supervisor { running: false, paused: true, last_options: None, exited: false }, events)
    }

    fn stop(&mut self, hard: bool, actions: &mut Vec<SupervisorAction>)
        ensures
            actions_view(final(actions)@) == actions_view(old(actions)@) + stop_actions(
                old(self)@,
                hard,
            ),
            final(self)@ == (SupervisorView { running: false, ..old(self)@ }),
    {
        if self.running {
            push_action(actions, SupervisorAction::Cancel { hard });
            self.running = false;
        }
        assert(actions_view(actions@) =~= actions_view(old(actions)@) + stop_actions(
            old(self)@,
            hard,
        ));
    }

    fn start(
        &mut self,
        options: &StartOptions,
        prefix: &str,
        events: &mut Vec<RuntimeEvent>,
        actions: &mut Vec<SupervisorAction>,
    )
        ensures
            final(self)@ == start_tasks(old(self)@, options@, prefix@).0,
            events_view(final(events)@) == events_view(old(events)@) + start_tasks(
                old(self)@,
                options@,
                prefix@,
            ).1.events,
            actions_view(final(actions)@) == actions_view(old(actions)@) + start_tasks(
                old(self)@,
                options@,
                prefix@,
            ).1.actions,
    {
        if self.running {
            assert(events_view(events@) =~= events_view(events@) + Seq::<RuntimeEventView>::empty());
            assert(actions_view(actions@) =~= actions_view(actions@) + Seq::<
                SupervisorActionView,
            >::empty());
            return ;
        }
        self.paused = false;
        match plan_start(options) {
            Ok(plan) => {
                emit(events, status_line("connecting"));
                emit(events, RuntimeEvent::Connection(ConnectionStateEvent::Connecting));
                assert(events_view(events@) =~= events_view(old(events)@) + starting_events());
                push_action(actions, SupervisorAction::Spawn(plan));
                assert(actions_view(actions@) =~= actions_view(old(actions)@) + seq![
                    SupervisorActionView::Spawn(plan@),
                ]);
                self.running = true;
            },
            Err(e) => {
                push_error(events, concat2(prefix, e.message().as_str()));
                assert(actions_view(actions@) =~= actions_view(actions@) + Seq::<
                    SupervisorActionView,
                >::empty());
            },
        }
    }

    /// Answers one command: the events to publish and what to do to the
    /// tasks. `Pause` and `Shutdown` cancel whatever runs.
    pub fn step(&mut self, command: RuntimeCommand) -> (r: SupervisorOutput)
        ensures
            (final(self)@, r@) == supervisor_step(old(self)@, command@),
            !old(self).exited && (command@ is Pause || command@ is Shutdown) ==> !final(self).running,
    {
        let mut events = no_events();
        let mut actions = no_actions();
        if self.exited {
            push_action(&mut actions, SupervisorAction::Exit);
            let out = SupervisorOutput { events, actions };
            assert(out@.actions =~= seq![SupervisorActionView::Exit]);
            return out;
        }
        match command {
            RuntimeCommand::Start(options) => {
                let kept = options.duplicate();
                self.last_options = Some(kept);
                self.start(&options, "start failed: ", &mut events, &mut actions);
                let out = SupervisorOutput { events, actions };
                assert(out@.events =~= supervisor_step(old(self)@, command@).1.events);
                assert(out@.actions =~= supervisor_step(old(self)@, command@).1.actions);
                out
            },
            RuntimeCommand::Pause => {
                self.paused = true;
                self.stop(false, &mut actions);
                emit(&mut events, status_line("paused"));
                emit(&mut events, RuntimeEvent::Connection(ConnectionStateEvent::Paused));
                let out = SupervisorOutput { events, actions };
                assert(out@.events =~= supervisor_step(old(self)@, command@).1.events);
                assert(out@.actions =~= supervisor_step(old(self)@, command@).1.actions);
                out
            },
            RuntimeCommand::Resume => {
                if self.running {
                    emit(&mut events, status_line("already running"));
                    let out = SupervisorOutput { events, actions };
                    assert(out@.events =~= supervisor_step(old(self)@, command@).1.events);
                    return out;
                }
                let remembered = match &self.last_options {
                    Some(options) => Some(options.duplicate()),
                    None => None,
                };
                match remembered {
                    Some(options) => {
                        self.start(&options, "resume failed: ", &mut events, &mut actions);
                    },
                    None => {
                        push_error(&mut events, owned("not configured, cannot resume"));
                    },
                }
                let out = SupervisorOutput { events, actions };
                assert(out@.events =~= supervisor_step(old(self)@, command@).1.events);
                assert(out@.actions =~= supervisor_step(old(self)@, command@).1.actions);
                out
            },
            RuntimeCommand::Reload(options) => {
                emit(&mut events, status_line("applying new configuration"));
                self.stop(true, &mut actions);
                let kept = options.duplicate();
                self.last_options = Some(kept);
                self.start(&options, "reload failed: ", &mut events, &mut actions);
                let out = SupervisorOutput { events, actions };
                assert(out@.events =~= supervisor_step(old(self)@, command@).1.events);
                assert(out@.actions =~= supervisor_step(old(self)@, command@).1.actions);
                out
            },
            RuntimeCommand::Shutdown => {
                self.stop(true, &mut actions);
                push_action(&mut actions, SupervisorAction::Exit);
                self.exited = true;
                let out = SupervisorOutput { events, actions };
                assert(out@.actions =~= supervisor_step(old(self)@, command@).1.actions);
                out
            },
        }
    }

    /// Takes in that the task set just planned could not be spawned, with
    /// the reason. Nothing is left running.
    pub fn spawn_failed(&mut self, message: &str) -> (r: Vec<RuntimeEvent>)
        ensures
            (final(self)@, events_view(r@)) == spawn_failed_step(old(self)@, message@),
    {
        self.running = false;
        let mut events = no_events();
        push_error(&mut events, concat2("start failed: ", message));
        assert(events_view(events@) =~= error_events("start failed: "@ + message@));
        events
    }
}

/// Calls `Url::parse` of the `url` crate and copies the scheme of what it
/// returns. Claims only that the outcome is the one named
/// [`url_scheme_of`].
#[verifier::external_body]
fn url_scheme(text: &str) -> (r: Option<String>)
    ensures
        match r {
            Some(s) => url_scheme_of(text@) == Some(s@),
            None => url_scheme_of(text@) is None,
        },
{
    match url::Url::parse(text) {
        Ok(parsed) => Some(parsed.scheme().to_owned()),
        Err(_) => None,
    }
}

} // verus!
