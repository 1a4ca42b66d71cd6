//! The supervisor: it finds the media server, starts the player process,
//! waits until the server knows the player, and then serves the desktop until
//! something fails. Whatever fails, the player process is not left running.
//!
//! The supervisor is a state machine. The caller does what an [`Action`] asks
//! for and reports what came of it as an [`Event`]:
//!
//! ```text
//! Init -> Discovering -> LaunchingChild -> WaitingForPlayer -> Running
//!                                   \             \               |
//!                                    +-------------+--> Terminating -> Done
//! ```
//!
//! There is no successful end: the supervisor runs until a failure, and the
//! failure that ended it is its result.
use crate::discover::{DiscoverError, DiscoverErrorView, Discovered};
use crate::launch::{
    command_of, player_command, LaunchError, LaunchErrorView, PlayerCommand, PlayerCommandView,
};
use crate::lms::request::texts;
use crate::lms::{LmsError, LmsErrorView};
use crate::waiter::{WaitError, WaitErrorView};
use vstd::prelude::*;
use vstd::string::*;

verus! {

/// What the supervisor is configured with.
#[derive(Debug)]
pub struct Config {
    /// The address of the media server. Without it, or without the port, the
    /// server is looked for on the local network.
    pub hostname: Option<String>,
    /// The port of the server's control interface.
    pub port: Option<u16>,
    /// The name under which the player registers with the server.
    pub player_name: String,
    /// How many seconds the server may take to know the player.
    pub player_timeout: u64,
    /// How many seconds the discovery of the server may take in all.
    pub discover_timeout: u64,
    /// How many milliseconds the server may take to answer one probe.
    pub discover_reply_timeout: u64,
    /// The program that plays, and its arguments.
    pub player_command: Vec<String>,
}

/// The mathematical value of a [`Config`].
pub struct ConfigView {
    pub hostname: Option<Seq<char>>,
    pub port: Option<u16>,
    pub player_name: Seq<char>,
    pub player_timeout: u64,
    pub discover_timeout: u64,
    pub discover_reply_timeout: u64,
    pub player_command: Seq<Seq<char>>,
}

impl View for Config {
    type V = ConfigView;

    open spec fn view(&self) -> ConfigView {
        ConfigView {
            hostname: match self.hostname {
                Some(hostname) => Some(hostname@),
                None => None,
            },
            port: self.port,
            player_name: self.player_name@,
            player_timeout: self.player_timeout,
            discover_timeout: self.discover_timeout,
            discover_reply_timeout: self.discover_reply_timeout,
            player_command: texts(self.player_command@),
        }
    }
}

/// Where the media server's control interface is.
#[derive(Debug)]
pub struct Server {
    pub address: String,
    pub port: u16,
}

/// The mathematical value of a [`Server`].
pub struct ServerView {
    pub address: Seq<char>,
    pub port: u16,
}

impl View for Server {
    type V = ServerView;

    open spec fn view(&self) -> ServerView {
        ServerView { address: self.address@, port: self.port }
    }
}

/// Why the supervisor ended.
#[derive(Debug)]
pub enum Failure {
    /// The media server was not found.
    Discovery(DiscoverError),
    /// The player process was not started.
    Launch(LaunchError),
    /// The media server did not get to know the player.
    PlayerWait(WaitError),
    /// The desktop could not be served.
    Presentation { cause: String },
    /// An operation of the client failed.
    Client(LmsError),
    /// The polling of the player's state has ended.
    PollingExited,
    /// The player process has ended, with this exit code if it had one.
    ChildExited { code: Option<i32> },
}

/// The mathematical value of a [`Failure`].
pub enum FailureView {
    Discovery(DiscoverErrorView),
    Launch(LaunchErrorView),
    PlayerWait(WaitErrorView),
    Presentation { cause: Seq<char> },
    Client(LmsErrorView),
    PollingExited,
    ChildExited { code: Option<i32> },
}

impl View for Failure {
    type V = FailureView;

    open spec fn view(&self) -> FailureView {
        match self {
            Failure::Discovery(e) => FailureView::Discovery(e@),
            Failure::Launch(e) => FailureView::Launch(e@),
            Failure::PlayerWait(e) => FailureView::PlayerWait(e@),
            Failure::Presentation { cause } => FailureView::Presentation { cause: cause@ },
            Failure::Client(e) => FailureView::Client(e@),
            Failure::PollingExited => FailureView::PollingExited,
            Failure::ChildExited { code } => FailureView::ChildExited { code: *code },
        }
    }
}

/// Where the supervisor stands.
#[derive(Clone, Copy, Debug, PartialEq, Eq, Structural)]
pub enum State {
    /// Nothing has happened yet.
    Init,
    /// The media server is being looked for.
    Discovering,
    /// The player process is being started.
    LaunchingChild,
    /// The media server is asked for the player.
    WaitingForPlayer,
    /// The desktop is served.
    Running,
    /// The player process is being ended.
    Terminating,
    /// All is over.
    Done,
}

/// What happened since the supervisor last acted.
#[derive(Debug)]
pub enum Event {
    /// The supervisor starts.
    Started,
    /// The discovery has ended.
    DiscoveryFinished(Result<Discovered, DiscoverError>),
    /// The player process was started, or could not be.
    Launched(Result<(), String>),
    /// The wait for the player has ended, with the player's identifier.
    WaitFinished(Result<String, WaitError>),
    /// The desktop could not be served.
    PresentationFailed { cause: String },
    /// The client has signalled the failure of an operation.
    ErrorSignalled(LmsError),
    /// The polling of the player's state has ended.
    PollingExited,
    /// The player process has ended by itself.
    ChildExited { code: Option<i32> },
    /// The player process has ended as requested.
    ChildTerminated,
}

/// The mathematical value of an [`Event`].
pub enum EventView {
    Started,
    DiscoveryFinished(Result<ServerView, DiscoverErrorView>),
    Launched(Result<(), Seq<char>>),
    WaitFinished(Result<Seq<char>, WaitErrorView>),
    PresentationFailed { cause: Seq<char> },
    ErrorSignalled(LmsErrorView),
    PollingExited,
    ChildExited { code: Option<i32> },
    ChildTerminated,
}

impl View for Event {
    type V = EventView;

    open spec fn view(&self) -> EventView {
        match self {
            Event::Started => EventView::Started,
            Event::DiscoveryFinished(Ok(found)) => EventView::DiscoveryFinished(
                Ok(ServerView { address: found.address@, port: found.reply.port }),
            ),
            Event::DiscoveryFinished(Err(e)) => EventView::DiscoveryFinished(Err(e@)),
            Event::Launched(Ok(_)) => EventView::Launched(Ok(())),
            Event::Launched(Err(cause)) => EventView::Launched(Err(cause@)),
            Event::WaitFinished(Ok(id)) => EventView::WaitFinished(Ok(id@)),
            Event::WaitFinished(Err(e)) => EventView::WaitFinished(Err(e@)),
            Event::PresentationFailed { cause } => EventView::PresentationFailed { cause: cause@ },
            Event::ErrorSignalled(e) => EventView::ErrorSignalled(e@),
            Event::PollingExited => EventView::PollingExited,
            Event::ChildExited { code } => EventView::ChildExited { code: *code },
            Event::ChildTerminated => EventView::ChildTerminated,
        }
    }
}

/// What the supervisor asks its caller to do.
#[derive(Debug)]
pub enum Action {
    /// Look for the media server: probe it until it answers, waiting
    /// `reply_timeout` milliseconds for each answer and `deadline` seconds in
    /// all. Report [`Event::DiscoveryFinished`].
    Discover { reply_timeout: u64, deadline: u64 },
    /// Start the player process. Report [`Event::Launched`].
    Launch(PlayerCommand),
    /// Wait until the media server knows the player of this name, for at most
    /// `timeout` seconds. Report [`Event::WaitFinished`].
    WaitForPlayer { name: String, timeout: u64 },
    /// Poll the state of this player, serve the desktop, and watch for the
    /// failure of the client, the end of the polling and the end of the
    /// player process. Report whichever comes first.
    Serve { player_id: String },
    /// End the player process and wait until it has ended. Report
    /// [`Event::ChildTerminated`].
    Terminate,
    /// Stop: the supervisor has ended with its [`Supervisor::failure`].
    Exit,
    /// Carry on: the event changes nothing.
    Ignore,
}

/// The mathematical value of an [`Action`].
pub enum ActionView {
    Discover { reply_timeout: u64, deadline: u64 },
    Launch(PlayerCommandView),
    WaitForPlayer { name: Seq<char>, timeout: u64 },
    Serve { player_id: Seq<char> },
    Terminate,
    Exit,
    Ignore,
}

impl View for Action {
    type V = ActionView;

    open spec fn view(&self) -> ActionView {
        match self {
            Action::Discover { reply_timeout, deadline } => ActionView::Discover {
                reply_timeout: *reply_timeout,
                deadline: *deadline,
            },
            Action::Launch(command) => ActionView::Launch(command@),
            Action::WaitForPlayer { name, timeout } => ActionView::WaitForPlayer {
                name: name@,
                timeout: *timeout,
            },
            Action::Serve { player_id } => ActionView::Serve { player_id: player_id@ },
            Action::Terminate => ActionView::Terminate,
            Action::Exit => ActionView::Exit,
            Action::Ignore => ActionView::Ignore,
        }
    }
}

/// The supervisor's memory.
#[derive(Debug)]
pub struct Supervisor {
    config: Config,
    state: State,
    server: Option<Server>,
    child_alive: bool,
    failure: Option<Failure>,
}

/// The mathematical value of a [`Supervisor`].
pub struct SupervisorView {
    pub config: ConfigView,
    pub state: State,
    /// The media server, once it is known.
    pub server: Option<ServerView>,
    /// True from the start of the player process to its end.
    pub child_alive: bool,
    /// The failure that ends the supervisor, once there is one.
    pub failure: Option<FailureView>,
}

impl View for Supervisor {
    type V = SupervisorView;

    closed spec fn view(&self) -> SupervisorView {
        SupervisorView {
            config: self.config@,
            state: self.state,
            server: match self.server {
                Some(server) => Some(server@),
                None => None,
            },
            child_alive: self.child_alive,
            failure: match self.failure {
                Some(failure) => Some(failure@),
                None => None,
            },
        }
    }
}

/// The supervisor before anything has happened.
pub open spec fn initial(config: ConfigView) -> SupervisorView {
    SupervisorView { config, state: State::Init, server: None, child_alive: false, failure: None }
}

/// The supervisor takes note of a failure. A player process that is alive
/// is ended first; without one, all is over at once.
pub open spec fn fail(s: SupervisorView, failure: FailureView) -> (SupervisorView, ActionView) {
    if s.child_alive {
        (SupervisorView { state: State::Terminating, failure: Some(failure), ..s }, ActionView::Terminate)
    } else {
        (SupervisorView { state: State::Done, failure: Some(failure), ..s }, ActionView::Exit)
    }
}

/// The supervisor knows the media server and goes on to start the player
/// process, unless the configured command is refused.
pub open spec fn launch(s: SupervisorView, server: ServerView) -> (SupervisorView, ActionView) {
    let s = SupervisorView { server: Some(server), ..s };
    match command_of(s.config.player_command, s.config.player_name, server.address) {
        Ok(command) => (
            SupervisorView { state: State::LaunchingChild, ..s },
            ActionView::Launch(command),
        ),
        Err(e) => fail(s, FailureView::Launch(e)),
    }
}

/// The step of the supervisor: where it stands after an event, and what it
/// asks for.
pub open spec fn next(s: SupervisorView, event: EventView) -> (SupervisorView, ActionView) {
    match (s.state, event) {
        (State::Init, EventView::Started) => match (s.config.hostname, s.config.port) {
            (Some(address), Some(port)) => launch(s, ServerView { address, port }),
            _ => (
                SupervisorView { state: State::Discovering, ..s },
                ActionView::Discover {
                    reply_timeout: s.config.discover_reply_timeout,
                    deadline: s.config.discover_timeout,
                },
            ),
        },
        (State::Discovering, EventView::DiscoveryFinished(Ok(server))) => launch(s, server),
        (State::Discovering, EventView::DiscoveryFinished(Err(e))) => fail(
            s,
            FailureView::Discovery(e),
        ),
        (State::LaunchingChild, EventView::Launched(Ok(_))) => (
            SupervisorView { state: State::WaitingForPlayer, child_alive: true, ..s },
            ActionView::WaitForPlayer {
                name: s.config.player_name,
                timeout: s.config.player_timeout,
            },
        ),
        (State::LaunchingChild, EventView::Launched(Err(cause))) => fail(
            s,
            FailureView::Launch(LaunchErrorView::Spawn { cause }),
        ),
        (State::WaitingForPlayer, EventView::WaitFinished(Ok(player_id))) => (
            SupervisorView { state: State::Running, ..s },
            ActionView::Serve { player_id },
        ),
        (State::WaitingForPlayer, EventView::WaitFinished(Err(e))) => fail(
            s,
            FailureView::PlayerWait(e),
        ),
        (State::Running, EventView::ErrorSignalled(cause)) => fail(s, FailureView::Client(cause)),
        (State::Running, EventView::PollingExited) => fail(s, FailureView::PollingExited),
        (State::Running, EventView::PresentationFailed { cause }) => fail(
            s,
            FailureView::Presentation { cause },
        ),
        (State::Running, EventView::ChildExited { code }) => fail(
            SupervisorView { child_alive: false, ..s },
            FailureView::ChildExited { code },
        ),
        (State::Terminating, EventView::ChildTerminated)
        | (State::Terminating, EventView::ChildExited { .. }) => (
            SupervisorView { state: State::Done, child_alive: false, ..s },
            ActionView::Exit,
        ),
        (State::Done, _) => (s, ActionView::Exit),
        _ => (s, ActionView::Ignore),
    }
}

impl Supervisor {
    /// A supervisor that has not started yet.
    pub fn new(config: Config) -> (supervisor: Self)
        ensures
            supervisor@ == initial(config@),
    {
        Self { config, state: State::Init, server: None, child_alive: false, failure: None }
    }

    /// Where the supervisor stands.
    pub fn state(&self) -> (r: State)
        ensures
            r == self@.state,
    {
        self.state
    }

    /// What the supervisor is configured with.
    pub fn config(&self) -> (r: &Config)
        ensures
            r@ == self@.config,
    {
        &self.config
    }

    /// The media server, once it is known.
    pub fn server(&self) -> (r: Option<&Server>)
        ensures
            match r {
                Some(server) => self@.server == Some(server@),
                None => self@.server is None,
            },
    {
        self.server.as_ref()
    }

    /// Whether the player process has been started and has not ended.
    pub fn child_alive(&self) -> (r: bool)
        ensures
            r == self@.child_alive,
    {
        self.child_alive
    }

    /// The failure that ends the supervisor, once there is one.
    pub fn failure(&self) -> (r: Option<&Failure>)
        ensures
            match r {
                Some(failure) => self@.failure == Some(failure@),
                None => self@.failure is None,
            },
    {
        self.failure.as_ref()
    }

    /// The failure that has ended the supervisor.
    pub fn into_failure(self) -> (r: Option<Failure>)
        ensures
            match r {
                Some(failure) => self@.failure == Some(failure@),
                None => self@.failure is None,
            },
    {
        self.failure
    }

    /// Takes note of a failure and asks for the end of the player process, if
    /// there is one.
    fn fail(&mut self, failure: Failure) -> (action: Action)
        ensures
            (final(self)@, action@) == fail(old(self)@, failure@),
    {
        self.failure = Some(failure);
        if self.child_alive {
            self.state = State::Terminating;
            Action::Terminate
        } else {
            self.state = State::Done;
            Action::Exit
        }
    }

    /// Takes note of the media server and asks for the start of the player
    /// process.
    fn launch(&mut self, server: Server) -> (action: Action)
        ensures
            (final(self)@, action@) == launch(old(self)@, server@),
    {
        let command = player_command(
            &self.config.player_command,
            self.config.player_name.as_str(),
            server.address.as_str(),
        );
        self.server = Some(server);
        match command {
            Ok(command) => {
                self.state = State::LaunchingChild;
                Action::Launch(command)
            },
            Err(e) => self.fail(Failure::Launch(e)),
        }
    }

    /// Takes in an event and says what to do next.
    pub fn step(&mut self, event: Event) -> (action: Action)
        ensures
            (final(self)@, action@) == next(old(self)@, event@),
    {
        match self.state {
            State::Init => match event {
                Event::Started => {
                    let configured = match (&self.config.hostname, self.config.port) {
                        (Some(address), Some(port)) => Some(
                            Server { address: address.clone(), port },
                        ),
                        _ => None,
                    };
                    match configured {
                        Some(server) => self.launch(server),
                        None => {
                            self.state = State::Discovering;
                            Action::Discover {
                                reply_timeout: self.config.discover_reply_timeout,
                                deadline: self.config.discover_timeout,
                            }
                        },
                    }
                },
                _ => Action::Ignore,
            },
            State::Discovering => match event {
                Event::DiscoveryFinished(Ok(found)) => self.launch(
                    Server { address: found.address, port: found.reply.port },
                ),
                Event::DiscoveryFinished(Err(e)) => self.fail(Failure::Discovery(e)),
                _ => Action::Ignore,
            },
            State::LaunchingChild => match event {
                Event::Launched(Ok(_)) => {
                    self.state = State::WaitingForPlayer;
                    self.child_alive = true;
                    Action::WaitForPlayer {
                        name: self.config.player_name.clone(),
                        timeout: self.config.player_timeout,
                    }
                },
                Event::Launched(Err(cause)) => self.fail(
                    Failure::Launch(LaunchError::Spawn { cause }),
                ),
                _ => Action::Ignore,
            },
            State::WaitingForPlayer => match event {
                Event::WaitFinished(Ok(player_id)) => {
                    self.state = State::Running;
                    Action::Serve { player_id }
                },
                Event::WaitFinished(Err(e)) => self.fail(Failure::PlayerWait(e)),
                _ => Action::Ignore,
            },
            State::Running => match event {
                Event::ErrorSignalled(cause) => self.fail(Failure::Client(cause)),
                Event::PollingExited => self.fail(Failure::PollingExited),
                Event::PresentationFailed { cause } => self.fail(Failure::Presentation { cause }),
                Event::ChildExited { code } => {
                    self.child_alive = false;
                    self.fail(Failure::ChildExited { code })
                },
                _ => Action::Ignore,
            },
            State::Terminating => match event {
                Event::ChildTerminated | Event::ChildExited { .. } => {
                    self.state = State::Done;
                    self.child_alive = false;
                    Action::Exit
                },
                _ => Action::Ignore,
            },
            State::Done => Action::Exit,
        }
    }
}

/// What holds of the supervisor at every moment: it has a failure exactly
/// when it is ending or has ended; the player process counts as alive exactly
/// while the supervisor waits for the player, serves the desktop or ends the
/// process; and the media server is known from the start of the player
/// process on.
pub open spec fn consistent(s: SupervisorView) -> bool {
    &&& s.failure is Some <==> s.state == State::Terminating || s.state == State::Done
    &&& s.child_alive <==> s.state == State::WaitingForPlayer || s.state == State::Running
        || s.state == State::Terminating
    &&& s.state == State::LaunchingChild || s.state == State::WaitingForPlayer || s.state
        == State::Running ==> s.server is Some
}

/// The supervisor starts consistent.
pub proof fn lemma_initial_consistent(config: ConfigView)
    ensures
        consistent(initial(config)),
{
}

/// Every step keeps the supervisor consistent.
pub proof fn lemma_next_consistent(s: SupervisorView, event: EventView)
    requires
        consistent(s),
    ensures
        consistent(next(s, event).0),
{
}

/// There is no successful end: a supervisor that is done has a failure, and
/// has not left the player process running.
pub proof fn lemma_done_has_failed(s: SupervisorView)
    requires
        consistent(s),
        s.state == State::Done,
    ensures
        s.failure is Some,
        !s.child_alive,
{
}

/// The supervisor is asked to stop exactly when it is done.
pub proof fn lemma_exit_when_done(s: SupervisorView, event: EventView)
    requires
        consistent(s),
    ensures
        next(s, event).1 == ActionView::Exit <==> next(s, event).0.state == State::Done,
{
}

/// The first failure is the result: once the supervisor has a failure, no
/// event changes it.
pub proof fn lemma_first_failure_stays(s: SupervisorView, event: EventView)
    requires
        consistent(s),
        s.failure is Some,
    ensures
        next(s, event).0.failure == s.failure,
{
}

/// The end of the player process is asked for exactly when a failure is met
/// while the process is alive, and never twice.
pub proof fn lemma_terminate_when_alive(s: SupervisorView, event: EventView)
    requires
        consistent(s),
    ensures
        next(s, event).1 == ActionView::Terminate <==> s.failure is None && next(
            s,
            event,
        ).0.failure is Some && next(s, event).0.child_alive,
        next(s, event).1 == ActionView::Terminate ==> next(s, event).0.state
            == State::Terminating,
{
}

/// While the desktop is served, each of the three ways to fail ends the
/// service with that very failure.
pub proof fn lemma_running_race(s: SupervisorView, event: EventView)
    requires
        consistent(s),
        s.state == State::Running,
    ensures
        event matches EventView::ErrorSignalled(cause) ==> next(s, event).0.failure == Some(
            FailureView::Client(cause),
        ) && next(s, event).1 == ActionView::Terminate,
        event == EventView::PollingExited ==> next(s, event).0.failure == Some(
            FailureView::PollingExited,
        ) && next(s, event).1 == ActionView::Terminate,
        event matches EventView::ChildExited { code } ==> next(s, event).0.failure == Some(
            FailureView::ChildExited { code },
        ) && next(s, event).0.state == State::Done && next(s, event).1 == ActionView::Exit,
{
}

/// Where the player process ends by itself while the desktop is served, the
/// supervisor is done at once, with the exit code as its result: there is
/// nothing left to end.
pub proof fn lemma_child_exit(s: SupervisorView, code: Option<i32>)
    requires
        consistent(s),
        s.state == State::Running,
    ensures
        next(s, EventView::ChildExited { code }) == (
            SupervisorView {
                state: State::Done,
                child_alive: false,
                failure: Some(FailureView::ChildExited { code }),
                ..s
            },
            ActionView::Exit,
        ),
{
}

} // verus!
