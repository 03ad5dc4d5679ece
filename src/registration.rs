//! Registration of a Slack token: a linear state machine over the
//! daemon's process, its relay and a restart. The caller performs each
//! action and reports what came of it as the next event.
use vstd::prelude::*;
use crate::command::{buffer_infolist_request, python_script_request, quit_request, register_request, Command, CommandView, core_buffer};
use crate::models::SlackTeam;
use crate::relay::{response_infolist, Message};
use crate::slack::{check_connection_and_python_wee_slack_plugin, plugin_check, registered_teams, slack_teams_from_response, team_names};

verus! {

/// Seconds given to the daemon to boot, to handle the token, and to exit
/// before it is started again.
pub const COOLDOWN_SECS: u64 = 2;

/// Seconds between two looks at the process table while the daemon quits.
pub const EXIT_POLL_SECS: u64 = 1;

/// The steps of a registration.
#[derive(PartialEq, Eq, Structural, Clone, Copy)]
pub enum RegistrationState {
    /// Waiting to learn whether the daemon runs.
    EnsureRunning,
    /// The daemon is being started.
    Booting,
    /// Waiting for the daemon to boot.
    BootCooldown,
    /// Opening the first session.
    Connecting,
    /// Waiting for the list of loaded scripts.
    VerifyPlugin,
    /// Sending the token.
    SendingRegister,
    /// Waiting for the daemon to handle the token.
    RegisterCooldown,
    /// Asking the daemon to quit.
    SendingQuit,
    /// Looking whether the daemon has exited; `polls_left` more looks
    /// are allowed after this one.
    AwaitExit { polls_left: u32 },
    /// Waiting before the next look.
    ExitPollWait { polls_left: u32 },
    /// Waiting before starting the daemon again.
    RestartCooldown,
    /// The daemon is being started again.
    Respawning,
    /// Waiting for the restarted daemon to boot.
    ReconnectCooldown,
    /// Opening a fresh session.
    Reconnecting,
    /// Waiting for the list of Slack buffers.
    FetchingTeams,
    /// The registration is over.
    Done,
}

/// What came of the last action.
pub enum Event {
    /// The daemon is (`true`) or is not in the process table.
    Liveness(bool),
    /// The daemon was started, or could not be.
    Spawned(bool),
    /// A pause is over.
    Slept,
    /// A session was opened, or could not be.
    Connected(bool),
    /// A command was sent, or could not be.
    Sent(bool),
    /// The reply to a request; `None` when none could be read.
    Reply(Option<Message>),
}

/// Why a registration stopped.
pub enum RegistrationError {
    /// The relay could not be reached or did not answer.
    ConnectionFailed,
    /// The relay answered but the Slack plugin is not loaded.
    PluginNotLoaded,
    /// The daemon's executable could not be started.
    ProcessSpawnFailed { program_name: String },
    /// The daemon did not exit after being asked to quit.
    ProcessNotResponding,
}

/// How a registration ended.
pub enum Outcome {
    /// The token was sent; these teams are registered now (possibly none yet).
    Registered(Vec<SlackTeam>),
    Failed(RegistrationError),
}

/// What the caller does next.
pub enum Action {
    /// Start the daemon, its output discarded; report `Spawned`.
    Spawn,
    /// Pause for this many seconds; report `Slept`.
    Sleep(u64),
    /// Open a fresh relay session and authenticate; report `Connected`.
    Connect,
    /// Send the command on the session; report `Sent`.
    Send(Command),
    /// Send the command and read one reply; report `Reply`.
    Request(Command),
    /// Refresh the process table and look for the daemon; report `Liveness`.
    PollLiveness,
    /// Stop with this outcome.
    Finish(Outcome),
}

/// A registration error, with its texts as character sequences.
pub enum ErrorView {
    ConnectionFailed,
    PluginNotLoaded,
    ProcessSpawnFailed(Seq<char>),
    ProcessNotResponding,
}

/// An action, with its values as mathematical values.
pub enum ActionView {
    Spawn,
    Sleep(u64),
    Connect,
    Send(CommandView),
    Request(CommandView),
    PollLiveness,
    Registered(Seq<Seq<char>>),
    Failed(ErrorView),
}

impl View for RegistrationError {
    type V = ErrorView;

    open spec fn view(&self) -> ErrorView {
        match self {
            RegistrationError::ConnectionFailed => ErrorView::ConnectionFailed,
            RegistrationError::PluginNotLoaded => ErrorView::PluginNotLoaded,
            RegistrationError::ProcessSpawnFailed { program_name } => ErrorView::ProcessSpawnFailed(
                program_name@,
            ),
            RegistrationError::ProcessNotResponding => ErrorView::ProcessNotResponding,
        }
    }
}

impl View for Action {
    type V = ActionView;

    open spec fn view(&self) -> ActionView {
        match self {
            Action::Spawn => ActionView::Spawn,
            Action::Sleep(s) => ActionView::Sleep(*s),
            Action::Connect => ActionView::Connect,
            Action::Send(c) => ActionView::Send(c@),
            Action::Request(c) => ActionView::Request(c@),
            Action::PollLiveness => ActionView::PollLiveness,
            Action::Finish(Outcome::Registered(teams)) => ActionView::Registered(team_names(teams@)),
            Action::Finish(Outcome::Failed(e)) => ActionView::Failed(e@),
        }
    }
}

/// What a registration needs to know from its caller.
pub struct Registration {
    /// The workspace token to register.
    pub token: String,
    /// The daemon's executable, named in a spawn failure.
    pub program_name: String,
    /// How many times the process table is read, at most, while waiting
    /// for the daemon to exit.
    pub max_exit_polls: u32,
}

/// Whether `event` is the kind of report that `state` waits for.
pub open spec fn accepts(state: RegistrationState, event: Event) -> bool {
    match state {
        RegistrationState::EnsureRunning | RegistrationState::AwaitExit { .. } => event is Liveness,
        RegistrationState::Booting | RegistrationState::Respawning => event is Spawned,
        RegistrationState::BootCooldown
        | RegistrationState::RegisterCooldown
        | RegistrationState::ExitPollWait { .. }
        | RegistrationState::RestartCooldown
        | RegistrationState::ReconnectCooldown => event is Slept,
        RegistrationState::Connecting | RegistrationState::Reconnecting => event is Connected,
        RegistrationState::VerifyPlugin | RegistrationState::FetchingTeams => event is Reply,
        RegistrationState::SendingRegister | RegistrationState::SendingQuit => event is Sent,
        RegistrationState::Done => false,
    }
}

/// The step of the machine: next state and action for a state and the
/// event it accepts.
pub open spec fn transition(
    token: Seq<char>,
    program_name: Seq<char>,
    max_exit_polls: u32,
    state: RegistrationState,
    event: Event,
) -> (RegistrationState, ActionView) {
    let failed = |e: ErrorView| (RegistrationState::Done, ActionView::Failed(e));
    match (state, event) {
        (RegistrationState::EnsureRunning, Event::Liveness(true)) => (
            RegistrationState::Connecting,
            ActionView::Connect,
        ),
        (RegistrationState::EnsureRunning, Event::Liveness(false)) => (
            RegistrationState::Booting,
            ActionView::Spawn,
        ),
        (RegistrationState::Booting, Event::Spawned(true)) => (
            RegistrationState::BootCooldown,
            ActionView::Sleep(COOLDOWN_SECS),
        ),
        (RegistrationState::BootCooldown, Event::Slept) => (
            RegistrationState::Connecting,
            ActionView::Connect,
        ),
        (RegistrationState::Connecting, Event::Connected(true)) => (
            RegistrationState::VerifyPlugin,
            ActionView::Request(CommandView::Infolist("python_script"@, Seq::empty())),
        ),
        (RegistrationState::VerifyPlugin, Event::Reply(response)) => {
            let check = plugin_check(response_infolist(response));
            if check == (true, true) {
                (
                    RegistrationState::SendingRegister,
                    ActionView::Send(CommandView::Input(core_buffer(), "/slack register "@ + token)),
                )
            } else if check.0 {
                failed(ErrorView::PluginNotLoaded)
            } else {
                failed(ErrorView::ConnectionFailed)
            }
        },
        (RegistrationState::SendingRegister, Event::Sent(true)) => (
            RegistrationState::RegisterCooldown,
            ActionView::Sleep(COOLDOWN_SECS),
        ),
        (RegistrationState::RegisterCooldown, Event::Slept) => (
            RegistrationState::SendingQuit,
            ActionView::Send(CommandView::Input(core_buffer(), "/quit"@)),
        ),
        (RegistrationState::SendingQuit, Event::Sent(true)) => (
            RegistrationState::AwaitExit { polls_left: max_exit_polls },
            ActionView::PollLiveness,
        ),
        (RegistrationState::AwaitExit { polls_left }, Event::Liveness(true)) => if polls_left == 0 {
            failed(ErrorView::ProcessNotResponding)
        } else {
            (
                RegistrationState::ExitPollWait { polls_left: (polls_left - 1) as u32 },
                ActionView::Sleep(EXIT_POLL_SECS),
            )
        },
        (RegistrationState::AwaitExit { .. }, Event::Liveness(false)) => (
            RegistrationState::RestartCooldown,
            ActionView::Sleep(COOLDOWN_SECS),
        ),
        (RegistrationState::ExitPollWait { polls_left }, Event::Slept) => (
            RegistrationState::AwaitExit { polls_left },
            ActionView::PollLiveness,
        ),
        (RegistrationState::RestartCooldown, Event::Slept) => (
            RegistrationState::Respawning,
            ActionView::Spawn,
        ),
        (RegistrationState::Respawning, Event::Spawned(true)) => (
            RegistrationState::ReconnectCooldown,
            ActionView::Sleep(COOLDOWN_SECS),
        ),
        (RegistrationState::ReconnectCooldown, Event::Slept) => (
            RegistrationState::Reconnecting,
            ActionView::Connect,
        ),
        (RegistrationState::Reconnecting, Event::Connected(true)) => (
            RegistrationState::FetchingTeams,
            ActionView::Request(CommandView::Infolist("buffer"@, seq!["python.slack.*"@])),
        ),
        (RegistrationState::FetchingTeams, Event::Reply(response)) => (
            RegistrationState::Done,
            ActionView::Registered(registered_teams(response_infolist(response))),
        ),
        (_, Event::Spawned(false)) => failed(ErrorView::ProcessSpawnFailed(program_name)),
        _ => failed(ErrorView::ConnectionFailed),
    }
}

impl RegistrationState {
    /// Whether `event` is the kind of report this state waits for.
    pub fn accepts(&self, event: &Event) -> (r: bool)
        ensures
            r == accepts(*self, *event),
    {
        match self {
            RegistrationState::EnsureRunning | RegistrationState::AwaitExit { .. } => matches!(event, Event::Liveness(_)),
            RegistrationState::Booting | RegistrationState::Respawning => matches!(event, Event::Spawned(_)),
            RegistrationState::BootCooldown
            | RegistrationState::RegisterCooldown
            | RegistrationState::ExitPollWait { .. }
            | RegistrationState::RestartCooldown
            | RegistrationState::ReconnectCooldown => matches!(event, Event::Slept),
            RegistrationState::Connecting | RegistrationState::Reconnecting => matches!(event, Event::Connected(_)),
            RegistrationState::VerifyPlugin | RegistrationState::FetchingTeams => matches!(event, Event::Reply(_)),
            RegistrationState::SendingRegister | RegistrationState::SendingQuit => matches!(event, Event::Sent(_)),
            RegistrationState::Done => false,
        }
    }
}

fn fail(e: RegistrationError) -> (r: (RegistrationState, Action))
    ensures
        r.0 == RegistrationState::Done,
        r.1@ == ActionView::Failed(e@),
{
    (RegistrationState::Done, Action::Finish(Outcome::Failed(e)))
}

/// Advances the registration by one step.
pub fn registration_step(reg: &Registration, state: RegistrationState, event: Event) -> (r: (
    RegistrationState,
    Action,
))
    requires
        accepts(state, event),
    ensures
        (r.0, r.1@) == transition(reg.token@, reg.program_name@, reg.max_exit_polls, state, event),
{
    match (state, event) {
        (RegistrationState::EnsureRunning, Event::Liveness(true)) => (
            RegistrationState::Connecting,
            Action::Connect,
        ),
        (RegistrationState::EnsureRunning, Event::Liveness(false)) => (
            RegistrationState::Booting,
            Action::Spawn,
        ),
        (RegistrationState::Booting, Event::Spawned(true)) => (
            RegistrationState::BootCooldown,
            Action::Sleep(COOLDOWN_SECS),
        ),
        (RegistrationState::BootCooldown, Event::Slept) => (
            RegistrationState::Connecting,
            Action::Connect,
        ),
        (RegistrationState::Connecting, Event::Connected(true)) => (
            RegistrationState::VerifyPlugin,
            Action::Request(python_script_request()),
        ),
        (RegistrationState::VerifyPlugin, Event::Reply(response)) => {
            let (connected, loaded) = check_connection_and_python_wee_slack_plugin(response);
            if connected && loaded {
                (RegistrationState::SendingRegister, Action::Send(register_request(reg.token.as_str())))
            } else if connected {
                fail(RegistrationError::PluginNotLoaded)
            } else {
                fail(RegistrationError::ConnectionFailed)
            }
        },
        (RegistrationState::SendingRegister, Event::Sent(true)) => (
            RegistrationState::RegisterCooldown,
            Action::Sleep(COOLDOWN_SECS),
        ),
        (RegistrationState::RegisterCooldown, Event::Slept) => (
            RegistrationState::SendingQuit,
            Action::Send(quit_request()),
        ),
        (RegistrationState::SendingQuit, Event::Sent(true)) => (
            RegistrationState::AwaitExit { polls_left: reg.max_exit_polls },
            Action::PollLiveness,
        ),
        (RegistrationState::AwaitExit { polls_left }, Event::Liveness(true)) => {
            if polls_left == 0 {
                fail(RegistrationError::ProcessNotResponding)
            } else {
                (
                    RegistrationState::ExitPollWait { polls_left: polls_left - 1 },
                    Action::Sleep(EXIT_POLL_SECS),
                )
            }
        },
        (RegistrationState::AwaitExit { .. }, Event::Liveness(false)) => (
            RegistrationState::RestartCooldown,
            Action::Sleep(COOLDOWN_SECS),
        ),
        (RegistrationState::ExitPollWait { polls_left }, Event::Slept) => (
            RegistrationState::AwaitExit { polls_left },
            Action::PollLiveness,
        ),
        (RegistrationState::RestartCooldown, Event::Slept) => (
            RegistrationState::Respawning,
            Action::Spawn,
        ),
        (RegistrationState::Respawning, Event::Spawned(true)) => (
            RegistrationState::ReconnectCooldown,
            Action::Sleep(COOLDOWN_SECS),
        ),
        (RegistrationState::ReconnectCooldown, Event::Slept) => (
            RegistrationState::Reconnecting,
            Action::Connect,
        ),
        (RegistrationState::Reconnecting, Event::Connected(true)) => (
            RegistrationState::FetchingTeams,
            Action::Request(buffer_infolist_request()),
        ),
        (RegistrationState::FetchingTeams, Event::Reply(response)) => (
            RegistrationState::Done,
            Action::Finish(Outcome::Registered(slack_teams_from_response(response))),
        ),
        (_, Event::Spawned(false)) => fail(
            RegistrationError::ProcessSpawnFailed { program_name: reg.program_name.clone() },
        ),
        _ => fail(RegistrationError::ConnectionFailed),
    }
}

/// A plugin check that reaches the relay but finds no Slack plugin ends
/// the registration with `PluginNotLoaded`, before any token is sent.
pub proof fn lemma_missing_plugin_aborts(
    token: Seq<char>,
    program_name: Seq<char>,
    max_exit_polls: u32,
    response: Option<Message>,
)
    requires
        plugin_check(response_infolist(response)) == (true, false),
    ensures
        transition(token, program_name, max_exit_polls, RegistrationState::VerifyPlugin, Event::Reply(response))
            == (RegistrationState::Done, ActionView::Failed(ErrorView::PluginNotLoaded)),
{
}

/// The token is only ever sent in the step that read a plugin check
/// answering "connected, plugin loaded".
pub proof fn lemma_register_only_after_plugin_confirmed(
    token: Seq<char>,
    program_name: Seq<char>,
    max_exit_polls: u32,
    state: RegistrationState,
    event: Event,
)
    requires
        accepts(state, event),
        transition(token, program_name, max_exit_polls, state, event).1 == ActionView::Send(
            CommandView::Input(core_buffer(), "/slack register "@ + token),
        ),
    ensures
        state == RegistrationState::VerifyPlugin,
        event is Reply,
        plugin_check(response_infolist(event->Reply_0)) == (true, true),
{
    reveal_strlit("/quit");
    reveal_strlit("/slack register ");
    if state == RegistrationState::RegisterCooldown {
        assert(("/slack register "@ + token).len() != "/quit"@.len());
    }
}

/// Every step of a registration either moves to a later step or ends it:
/// no step leads back, except the bounded wait for the daemon to exit.
pub open spec fn rank(state: RegistrationState) -> nat {
    match state {
        RegistrationState::EnsureRunning => 0,
        RegistrationState::Booting => 1,
        RegistrationState::BootCooldown => 2,
        RegistrationState::Connecting => 3,
        RegistrationState::VerifyPlugin => 4,
        RegistrationState::SendingRegister => 5,
        RegistrationState::RegisterCooldown => 6,
        RegistrationState::SendingQuit => 7,
        RegistrationState::AwaitExit { .. } => 8,
        RegistrationState::ExitPollWait { .. } => 8,
        RegistrationState::RestartCooldown => 9,
        RegistrationState::Respawning => 10,
        RegistrationState::ReconnectCooldown => 11,
        RegistrationState::Reconnecting => 12,
        RegistrationState::FetchingTeams => 13,
        RegistrationState::Done => 14,
    }
}

/// How many steps a state may still take at most.
pub open spec fn steps_left(state: RegistrationState, max_exit_polls: u32) -> nat {
    match state {
        RegistrationState::AwaitExit { polls_left } => (14 - 8) as nat + 2 * polls_left as nat,
        RegistrationState::ExitPollWait { polls_left } => (14 - 8) as nat + 2 * polls_left as nat + 1,
        _ => if rank(state) < 8 {
            (14 - rank(state)) as nat + 2 * max_exit_polls as nat
        } else {
            (14 - rank(state)) as nat
        },
    }
}

/// A registration always ends: each step lowers the number of steps left.
pub proof fn lemma_registration_terminates(
    token: Seq<char>,
    program_name: Seq<char>,
    max_exit_polls: u32,
    state: RegistrationState,
    event: Event,
)
    requires
        accepts(state, event),
        state is AwaitExit ==> state->AwaitExit_polls_left <= max_exit_polls,
        state is ExitPollWait ==> state->ExitPollWait_polls_left <= max_exit_polls,
    ensures
        ({
            let next = transition(token, program_name, max_exit_polls, state, event).0;
            steps_left(next, max_exit_polls) < steps_left(state, max_exit_polls)
        }),
{
}

} // verus!
