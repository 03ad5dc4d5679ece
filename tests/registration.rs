use slackrope::command::Command;
use slackrope::registration::{registration_step, Action, Event, Outcome, Registration, RegistrationError, RegistrationState};
use slackrope::relay::{Infolist, InfolistItem, InfolistVariable, Message, Object};
use slackrope::reports::{exit_code, registration_error_lines};
use slackrope::text::WString;

fn ws(s: &str) -> WString {
    WString { bytes: Some(s.as_bytes().to_vec()) }
}

fn reg() -> Registration {
    Registration { token: "xoxp-123".to_string(), program_name: "weechat-headless".to_string(), max_exit_polls: 2 }
}

fn infolist(items: Vec<Vec<(&str, &str)>>) -> Option<Message> {
    let items = items
        .into_iter()
        .map(|vars| InfolistItem {
            variables: vars
                .into_iter()
                .map(|(n, v)| InfolistVariable { name: ws(n), value: Object::Str(ws(v)) })
                .collect(),
        })
        .collect();
    Some(Message { objects: vec![Object::Infolist(Infolist { name: ws("x"), items })] })
}

fn step(state: RegistrationState, event: Event) -> (RegistrationState, Action) {
    assert!(state.accepts(&event));
    registration_step(&reg(), state, event)
}

fn is_register(a: &Action) -> bool {
    matches!(a, Action::Send(Command::Input { data, .. }) if data.starts_with("/slack register"))
}

#[test]
fn plugin_missing_aborts_before_registering() {
    let (s, a) = step(RegistrationState::EnsureRunning, Event::Liveness(true));
    assert!(matches!(a, Action::Connect));
    let (s, a) = step(s, Event::Connected(true));
    match &a {
        Action::Request(Command::Infolist { name, arguments }) => {
            assert_eq!(name, "python_script");
            assert!(arguments.is_empty());
        }
        _ => panic!("expected the script request"),
    }
    let (s, a) = step(s, Event::Reply(infolist(vec![vec![("name", "go")], vec![("name", "autosort")]])));
    assert!(s == RegistrationState::Done);
    assert!(!is_register(&a));
    match a {
        Action::Finish(outcome) => {
            assert_eq!(exit_code(&outcome), 1);
            match outcome {
                Outcome::Failed(e) => {
                    assert!(matches!(e, RegistrationError::PluginNotLoaded));
                    let lines = registration_error_lines(&e);
                    assert!(lines[0].contains("plugin is not loaded"));
                }
                _ => panic!("expected a failure"),
            }
        }
        _ => panic!("expected the end"),
    }
}

#[test]
fn unreadable_plugin_check_is_a_connection_failure() {
    let (s, a) = step(RegistrationState::VerifyPlugin, Event::Reply(None));
    assert!(s == RegistrationState::Done);
    match a {
        Action::Finish(Outcome::Failed(RegistrationError::ConnectionFailed)) => {}
        _ => panic!("expected a connection failure"),
    }
    let lines = registration_error_lines(&RegistrationError::ConnectionFailed);
    assert_eq!(lines[0], "Error : could not check if wee-slack python plugin is loaded in weechat.");
}

#[test]
fn full_registration_with_restart() {
    let (s, a) = step(RegistrationState::EnsureRunning, Event::Liveness(false));
    assert!(matches!(a, Action::Spawn));
    let (s, a) = step(s, Event::Spawned(true));
    assert!(matches!(a, Action::Sleep(2)));
    let (s, a) = step(s, Event::Slept);
    assert!(matches!(a, Action::Connect));
    let (s, _) = step(s, Event::Connected(true));
    let (s, a) = step(s, Event::Reply(infolist(vec![vec![("name", "slack")]])));
    match &a {
        Action::Send(Command::Input { buffer, data }) => {
            assert_eq!(buffer, "core.weechat");
            assert_eq!(data, "/slack register xoxp-123");
        }
        _ => panic!("expected the register command"),
    }
    let (s, a) = step(s, Event::Sent(true));
    assert!(matches!(a, Action::Sleep(2)));
    let (s, a) = step(s, Event::Slept);
    match &a {
        Action::Send(Command::Input { data, .. }) => assert_eq!(data, "/quit"),
        _ => panic!("expected the quit command"),
    }
    let (s, a) = step(s, Event::Sent(true));
    assert!(matches!(a, Action::PollLiveness));
    let (s, a) = step(s, Event::Liveness(true));
    assert!(matches!(a, Action::Sleep(1)));
    let (s, a) = step(s, Event::Slept);
    assert!(matches!(a, Action::PollLiveness));
    let (s, a) = step(s, Event::Liveness(false));
    assert!(matches!(a, Action::Sleep(2)));
    let (s, a) = step(s, Event::Slept);
    assert!(matches!(a, Action::Spawn));
    let (s, a) = step(s, Event::Spawned(true));
    assert!(matches!(a, Action::Sleep(2)));
    let (s, a) = step(s, Event::Slept);
    assert!(matches!(a, Action::Connect));
    let (s, a) = step(s, Event::Connected(true));
    match &a {
        Action::Request(Command::Infolist { name, arguments }) => {
            assert_eq!(name, "buffer");
            assert_eq!(arguments, &vec!["python.slack.*".to_string()]);
        }
        _ => panic!("expected the buffer request"),
    }
    let teams = infolist(vec![
        vec![("localvar_value_00008", "team"), ("name", "python.slack.acme")],
        vec![("localvar_value_00008", "channel"), ("name", "python.slack.acme.#general")],
    ]);
    let (s, a) = step(s, Event::Reply(teams));
    assert!(s == RegistrationState::Done);
    match a {
        Action::Finish(outcome) => {
            assert_eq!(exit_code(&outcome), 0);
            match outcome {
                Outcome::Registered(t) => {
                    assert_eq!(t.len(), 1);
                    assert_eq!(t[0].name, "python.slack.acme");
                }
                _ => panic!("expected success"),
            }
        }
        _ => panic!("expected the end"),
    }
}

#[test]
fn daemon_that_never_exits_stops_the_wait() {
    let mut s = RegistrationState::AwaitExit { polls_left: 2 };
    for _ in 0..2 {
        let (n, a) = step(s, Event::Liveness(true));
        assert!(matches!(a, Action::Sleep(1)));
        let (n, a) = step(n, Event::Slept);
        assert!(matches!(a, Action::PollLiveness));
        s = n;
    }
    let (n, a) = step(s, Event::Liveness(true));
    assert!(n == RegistrationState::Done);
    assert!(matches!(a, Action::Finish(Outcome::Failed(RegistrationError::ProcessNotResponding))));
}

#[test]
fn spawn_failure_names_the_program() {
    let (s, a) = step(RegistrationState::Respawning, Event::Spawned(false));
    assert!(s == RegistrationState::Done);
    match a {
        Action::Finish(Outcome::Failed(e)) => {
            let lines = registration_error_lines(&e);
            assert_eq!(lines[1], "Please check that weechat-headless is present in $PATH");
            match e {
                RegistrationError::ProcessSpawnFailed { program_name } => assert_eq!(program_name, "weechat-headless"),
                _ => panic!("expected a spawn failure"),
            }
        }
        _ => panic!("expected the end"),
    }
}

#[test]
fn failed_send_aborts() {
    let (s, a) = step(RegistrationState::SendingQuit, Event::Sent(false));
    assert!(s == RegistrationState::Done);
    assert!(matches!(a, Action::Finish(Outcome::Failed(RegistrationError::ConnectionFailed))));
}

#[test]
fn states_accept_only_their_events() {
    assert!(!RegistrationState::Done.accepts(&Event::Slept));
    assert!(!RegistrationState::VerifyPlugin.accepts(&Event::Slept));
    assert!(RegistrationState::VerifyPlugin.accepts(&Event::Reply(None)));
    assert!(RegistrationState::ExitPollWait { polls_left: 0 }.accepts(&Event::Slept));
}
