use slackrope::models::SlackTeam;
use slackrope::relay::{Infolist, InfolistItem, InfolistVariable, Message, Object};
use slackrope::reports::{register_url_report, teams_report};
use slackrope::slack::{build_slack_registered_teams, check_connection_and_python_wee_slack_plugin, slack_teams_from_response};
use slackrope::text::WString;

fn ws(s: &str) -> WString {
    WString { bytes: Some(s.as_bytes().to_vec()) }
}

fn item(vars: &[(&str, Object)]) -> InfolistItem {
    InfolistItem {
        variables: vars
            .iter()
            .map(|(n, v)| InfolistVariable {
                name: ws(n),
                value: match v {
                    Object::Str(s) => Object::Str(s.clone_text()),
                    Object::Int(i) => Object::Int(*i),
                    _ => Object::Other,
                },
            })
            .collect(),
    }
}

trait CloneText {
    fn clone_text(&self) -> WString;
}

impl CloneText for WString {
    fn clone_text(&self) -> WString {
        WString { bytes: self.bytes.clone() }
    }
}

fn s(v: &str) -> Object {
    Object::Str(ws(v))
}

fn list(items: Vec<InfolistItem>) -> Option<Infolist> {
    Some(Infolist { name: ws("buffer"), items })
}

#[test]
fn teams_are_taken_in_item_order() {
    let items = vec![
        item(&[("localvar_value_00008", s("team")), ("name", s("python.slack.b"))]),
        item(&[("name", s("python.slack.c")), ("localvar_value_00008", s("channel"))]),
        item(&[("name", s("python.slack.a")), ("localvar_value_00008", s("team"))]),
    ];
    let teams = build_slack_registered_teams(&list(items));
    let names: Vec<&str> = teams.iter().map(|t| t.name.as_str()).collect();
    assert_eq!(names, vec!["python.slack.b", "python.slack.a"]);
}

#[test]
fn team_type_must_be_a_string() {
    let items = vec![
        item(&[("localvar_value_00008", Object::Int(1)), ("name", s("x"))]),
        item(&[("localvar_value_00008", s("team"))]),
        item(&[("localvar_value_00008", s("Team")), ("name", s("y"))]),
    ];
    assert!(build_slack_registered_teams(&list(items)).is_empty());
}

#[test]
fn no_infolist_no_teams() {
    assert!(build_slack_registered_teams(&None).is_empty());
    assert!(slack_teams_from_response(Some(Message { objects: vec![Object::Int(0)] })).is_empty());
}

#[test]
fn plugin_check_outcomes() {
    let msg = |names: &[&str]| {
        let items = names.iter().map(|n| item(&[("name", s(n))])).collect();
        Some(Message { objects: vec![Object::Infolist(Infolist { name: ws("python_script"), items })] })
    };
    assert_eq!(check_connection_and_python_wee_slack_plugin(msg(&["go", "slack"])), (true, true));
    assert_eq!(check_connection_and_python_wee_slack_plugin(msg(&["go", "slacks"])), (true, false));
    assert_eq!(check_connection_and_python_wee_slack_plugin(msg(&[])), (true, false));
    assert_eq!(check_connection_and_python_wee_slack_plugin(None), (false, false));
    assert_eq!(check_connection_and_python_wee_slack_plugin(Some(Message { objects: vec![] })), (false, false));
}

#[test]
fn team_report_lines() {
    let teams = vec![SlackTeam { name: "acme".to_string() }, SlackTeam { name: "corp".to_string() }];
    let lines = teams_report(&teams, false);
    assert_eq!(lines, vec![
        "".to_string(),
        "You got currently 2 registered slack team(s) aka workspace(s) :".to_string(),
        "  - acme".to_string(),
        "  - corp".to_string(),
    ]);
    let after = teams_report(&teams, true);
    assert_eq!(after.len(), 4 + 3 + 6);
    assert!(after[5].starts_with("Note that"));
}

#[test]
fn empty_team_report_gives_guidance() {
    let lines = teams_report(&vec![], true);
    assert_eq!(lines[1], "Weechat currently couldn't find any registered slack team (aka workspace) :");
    assert_eq!(lines.len(), 2 + 1 + 6);
    assert!(lines[8].contains("valid token"));
    assert_eq!(teams_report(&vec![], false).len(), 2);
}

#[test]
fn register_instructions() {
    let lines = register_url_report("https://x/y");
    assert_eq!(lines.len(), 7);
    assert_eq!(lines[2], "  https://x/y");
    assert_eq!(lines[6], "  register --token <TOKEN>");
}

#[test]
fn plugin_name_found_in_a_later_variable() {
    let it = item(&[("name", Object::Int(7)), ("name", s("slack"))]);
    let msg = Some(Message { objects: vec![Object::Infolist(Infolist { name: ws("python_script"), items: vec![it] })] });
    assert_eq!(check_connection_and_python_wee_slack_plugin(msg), (true, true));
    let it = item(&[("name", s("go")), ("version", s("slack")), ("name", s("slack"))]);
    let msg = Some(Message { objects: vec![Object::Infolist(Infolist { name: ws("python_script"), items: vec![it] })] });
    assert_eq!(check_connection_and_python_wee_slack_plugin(msg), (true, true));
    let it = item(&[("name", s("go")), ("version", s("slack"))]);
    let msg = Some(Message { objects: vec![Object::Infolist(Infolist { name: ws("python_script"), items: vec![it] })] });
    assert_eq!(check_connection_and_python_wee_slack_plugin(msg), (true, false));
}
