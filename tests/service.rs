use slackrope::relay::{Infolist, InfolistItem, InfolistVariable, Message, Object};
use slackrope::service::{hotlist_output, plan_clear_hotlist, plan_hotlist, HotlistFlags, HotlistOutput, HotlistPlan, OutputFormat};
use slackrope::command::Command;
use slackrope::text::WString;

fn ws(s: &str) -> WString {
    WString { bytes: Some(s.as_bytes().to_vec()) }
}

fn flags(format: OutputFormat, start: bool, template: Option<&str>) -> HotlistFlags {
    HotlistFlags { format, start, template: template.map(|t| t.to_string()) }
}

fn reply(priorities: &[(i32, &str)]) -> Option<Message> {
    let items = priorities
        .iter()
        .map(|(p, b)| InfolistItem {
            variables: vec![
                InfolistVariable { name: ws("buffer_name"), value: Object::Str(ws(b)) },
                InfolistVariable { name: ws("priority"), value: Object::Int(*p) },
            ],
        })
        .collect();
    Some(Message { objects: vec![Object::Infolist(Infolist { name: ws("hotlist"), items })] })
}

fn answer(plan: HotlistPlan) -> String {
    match plan {
        HotlistPlan::Answer(s) => s,
        HotlistPlan::Query { .. } => panic!("expected an answer without connecting"),
    }
}

#[test]
fn down_daemon_shell_answers_dash() {
    assert_eq!(answer(plan_hotlist(false, &flags(OutputFormat::Shell, false, None))), "-");
}

#[test]
fn down_daemon_json_answers_empty_object() {
    assert_eq!(answer(plan_hotlist(false, &flags(OutputFormat::Simple, false, None))), "{}");
    assert_eq!(answer(plan_hotlist(false, &flags(OutputFormat::Detailed, false, None))), "{}");
}

#[test]
fn down_daemon_template_gets_dashes() {
    let plan = plan_hotlist(false, &flags(OutputFormat::Shell, false, Some("\\e[1m{{priority_1}}|{{priority_2}}|{{priority_3}}")));
    assert_eq!(answer(plan), "\x1b[1m-|-|-");
}

#[test]
fn start_flag_spawns_first() {
    assert!(matches!(
        plan_hotlist(false, &flags(OutputFormat::Shell, true, None)),
        HotlistPlan::Query { spawn_first: true }
    ));
    assert!(matches!(
        plan_hotlist(false, &flags(OutputFormat::Simple, true, Some("x"))),
        HotlistPlan::Query { spawn_first: true }
    ));
}

#[test]
fn running_daemon_is_queried() {
    for start in [false, true] {
        assert!(matches!(
            plan_hotlist(true, &flags(OutputFormat::Detailed, start, None)),
            HotlistPlan::Query { spawn_first: false }
        ));
    }
}

#[test]
fn output_per_format() {
    let r = || reply(&[(2, "slack.ws.bob"), (3, "slack.ws.#dev"), (1, "slack.ws.#dev.1a2")]);
    match hotlist_output(&flags(OutputFormat::Shell, false, None), r()) {
        HotlistOutput::Text(t) => assert_eq!(t, "1 1 1"),
        _ => panic!("shell output is text"),
    }
    match hotlist_output(&flags(OutputFormat::Simple, false, None), r()) {
        HotlistOutput::Simple(h) => assert_eq!((h.priority_1, h.priority_2, h.priority_3), (1, 1, 1)),
        _ => panic!("simple output is a record"),
    }
    match hotlist_output(&flags(OutputFormat::Detailed, false, None), r()) {
        HotlistOutput::Detailed(d) => assert_eq!(d.priority_3.items[0].buffer, "slack.ws.#dev"),
        _ => panic!("detailed output is a record"),
    }
    match hotlist_output(&flags(OutputFormat::Detailed, false, Some("{{priority_2}}!")), r()) {
        HotlistOutput::Text(t) => assert_eq!(t, "1!"),
        _ => panic!("template output is text"),
    }
}

#[test]
fn unreachable_relay_prints_unknown_counts() {
    match hotlist_output(&flags(OutputFormat::Shell, false, None), None) {
        HotlistOutput::Text(t) => assert_eq!(t, "-1 -1 -1"),
        _ => panic!("shell output is text"),
    }
}

#[test]
fn clear_twice_while_down_sends_nothing() {
    assert!(plan_clear_hotlist(false).is_none());
    assert!(plan_clear_hotlist(false).is_none());
}

#[test]
fn clear_while_running_marks_all_read() {
    match plan_clear_hotlist(true) {
        Some(Command::Input { buffer, data }) => {
            assert_eq!(buffer, "core.weechat");
            assert_eq!(data, "/allbuf /buffer set unread");
        }
        _ => panic!("expected an input command"),
    }
}
