use slackrope::models::SimpleHotlist;
use slackrope::template::{apply_template, render_shell, render_template, TemplatePriority};

#[test]
fn escapes_are_decoded_before_counts() {
    let h = SimpleHotlist { priority_1: 2, priority_2: 0, priority_3: 1 };
    let out = render_template("\\e[38;5;208m{{priority_1}}\\e[0m", &h);
    assert_eq!(out, "\x1b[38;5;208m2\x1b[0m");
    assert!(!out.contains("\\e"));
}

#[test]
fn every_escape_spelling_is_decoded() {
    let out = apply_template("\\e|\\033|\\u001b|\\x1b|\\x1B", "", "", "");
    assert_eq!(out, "\x1b|\x1b|\x1b|\x1b|\x1b");
}

#[test]
fn placeholders_are_filled() {
    let out = apply_template("a{{priority_1}} b{{priority_2}} c{{priority_3}} {{priority_1}}", "1", "22", "333");
    assert_eq!(out, "a1 b22 c333 1");
}

#[test]
fn value_is_not_read_as_placeholder() {
    let out = apply_template("{{priority_1}}", "{{priority_2}}", "x", "y");
    assert_eq!(out, "x");
    let out = apply_template("{{priority_1}}", "\\e", "x", "y");
    assert_eq!(out, "\\e");
}

#[test]
fn unknown_counts_in_template() {
    let h = SimpleHotlist { priority_1: -1, priority_2: -1, priority_3: -1 };
    assert_eq!(render_template("{{priority_1}}/{{priority_3}}", &h), "-1/-1");
}

#[test]
fn shell_line() {
    let h = SimpleHotlist { priority_1: 2, priority_2: 0, priority_3: 15 };
    assert_eq!(render_shell(&h), "2 0 15");
    let h = SimpleHotlist { priority_1: -1, priority_2: -1, priority_3: -1 };
    assert_eq!(render_shell(&h), "-1 -1 -1");
}

#[test]
fn placeholder_texts() {
    assert_eq!(TemplatePriority::Priority1.as_str(), "{{priority_1}}");
    assert_eq!(TemplatePriority::Priority2.as_str(), "{{priority_2}}");
    assert_eq!(TemplatePriority::Priority3.as_str(), "{{priority_3}}");
}
