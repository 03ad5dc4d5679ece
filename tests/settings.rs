use slackrope::config::{get_current_config_path, get_slack_register_url, get_wee_slack_plugin_install_path, print_app_loaded_config, Settings};
use slackrope::health::{build_weechat_health_report, test_connection_and_plugin, HealthFacts};
use slackrope::process::ProcessHandle;

fn settings() -> Settings {
    Settings {
        config_file: None,
        weechat_program_name: "weechat-headless".to_string(),
        weechat_host: "127.0.0.1".to_string(),
        weechat_relay_port: "8000".to_string(),
        weechat_password: "s3cret".to_string(),
        slack_register_baseurl: "https://slack.com/oauth/authorize".to_string(),
        slack_register_weeslack_client_id: "2468770254.51917335286".to_string(),
        slack_register_scope: "client".to_string(),
        slack_register_redirect_uri: "https%3A%2F%2Fwee-slack.github.io%2Fwee-slack%2Foauth".to_string(),
        wee_slack_plugin_directory: "/home/u/.local/share/weechat/python".to_string(),
        wee_slack_plugin_filename: "wee_slack.py".to_string(),
    }
}

#[test]
fn register_url() {
    assert_eq!(
        get_slack_register_url(&settings()),
        "https://slack.com/oauth/authorize?client_id=2468770254.51917335286&scope=client&redirect_uri=https%3A%2F%2Fwee-slack.github.io%2Fwee-slack%2Foauth"
    );
}

#[test]
fn config_lines_mask_password() {
    let mut lines = vec!["first".to_string()];
    print_app_loaded_config(&settings(), &mut lines);
    assert_eq!(lines.len(), 11);
    assert_eq!(lines[0], "first");
    assert_eq!(lines[1], "sr_weechat_host: 127.0.0.1");
    assert_eq!(lines[4], "sr_weechat_password: ******");
    assert_eq!(lines[10], "sr_wee_slack_plugin_filename: wee_slack.py");
}

#[test]
fn plugin_path_texts() {
    assert_eq!(get_wee_slack_plugin_install_path("/d", "f.py", Some(true)), "/d/f.py");
    assert_eq!(get_wee_slack_plugin_install_path("/d", "f.py", Some(false)), "File f.py not found in directory /d");
    assert_eq!(get_wee_slack_plugin_install_path("/d", "f.py", None), "Failure while checking if file /d/f.py exists");
}

#[test]
fn config_path_text() {
    assert_eq!(get_current_config_path(&None), "none");
    assert_eq!(get_current_config_path(&Some("/c/slackrope.toml".to_string())), "/c/slackrope.toml");
}

#[test]
fn connection_states() {
    let pair = |a: &str, b: &str| (a.to_string(), b.to_string());
    assert_eq!(test_connection_and_plugin(None), pair("ko", "ko"));
    assert_eq!(test_connection_and_plugin(Some((true, true))), pair("ok", "ok"));
    assert_eq!(test_connection_and_plugin(Some((true, false))), pair("ok", "ko"));
    assert_eq!(test_connection_and_plugin(Some((false, false))), pair("ko", "ko"));
}

#[test]
fn health_report() {
    let facts = HealthFacts {
        is_running: true,
        processes: vec![ProcessHandle { name: "weechat".to_string(), pid: 4242, exe: "/usr/bin/weechat".to_string() }],
        connection_state: "ok".to_string(),
        plugin_state: "ko".to_string(),
        plugin_install_path: "/d/f.py".to_string(),
        current_exe: "/bin/slackrope".to_string(),
    };
    let mut s = settings();
    s.config_file = Some("/c/slackrope.toml".to_string());
    let lines = build_weechat_health_report(&facts, &s);
    let expected_head = vec![
        "> weechat INFO",
        "is_running: true",
        "process#0_name: weechat",
        "process#0_exec: /usr/bin/weechat",
        "process#0_pid: 4242",
        "weechat_connection_test: ok",
        "weeslack_plugin_test: ko",
        "weeslack_plugin_install_path: /d/f.py",
        "",
        "> slackrope CONFIG",
        "current_exe: /bin/slackrope",
        "current_config: /c/slackrope.toml",
        "sr_weechat_host: 127.0.0.1",
    ];
    assert_eq!(lines.len(), 12 + 10);
    for (i, e) in expected_head.iter().enumerate() {
        assert_eq!(lines[i], *e);
    }
}
