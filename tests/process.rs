use slackrope::cli::{log_level, Commands, LogLevel};
use slackrope::command::{buffer_infolist_request, hotlist_request, init_command, quit_request, register_request, Command};
use slackrope::health::plan_health;
use slackrope::process::{find_host_processes, host_pids, is_host_running, select_host_processes, ProcessHandle, WeechatSpawnFailed};
use slackrope::service::OutputFormat;

fn handle(name: &str, pid: usize) -> ProcessHandle {
    ProcessHandle { name: name.to_string(), pid, exe: format!("/usr/bin/{name}") }
}

#[test]
fn only_exact_names_match() {
    let table = vec![
        handle("weechat", 1),
        handle("weechat-headless", 2),
        handle("weechat-x", 3),
        handle("bash", 4),
        handle("myweechat", 5),
    ];
    let found = select_host_processes(&table, "weechat-headless");
    let pids: Vec<usize> = found.iter().map(|p| p.pid).collect();
    assert_eq!(pids, vec![1, 2]);
    let found = select_host_processes(&table, "bash");
    let pids: Vec<usize> = found.iter().map(|p| p.pid).collect();
    assert_eq!(pids, vec![1, 4]);
    assert!(select_host_processes(&vec![], "weechat-headless").is_empty());
}

#[test]
fn spawn_failure_texts() {
    let e = WeechatSpawnFailed { program_name: "weechat-headless".to_string() };
    assert_eq!(e.message(), "[Error WeechatSpawnFailed] program_name: weechat-headless");
    assert_eq!(e.advice(), "Please check that weechat-headless is present in $PATH");
}

#[test]
fn log_levels() {
    assert!(log_level(0) == Some(LogLevel::Warn));
    assert!(log_level(1) == Some(LogLevel::Info));
    assert!(log_level(2) == Some(LogLevel::Trace));
    assert!(log_level(3).is_none());
}

#[test]
fn hotlist_flags_of_commands() {
    let c = Commands::Hotlist { format: OutputFormat::Simple, start: true, template: Some("t".to_string()) };
    let f = c.hotlist_flags().expect("hotlist command has flags");
    assert!(f.format == OutputFormat::Simple);
    assert!(f.start);
    assert_eq!(f.template.as_deref(), Some("t"));
    assert!(Commands::Clear.hotlist_flags().is_none());
}

#[test]
fn command_values() {
    match init_command("pw") {
        Command::Init { password } => assert_eq!(password, "pw"),
        _ => panic!("init"),
    }
    match hotlist_request() {
        Command::Infolist { name, arguments } => {
            assert_eq!(name, "hotlist");
            assert!(arguments.is_empty());
        }
        _ => panic!("infolist"),
    }
    match buffer_infolist_request() {
        Command::Infolist { name, arguments } => {
            assert_eq!(name, "buffer");
            assert_eq!(arguments, vec!["python.slack.*".to_string()]);
        }
        _ => panic!("infolist"),
    }
    match register_request("tok") {
        Command::Input { buffer, data } => {
            assert_eq!(buffer, "core.weechat");
            assert_eq!(data, "/slack register tok");
        }
        _ => panic!("input"),
    }
    match quit_request() {
        Command::Input { data, .. } => assert_eq!(data, "/quit"),
        _ => panic!("input"),
    }
}

#[test]
fn table_decisions() {
    let table = vec![handle("weechat-foo", 1), handle("weechat-headless", 7), handle("weechat", 9)];
    assert!(is_host_running(&table, "weechat-headless"));
    assert_eq!(host_pids(&table, "weechat-headless"), vec![7, 9]);
    let found = find_host_processes(&table, "weechat-headless").expect("two match");
    assert_eq!(found.len(), 2);
    let other = vec![handle("weechat-foo", 1), handle("weechatx", 2)];
    assert!(!is_host_running(&other, "weechat-headless"));
    assert!(find_host_processes(&other, "weechat-headless").is_none());
    assert!(host_pids(&other, "weechat-headless").is_empty());
    assert!(is_host_running(&vec![handle("tmux-weechat", 3)], "tmux-weechat"));
}

#[test]
fn health_plan() {
    let p = plan_health(false);
    assert!(p.spawn_first && p.stop_after);
    let p = plan_health(true);
    assert!(!p.spawn_first && !p.stop_after);
}
