//! The health report: the daemon's processes, the relay and plugin
//! checks, and the settings in use.
use vstd::prelude::*;
use crate::config::{get_current_config_path, lines_view, print_app_loaded_config, settings_lines, Settings, APP_NAME};
use crate::process::ProcessHandle;
use crate::text::{bool_to_text, concat, nat_decimal, nat_to_text};

verus! {

/// What was observed for the health report.
pub struct HealthFacts {
    /// Whether the daemon ran when the report started.
    pub is_running: bool,
    /// The daemon's processes at that time.
    pub processes: Vec<ProcessHandle>,
    /// `ok` or `ko`: whether the relay answered.
    pub connection_state: String,
    /// `ok` or `ko`: whether the Slack plugin is loaded.
    pub plugin_state: String,
    /// Where the plugin script is, or why that is unknown.
    pub plugin_install_path: String,
    /// The path of this program.
    pub current_exe: String,
}

/// `ok` or `ko`.
pub open spec fn ok_ko(b: bool) -> Seq<char> {
    if b { "ok"@ } else { "ko"@ }
}

/// The three report lines of the process at position `i`.
pub open spec fn process_lines_at(i: nat, p: ProcessHandle) -> Seq<Seq<char>> {
    seq![
        "process#"@ + nat_decimal(i) + "_name: "@ + p.name@,
        "process#"@ + nat_decimal(i) + "_exec: "@ + p.exe@,
        "process#"@ + nat_decimal(i) + "_pid: "@ + nat_decimal(p.pid as nat),
    ]
}

/// The report lines of the processes, in order.
pub open spec fn process_lines(ps: Seq<ProcessHandle>) -> Seq<Seq<char>>
    decreases ps.len(),
{
    if ps.len() == 0 {
        Seq::empty()
    } else {
        process_lines(ps.drop_last()) + process_lines_at((ps.len() - 1) as nat, ps.last())
    }
}

/// The whole report.
pub open spec fn health_lines(f: HealthFacts, s: Settings) -> Seq<Seq<char>> {
    seq!["> weechat INFO"@, "is_running: "@ + (if f.is_running { "true"@ } else { "false"@ })]
        + process_lines(f.processes@) + seq![
        "weechat_connection_test: "@ + f.connection_state@,
        "weeslack_plugin_test: "@ + f.plugin_state@,
        "weeslack_plugin_install_path: "@ + f.plugin_install_path@,
        Seq::empty(),
        "> "@ + APP_NAME@ + " CONFIG"@,
        "current_exe: "@ + f.current_exe@,
        "current_config: "@ + match s.config_file {
            Some(p) => p@,
            None => "none"@,
        },
    ] + settings_lines(s)
}

/// The relay and plugin states for the report; `None` when no session
/// could be opened.
pub fn test_connection_and_plugin(check: Option<(bool, bool)>) -> (r: (String, String))
    ensures
        r.0@ == match check {
            Some((c, _)) => ok_ko(c),
            None => "ko"@,
        },
        r.1@ == match check {
            Some((_, p)) => ok_ko(p),
            None => "ko"@,
        },
{
    let (connected, loaded) = match check {
        Some((c, p)) => (c, p),
        None => (false, false),
    };
    let c = if connected { String::from_str("ok") } else { String::from_str("ko") };
    let p = if loaded { String::from_str("ok") } else { String::from_str("ko") };
    (c, p)
}

/// Builds the report.
pub fn build_weechat_health_report(facts: &HealthFacts, settings: &Settings) -> (r: Vec<String>)
    ensures
        lines_view(r@) == health_lines(*facts, *settings),
{
    let mut lines: Vec<String> = Vec::new();
    lines.push(String::from_str("> weechat INFO"));
    lines.push(concat("is_running: ", bool_to_text(facts.is_running).as_str()));
    let n = facts.processes.len();
    let mut i: usize = 0;
    assert(lines_view(lines@) =~= seq!["> weechat INFO"@, "is_running: "@ + (if facts.is_running { "true"@ } else { "false"@ })] + process_lines(facts.processes@.subrange(0, 0)));
    while i < n
        invariant
            n == facts.processes@.len(),
            i <= n,
            lines_view(lines@) == seq!["> weechat INFO"@, "is_running: "@ + (if facts.is_running { "true"@ } else { "false"@ })]
                + process_lines(facts.processes@.subrange(0, i as int)),
        decreases n - i,
    {
        let p = &facts.processes[i];
        let index = nat_to_text(i as u64);
        let mut name = concat("process#", index.as_str());
        name.append("_name: ");
        name.append(p.name.as_str());
        let mut exe = concat("process#", index.as_str());
        exe.append("_exec: ");
        exe.append(p.exe.as_str());
        let mut pid = concat("process#", index.as_str());
        pid.append("_pid: ");
        pid.append(nat_to_text(p.pid as u64).as_str());
        let ghost before = lines_view(lines@);
        lines.push(name);
        lines.push(exe);
        lines.push(pid);
        let ghost after = facts.processes@.subrange(0, i + 1);
        assert(after.drop_last() == facts.processes@.subrange(0, i as int));
        assert(lines_view(lines@) =~= before + process_lines_at(i as nat, *p));
        i = i + 1;
    }
    assert(facts.processes@.subrange(0, n as int) == facts.processes@);
    lines.push(concat("weechat_connection_test: ", facts.connection_state.as_str()));
    lines.push(concat("weeslack_plugin_test: ", facts.plugin_state.as_str()));
    lines.push(concat("weeslack_plugin_install_path: ", facts.plugin_install_path.as_str()));
    lines.push(String::new());
    let mut title = concat("> ", APP_NAME);
    title.append(" CONFIG");
    lines.push(title);
    lines.push(concat("current_exe: ", facts.current_exe.as_str()));
    let config_path = get_current_config_path(&settings.config_file);
    lines.push(concat("current_config: ", config_path.as_str()));
    print_app_loaded_config(settings, &mut lines);
    assert(lines_view(lines@) =~= health_lines(*facts, *settings));
    lines
}

/// What the health command does around its checks.
pub struct HealthPlan {
    /// Start the daemon before checking the relay.
    pub spawn_first: bool,
    /// Stop the daemon once the report is built.
    pub stop_after: bool,
}

/// A daemon that was not running is started for the checks and stopped
/// again afterwards; a running one is left alone.
pub fn plan_health(is_running: bool) -> (r: HealthPlan)
    ensures
        r.spawn_first == !is_running,
        r.stop_after == !is_running,
{
    HealthPlan { spawn_first: !is_running, stop_after: !is_running }
}

} // verus!
