//! The settings the tool runs with, and the texts made from them.
use vstd::prelude::*;
use crate::text::concat;

verus! {

pub const APP_NAME: &'static str = "slackrope";
pub const CONFIG_FILE: &'static str = "sr_config_file";
pub const WEECHAT_PROGRAM_NAME: &'static str = "sr_weechat_program_name";
pub const WEECHAT_HOST: &'static str = "sr_weechat_host";
pub const WEECHAT_RELAY_PORT: &'static str = "sr_weechat_relay_port";
pub const WEECHAT_PASSWORD: &'static str = "sr_weechat_password";
pub const SLACK_REGISTER_BASEURL: &'static str = "sr_slack_register_baseurl";
pub const SLACK_REGISTER_WEESLACK_CLIENT_ID: &'static str = "sr_slack_register_weeslack_client_id";
pub const SLACK_REGISTER_SCOPE: &'static str = "sr_slack_register_scope";
pub const SLACK_REGISTER_REDIRECT_URI: &'static str = "sr_slack_register_redirect_uri";
pub const WEE_SLACK_PLUGIN_DIRECTORY: &'static str = "sr_wee_slack_plugin_directory";
pub const WEE_SLACK_PLUGIN_FILENAME: &'static str = "sr_wee_slack_plugin_filename";

/// The loaded settings, read once and passed to whatever needs them.
pub struct Settings {
    /// The configuration file that was read, if one exists.
    pub config_file: Option<String>,
    pub weechat_program_name: String,
    pub weechat_host: String,
    pub weechat_relay_port: String,
    pub weechat_password: String,
    pub slack_register_baseurl: String,
    pub slack_register_weeslack_client_id: String,
    pub slack_register_scope: String,
    pub slack_register_redirect_uri: String,
    pub wee_slack_plugin_directory: String,
    pub wee_slack_plugin_filename: String,
}

/// The page where a Slack token for the plugin is obtained.
pub open spec fn register_url(s: Settings) -> Seq<char> {
    s.slack_register_baseurl@ + "?client_id="@ + s.slack_register_weeslack_client_id@
        + "&scope="@ + s.slack_register_scope@ + "&redirect_uri="@
        + s.slack_register_redirect_uri@
}

/// Builds the Slack authorization link from the settings.
pub fn get_slack_register_url(settings: &Settings) -> (r: String)
    ensures
        r@ == register_url(*settings),
{
    let mut url = concat(settings.slack_register_baseurl.as_str(), "?client_id=");
    url.append(settings.slack_register_weeslack_client_id.as_str());
    url.append("&scope=");
    url.append(settings.slack_register_scope.as_str());
    url.append("&redirect_uri=");
    url.append(settings.slack_register_redirect_uri.as_str());
    url
}

/// A report line `key: value`.
pub open spec fn config_line(key: Seq<char>, value: Seq<char>) -> Seq<char> {
    key + ": "@ + value
}

/// As many `*` as the text has characters.
pub open spec fn masked(t: Seq<char>) -> Seq<char> {
    Seq::new(t.len(), |i: int| '*')
}

/// The settings as report lines, the password masked.
pub open spec fn settings_lines(s: Settings) -> Seq<Seq<char>> {
    seq![
        config_line(WEECHAT_HOST@, s.weechat_host@),
        config_line(WEECHAT_RELAY_PORT@, s.weechat_relay_port@),
        config_line(WEECHAT_PROGRAM_NAME@, s.weechat_program_name@),
        config_line(WEECHAT_PASSWORD@, masked(s.weechat_password@)),
        config_line(SLACK_REGISTER_BASEURL@, s.slack_register_baseurl@),
        config_line(SLACK_REGISTER_WEESLACK_CLIENT_ID@, s.slack_register_weeslack_client_id@),
        config_line(SLACK_REGISTER_SCOPE@, s.slack_register_scope@),
        config_line(SLACK_REGISTER_REDIRECT_URI@, s.slack_register_redirect_uri@),
        config_line(WEE_SLACK_PLUGIN_DIRECTORY@, s.wee_slack_plugin_directory@),
        config_line(WEE_SLACK_PLUGIN_FILENAME@, s.wee_slack_plugin_filename@),
    ]
}

/// The views of a list of lines.
pub open spec fn lines_view(lines: Seq<String>) -> Seq<Seq<char>> {
    lines.map_values(|l: String| l@)
}

/// One `*` per character of `t`.
pub fn mask(t: &str) -> (r: String)
    ensures
        r@ == masked(t@),
{
    proof { reveal_strlit("*"); }
    let n = t.unicode_len();
    let mut r = String::new();
    let mut i: usize = 0;
    while i < n
        invariant
            n == t@.len(),
            i <= n,
            r@ == Seq::new(i as nat, |j: int| '*'),
        decreases n - i,
    {
        proof { reveal_strlit("*"); }
        assert("*"@ =~= seq!['*']);
        r.append("*");
        assert(r@ =~= Seq::new((i + 1) as nat, |j: int| '*'));
        i = i + 1;
    }
    r
}

/// Builds `key: value`.
pub fn config_entry(key: &str, value: &str) -> (r: String)
    ensures
        r@ == config_line(key@, value@),
{
    let mut line = concat(key, ": ");
    line.append(value);
    line
}

/// Adds the settings' report lines to `lines`.
pub fn print_app_loaded_config(settings: &Settings, lines: &mut Vec<String>)
    ensures
        lines_view(final(lines)@) == lines_view(old(lines)@) + settings_lines(*settings),
{
    let s = settings;
    lines.push(config_entry(WEECHAT_HOST, s.weechat_host.as_str()));
    lines.push(config_entry(WEECHAT_RELAY_PORT, s.weechat_relay_port.as_str()));
    lines.push(config_entry(WEECHAT_PROGRAM_NAME, s.weechat_program_name.as_str()));
    let hidden = mask(s.weechat_password.as_str());
    lines.push(config_entry(WEECHAT_PASSWORD, hidden.as_str()));
    lines.push(config_entry(SLACK_REGISTER_BASEURL, s.slack_register_baseurl.as_str()));
    lines.push(
        config_entry(SLACK_REGISTER_WEESLACK_CLIENT_ID, s.slack_register_weeslack_client_id.as_str()),
    );
    lines.push(config_entry(SLACK_REGISTER_SCOPE, s.slack_register_scope.as_str()));
    lines.push(config_entry(SLACK_REGISTER_REDIRECT_URI, s.slack_register_redirect_uri.as_str()));
    lines.push(config_entry(WEE_SLACK_PLUGIN_DIRECTORY, s.wee_slack_plugin_directory.as_str()));
    lines.push(config_entry(WEE_SLACK_PLUGIN_FILENAME, s.wee_slack_plugin_filename.as_str()));
    assert(lines_view(lines@) =~= lines_view(old(lines)@) + settings_lines(*settings));
}

/// The path the plugin script is expected at: `directory/filename`.
pub open spec fn plugin_path(directory: Seq<char>, filename: Seq<char>) -> Seq<char> {
    directory + "/"@ + filename
}

/// Builds the plugin script's path.
pub fn wee_slack_plugin_file_path(directory: &str, filename: &str) -> (r: String)
    ensures
        r@ == plugin_path(directory@, filename@),
{
    let mut p = concat(directory, "/");
    p.append(filename);
    p
}

/// What the health report says of the plugin script: its path when it
/// exists, else why it is not shown. `exists` is `None` when the check
/// itself failed.
pub open spec fn plugin_install_text(directory: Seq<char>, filename: Seq<char>, exists: Option<bool>) -> Seq<char> {
    match exists {
        Some(true) => plugin_path(directory, filename),
        Some(false) => "File "@ + filename + " not found in directory "@ + directory,
        None => "Failure while checking if file "@ + plugin_path(directory, filename) + " exists"@,
    }
}

/// Describes where the plugin script is installed, given whether the
/// file at its path exists.
pub fn get_wee_slack_plugin_install_path(directory: &str, filename: &str, exists: Option<bool>) -> (r: String)
    ensures
        r@ == plugin_install_text(directory@, filename@, exists),
{
    let path = wee_slack_plugin_file_path(directory, filename);
    match exists {
        Some(true) => path,
        Some(false) => {
            let mut t = concat("File ", filename);
            t.append(" not found in directory ");
            t.append(directory);
            t
        },
        None => {
            let mut t = concat("Failure while checking if file ", path.as_str());
            t.append(" exists");
            t
        },
    }
}

/// The configuration file the report names: its path, else `none`.
pub fn get_current_config_path(config_file: &Option<String>) -> (r: String)
    ensures
        r@ == match config_file {
            Some(p) => p@,
            None => "none"@,
        },
{
    match config_file {
        Some(p) => p.clone(),
        None => String::from_str("none"),
    }
}

} // verus!
