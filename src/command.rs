//! The relay commands this tool sends, as plain values.
use vstd::prelude::*;

verus! {

/// A relay command. Requests never address a pointer and carry no
/// correlation id.
pub enum Command {
    /// Authenticates the session with a plaintext password.
    Init { password: String },
    /// Asks for the infolist `name`, filtered by `arguments`.
    Infolist { name: String, arguments: Vec<String> },
    /// Types `data` into the buffer named `buffer`.
    Input { buffer: String, data: String },
}

/// A command, with its texts as character sequences.
pub enum CommandView {
    Init(Seq<char>),
    Infolist(Seq<char>, Seq<Seq<char>>),
    Input(Seq<char>, Seq<char>),
}

impl View for Command {
    type V = CommandView;

    open spec fn view(&self) -> CommandView {
        match self {
            Command::Init { password } => CommandView::Init(password@),
            Command::Infolist { name, arguments } => CommandView::Infolist(
                name@,
                arguments@.map_values(|a: String| a@),
            ),
            Command::Input { buffer, data } => CommandView::Input(buffer@, data@),
        }
    }
}

/// The buffer of WeeChat's own commands.
pub open spec fn core_buffer() -> Seq<char> {
    "core.weechat"@
}

/// The command that authenticates with `password`.
pub fn init_command(password: &str) -> (r: Command)
    ensures
        r@ == CommandView::Init(password@),
{
    Command::Init { password: String::from_str(password) }
}

/// An infolist request without arguments.
fn plain_infolist_request(name: &str) -> (r: Command)
    ensures
        r@ == CommandView::Infolist(name@, Seq::empty()),
{
    let arguments: Vec<String> = Vec::new();
    assert(arguments@.map_values(|a: String| a@) =~= Seq::empty());
    Command::Infolist { name: String::from_str(name), arguments }
}

/// The request for the hotlist.
pub fn hotlist_request() -> (r: Command)
    ensures
        r@ == CommandView::Infolist("hotlist"@, Seq::empty()),
{
    plain_infolist_request("hotlist")
}

/// The request for the loaded python scripts.
pub fn python_script_request() -> (r: Command)
    ensures
        r@ == CommandView::Infolist("python_script"@, Seq::empty()),
{
    plain_infolist_request("python_script")
}

/// The request for the buffers of the Slack plugin.
pub fn buffer_infolist_request() -> (r: Command)
    ensures
        r@ == CommandView::Infolist("buffer"@, seq!["python.slack.*"@]),
{
    let mut arguments: Vec<String> = Vec::new();
    arguments.push(String::from_str("python.slack.*"));
    let r = Command::Infolist { name: String::from_str("buffer"), arguments };
    assert(r@ == CommandView::Infolist("buffer"@, seq!["python.slack.*"@])) by {
        assert(arguments@.map_values(|a: String| a@) =~= seq!["python.slack.*"@]);
    }
    r
}

/// A command typed into the buffer `buffer_name`.
pub fn build_input_command(buffer_name: &str, command: &str) -> (r: Command)
    ensures
        r@ == CommandView::Input(buffer_name@, command@),
{
    Command::Input { buffer: String::from_str(buffer_name), data: String::from_str(command) }
}

/// Marks every buffer as read.
pub fn clear_hotlist_request() -> (r: Command)
    ensures
        r@ == CommandView::Input(core_buffer(), "/allbuf /buffer set unread"@),
{
    build_input_command("core.weechat", "/allbuf /buffer set unread")
}

/// Registers a Slack token with the plugin.
pub fn register_request(token: &str) -> (r: Command)
    ensures
        r@ == CommandView::Input(core_buffer(), "/slack register "@ + token@),
{
    let mut data = String::from_str("/slack register ");
    data.append(token);
    Command::Input { buffer: String::from_str("core.weechat"), data }
}

/// Asks WeeChat to quit.
pub fn quit_request() -> (r: Command)
    ensures
        r@ == CommandView::Input(core_buffer(), "/quit"@),
{
    build_input_command("core.weechat", "/quit")
}

} // verus!
