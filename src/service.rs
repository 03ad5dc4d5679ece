//! Decisions of the hotlist commands: whether to connect, spawn or answer
//! at once, and what to print once the relay has answered.
use vstd::prelude::*;
use crate::command::{clear_hotlist_request, core_buffer, Command, CommandView};
use crate::hotlist::{detailed_matches, get_detailed_hotlist, get_simple_hotlist, hotlist_count, hotlist_fits};
use crate::models::{DetailedHotlist, SimpleHotlist};
use crate::relay::{response_infolist, Message};
use crate::template::{apply_template, fill_template, render_shell, render_template, shell_line};
use crate::text::int_decimal;

verus! {

/// How the hotlist is printed.
#[derive(PartialEq, Eq, Structural, Clone, Copy)]
pub enum OutputFormat {
    /// Three counts separated by spaces.
    Shell,
    /// Compact JSON of the counts.
    Simple,
    /// Pretty JSON of the counts and their buffers.
    Detailed,
}

/// Options of the hotlist command.
pub struct HotlistFlags {
    pub format: OutputFormat,
    /// Start the daemon when it is not running.
    pub start: bool,
    /// Render the counts into this template instead of `format`.
    pub template: Option<String>,
}

/// What the hotlist command does once it knows whether the daemon runs.
pub enum HotlistPlan {
    /// Print this text without connecting.
    Answer(String),
    /// Query the relay, after starting the daemon when `spawn_first`.
    Query { spawn_first: bool },
}

/// What the hotlist command prints after the relay answered.
pub enum HotlistOutput {
    Text(String),
    /// To be printed as compact JSON.
    Simple(SimpleHotlist),
    /// To be printed as pretty JSON.
    Detailed(DetailedHotlist),
}

/// The text printed without connecting, for a daemon that is down and
/// may not be started: the template with `-` for each count, else `-`
/// for the shell format and `{}` for JSON.
pub open spec fn unknown_answer(format: OutputFormat, template: Option<String>) -> Seq<char> {
    match template {
        Some(t) => fill_template(t@, "-"@, "-"@, "-"@),
        None => match format {
            OutputFormat::Shell => "-"@,
            _ => "{}"@,
        },
    }
}

/// Decides the hotlist command. A template does not by itself start the
/// daemon: only `start` does; a down daemon that may not be started is
/// answered at once, so polling never waits on a connection or spawns.
pub fn plan_hotlist(is_running: bool, flags: &HotlistFlags) -> (r: HotlistPlan)
    ensures
        !is_running && !flags.start ==> r is Answer && r->Answer_0@ == unknown_answer(
            flags.format,
            flags.template,
        ),
        is_running ==> r == (HotlistPlan::Query { spawn_first: false }),
        !is_running && flags.start ==> r == (HotlistPlan::Query { spawn_first: true }),
{
    if !is_running && !flags.start {
        proof {
            reveal_strlit("-");
            reveal_strlit("{}");
        }
        let text = match &flags.template {
            Some(t) => apply_template(t.as_str(), "-", "-", "-"),
            None => match flags.format {
                OutputFormat::Shell => String::from_str("-"),
                _ => String::from_str("{}"),
            },
        };
        HotlistPlan::Answer(text)
    } else {
        HotlistPlan::Query { spawn_first: !is_running }
    }
}

/// The counts a response gives, as `SimpleHotlist` fields.
pub open spec fn counts_match(h: SimpleHotlist, response: Option<Message>) -> bool {
    &&& h.priority_1 == hotlist_count(response_infolist(response), 1)
    &&& h.priority_2 == hotlist_count(response_infolist(response), 2)
    &&& h.priority_3 == hotlist_count(response_infolist(response), 3)
}

/// Turns the relay's reply to the hotlist request into what is printed:
/// the filled template when there is one, else per `format`. A missing
/// or malformed reply gives the -1 counts.
pub fn hotlist_output(flags: &HotlistFlags, response: Option<Message>) -> (r: HotlistOutput)
    requires
        hotlist_fits(response_infolist(response)),
    ensures
        flags.template is Some ==> exists|h: SimpleHotlist| counts_match(h, response) && r is Text
            && r->Text_0@ == fill_template(
            flags.template->0@,
            int_decimal(h.priority_1 as int),
            int_decimal(h.priority_2 as int),
            int_decimal(h.priority_3 as int),
        ),
        flags.template is None && flags.format == OutputFormat::Shell ==> exists|h: SimpleHotlist|
            counts_match(h, response) && r is Text && r->Text_0@ == shell_line(h),
        flags.template is None && flags.format == OutputFormat::Simple ==> r is Simple
            && counts_match(r->Simple_0, response),
        flags.template is None && flags.format == OutputFormat::Detailed ==> r is Detailed && {
            let d = r->Detailed_0;
            let il = response_infolist(response);
            detailed_matches(d.priority_1, il, 1) && detailed_matches(d.priority_2, il, 2)
                && detailed_matches(d.priority_3, il, 3)
        },
{
    match &flags.template {
        Some(t) => {
            let h = get_simple_hotlist(response);
            assert(counts_match(h, response));
            HotlistOutput::Text(render_template(t.as_str(), &h))
        },
        None => match flags.format {
            OutputFormat::Shell => {
                let h = get_simple_hotlist(response);
                assert(counts_match(h, response));
                HotlistOutput::Text(render_shell(&h))
            },
            OutputFormat::Simple => HotlistOutput::Simple(get_simple_hotlist(response)),
            OutputFormat::Detailed => HotlistOutput::Detailed(get_detailed_hotlist(response)),
        },
    }
}

/// The clear command's decision: nothing to send when the daemon is down
/// (there is nothing to clear), else the command marking all buffers read.
pub open spec fn clear_decision(is_running: bool, r: Option<Command>) -> bool {
    &&& !is_running ==> r is None
    &&& is_running ==> r is Some && r->0@ == CommandView::Input(
        core_buffer(),
        "/allbuf /buffer set unread"@,
    )
}

/// Decides the clear command.
pub fn plan_clear_hotlist(is_running: bool) -> (r: Option<Command>)
    ensures
        clear_decision(is_running, r),
{
    if is_running {
        Some(clear_hotlist_request())
    } else {
        None
    }
}

/// Clearing while the daemon is down succeeds without any connection, and
/// asking again changes nothing: both decisions send nothing.
pub proof fn lemma_clear_when_down_is_idempotent(first: Option<Command>, second: Option<Command>)
    requires
        clear_decision(false, first),
        clear_decision(false, second),
    ensures
        first is None,
        second is None,
{
}

} // verus!
