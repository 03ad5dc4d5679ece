//! The command line, as plain values.
use vstd::prelude::*;
use crate::service::{HotlistFlags, OutputFormat};

verus! {

/// The parsed command line.
pub struct Cli {
    /// How many times `-d` was given.
    pub debug: u8,
    pub command: Commands,
}

/// The subcommands.
pub enum Commands {
    /// Print the hotlist.
    Hotlist { format: OutputFormat, start: bool, template: Option<String> },
    /// Mark every buffer as read.
    Clear,
    /// Stop the daemon.
    Kill,
    /// List the registered Slack teams.
    ListTeams,
    /// Register a Slack token, or explain how to get one.
    Register { token: Option<String> },
    /// Print the health report.
    Health,
}

/// How much is logged.
#[derive(PartialEq, Eq, Structural, Clone, Copy)]
pub enum LogLevel {
    Warn,
    Info,
    /// Everything.
    Trace,
}

/// The log level for `-d` given `debug` times: warnings by default,
/// information once, everything twice; `None` beyond that.
pub fn log_level(debug: u8) -> (r: Option<LogLevel>)
    ensures
        r == if debug == 0 {
            Some(LogLevel::Warn)
        } else if debug == 1 {
            Some(LogLevel::Info)
        } else if debug == 2 {
            Some(LogLevel::Trace)
        } else {
            None::<LogLevel>
        },
{
    match debug {
        0 => Some(LogLevel::Warn),
        1 => Some(LogLevel::Info),
        2 => Some(LogLevel::Trace),
        _ => None,
    }
}

impl Commands {
    /// The options of a hotlist command; `None` for the other commands.
    pub fn hotlist_flags(self) -> (r: Option<HotlistFlags>)
        ensures
            match self {
                Commands::Hotlist { format, start, template } => r is Some && r->0.format == format
                    && r->0.start == start && r->0.template == template,
                _ => r is None,
            },
    {
        match self {
            Commands::Hotlist { format, start, template } => Some(HotlistFlags { format, start, template }),
            _ => None,
        }
    }
}

} // verus!
