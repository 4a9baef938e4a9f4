//! The log line format of the terminal core's logger.
//!
//! Records are written to standard error, where Android's logcat picks them up;
//! registering the logger with the `log` facade is done by the application.

use vstd::prelude::*;

use crate::text::{concat4, push_char};

verus! {

/// The tag every line carries.
pub const LOG_TAG: &'static str = "TerminalCore";

/// Severity of a log record, most severe first.
#[derive(Debug, Clone, Copy, PartialEq, Eq, Structural)]
pub enum LogLevel {
    Error,
    Warn,
    Info,
    Debug,
    Trace,
}

/// The rank of a level: 1 for `Error` up to 5 for `Trace`.
pub open spec fn level_rank(l: LogLevel) -> nat {
    match l {
        LogLevel::Error => 1,
        LogLevel::Warn => 2,
        LogLevel::Info => 3,
        LogLevel::Debug => 4,
        LogLevel::Trace => 5,
    }
}

/// The one-letter mark of a level in a log line.
pub open spec fn level_mark(l: LogLevel) -> char {
    match l {
        LogLevel::Error => 'E',
        LogLevel::Warn => 'W',
        LogLevel::Info => 'I',
        LogLevel::Debug => 'D',
        LogLevel::Trace => 'T',
    }
}

/// The line written for a record: `[<mark>] TerminalCore <target>: <message>`.
pub open spec fn log_line_text(l: LogLevel, target: Seq<char>, message: Seq<char>) -> Seq<char> {
    seq!['[', level_mark(l), ']', ' '] + "TerminalCore "@ + target + ": "@ + message
}

/// The one-letter mark of a level.
pub fn level_char(l: LogLevel) -> (c: char)
    ensures
        c == level_mark(l),
{
    match l {
        LogLevel::Error => 'E',
        LogLevel::Warn => 'W',
        LogLevel::Info => 'I',
        LogLevel::Debug => 'D',
        LogLevel::Trace => 'T',
    }
}

fn rank(l: LogLevel) -> (r: u8)
    ensures
        r == level_rank(l),
{
    match l {
        LogLevel::Error => 1,
        LogLevel::Warn => 2,
        LogLevel::Info => 3,
        LogLevel::Debug => 4,
        LogLevel::Trace => 5,
    }
}

/// Whether a record of `level` passes a logger whose threshold is `max`: it is at
/// least as severe.
pub fn is_enabled(level: LogLevel, max: LogLevel) -> (r: bool)
    ensures
        r <==> level_rank(level) <= level_rank(max),
{
    rank(level) <= rank(max)
}

/// The line written for a record.
pub fn log_line(level: LogLevel, target: &str, message: &str) -> (s: String)
    ensures
        s@ == log_line_text(level, target@, message@),
{
    let mut s = String::new();
    push_char(&mut s, '[');
    push_char(&mut s, level_char(level));
    push_char(&mut s, ']');
    push_char(&mut s, ' ');
    let rest = concat4("TerminalCore ", target, ": ", message);
    s.append(rest.as_str());
    proof {
        assert(s@ =~= log_line_text(level, target@, message@));
    }
    s
}

} // verus!
