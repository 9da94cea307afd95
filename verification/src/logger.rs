//! Log entries of the launcher: a level, a timestamp, the ecosystem and the
//! service they come from, and a message, coloured for a terminal.
//!
//! The logger renders an entry to a line; writing the line out is the
//! caller's part.

use vstd::prelude::*;
use crate::text::{owned, push_text};
use crate::clock::{date_time, is_date_time_text};

verus! {

/// The severity of an entry.
#[derive(Clone, Copy, Debug, PartialEq, Eq, Structural)]
pub enum LogLevel {
    Error,
    Warning,
    Info,
    Debug,
}

/// A logger for one service of one ecosystem.
#[derive(Clone, Debug)]
pub struct Logger {
    pub service: String,
    pub ecosystem: String,
}

/// The five-column label of a level.
pub open spec fn level_label(l: LogLevel) -> Seq<char> {
    match l {
        LogLevel::Error => "ERROR"@,
        LogLevel::Warning => "WARN "@,
        LogLevel::Info => "INFO "@,
        LogLevel::Debug => "DEBUG"@,
    }
}

/// The terminal colour of a level.
pub open spec fn level_color(l: LogLevel) -> Seq<char> {
    match l {
        LogLevel::Error => "\x1b[91m"@,
        LogLevel::Warning => "\x1b[93m"@,
        LogLevel::Info => "\x1b[96m"@,
        LogLevel::Debug => "\x1b[90m"@,
    }
}

/// The icon of a level.
pub open spec fn level_icon(l: LogLevel) -> Seq<char> {
    match l {
        LogLevel::Error => "❌"@,
        LogLevel::Warning => "⚠️"@,
        LogLevel::Info => "ℹ️"@,
        LogLevel::Debug => "🔍"@,
    }
}

/// The rendered line of an entry: the timestamp in grey and bold, the level
/// in its colour, the ecosystem in magenta, the service in cyan, then the
/// message, each coloured part followed by a reset.
pub open spec fn entry_text(
    level: LogLevel,
    timestamp: Seq<char>,
    ecosystem: Seq<char>,
    service: Seq<char>,
    message: Seq<char>,
) -> Seq<char> {
    "\x1b[90m"@ + "\x1b[1m"@ + "["@ + timestamp + "]"@ + "\x1b[0m"@ + " "@ + level_color(level) + level_label(level)
        + "\x1b[0m"@ + " "@ + "\x1b[35m"@ + "["@ + ecosystem + "]"@ + "\x1b[0m"@ + " "@ + "\x1b[36m"@ + "["@
        + service + "]"@ + "\x1b[0m"@ + " "@ + message
}

/// The message ends every rendered line.
pub proof fn law_entry_ends_with_message(
    level: LogLevel,
    timestamp: Seq<char>,
    ecosystem: Seq<char>,
    service: Seq<char>,
    message: Seq<char>,
)
    ensures
        message.is_suffix_of(entry_text(level, timestamp, ecosystem, service, message)),
{
    let t = entry_text(level, timestamp, ecosystem, service, message);
    let k = t.len() - message.len();
    assert(t.subrange(k, t.len() as int) =~= message);
}

impl LogLevel {
    /// The icon of the level.
    pub fn icon(&self) -> (r: &'static str)
        ensures
            r@ == level_icon(*self),
    {
        match self {
            LogLevel::Error => "❌",
            LogLevel::Warning => "⚠️",
            LogLevel::Info => "ℹ️",
            LogLevel::Debug => "🔍",
        }
    }

    /// The terminal colour sequence of the level.
    pub fn color_ansi(&self) -> (r: &'static str)
        ensures
            r@ == level_color(*self),
    {
        match self {
            LogLevel::Error => "\x1b[91m",
            LogLevel::Warning => "\x1b[93m",
            LogLevel::Info => "\x1b[96m",
            LogLevel::Debug => "\x1b[90m",
        }
    }

    /// The five-column label of the level, as it is displayed.
    pub fn label(&self) -> (r: &'static str)
        ensures
            r@ == level_label(*self),
    {
        match self {
            LogLevel::Error => "ERROR",
            LogLevel::Warning => "WARN ",
            LogLevel::Info => "INFO ",
            LogLevel::Debug => "DEBUG",
        }
    }
}

impl Logger {
    /// A logger for `service` of `ecosystem`.
    pub fn new(ecosystem: &str, service: &str) -> (r: Logger)
        ensures
            r.ecosystem@ == ecosystem@,
            r.service@ == service@,
    {
        Logger { service: owned(service), ecosystem: owned(ecosystem) }
    }

    /// The line of an entry at `level`, stamped `timestamp`.
    pub fn format_entry(&self, level: LogLevel, timestamp: &str, message: &str) -> (r: String)
        ensures
            r@ == entry_text(level, timestamp@, self.ecosystem@, self.service@, message@),
    {
        let mut s = owned("\x1b[90m");
        push_text(&mut s, "\x1b[1m");
        push_text(&mut s, "[");
        push_text(&mut s, timestamp);
        push_text(&mut s, "]");
        push_text(&mut s, "\x1b[0m");
        push_text(&mut s, " ");
        push_text(&mut s, level.color_ansi());
        push_text(&mut s, level.label());
        push_text(&mut s, "\x1b[0m");
        push_text(&mut s, " ");
        push_text(&mut s, "\x1b[35m");
        push_text(&mut s, "[");
        push_text(&mut s, self.ecosystem.as_str());
        push_text(&mut s, "]");
        push_text(&mut s, "\x1b[0m");
        push_text(&mut s, " ");
        push_text(&mut s, "\x1b[36m");
        push_text(&mut s, "[");
        push_text(&mut s, self.service.as_str());
        push_text(&mut s, "]");
        push_text(&mut s, "\x1b[0m");
        push_text(&mut s, " ");
        push_text(&mut s, message);
        s
    }

    /// The line of an entry at `level`, stamped with the local date and time.
    pub fn log(&self, level: LogLevel, message: &str) -> (r: String)
        ensures
            exists|t: Seq<char>| is_date_time_text(t) && r@ == entry_text(level, t, self.ecosystem@, self.service@, message@),
    {
        let t = date_time();
        self.format_entry(level, t.as_str(), message)
    }

    /// The line of an error entry.
    pub fn error(&self, message: &str) -> (r: String)
        ensures
            exists|t: Seq<char>| is_date_time_text(t) && r@ == entry_text(LogLevel::Error, t, self.ecosystem@, self.service@, message@),
    {
        self.log(LogLevel::Error, message)
    }

    /// The line of a warning entry.
    pub fn warn(&self, message: &str) -> (r: String)
        ensures
            exists|t: Seq<char>| is_date_time_text(t) && r@ == entry_text(LogLevel::Warning, t, self.ecosystem@, self.service@, message@),
    {
        self.log(LogLevel::Warning, message)
    }

    /// The line of an information entry.
    pub fn info(&self, message: &str) -> (r: String)
        ensures
            exists|t: Seq<char>| is_date_time_text(t) && r@ == entry_text(LogLevel::Info, t, self.ecosystem@, self.service@, message@),
    {
        self.log(LogLevel::Info, message)
    }

    /// The line of a debug entry.
    pub fn debug(&self, message: &str) -> (r: String)
        ensures
            exists|t: Seq<char>| is_date_time_text(t) && r@ == entry_text(LogLevel::Debug, t, self.ecosystem@, self.service@, message@),
    {
        self.log(LogLevel::Debug, message)
    }
}

} // verus!
