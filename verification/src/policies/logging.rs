//! Logging policies: whether a message is written, and the line written
//! for it.
use vstd::prelude::*;
use std::path::PathBuf;
use crate::clock;

verus! {

/// The line written for one message: `[timestamp] LEVEL: message`.
pub open spec fn log_line(timestamp: Seq<char>, level: Seq<char>, message: Seq<char>) -> Seq<char> {
    seq!['['] + timestamp + seq![']', ' '] + level + seq![':', ' '] + message
}

/// The file that holds the messages of one day: `YYYY-MM-DD.log`.
pub open spec fn log_file_name(date: Seq<char>) -> Seq<char> {
    date + seq!['.', 'l', 'o', 'g']
}

/// Renders the line written for `message` at `level`, stamped `timestamp`.
pub fn render_log_line(timestamp: &str, level: &str, message: &str) -> (line: String)
    ensures
        line@ == log_line(timestamp@, level@, message@),
{
    let mut line = String::new();
    let mut v: Vec<char> = Vec::new();
    v.push('[');
    crate::text::append_chars(&mut line, &v);
    line.append(timestamp);
    let mut v: Vec<char> = Vec::new();
    v.push(']');
    v.push(' ');
    crate::text::append_chars(&mut line, &v);
    line.append(level);
    let mut v: Vec<char> = Vec::new();
    v.push(':');
    v.push(' ');
    crate::text::append_chars(&mut line, &v);
    line.append(message);
    line
}

/// The name of the file for the messages of `date`.
pub fn render_log_file_name(date: &str) -> (name: String)
    ensures
        name@ == log_file_name(date@),
{
    let mut name = String::from_str(date);
    let mut v: Vec<char> = Vec::new();
    v.push('.');
    v.push('l');
    v.push('o');
    v.push('g');
    crate::text::append_chars(&mut name, &v);
    name
}

/// A policy that decides whether messages are written and renders the line
/// for each. Writing the line out is left to the caller.
pub trait LoggingPolicy: Send + Sync {
    /// Whether this policy writes messages.
    spec fn enabled(&self) -> bool;

    /// Whether this policy writes messages.
    fn is_enabled(&self) -> (b: bool)
        ensures
            b == self.enabled(),
    ;

    /// The line to write for `message` at `level`, stamped with the current
    /// local time; `None` when the policy drops messages.
    fn entry(&self, level: &str, message: &str) -> (line: Option<String>)
        ensures
            line is Some <==> self.enabled(),
            line matches Some(l) ==> exists|ts: Seq<char>|
                clock::is_timestamp_text(ts) && l@ == log_line(ts, level@, message@),
    ;
}

/// Stamps `message` with the current local time.
fn stamped(level: &str, message: &str) -> (line: String)
    ensures
        exists|ts: Seq<char>| clock::is_timestamp_text(ts) && line@ == log_line(ts, level@, message@),
{
    let now = clock::local_timestamp();
    let line = render_log_line(now.as_str(), level, message);
    assert(line@ == log_line(now@, level@, message@));
    line
}

/// Drops every message.
pub struct NoLogging;

impl LoggingPolicy for NoLogging {
    open spec fn enabled(&self) -> bool {
        false
    }

    fn is_enabled(&self) -> (b: bool) {
        false
    }

    fn entry(&self, level: &str, message: &str) -> (line: Option<String>) {
        None
    }
}

/// Writes messages to the console when enabled.
pub struct ConsoleLogger {
    enabled: bool,
}

impl ConsoleLogger {
    /// Whether this logger was created enabled.
    pub closed spec fn on(self) -> bool {
        self.enabled
    }

    /// A console logger that writes messages iff `enabled`.
    pub fn new(enabled: bool) -> (r: Self)
        ensures
            r.on() == enabled,
    {
        ConsoleLogger { enabled }
    }
}

impl LoggingPolicy for ConsoleLogger {
    open spec fn enabled(&self) -> bool {
        self.on()
    }

    fn is_enabled(&self) -> (b: bool) {
        self.enabled
    }

    fn entry(&self, level: &str, message: &str) -> (line: Option<String>) {
        if self.enabled {
            Some(stamped(level, message))
        } else {
            None
        }
    }
}

/// Appends every message to a file per day inside a directory.
pub struct FileLogger {
    log_dir: PathBuf,
}

impl FileLogger {
    /// The directory that holds the daily files.
    pub closed spec fn dir(self) -> PathBuf {
        self.log_dir
    }

    /// A file logger writing into `log_dir`.
    pub fn new(log_dir: PathBuf) -> (r: Self)
        ensures
            r.dir() == log_dir,
    {
        FileLogger { log_dir }
    }

    /// The directory that holds the daily files.
    pub fn log_dir(&self) -> (d: &PathBuf)
        ensures
            *d == self.dir(),
    {
        &self.log_dir
    }

    /// The name of today's file inside the directory: `YYYY-MM-DD.log` for
    /// the current local date (which date depends on the clock; the name
    /// has the date layout).
    pub fn daily_log_name(&self) -> (name: String)
        ensures
            exists|date: Seq<char>| clock::is_date_text(date) && name@ == log_file_name(date),
    {
        let date = clock::local_date();
        render_log_file_name(date.as_str())
    }
}

impl LoggingPolicy for FileLogger {
    open spec fn enabled(&self) -> bool {
        true
    }

    fn is_enabled(&self) -> (b: bool) {
        true
    }

    fn entry(&self, level: &str, message: &str) -> (line: Option<String>) {
        Some(stamped(level, message))
    }
}

} // verus!
