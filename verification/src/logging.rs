//! Log records and the line that is written for each.

use vstd::prelude::*;
use crate::text::{two_digit_string, two_digits};

verus! {

/// The severity of a record, from the least to the most severe.
#[derive(Clone, Copy, Debug, PartialEq, Eq, Structural)]
pub enum Level {
    Trace,
    Debug,
    Info,
    Warn,
    Error,
}

impl Level {
    /// The place of the level in the order of severity, `Trace` at 0.
    pub open spec fn spec_rank(self) -> u8 {
        match self {
            Level::Trace => 0,
            Level::Debug => 1,
            Level::Info => 2,
            Level::Warn => 3,
            Level::Error => 4,
        }
    }

    /// The name of the level as a line shows it.
    pub open spec fn spec_name(self) -> Seq<char> {
        match self {
            Level::Trace => "TRACE"@,
            Level::Debug => "DEBUG"@,
            Level::Info => "INFO"@,
            Level::Warn => "WARN"@,
            Level::Error => "ERROR"@,
        }
    }

    /// Whether a record of this level is written: `Debug` and above are.
    pub open spec fn spec_is_emitted(self) -> bool {
        self.spec_rank() >= Level::Debug.spec_rank()
    }

    /// The place of the level in the order of severity.
    #[verifier::when_used_as_spec(spec_rank)]
    pub fn rank(self) -> (res: u8)
        ensures
            res == self.spec_rank(),
    {
        match self {
            Level::Trace => 0,
            Level::Debug => 1,
            Level::Info => 2,
            Level::Warn => 3,
            Level::Error => 4,
        }
    }

    /// The name of the level as a line shows it.
    pub fn name(self) -> (res: &'static str)
        ensures
            res@ == self.spec_name(),
    {
        match self {
            Level::Trace => "TRACE",
            Level::Debug => "DEBUG",
            Level::Info => "INFO",
            Level::Warn => "WARN",
            Level::Error => "ERROR",
        }
    }

    /// The least severe level that is written.
    pub fn threshold() -> (res: Level)
        ensures
            res == Level::Debug,
    {
        Level::Debug
    }

    /// Whether a record of this level is written.
    #[verifier::when_used_as_spec(spec_is_emitted)]
    pub fn is_emitted(self) -> (res: bool)
        ensures
            res == self.spec_is_emitted(),
    {
        self.rank() >= Level::threshold().rank()
    }
}

/// A level is written exactly if it is none below the threshold, and of two
/// levels the more severe is written wherever the other is.
pub proof fn lemma_emitted_levels(a: Level, b: Level)
    ensures
        a.spec_is_emitted() <==> a != Level::Trace,
        a.spec_rank() <= b.spec_rank() && a.spec_is_emitted() ==> b.spec_is_emitted(),
        a.spec_rank() == b.spec_rank() ==> a == b,
{
}

/// A place to which the lines of a run are written.
#[derive(Debug)]
pub enum Sink {
    /// The standard output stream.
    Stdout,
    /// The file of this name in the working folder; lines are added at its
    /// end.
    File { name: String },
}

/// A sink with its file name as a sequence of characters.
pub enum SinkView {
    Stdout,
    File { name: Seq<char> },
}

impl View for Sink {
    type V = SinkView;

    open spec fn view(&self) -> SinkView {
        match *self {
            Sink::Stdout => SinkView::Stdout,
            Sink::File { name } => SinkView::File { name: name@ },
        }
    }
}

/// The name of the file that takes the lines of a run.
pub open spec fn log_file_name() -> Seq<char> {
    "logs.log"@
}

/// The sinks of a run, in the order in which a line reaches them: the
/// standard output always, and before it the log file where `to_file` is set.
pub open spec fn sinks_for(to_file: bool) -> Seq<SinkView> {
    if to_file {
        seq![SinkView::File { name: log_file_name() }, SinkView::Stdout]
    } else {
        seq![SinkView::Stdout]
    }
}

/// The sinks of a run with or without a log file.
pub fn sinks(to_file: bool) -> (res: Vec<Sink>)
    ensures
        res@.map_values(|s: Sink| s@) == sinks_for(to_file),
{
    let mut res: Vec<Sink> = Vec::new();
    if to_file {
        res.push(Sink::File { name: String::from_str("logs.log") });
    }
    res.push(Sink::Stdout);
    assert(res@.map_values(|s: Sink| s@) =~= sinks_for(to_file));
    res
}

/// The time of day that a line starts with.
#[derive(Clone, Copy, Debug, PartialEq, Eq, Structural)]
pub struct ClockTime {
    pub hour: u32,
    pub minute: u32,
    pub second: u32,
}

/// One message with its severity.
#[derive(Debug)]
pub struct LogRecord {
    pub level: Level,
    pub message: String,
}

/// What a record says: its level and the text of its message.
pub struct Entry {
    pub level: Level,
    pub text: Seq<char>,
}

impl View for LogRecord {
    type V = Entry;

    open spec fn view(&self) -> Entry {
        Entry { level: self.level, text: self.message@ }
    }
}

/// What each record of `records` says, in their order.
pub open spec fn entries(records: Seq<LogRecord>) -> Seq<Entry> {
    records.map_values(|r: LogRecord| r@)
}

/// The line for a message: `[HH:MM:SS LEVEL |target|] message`.
pub open spec fn line_text(
    clock: ClockTime,
    level: Level,
    target: Seq<char>,
    message: Seq<char>,
) -> Seq<char> {
    "["@ + two_digits(clock.hour as nat) + ":"@ + two_digits(clock.minute as nat) + ":"@
        + two_digits(clock.second as nat) + " "@ + level.spec_name() + " |"@ + target + "|] "@
        + message
}

/// Writes the line for a message of the given level and source at the given
/// time of day.
pub fn format_line(clock: ClockTime, level: Level, target: &str, message: &str) -> (res: String)
    ensures
        res@ == line_text(clock, level, target@, message@),
{
    let mut res = String::from_str("[");
    res.append(two_digit_string(clock.hour).as_str());
    res.append(":");
    res.append(two_digit_string(clock.minute).as_str());
    res.append(":");
    res.append(two_digit_string(clock.second).as_str());
    res.append(" ");
    res.append(level.name());
    res.append(" |");
    res.append(target);
    res.append("|] ");
    res.append(message);
    res
}

} // verus!
