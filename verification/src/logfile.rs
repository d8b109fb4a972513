//! The daily log: which file a message goes to, and how its line reads.
//!
//! Dates and times are those of the wall clock in Kolkata. The caller reads
//! the clock and hands in the full seconds since the Unix epoch; turning
//! them into a local date and time is left to `chrono` and `chrono_tz`.

use crate::relay::MsgStatus;
use crate::text::join3;
use vstd::prelude::*;

verus! {

/// What `chrono` writes for the instant `secs` seconds after the Unix
/// epoch, seen from the time zone that `chrono_tz` knows by the name `zone`
/// and laid out by the `strftime` pattern `pattern`; `None` where there is
/// no zone of that name, where `chrono` cannot hold the instant, or where it
/// does not accept the pattern.
pub uninterp spec fn zoned_text(secs: int, zone: Seq<char>, pattern: Seq<char>) -> Option<
    Seq<char>,
>;

/// The name of the time zone in which the log tells the time.
pub open spec fn log_zone() -> Seq<char> {
    "Asia/Kolkata"@
}

/// `zoned_text` for the time zone of the log.
pub open spec fn kolkata_text(secs: int, pattern: Seq<char>) -> Option<Seq<char>> {
    zoned_text(secs, log_zone(), pattern)
}

/// An optional string as plain text.
pub open spec fn text_view(text: Option<String>) -> Option<Seq<char>> {
    match text {
        Some(written) => Some(written@),
        None => None,
    }
}

/// `chrono_tz::Tz::from_str` finds the zone by its name,
/// `chrono::DateTime::from_timestamp` gives the instant at the full second,
/// `DateTime::with_timezone` moves it to the zone, and `DateTime::format`
/// with `DelayedFormat::write_to` writes it out. The result is `None` where
/// the first or the second gives none or the last reports an error; what is
/// written depends on the three arguments alone. It is asked of the zone of
/// the log only: for that zone `chrono_tz` can write every offset.
#[verifier::external_body]
fn format_in_zone(secs: i64, zone: &str, pattern: &str) -> (text: Option<String>)
    requires
        zone@ == log_zone(),
    ensures
        text_view(text) == zoned_text(secs as int, zone@, pattern@),
{
    let zone: chrono_tz::Tz = zone.parse().ok()?;
    let instant = chrono::DateTime::from_timestamp(secs, 0)?;
    let mut written = String::new();
    match instant.with_timezone(&zone).format(pattern).write_to(&mut written) {
        Ok(()) => Some(written),
        Err(_) => None,
    }
}

/// Writes the instant `secs` seconds after the Unix epoch as the clock in
/// the zone of the log shows it, laid out by `pattern`.
fn format_in_kolkata(secs: i64, pattern: &str) -> (text: Option<String>)
    ensures
        text_view(text) == kolkata_text(secs as int, pattern@),
{
    format_in_zone(secs, "Asia/Kolkata", pattern)
}

/// The pattern of a date in the name of a log file: year, month and day
/// without anything between them.
pub open spec fn date_pattern() -> Seq<char> {
    "%Y%m%d"@
}

/// The pattern of the date and time in a time stamp.
pub open spec fn clock_pattern() -> Seq<char> {
    "%Y-%m-%d %H:%M:%S"@
}

/// The name of the log file of the day written as `date`.
pub open spec fn file_text(date: Seq<char>) -> Seq<char> {
    "ophthalmic.classifier."@ + date + ".log"@
}

/// The time stamp for the date and time written as `clock`: the same, in
/// square brackets.
pub open spec fn stamp_text(clock: Seq<char>) -> Seq<char> {
    "["@ + clock + "]"@
}

/// The name of the log file, where the date was written.
pub open spec fn file_of(date: Option<Seq<char>>) -> Option<Seq<char>> {
    match date {
        Some(date) => Some(file_text(date)),
        None => None,
    }
}

/// The time stamp, where the date and time were written.
pub open spec fn stamp_of(clock: Option<Seq<char>>) -> Option<Seq<char>> {
    match clock {
        Some(clock) => Some(stamp_text(clock)),
        None => None,
    }
}

/// A log line: the time stamp, the tag of the status, the text, each set
/// off by a blank, and a line break at the end.
pub open spec fn line_text(stamp: Seq<char>, status: MsgStatus, text: Seq<char>) -> Seq<char> {
    stamp + " "@ + status.tag_text() + " "@ + text + "\n"@
}

/// Where a message is logged and what is appended there.
#[derive(Debug, Clone, PartialEq, Eq)]
pub struct LogEntry {
    /// The name of the log file, without its directory.
    pub file: String,
    /// The line to append, line break included.
    pub line: String,
}

/// A `LogEntry` as plain text.
pub struct LogEntryView {
    pub file: Seq<char>,
    pub line: Seq<char>,
}

impl View for LogEntry {
    type V = LogEntryView;

    open spec fn view(&self) -> LogEntryView {
        LogEntryView { file: self.file@, line: self.line@ }
    }
}

/// An optional entry as plain text.
pub open spec fn entry_view(entry: Option<LogEntry>) -> Option<LogEntryView> {
    match entry {
        Some(made) => Some(made@),
        None => None,
    }
}

/// The entry for a message with `text` and `status`, given the date and the
/// date and time as they were written for the clock reading: an entry when
/// both were written, none otherwise.
pub open spec fn entry_of(
    date: Option<Seq<char>>,
    clock: Option<Seq<char>>,
    status: MsgStatus,
    text: Seq<char>,
) -> Option<LogEntryView> {
    match (date, clock) {
        (Some(date), Some(clock)) => Some(
            LogEntryView {
                file: file_text(date),
                line: line_text(stamp_text(clock), status, text),
            },
        ),
        _ => None,
    }
}

/// Writes `file_text`.
pub fn name_file(date: &str) -> (name: String)
    ensures
        name@ == file_text(date@),
{
    join3("ophthalmic.classifier.", date, ".log")
}

/// Writes `stamp_text`.
pub fn bracket(clock: &str) -> (stamp: String)
    ensures
        stamp@ == stamp_text(clock@),
{
    join3("[", clock, "]")
}

/// Writes `line_text`.
pub fn log_line(stamp: &str, status: MsgStatus, text: &str) -> (out: String)
    ensures
        out@ == line_text(stamp@, status, text@),
{
    let mut out = String::from_str(stamp);
    out.append(" ");
    out.append(status.tag());
    out.append(" ");
    out.append(text);
    out.append("\n");
    out
}

/// Puts an entry together from a date and a date and time that were
/// already written, or from the lack of either.
pub fn assemble(
    date: Option<String>,
    clock: Option<String>,
    status: MsgStatus,
    text: &str,
) -> (entry: Option<LogEntry>)
    ensures
        entry_view(entry) == entry_of(text_view(date), text_view(clock), status, text@),
{
    match (date, clock) {
        (Some(date), Some(clock)) => {
            let stamp = bracket(clock.as_str());
            Some(
                LogEntry {
                    file: name_file(date.as_str()),
                    line: log_line(stamp.as_str(), status, text),
                },
            )
        },
        _ => None,
    }
}

/// The name of the log file of the day on which `secs` falls.
pub fn log_file_name(secs: i64) -> (name: Option<String>)
    ensures
        text_view(name) == file_of(kolkata_text(secs as int, date_pattern())),
{
    match format_in_kolkata(secs, "%Y%m%d") {
        Some(date) => Some(name_file(date.as_str())),
        None => None,
    }
}

/// The time stamp of `secs`, in brackets.
pub fn time_stamp(secs: i64) -> (stamp: Option<String>)
    ensures
        text_view(stamp) == stamp_of(kolkata_text(secs as int, clock_pattern())),
{
    match format_in_kolkata(secs, "%Y-%m-%d %H:%M:%S") {
        Some(clock) => Some(bracket(clock.as_str())),
        None => None,
    }
}

/// The log entry for a message with `text`, logged under `status` at `secs`
/// seconds after the Unix epoch.
pub fn log_entry(secs: i64, status: MsgStatus, text: &str) -> (entry: Option<LogEntry>)
    ensures
        entry_view(entry) == entry_of(
            kolkata_text(secs as int, date_pattern()),
            kolkata_text(secs as int, clock_pattern()),
            status,
            text@,
        ),
{
    assemble(
        format_in_kolkata(secs, "%Y%m%d"),
        format_in_kolkata(secs, "%Y-%m-%d %H:%M:%S"),
        status,
        text,
    )
}

} // verus!
