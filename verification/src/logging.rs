//! The log file: one line per record, trimmed to the most recent lines.

use vstd::prelude::*;
use vstd::string::*;

verus! {

/// Path of the log file.
pub const LOG_FILE: &'static str = "/var/lib/ntfy-send/ntfy-send.log";

/// Number of lines that the log file keeps.
pub const MAX_LOG_ENTRIES: usize = 500;

/// `strftime` pattern of the time stamp that starts every line.
pub const TIMESTAMP_FORMAT: &'static str = "%Y-%m-%d %H:%M:%S";

/// Severity of a log record, most severe first.
#[derive(Clone, Copy, PartialEq, Eq, Structural, Debug)]
pub enum Level {
    Error,
    Warn,
    Info,
    Debug,
    Trace,
}

/// Records less severe than this are filtered out before they reach the log.
pub const MAX_LEVEL: Level = Level::Info;

impl Level {
    /// The name under which the level appears in a log line.
    pub open spec fn name(self) -> Seq<char> {
        match self {
            Level::Error => "ERROR"@,
            Level::Warn => "WARN"@,
            Level::Info => "INFO"@,
            Level::Debug => "DEBUG"@,
            Level::Trace => "TRACE"@,
        }
    }
}

/// A record to be written to the log.
#[derive(Debug, PartialEq, Eq)]
pub struct LogEntry {
    pub level: Level,
    pub message: String,
}

/// What a [`LogEntry`] says, as mathematical values.
pub ghost struct LogEntryView {
    pub level: Level,
    pub message: Seq<char>,
}

impl View for LogEntry {
    type V = LogEntryView;

    open spec fn view(&self) -> LogEntryView {
        LogEntryView { level: self.level, message: self.message@ }
    }
}

impl DeepView for LogEntry {
    type V = LogEntryView;

    open spec fn deep_view(&self) -> LogEntryView {
        self.view()
    }
}

/// The lines that remain of `lines` when at most `cap` may stay: the last
/// `cap` of them, in their order.
pub open spec fn recent(lines: Seq<Seq<char>>, cap: nat) -> Seq<Seq<char>> {
    if lines.len() > cap {
        lines.skip(lines.len() - cap)
    } else {
        lines
    }
}

/// The text of a file that holds `lines`, each closed by a line feed.
pub open spec fn rendered(lines: Seq<Seq<char>>) -> Seq<char>
    decreases lines.len(),
{
    if lines.len() == 0 {
        Seq::empty()
    } else {
        rendered(lines.drop_last()) + lines.last() + seq!['\n']
    }
}

/// The log line for a record: `<timestamp> [<LEVEL>] - <message>`.
pub open spec fn record_line(timestamp: Seq<char>, level: Level, message: Seq<char>) -> Seq<char> {
    timestamp + " ["@ + level.name() + "] - "@ + message
}

/// Of `cap + k` lines with `k > 0`, the `cap` last ones stay, in their order:
/// line `i` of what stays is line `k + i` of what was there.
pub proof fn lemma_recent_is_tail(lines: Seq<Seq<char>>, cap: nat, k: nat)
    requires
        k > 0,
        lines.len() == cap + k,
    ensures
        recent(lines, cap).len() == cap,
        forall|i: int| 0 <= i < cap ==> #[trigger] recent(lines, cap)[i] == lines[k + i],
{
}

/// Trims `lines` to its last `cap` lines. `None` says that nothing has to be
/// dropped, so the file can stay as it is.
pub fn keep_last(lines: Vec<String>, cap: usize) -> (kept: Option<Vec<String>>)
    ensures
        kept is Some <==> lines.len() > cap,
        kept matches Some(k) ==> k.deep_view() == recent(lines.deep_view(), cap as nat),
        kept is None ==> recent(lines.deep_view(), cap as nat) == lines.deep_view(),
{
    let mut lines = lines;
    let count: usize = lines.len();
    if count > cap {
        let ghost before = lines.deep_view();
        let kept = lines.split_off(count - cap);
        assert(kept.deep_view() =~= before.skip(count - cap));
        Some(kept)
    } else {
        None
    }
}

/// Writes `lines` out as the text of a file, one line each.
pub fn render_lines(lines: &Vec<String>) -> (text: String)
    ensures
        text@ == rendered(lines.deep_view()),
{
    let mut text = String::new();
    let mut i: usize = 0;
    assert(lines.deep_view().take(0) =~= Seq::<Seq<char>>::empty());
    while i < lines.len()
        invariant
            i <= lines.len(),
            text@ == rendered(lines.deep_view().take(i as int)),
        decreases lines.len() - i,
    {
        proof {
            reveal_strlit("\n");
            let next = lines.deep_view().take(i + 1);
            assert(next.drop_last() =~= lines.deep_view().take(i as int));
            assert(next.last() == lines[i as int]@);
            assert("\n"@ =~= seq!['\n']);
        }
        text.append(lines[i].as_str());
        text.append("\n");
        i = i + 1;
    }
    assert(lines.deep_view().take(lines.len() as int) =~= lines.deep_view());
    text
}

/// Rotation of the log file whose lines are `lines`: the new text of the file
/// where it holds more than [`MAX_LOG_ENTRIES`] lines, `None` where it stays.
pub fn rotate_log(lines: Vec<String>) -> (text: Option<String>)
    ensures
        text is Some <==> lines.len() > MAX_LOG_ENTRIES,
        text matches Some(t) ==> t@ == rendered(
            recent(lines.deep_view(), MAX_LOG_ENTRIES as nat),
        ),
{
    match keep_last(lines, MAX_LOG_ENTRIES) {
        Some(kept) => Some(render_lines(&kept)),
        None => None,
    }
}

/// Whether the log takes a record of this level: it takes every one.
pub fn enabled(level: Level) -> (accepted: bool)
    ensures
        accepted,
{
    true
}

/// `log::Level::as_str` for the level of the same name: the upper-case name
/// that the `log` crate prints for it.
#[verifier::external_body]
fn level_name(level: Level) -> (name: &'static str)
    ensures
        name@ == level.name(),
{
    let level = match level {
        Level::Error => log::Level::Error,
        Level::Warn => log::Level::Warn,
        Level::Info => log::Level::Info,
        Level::Debug => log::Level::Debug,
        Level::Trace => log::Level::Trace,
    };
    level.as_str()
}

/// `chrono::Local::now`, written out with [`TIMESTAMP_FORMAT`]. The text
/// depends on the clock and the time zone, so nothing is claimed of it.
#[verifier::external_body]
fn local_timestamp() -> (timestamp: String) {
    chrono::Local::now().format(TIMESTAMP_FORMAT).to_string()
}

/// The log line for a record that was made at `timestamp`.
pub fn format_record(timestamp: &str, level: Level, message: &str) -> (line: String)
    ensures
        line@ == record_line(timestamp@, level, message@),
{
    let mut line = String::from_str(timestamp);
    line.append(" [");
    line.append(level_name(level));
    line.append("] - ");
    line.append(message);
    line
}

/// The log line for a record that is made now, or `None` where the log does
/// not take the level. The line starts with the local time of the call.
pub fn log_line(level: Level, message: &str) -> (line: Option<String>)
    ensures
        line matches Some(l) && exists|timestamp: Seq<char>|
            l@ == #[trigger] record_line(timestamp, level, message@),
{
    if enabled(level) {
        let timestamp = local_timestamp();
        let line = format_record(timestamp.as_str(), level, message);
        assert(line@ == record_line(timestamp@, level, message@));
        Some(line)
    } else {
        None
    }
}

} // verus!
