//! The target that writes to the standard output.

use vstd::prelude::*;
use vstd::string::*;
use crate::level::Level;
use crate::record::LogRecord;
use crate::timing::Duration;
use super::util::colored_logline::{coloured_line_text, ColoredLogLine};
use super::util::ignore_list::{IgnoreList, IgnoreListPatterns};
use super::util::{line_text, LogLine, Timestamp};

verus! {

/// What is settled about the standard output as a target: its threshold, the
/// records it ignores, and the text it sends for a record. Sending the text
/// is left to whoever holds the stream.
#[derive(Clone, Copy, Debug)]
pub struct StdoutTarget {
    level: Level,
    ignore_list: IgnoreList<'static>,
}

impl StdoutTarget {
    /// The threshold of the target.
    pub closed spec fn threshold(self) -> Level {
        self.level
    }

    /// The ignore list of the target.
    pub closed spec fn ignore_list(self) -> IgnoreList<'static> {
        self.ignore_list
    }

    /// A target of the given threshold that ignores the records whose
    /// source tag holds one of the patterns.
    pub fn new(level: Level, ignore_patterns: IgnoreListPatterns<'static>) -> (target: Self)
        ensures
            target.threshold() == level,
            target.ignore_list().patterns().len() == ignore_patterns@.len(),
            forall|i: int|
                0 <= i < ignore_patterns@.len() ==> target.ignore_list().patterns()[i]
                    == ignore_patterns@[i]@,
    {
        StdoutTarget { level, ignore_list: IgnoreList::new(ignore_patterns) }
    }

    /// The least severe level that the target accepts.
    pub fn level(&self) -> (level: Level)
        ensures
            level == self.threshold(),
    {
        self.level
    }

    /// Whether the target ignores the record: a pattern of its ignore list
    /// occurs in the record's source tag.
    pub fn ignore(&self, record: &LogRecord) -> (ignored: bool)
        ensures
            ignored == self.ignore_list().vetoes(record.source@),
    {
        self.ignore_list.ignore(record)
    }

    /// The text that a write of the record sends to the stream: the
    /// canonical line and a line feed.
    pub fn line(&self, elapsed: Duration, record: &LogRecord) -> (text: String)
        ensures
            text@ == line_text(
                Timestamp::of(elapsed),
                record.level,
                record.source@,
                record.message@,
            ).push('\n'),
    {
        proof {
            reveal_strlit("\n");
        }
        let mut text = LogLine::new(Timestamp::from(elapsed), record).render();
        text.append("\n");
        text
    }

    /// The text that a write of the record sends to the stream where lines
    /// are shown in colour: the line in colour and a line feed.
    pub fn colored_line(&self, elapsed: Duration, record: &LogRecord) -> (text: String)
        ensures
            text@ == coloured_line_text(
                Timestamp::of(elapsed),
                record.level,
                record.source@,
                record.message@,
            ).push('\n'),
    {
        proof {
            reveal_strlit("\n");
        }
        let mut text = ColoredLogLine::new(Timestamp::from(elapsed), record).render();
        text.append("\n");
        text
    }
}

impl Default for StdoutTarget {
    /// A target that accepts every level and ignores nothing.
    fn default() -> (target: Self)
        ensures
            target.threshold() == Level::Trace,
            target.ignore_list().patterns().len() == 0,
    {
        StdoutTarget { level: Level::Trace, ignore_list: IgnoreList::default() }
    }
}

} // verus!
