//! The pieces of a line and how they are put together.

pub mod colored_logline;
pub mod decimal;
pub mod ignore_list;

use vstd::prelude::*;
use vstd::string::*;
use crate::level::Level;
use crate::record::LogRecord;
use crate::timing::Duration;
use self::decimal::{lemma_decimal_len, lemma_zero_padded, push_zero_padded, zero_padded};

verus! {

/// The time of a record as it is displayed: minutes, the seconds of the
/// minute begun and the milliseconds of the second begun.
#[derive(Clone, Copy, Debug)]
pub struct Timestamp {
    pub minutes: u64,
    pub seconds: u64,
    pub millis: u32,
}

impl Timestamp {
    /// A timestamp of the given parts, taken as they are.
    pub fn new(minutes: u64, seconds: u64, millis: u32) -> (timestamp: Self)
        ensures
            timestamp.minutes == minutes,
            timestamp.seconds == seconds,
            timestamp.millis == millis,
    {
        Timestamp { minutes, seconds, millis }
    }

    /// The timestamp of a span of time: its whole minutes, the seconds left
    /// over and the whole milliseconds of the second begun.
    pub open spec fn of(elapsed: Duration) -> Timestamp {
        Timestamp {
            minutes: (elapsed.seconds() / 60) as u64,
            seconds: (elapsed.seconds() % 60) as u64,
            millis: elapsed.milliseconds() as u32,
        }
    }

    /// The displayed form: a plus sign, the minutes in at least three digits,
    /// a colon, the seconds in at least two, a full stop and the milliseconds
    /// in at least four, each filled up with zeros on the left.
    pub open spec fn text(self) -> Seq<char> {
        seq!['+'] + zero_padded(self.minutes as nat, 3) + seq![':'] + zero_padded(
            self.seconds as nat,
            2,
        ) + seq!['.'] + zero_padded(self.millis as nat, 4)
    }

    /// Appends the displayed form to `out`.
    pub fn write_to(&self, out: &mut String)
        ensures
            final(out)@ == old(out)@ + self.text(),
    {
        proof {
            reveal_strlit("+");
            reveal_strlit(":");
            reveal_strlit(".");
        }
        out.append("+");
        push_zero_padded(out, self.minutes, 3);
        out.append(":");
        push_zero_padded(out, self.seconds, 2);
        out.append(".");
        push_zero_padded(out, self.millis as u64, 4);
        assert(out@ =~= old(out)@ + self.text());
    }

    /// The displayed form as a string.
    pub fn render(&self) -> (text: String)
        ensures
            text@ == self.text(),
    {
        let mut text = String::new();
        self.write_to(&mut text);
        assert(Seq::<char>::empty() + self.text() =~= self.text());
        text
    }
}

impl From<Duration> for Timestamp {
    fn from(elapsed: Duration) -> (timestamp: Timestamp) {
        let minutes = elapsed.as_secs() / 60;
        let seconds = elapsed.as_secs() % 60;
        let millis = elapsed.subsec_millis();
        Timestamp::new(minutes, seconds, millis)
    }
}

impl vstd::std_specs::convert::FromSpecImpl<Duration> for Timestamp {
    open spec fn obeys_from_spec() -> bool {
        true
    }

    open spec fn from_spec(elapsed: Duration) -> Timestamp {
        Timestamp::of(elapsed)
    }
}

/// The timestamp of a span of time holds its whole minutes, the seconds of
/// the minute begun and the milliseconds of the second begun, and is
/// displayed in a fixed width: the seconds in two digits, the milliseconds in
/// four, of which the first is always a zero, and the minutes in three as
/// long as there are fewer than a thousand of them.
pub proof fn lemma_timestamp_of_duration(elapsed: Duration)
    requires
        elapsed.wf(),
    ensures
        Timestamp::of(elapsed).minutes == elapsed.seconds() / 60,
        Timestamp::of(elapsed).seconds == elapsed.seconds() % 60,
        Timestamp::of(elapsed).millis == elapsed.milliseconds(),
        Timestamp::of(elapsed).minutes * 60 + Timestamp::of(elapsed).seconds == elapsed.seconds(),
        Timestamp::of(elapsed).seconds < 60,
        Timestamp::of(elapsed).millis < 1000,
        Timestamp::of(elapsed).text() == seq!['+'] + zero_padded(elapsed.seconds() / 60, 3) + seq![
            ':',
        ] + zero_padded(elapsed.seconds() % 60, 2) + seq!['.'] + zero_padded(
            elapsed.milliseconds(),
            4,
        ),
        zero_padded(elapsed.seconds() % 60, 2).len() == 2,
        zero_padded(elapsed.milliseconds(), 4).len() == 4,
        zero_padded(elapsed.milliseconds(), 4)[0] == '0',
        elapsed.seconds() / 60 < 1000 ==> zero_padded(elapsed.seconds() / 60, 3).len() == 3,
        elapsed.seconds() / 60 < 1000 ==> Timestamp::of(elapsed).text().len() == 12,
{
    let minutes = elapsed.seconds() / 60;
    let seconds = elapsed.seconds() % 60;
    let millis = elapsed.milliseconds();
    elapsed.lemma_bounds();
    lemma_decimal_len(minutes);
    lemma_decimal_len(seconds);
    lemma_decimal_len(millis);
    lemma_zero_padded(minutes, 3);
    lemma_zero_padded(seconds, 2);
    lemma_zero_padded(millis, 4);
}

/// One record, ready to be displayed.
#[derive(Clone, Copy, Debug)]
pub struct LogLine<'r> {
    pub timestamp: Timestamp,
    pub level: Level,
    pub target: &'r str,
    pub args: &'r str,
}

impl<'r> LogLine<'r> {
    /// The line of a record that is displayed under the given timestamp.
    pub fn new(timestamp: Timestamp, record: &LogRecord<'r>) -> (line: Self)
        ensures
            line.timestamp == timestamp,
            line.level == record.level,
            line.target@ == record.source@,
            line.args@ == record.message@,
    {
        LogLine { timestamp, level: record.level, target: record.source, args: record.message }
    }

    /// The displayed form, without a line end: the timestamp and the level's
    /// name, each in square brackets, the source tag in round brackets and
    /// the message.
    pub open spec fn text(self) -> Seq<char> {
        line_text(self.timestamp, self.level, self.target@, self.args@)
    }

    /// The displayed form as a string.
    pub fn render(&self) -> (text: String)
        ensures
            text@ == self.text(),
    {
        proof {
            reveal_strlit("[");
            reveal_strlit("][");
            reveal_strlit("] (");
            reveal_strlit(") ");
        }
        let mut text = String::new();
        text.append("[");
        self.timestamp.write_to(&mut text);
        text.append("][");
        text.append(self.level.as_str());
        text.append("] (");
        text.append(self.target);
        text.append(") ");
        text.append(self.args);
        assert(text@ =~= self.text());
        text
    }
}

/// The canonical line for a record: `[+MMM:SS.ssss][LEVEL] (source) message`.
pub open spec fn line_text(
    timestamp: Timestamp,
    level: Level,
    source: Seq<char>,
    message: Seq<char>,
) -> Seq<char> {
    seq!['['] + timestamp.text() + seq![']', '['] + level.name() + seq![']', ' ', '('] + source
        + seq![')', ' '] + message
}

} // verus!
