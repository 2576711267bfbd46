//! Lines in colour, for terminals that understand ANSI escape sequences.

use termion::color::{Black, Blue, Cyan, Fg, Green, Magenta, Red, Reset, Yellow};
use vstd::prelude::*;
use vstd::string::*;
use crate::level::Level;
use crate::record::LogRecord;
use super::decimal::decimal;
use super::Timestamp;

verus! {

/// The escape sequence that sets the foreground to the colour of the given
/// number in the palette of 256: the escape character, `[38;5;`, the number
/// and `m`.
pub open spec fn foreground(index: nat) -> Seq<char> {
    seq!['\u{1b}', '[', '3', '8', ';', '5', ';'] + decimal(index) + seq!['m']
}

/// The escape sequence that sets the foreground back to the terminal's own
/// colour: the escape character and `[39m`.
pub open spec fn foreground_reset() -> Seq<char> {
    seq!['\u{1b}', '[', '3', '9', 'm']
}

/// The palette number of the colour in which a level's name is shown: red
/// for errors, magenta for warnings, green, blue and black below them.
pub open spec fn level_colour(level: Level) -> nat {
    match level {
        Level::Error => 1,
        Level::Warn => 5,
        Level::Info => 2,
        Level::Debug => 4,
        Level::Trace => 0,
    }
}

/// What termion displays for `Fg(Black)`: the foreground sequence of
/// palette colour 0.
#[verifier::external_body]
fn fg_black() -> (code: String)
    ensures
        code@ == foreground(0),
{
    format!("{}", Fg(Black))
}

/// What termion displays for `Fg(Red)`: the foreground sequence of palette
/// colour 1.
#[verifier::external_body]
fn fg_red() -> (code: String)
    ensures
        code@ == foreground(1),
{
    format!("{}", Fg(Red))
}

/// What termion displays for `Fg(Green)`: the foreground sequence of
/// palette colour 2.
#[verifier::external_body]
fn fg_green() -> (code: String)
    ensures
        code@ == foreground(2),
{
    format!("{}", Fg(Green))
}

/// What termion displays for `Fg(Yellow)`: the foreground sequence of
/// palette colour 3.
#[verifier::external_body]
fn fg_yellow() -> (code: String)
    ensures
        code@ == foreground(3),
{
    format!("{}", Fg(Yellow))
}

/// What termion displays for `Fg(Blue)`: the foreground sequence of palette
/// colour 4.
#[verifier::external_body]
fn fg_blue() -> (code: String)
    ensures
        code@ == foreground(4),
{
    format!("{}", Fg(Blue))
}

/// What termion displays for `Fg(Magenta)`: the foreground sequence of
/// palette colour 5.
#[verifier::external_body]
fn fg_magenta() -> (code: String)
    ensures
        code@ == foreground(5),
{
    format!("{}", Fg(Magenta))
}

/// What termion displays for `Fg(Cyan)`: the foreground sequence of palette
/// colour 6.
#[verifier::external_body]
fn fg_cyan() -> (code: String)
    ensures
        code@ == foreground(6),
{
    format!("{}", Fg(Cyan))
}

/// What termion displays for `Fg(Reset)`: the sequence that gives the
/// foreground back to the terminal.
#[verifier::external_body]
fn fg_reset() -> (code: String)
    ensures
        code@ == foreground_reset(),
{
    format!("{}", Fg(Reset))
}

/// The escape sequence that starts the colour of a level's name.
fn fg_level(level: Level) -> (code: String)
    ensures
        code@ == foreground(level_colour(level)),
{
    match level {
        Level::Error => fg_red(),
        Level::Warn => fg_magenta(),
        Level::Info => fg_green(),
        Level::Debug => fg_blue(),
        Level::Trace => fg_black(),
    }
}

/// One record, ready to be displayed in colour.
#[derive(Clone, Copy, Debug)]
pub struct ColoredLogLine<'r> {
    pub timestamp: Timestamp,
    pub level: Level,
    pub target: &'r str,
    pub args: &'r str,
}

impl<'r> ColoredLogLine<'r> {
    /// The line of a record that is displayed under the given timestamp.
    pub fn new(timestamp: Timestamp, record: &LogRecord<'r>) -> (line: Self)
        ensures
            line.timestamp == timestamp,
            line.level == record.level,
            line.target@ == record.source@,
            line.args@ == record.message@,
    {
        ColoredLogLine {
            timestamp,
            level: record.level,
            target: record.source,
            args: record.message,
        }
    }

    /// The displayed form, without a line end. It is the plain line with
    /// the timestamp in yellow, the level's name in the colour of the level
    /// and the source tag in cyan; after each of them the foreground is given
    /// back. Brackets and message keep the terminal's colour.
    pub open spec fn text(self) -> Seq<char> {
        coloured_line_text(self.timestamp, self.level, self.target@, self.args@)
    }

    /// The displayed form as a string.
    pub fn render(&self) -> (text: String)
        ensures
            text@ == self.text(),
    {
        proof {
            reveal_strlit("[");
            reveal_strlit("][");
            reveal_strlit("] (");
            reveal_strlit(") ");
        }
        let yellow = fg_yellow();
        let level = fg_level(self.level);
        let cyan = fg_cyan();
        let reset = fg_reset();
        let mut text = String::new();
        text.append("[");
        text.append(yellow.as_str());
        self.timestamp.write_to(&mut text);
        text.append(reset.as_str());
        text.append("][");
        text.append(level.as_str());
        text.append(self.level.as_str());
        text.append(reset.as_str());
        text.append("] (");
        text.append(cyan.as_str());
        text.append(self.target);
        text.append(reset.as_str());
        text.append(") ");
        text.append(self.args);
        assert(text@ =~= self.text());
        text
    }
}

/// The line for a record in colour.
pub open spec fn coloured_line_text(
    timestamp: Timestamp,
    level: Level,
    source: Seq<char>,
    message: Seq<char>,
) -> Seq<char> {
    seq!['['] + foreground(3) + timestamp.text() + foreground_reset() + seq![']', '[']
        + foreground(level_colour(level)) + level.name() + foreground_reset() + seq![
        ']',
        ' ',
        '(',
    ] + foreground(6) + source + foreground_reset() + seq![')', ' '] + message
}

} // verus!
