//! The record that is dispatched.

use vstd::prelude::*;
use crate::level::Level;

verus! {

/// One log event: how severe it is, where it comes from and what it says.
///
/// A record is only read. It lives for a single dispatch.
#[derive(Clone, Copy, Debug)]
pub struct LogRecord<'a> {
    /// The severity of the event.
    pub level: Level,
    /// The tag of the place that produced the event, such as a module path.
    pub source: &'a str,
    /// The rendered text of the event.
    pub message: &'a str,
}

impl<'a> LogRecord<'a> {
    /// A record of the given severity, source tag and message.
    pub fn new(level: Level, source: &'a str, message: &'a str) -> (record: Self)
        ensures
            record.level == level,
            record.source@ == source@,
            record.message@ == message@,
    {
        LogRecord { level, source, message }
    }
}

} // verus!
