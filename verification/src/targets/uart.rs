//! The target that writes to a serial line.

use vstd::prelude::*;
use vstd::string::*;
use crate::level::Level;
use crate::record::LogRecord;
use crate::target::Target;
use crate::timing::Duration;
use super::util::{line_text, LogLine, Timestamp};

verus! {

/// A transmitter that takes text: a serial line as the target sees it.
///
/// An implementation wraps a device of type `Type`, together with what it
/// needs to know to drive it, and sends what it is handed. Writers may come
/// from several threads at once; keeping them apart is the transmitter's own
/// business.
pub trait WritableTx: Sized {
    /// The device that is wrapped.
    type Type;

    /// What is kept beside the device, such as a timeout or a number of
    /// attempts.
    type Data;

    /// What a failed transmission reports.
    type Error;

    /// Whether `tx` is a transmitter that `new` may make of the device and
    /// the data.
    open spec fn wraps(sink: Self::Type, data: Self::Data, tx: Self) -> bool {
        true
    }

    /// Whether `result` is an outcome that `write_str` may have for the text.
    open spec fn transmitted(&self, text: Seq<char>, result: Result<(), Self::Error>) -> bool {
        true
    }

    /// Wraps the device.
    fn new(sink: Self::Type, data: Self::Data) -> (tx: Self)
        ensures
            Self::wraps(sink, data, tx),
    ;

    /// Sends the text down the line.
    fn write_str(&self, text: &str) -> (result: Result<(), Self::Error>)
        ensures
            self.transmitted(text@, result),
    ;
}

/// What a line that does not block answers to one attempt to send.
#[derive(Clone, Copy, Debug, PartialEq, Eq, Structural)]
pub enum Reply {
    /// The line took this many bytes from the front of what it was offered.
    Took(usize),
    /// The line reported an error.
    Failed,
}

/// What is to be done next for a text that is sent piece by piece.
#[derive(Clone, Copy, Debug, PartialEq, Eq, Structural)]
pub enum Step {
    /// Offer the line the bytes of the text from this position on.
    Send { from: usize },
    /// The whole text was taken.
    Done,
    /// The text cannot be delivered: the line failed, or the attempts are
    /// used up.
    GiveUp,
}

/// The state of sending one text over a line that does not block and may
/// take only a part of what it is offered.
///
/// The text is offered once and, as long as a part is left over, up to a
/// given number of times again, each time from where the line stopped.
#[derive(Clone, Copy, Debug)]
pub struct Transmission {
    total: usize,
    taken: usize,
    attempts_left: u64,
}

impl Transmission {
    #[verifier::type_invariant]
    spec fn well_formed(self) -> bool {
        self.taken <= self.total
    }

    /// The length of the text in bytes.
    pub closed spec fn total(self) -> nat {
        self.total as nat
    }

    /// The number of bytes that the line has taken so far.
    pub closed spec fn taken(self) -> nat {
        self.taken as nat
    }

    /// The number of attempts that may still be made, the one under way
    /// not counted.
    pub closed spec fn attempts_left(self) -> nat {
        self.attempts_left as nat
    }

    /// The state and the step that follow a reply.
    pub open spec fn after(self, reply: Reply) -> (nat, nat, Step) {
        match reply {
            Reply::Failed => (self.taken(), self.attempts_left(), Step::GiveUp),
            Reply::Took(len) => {
                let taken = self.taken() + len as nat;
                if taken == self.total() {
                    (taken, self.attempts_left(), Step::Done)
                } else if self.attempts_left() == 0 {
                    (taken, 0, Step::GiveUp)
                } else {
                    (taken, (self.attempts_left() - 1) as nat, Step::Send { from: taken as usize })
                }
            },
        }
    }

    /// Starts on a text of `total` bytes that may be offered `retries`
    /// times again after the first attempt. The first step is to offer the
    /// whole text.
    pub fn begin(total: usize, retries: u32) -> (start: (Transmission, Step))
        ensures
            start.0.total() == total,
            start.0.taken() == 0,
            start.0.attempts_left() == retries,
            start.1 == (Step::Send { from: 0 }),
    {
        (Transmission { total, taken: 0, attempts_left: retries as u64 }, Step::Send { from: 0 })
    }

    /// The number of bytes that are still to be sent: what the line may
    /// take at most in its next reply.
    pub fn remaining(&self) -> (len: usize)
        ensures
            len == self.total() - self.taken(),
    {
        proof {
            use_type_invariant(self);
        }
        self.total - self.taken
    }

    /// Takes the line's reply to the attempt under way and says what is to
    /// be done next. The text is delivered once all of it was taken; a
    /// failure of the line, or a part left over when no attempt is left,
    /// ends the transmission without success; else what is left over is
    /// offered again.
    pub fn advance(self, reply: Reply) -> (next: (Transmission, Step))
        requires
            reply matches Reply::Took(len) ==> self.taken() + len <= self.total(),
        ensures
            next.0.total() == self.total(),
            (next.0.taken(), next.0.attempts_left(), next.1) == self.after(reply),
    {
        proof {
            use_type_invariant(self);
        }
        match reply {
            Reply::Failed => (self, Step::GiveUp),
            Reply::Took(len) => {
                let taken = self.taken + len;
                if taken == self.total {
                    (Transmission { total: self.total, taken, attempts_left: self.attempts_left }, Step::Done)
                } else if self.attempts_left == 0 {
                    (Transmission { total: self.total, taken, attempts_left: 0 }, Step::GiveUp)
                } else {
                    (
                        Transmission {
                            total: self.total,
                            taken,
                            attempts_left: self.attempts_left - 1,
                        },
                        Step::Send { from: taken },
                    )
                }
            },
        }
    }
}

/// A transmission never loses ground and cannot go on for ever: no reply
/// lowers the number of bytes taken, every reply after which the text is
/// offered again uses up an attempt and starts where the line stopped, and
/// the text counts as delivered only when all of it was taken.
pub proof fn lemma_transmission_makes_progress(state: Transmission, reply: Reply)
    requires
        state.taken() <= state.total(),
        reply matches Reply::Took(len) ==> state.taken() + len <= state.total(),
    ensures
        state.after(reply).0 >= state.taken(),
        state.after(reply).0 <= state.total(),
        state.after(reply).2 is Send ==> state.after(reply).1 + 1 == state.attempts_left()
            && state.after(reply).2->from == state.after(reply).0 && state.after(reply).0
            < state.total(),
        state.after(reply).2 is Done <==> reply is Took && state.after(reply).0 == state.total(),
        state.after(reply).2 is GiveUp <==> reply is Failed || (state.after(reply).0 < state.total()
            && state.attempts_left() == 0),
{
}

/// A target that sends every record it is handed down a serial line.
pub struct UartTarget<T: WritableTx> {
    level: Level,
    sink: T,
}

impl<T: WritableTx> UartTarget<T> {
    /// The transmitter of the target.
    pub closed spec fn sink(self) -> T {
        self.sink
    }

    /// The text that a write of the record sends: the canonical line and a
    /// line feed.
    pub open spec fn sent(elapsed: Duration, record: &LogRecord) -> Seq<char> {
        line_text(Timestamp::of(elapsed), record.level, record.source@, record.message@).push('\n')
    }

    /// A target of the given threshold over the device, wrapped as `T`
    /// wraps it.
    pub fn new(level: Level, sink: T::Type, config: T::Data) -> (target: Self)
        ensures
            target.threshold() == level,
            T::wraps(sink, config, target.sink()),
    {
        UartTarget { level, sink: T::new(sink, config) }
    }
}

impl<T: WritableTx> Target for UartTarget<T> {
    type Error = T::Error;

    closed spec fn threshold(&self) -> Level {
        self.level
    }

    /// A serial line ignores nothing.
    open spec fn ignores(&self, record: &LogRecord) -> bool {
        false
    }

    /// A write hands the transmitter the canonical line and a line feed, in
    /// one piece, and reports what the transmitter reports.
    open spec fn write_outcome(
        &self,
        elapsed: Duration,
        record: &LogRecord,
        result: Result<(), Self::Error>,
    ) -> bool {
        self.sink().transmitted(Self::sent(elapsed, record), result)
    }

    /// There is nothing to flush, so a flush succeeds.
    open spec fn flush_outcome(&self, result: Result<(), Self::Error>) -> bool {
        result is Ok
    }

    fn level(&self) -> (level: Level) {
        self.level
    }

    fn ignore(&self, record: &LogRecord) -> (ignored: bool) {
        false
    }

    fn write(&self, elapsed: Duration, record: &LogRecord) -> (result: Result<(), Self::Error>) {
        proof {
            reveal_strlit("\n");
        }
        let mut text = LogLine::new(Timestamp::from(elapsed), record).render();
        text.append("\n");
        assert(text@ =~= Self::sent(elapsed, record));
        self.sink.write_str(text.as_str())
    }

    fn flush(&self) -> (result: Result<(), Self::Error>) {
        Ok(())
    }
}

} // verus!
