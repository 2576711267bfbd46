//! Points in time and the time that passes between them.

use std::time::Instant;
use vstd::prelude::*;

verus! {

/// The number of nanoseconds in a second.
pub const NANOS_PER_SEC: u32 = 1_000_000_000;

/// The number of nanoseconds in a millisecond.
pub const NANOS_PER_MILLI: u32 = 1_000_000;

/// A span of time: whole seconds and the nanoseconds of the second begun.
#[derive(Clone, Copy, Debug)]
pub struct Duration {
    secs: u64,
    nanos: u32,
}

impl Duration {
    #[verifier::type_invariant]
    spec fn well_formed(self) -> bool {
        self.nanos < NANOS_PER_SEC
    }

    /// The whole seconds of the span.
    pub closed spec fn seconds(self) -> nat {
        self.secs as nat
    }

    /// The nanoseconds of the span beyond its whole seconds.
    pub closed spec fn nanoseconds(self) -> nat {
        self.nanos as nat
    }

    /// Whether the span is one that can be had at run time: its nanoseconds
    /// stay below a second.
    pub open spec fn wf(self) -> bool {
        self.nanoseconds() < NANOS_PER_SEC
    }

    /// The whole milliseconds of the span beyond its whole seconds.
    pub open spec fn milliseconds(self) -> nat {
        self.nanoseconds() / (NANOS_PER_MILLI as nat)
    }

    /// The parts of a span are machine numbers.
    pub proof fn lemma_bounds(self)
        ensures
            self.seconds() <= u64::MAX,
            self.nanoseconds() <= u32::MAX,
    {
    }

    /// A span of `secs` seconds and `nanos` nanoseconds. Nanoseconds that
    /// make up whole seconds are counted as seconds.
    pub fn new(secs: u64, nanos: u32) -> (d: Duration)
        requires
            secs + nanos / NANOS_PER_SEC <= u64::MAX,
        ensures
            d.wf(),
            d.seconds() == secs + nanos / NANOS_PER_SEC,
            d.nanoseconds() == nanos % NANOS_PER_SEC,
    {
        Duration { secs: secs + (nanos / NANOS_PER_SEC) as u64, nanos: nanos % NANOS_PER_SEC }
    }

    /// The span of no time at all.
    pub fn zero() -> (d: Duration)
        ensures
            d.seconds() == 0,
            d.nanoseconds() == 0,
    {
        Duration { secs: 0, nanos: 0 }
    }

    /// A span of `millis` milliseconds.
    pub fn from_millis(millis: u64) -> (d: Duration)
        ensures
            d.seconds() == millis / 1000,
            d.nanoseconds() == (millis % 1000) * NANOS_PER_MILLI,
            d.milliseconds() == millis % 1000,
    {
        let rest: u32 = (millis % 1000) as u32;
        Duration { secs: millis / 1000, nanos: rest * NANOS_PER_MILLI }
    }

    /// The whole seconds of the span.
    pub fn as_secs(&self) -> (s: u64)
        ensures
            s == self.seconds(),
    {
        self.secs
    }

    /// The nanoseconds beyond the whole seconds, always less than a second.
    pub fn subsec_nanos(&self) -> (n: u32)
        ensures
            n == self.nanoseconds(),
            n < NANOS_PER_SEC,
    {
        proof {
            use_type_invariant(self);
        }
        self.nanos
    }

    /// The whole milliseconds beyond the whole seconds, always less than 1000.
    pub fn subsec_millis(&self) -> (m: u32)
        ensures
            m == self.milliseconds(),
            m < 1000,
    {
        proof {
            use_type_invariant(self);
        }
        self.nanos / NANOS_PER_MILLI
    }
}

/// A source of points in time.
///
/// An implementation decides what a point in time is and how far two of them
/// are apart; the logger only ever asks for the span between the point at
/// which it was started and the present one.
pub trait Timing: Sized {
    /// Whether `elapsed` is a span that `duration_since` may report from
    /// `earlier` to `self`. Any span, unless an implementation says more.
    open spec fn spans(&self, earlier: &Self, elapsed: Duration) -> bool {
        true
    }

    /// A new reference point: the present.
    fn now() -> Self;

    /// The time that passed from `earlier` to `self`.
    fn duration_since(&self, earlier: &Self) -> (elapsed: Duration)
        ensures
            self.spans(earlier, elapsed),
    ;
}

/// A clock that stands still: every span it reports is zero.
///
/// For environments without a clock, and for output that must not depend on
/// when it was produced.
pub struct DummyTiming;

impl Timing for DummyTiming {
    open spec fn spans(&self, earlier: &Self, elapsed: Duration) -> bool {
        elapsed.seconds() == 0 && elapsed.nanoseconds() == 0
    }

    fn now() -> Self {
        DummyTiming
    }

    fn duration_since(&self, earlier: &Self) -> (elapsed: Duration) {
        Duration::zero()
    }
}

#[verifier::external_type_specification]
#[verifier::external_body]
pub struct ExInstant(Instant);

/// `Instant::now` of std: a reading of the monotonic clock. Nothing is
/// claimed of the reading.
#[verifier::external_body]
fn instant_now() -> Instant {
    Instant::now()
}

/// The span that std measures from one reading of the monotonic clock to
/// another: its whole seconds and the nanoseconds beyond them. It depends on
/// the two readings alone.
pub uninterp spec fn span_between(later: Instant, earlier: Instant) -> (nat, nat);

/// `Instant::saturating_duration_since` of std: the time from `earlier` to
/// `later`, zero where `earlier` is the later of the two. The span is the
/// one that std measures between the two readings, in this order, and, as
/// std documents of every `Duration`, its nanoseconds stay below a second.
#[verifier::external_body]
fn instant_span(later: &Instant, earlier: &Instant) -> (elapsed: Duration)
    ensures
        elapsed.wf(),
        (elapsed.seconds(), elapsed.nanoseconds()) == span_between(*later, *earlier),
{
    let span = later.saturating_duration_since(*earlier);
    Duration { secs: span.as_secs(), nanos: span.subsec_nanos() }
}

/// The monotonic clock of std.
impl Timing for Instant {
    /// The span is the one that std measures from `earlier` to `self`.
    open spec fn spans(&self, earlier: &Self, elapsed: Duration) -> bool {
        elapsed.wf() && (elapsed.seconds(), elapsed.nanoseconds()) == span_between(
            *self,
            *earlier,
        )
    }

    fn now() -> Self {
        instant_now()
    }

    fn duration_since(&self, earlier: &Self) -> (elapsed: Duration) {
        instant_span(self, earlier)
    }
}

} // verus!
