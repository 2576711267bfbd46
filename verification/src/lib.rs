//! A log dispatcher built from targets.
//!
//! A [`Logger`] owns a fixed collection of [`target::Target`]s and a starting
//! point in time. Every record handed to it is stamped with the time that has
//! passed since the start and offered to every target in declaration order.
//! The outcome of each target is kept in a slot of its own, so the failure of
//! one target never hides or prevents the work of another.

pub mod level;
pub mod record;
pub mod target;
pub mod targets;
pub mod timing;

use vstd::prelude::*;
use crate::level::Level;
use crate::record::LogRecord;
use crate::target::{
    lemma_admitted_by_some_member, lemma_most_permissive_is_maximum, most_permissive, Targets,
};
use crate::timing::{Duration, Timing};

verus! {

/// A collection of targets together with the point in time from which the
/// elapsed time of every record is counted.
pub struct Logger<Targ: Targets, Time: Timing> {
    pub targets: Targ,
    pub start: Time,
}

impl<Targ: Targets, Time: Timing> Logger<Targ, Time> {
    /// A logger over the given targets that counts time from `start`.
    pub fn new(targets: Targ, start: Time) -> (logger: Self)
        ensures
            logger.targets == targets,
            logger.start == start,
    {
        Logger { targets, start }
    }

    /// The point in time from which elapsed time is counted.
    pub fn start(&self) -> (start: &Time)
        ensures
            *start == self.start,
    {
        &self.start
    }

    /// The point in time from which elapsed time is counted, to be set anew
    /// before the logger is put to use. The targets are out of its reach.
    pub fn start_mut(&mut self) -> (start: &mut Time)
        ensures
            *start == old(self).start,
            final(self).start == *final(start),
            final(self).targets == old(self).targets,
    {
        &mut self.start
    }

    /// Whether a record of the given level is worth producing: some target
    /// has a threshold that admits it.
    pub fn enabled(&self, level: Level) -> (enabled: bool)
        ensures
            enabled == most_permissive(self.targets.thresholds()).admits(level),
    {
        self.targets.max_level().allows(level)
    }

    /// A level is enabled exactly if it is at least as severe as the
    /// threshold of some target; where every target has the same threshold,
    /// exactly if it is at least as severe as that.
    pub proof fn lemma_enabled(&self, level: Level)
        ensures
            most_permissive(self.targets.thresholds()).admits(level) <==> exists|i: int|
                0 <= i < self.targets.thresholds().len() && level.rank()
                    <= #[trigger] self.targets.thresholds()[i].rank(),
            forall|threshold: Level|
                self.targets.thresholds().len() > 0 && (forall|i: int|
                    0 <= i < self.targets.thresholds().len() ==> #[trigger] self.targets.thresholds()[i]
                        == threshold) ==> (most_permissive(self.targets.thresholds()).admits(level)
                    <==> level.rank() <= threshold.rank()),
    {
        let thresholds = self.targets.thresholds();
        lemma_admitted_by_some_member(thresholds, level);
        lemma_most_permissive_is_maximum(thresholds);
        if exists|i: int| 0 <= i < thresholds.len() && level.rank() <= #[trigger] thresholds[i].rank() {
            let i = choose|i: int| 0 <= i < thresholds.len() && level.rank() <= #[trigger] thresholds[i].rank();
            assert(thresholds[i].filter().admits(level));
        }
        if most_permissive(thresholds).admits(level) {
            let i = choose|i: int|
                0 <= i < thresholds.len() && #[trigger] thresholds[i].filter().admits(level);
            assert(level.rank() <= thresholds[i].rank());
        }
        assert forall|threshold: Level|
            thresholds.len() > 0 && (forall|i: int|
                0 <= i < thresholds.len() ==> #[trigger] thresholds[i] == threshold) implies (
        most_permissive(thresholds).admits(level) <==> level.rank() <= threshold.rank()) by {
            let i = choose|i: int|
                0 <= i < thresholds.len() && most_permissive(thresholds) == #[trigger] thresholds[i].filter();
            assert(thresholds[i] == threshold);
        }
    }

    /// Whether `results` may come out of logging the record: some present
    /// point in time lies as far from the start as the record is stamped,
    /// and the results are those of dispatching the record so stamped.
    pub open spec fn logged(&self, record: &LogRecord, results: Targ::Results) -> bool {
        exists|now: Time, elapsed: Duration| #[trigger]
            now.spans(&self.start, elapsed) && #[trigger] self.targets.dispatched(
                elapsed,
                record,
                results,
            )
    }

    /// Stamps the record with the time that passed since the start and
    /// offers it to every target. Hands back one outcome for each target.
    pub fn log(&self, record: &LogRecord) -> (results: Targ::Results)
        ensures
            self.logged(record, results),
    {
        let now = Time::now();
        let elapsed = now.duration_since(&self.start);
        self.targets.write(elapsed, record)
    }

    /// Flushes every target. Hands back one outcome for each target.
    pub fn flush(&self) -> (results: Targ::Results)
        ensures
            self.targets.flushed(results),
    {
        self.targets.flush()
    }
}

} // verus!
