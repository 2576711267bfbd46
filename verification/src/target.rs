//! Targets and their composition into one dispatch surface.

use vstd::prelude::*;
use crate::level::{Level, LevelFilter};
use crate::record::LogRecord;
use crate::timing::Duration;

verus! {

/// One destination of records.
///
/// A target has a threshold, may veto single records, and writes those that
/// it is handed. Each target has an error type of its own.
///
/// `threshold` and `ignores` are what contracts say of `level` and `ignore`.
/// A target that is written without proofs gives each of the two the body
/// of its counterpart; the two outcome predicates may be left as they are.
pub trait Target {
    /// What a failed `write` or `flush` reports.
    type Error;

    /// The threshold that `level` reports.
    spec fn threshold(&self) -> Level;

    /// Whether `ignore` vetoes the record.
    spec fn ignores(&self, record: &LogRecord) -> bool;

    /// Whether `result` is an outcome that `write` may have for the record
    /// at the given time.
    open spec fn write_outcome(
        &self,
        elapsed: Duration,
        record: &LogRecord,
        result: Result<(), Self::Error>,
    ) -> bool {
        true
    }

    /// Whether `result` is an outcome that `flush` may have.
    open spec fn flush_outcome(&self, result: Result<(), Self::Error>) -> bool {
        true
    }

    /// The least severe level that this target accepts.
    fn level(&self) -> (level: Level)
        ensures
            level == self.threshold(),
    ;

    /// Whether the target wants nothing to do with the record. Asked before
    /// `write`, which does not ask again.
    fn ignore(&self, record: &LogRecord) -> (ignored: bool)
        ensures
            ignored == self.ignores(record),
    ;

    /// Writes the record to the target's output. Tests neither the threshold
    /// nor `ignore`.
    fn write(&self, elapsed: Duration, record: &LogRecord) -> (result: Result<(), Self::Error>)
        ensures
            self.write_outcome(elapsed, record, result),
    ;

    /// Makes sure that what was written has left the target's buffers.
    fn flush(&self) -> (result: Result<(), Self::Error>)
        ensures
            self.flush_outcome(result),
    ;
}

/// The most permissive filter among those of the given thresholds, `Off`
/// where there is none.
pub open spec fn most_permissive(thresholds: Seq<Level>) -> LevelFilter
    decreases thresholds.len(),
{
    if thresholds.len() == 0 {
        LevelFilter::Off
    } else {
        most_permissive(thresholds.drop_last()).join(thresholds.last().filter())
    }
}

/// What the slot of one member holds after a record was dispatched: success
/// without a write where the member ignores the record, else an outcome of
/// the member's own write.
pub open spec fn slot_written<T: Target>(
    target: &T,
    elapsed: Duration,
    record: &LogRecord,
    result: Result<(), T::Error>,
) -> bool {
    if target.ignores(record) {
        result is Ok
    } else {
        target.write_outcome(elapsed, record, result)
    }
}

/// The outcomes of a dispatch, one slot for each member of the collection.
pub trait TargetResults {
    /// For each slot, in declaration order, whether its member succeeded.
    spec fn outcomes(&self) -> Seq<bool>;

    /// The slots whose member failed, in declaration order.
    fn failed(&self) -> (slots: Vec<usize>)
        ensures
            failed_slots(self.outcomes(), slots@),
    ;
}

/// Whether `slots` lists, in ascending order, exactly the positions at which
/// `outcomes` holds a failure.
pub open spec fn failed_slots(outcomes: Seq<bool>, slots: Seq<usize>) -> bool {
    &&& forall|k: int| 0 <= k < slots.len() ==> 0 <= #[trigger] slots[k] < outcomes.len() && !outcomes[slots[k] as int]
    &&& forall|j: int, k: int| 0 <= j < k < slots.len() ==> slots[j] < slots[k]
    &&& forall|i: int| 0 <= i < outcomes.len() && !#[trigger] outcomes[i] ==> exists|k: int| 0 <= k < slots.len() && slots[k] == i
}

/// Collects the positions of the failures among `outcomes`.
fn positions_of_failures(outcomes: &Vec<bool>) -> (slots: Vec<usize>)
    ensures
        failed_slots(outcomes@, slots@),
{
    let mut slots: Vec<usize> = Vec::new();
    let mut i: usize = 0;
    while i < outcomes.len()
        invariant
            i <= outcomes.len(),
            failed_slots(outcomes@.take(i as int), slots@),
        decreases outcomes.len() - i,
    {
        let ghost before = slots@;
        if !outcomes[i] {
            slots.push(i);
        }
        i = i + 1;
        proof {
            let seen = outcomes@.take(i as int);
            assert forall|p: int| 0 <= p < seen.len() && !#[trigger] seen[p] implies exists|k: int|
                0 <= k < slots@.len() && slots@[k] == p by {
                if p < i - 1 {
                    assert(!outcomes@.take(i - 1)[p]);
                    let k = choose|k: int| 0 <= k < before.len() && before[k] == p;
                    assert(slots@[k] == p);
                } else {
                    assert(slots@[slots@.len() - 1] == p);
                }
            }
        }
    }
    assert(outcomes@.take(i as int) =~= outcomes@);
    slots
}

/// A fixed collection of targets that is written to and flushed as one.
pub trait Targets {
    /// One slot for each member, each with the member's own error type.
    type Results: TargetResults;

    /// The thresholds of the members, in declaration order.
    spec fn thresholds(&self) -> Seq<Level>;

    /// Whether `results` may come out of dispatching the record to every
    /// member.
    spec fn dispatched(&self, elapsed: Duration, record: &LogRecord, results: Self::Results) -> bool;

    /// Whether `results` may come out of flushing every member.
    spec fn flushed(&self, results: Self::Results) -> bool;

    /// The most permissive threshold of any member.
    fn max_level(&self) -> (filter: LevelFilter)
        ensures
            filter == most_permissive(self.thresholds()),
    ;

    /// Offers the record to every member in declaration order. A member that
    /// ignores it is not written to and counts as successful; every other
    /// member is written to, whatever became of the members before it.
    fn write(&self, elapsed: Duration, record: &LogRecord) -> (results: Self::Results)
        ensures
            self.dispatched(elapsed, record, results),
    ;

    /// Flushes every member in declaration order, whatever became of the
    /// members before it.
    fn flush(&self) -> (results: Self::Results)
        ensures
            self.flushed(results),
    ;
}

impl<E> TargetResults for Result<(), E> {
    open spec fn outcomes(&self) -> Seq<bool> {
        seq![self is Ok]
    }

    fn failed(&self) -> (slots: Vec<usize>) {
        let flags = vec![self.is_ok()];
        assert(flags@ =~= self.outcomes());
        positions_of_failures(&flags)
    }
}

impl<T: Target> Targets for T {
    type Results = Result<(), T::Error>;

    open spec fn thresholds(&self) -> Seq<Level> {
        seq![self.threshold()]
    }

    open spec fn dispatched(&self, elapsed: Duration, record: &LogRecord, results: Self::Results) -> bool {
        slot_written(self, elapsed, record, results)
    }

    open spec fn flushed(&self, results: Self::Results) -> bool {
        self.flush_outcome(results)
    }

    fn max_level(&self) -> (filter: LevelFilter) {
        proof {
            reveal_with_fuel(most_permissive, 2);
        }
        self.level().to_level_filter()
    }

    fn write(&self, elapsed: Duration, record: &LogRecord) -> (results: Self::Results) {
        if !self.ignore(record) {
            Target::write(self, elapsed, record)
        } else {
            Ok(())
        }
    }

    fn flush(&self) -> (results: Self::Results) {
        Target::flush(self)
    }
}

/// The filter of a collection is the maximum of its members' thresholds: it
/// is `Off` where there is no member, else the filter of one of the members,
/// and no member's threshold is more permissive.
pub proof fn lemma_most_permissive_is_maximum(thresholds: Seq<Level>)
    ensures
        thresholds.len() == 0 ==> most_permissive(thresholds) == LevelFilter::Off,
        thresholds.len() > 0 ==> exists|i: int|
            0 <= i < thresholds.len() && most_permissive(thresholds) == #[trigger] thresholds[i].filter(),
        forall|i: int|
            0 <= i < thresholds.len() ==> most_permissive(thresholds).rank()
                >= #[trigger] thresholds[i].rank(),
    decreases thresholds.len(),
{
    if thresholds.len() > 0 {
        let front = thresholds.drop_last();
        lemma_most_permissive_is_maximum(front);
        let last = thresholds.len() - 1;
        if most_permissive(front).rank() >= thresholds[last].filter().rank() {
            let i = choose|i: int|
                0 <= i < front.len() && most_permissive(front) == #[trigger] front[i].filter();
            assert(most_permissive(thresholds) == thresholds[i].filter());
        } else {
            assert(most_permissive(thresholds) == thresholds[last].filter());
        }
        assert forall|i: int| 0 <= i < thresholds.len() implies most_permissive(thresholds).rank()
            >= #[trigger] thresholds[i].rank() by {
            if i < last {
                assert(front[i] == thresholds[i]);
            }
        }
    }
}

/// The filter of a collection admits a level exactly if the threshold of
/// some member does.
pub proof fn lemma_admitted_by_some_member(thresholds: Seq<Level>, level: Level)
    ensures
        most_permissive(thresholds).admits(level) <==> exists|i: int|
            0 <= i < thresholds.len() && #[trigger] thresholds[i].filter().admits(level),
{
    lemma_most_permissive_is_maximum(thresholds);
    if most_permissive(thresholds).admits(level) {
        let i = choose|i: int|
            0 <= i < thresholds.len() && most_permissive(thresholds) == #[trigger] thresholds[i].filter();
        assert(thresholds[i].filter().admits(level));
    }
    if exists|i: int| 0 <= i < thresholds.len() && #[trigger] thresholds[i].filter().admits(level) {
        let i = choose|i: int|
            0 <= i < thresholds.len() && #[trigger] thresholds[i].filter().admits(level);
        assert(most_permissive(thresholds).rank() >= thresholds[i].rank());
    }
}

/// Adding a member at the end joins its filter to that of the members
/// before it.
pub proof fn lemma_most_permissive_push(thresholds: Seq<Level>, last: Level)
    ensures
        most_permissive(thresholds.push(last)) == most_permissive(thresholds).join(last.filter()),
{
    assert(thresholds.push(last).drop_last() =~= thresholds);
}

/// A collection of one target.
impl<A: Target> Targets for (A,) {
    type Results = (Result<(), A::Error>,);

    open spec fn thresholds(&self) -> Seq<Level> {
        seq![self.0.threshold()]
    }

    open spec fn dispatched(&self, elapsed: Duration, record: &LogRecord, results: Self::Results) -> bool {
        &&& slot_written(&self.0, elapsed, record, results.0)
    }

    open spec fn flushed(&self, results: Self::Results) -> bool {
        &&& self.0.flush_outcome(results.0)
    }

    fn max_level(&self) -> (filter: LevelFilter) {
        let max = LevelFilter::Off;
        let max = max.max(self.0.level().to_level_filter());
        proof {
            lemma_most_permissive_push(Seq::<Level>::empty(), self.0.threshold());
            assert(self.thresholds() =~= Seq::<Level>::empty().push(self.0.threshold()));
        }
        max
    }

    fn write(&self, elapsed: Duration, record: &LogRecord) -> (results: Self::Results) {
        (
            if !self.0.ignore(record) {
                self.0.write(elapsed, record)
            } else {
                Ok(())
            },
        )
    }

    fn flush(&self) -> (results: Self::Results) {
        (self.0.flush(),)
    }
}

impl<A> TargetResults for (Result<(), A>,) {
    open spec fn outcomes(&self) -> Seq<bool> {
        seq![self.0 is Ok]
    }

    fn failed(&self) -> (slots: Vec<usize>) {
        let flags = vec![self.0.is_ok()];
        assert(flags@ =~= self.outcomes());
        positions_of_failures(&flags)
    }
}

/// A collection of two targets.
impl<A: Target, B: Target> Targets for (A, B) {
    type Results = (Result<(), A::Error>, Result<(), B::Error>);

    open spec fn thresholds(&self) -> Seq<Level> {
        seq![self.0.threshold(), self.1.threshold()]
    }

    open spec fn dispatched(&self, elapsed: Duration, record: &LogRecord, results: Self::Results) -> bool {
        &&& slot_written(&self.0, elapsed, record, results.0)
        &&& slot_written(&self.1, elapsed, record, results.1)
    }

    open spec fn flushed(&self, results: Self::Results) -> bool {
        &&& self.0.flush_outcome(results.0)
        &&& self.1.flush_outcome(results.1)
    }

    fn max_level(&self) -> (filter: LevelFilter) {
        let max = LevelFilter::Off;
        let max = max.max(self.0.level().to_level_filter());
        let max = max.max(self.1.level().to_level_filter());
        proof {
            lemma_most_permissive_push(Seq::<Level>::empty(), self.0.threshold());
            lemma_most_permissive_push(Seq::<Level>::empty().push(self.0.threshold()), self.1.threshold());
            assert(self.thresholds() =~= Seq::<Level>::empty().push(self.0.threshold()).push(self.1.threshold()));
        }
        max
    }

    fn write(&self, elapsed: Duration, record: &LogRecord) -> (results: Self::Results) {
        (
            if !self.0.ignore(record) {
                self.0.write(elapsed, record)
            } else {
                Ok(())
            },
            if !self.1.ignore(record) {
                self.1.write(elapsed, record)
            } else {
                Ok(())
            },
        )
    }

    fn flush(&self) -> (results: Self::Results) {
        (self.0.flush(), self.1.flush())
    }
}

impl<A, B> TargetResults for (Result<(), A>, Result<(), B>) {
    open spec fn outcomes(&self) -> Seq<bool> {
        seq![self.0 is Ok, self.1 is Ok]
    }

    fn failed(&self) -> (slots: Vec<usize>) {
        let flags = vec![self.0.is_ok(), self.1.is_ok()];
        assert(flags@ =~= self.outcomes());
        positions_of_failures(&flags)
    }
}

/// A collection of three targets.
impl<A: Target, B: Target, C: Target> Targets for (A, B, C) {
    type Results = (Result<(), A::Error>, Result<(), B::Error>, Result<(), C::Error>);

    open spec fn thresholds(&self) -> Seq<Level> {
        seq![self.0.threshold(), self.1.threshold(), self.2.threshold()]
    }

    open spec fn dispatched(&self, elapsed: Duration, record: &LogRecord, results: Self::Results) -> bool {
        &&& slot_written(&self.0, elapsed, record, results.0)
        &&& slot_written(&self.1, elapsed, record, results.1)
        &&& slot_written(&self.2, elapsed, record, results.2)
    }

    open spec fn flushed(&self, results: Self::Results) -> bool {
        &&& self.0.flush_outcome(results.0)
        &&& self.1.flush_outcome(results.1)
        &&& self.2.flush_outcome(results.2)
    }

    fn max_level(&self) -> (filter: LevelFilter) {
        let max = LevelFilter::Off;
        let max = max.max(self.0.level().to_level_filter());
        let max = max.max(self.1.level().to_level_filter());
        let max = max.max(self.2.level().to_level_filter());
        proof {
            lemma_most_permissive_push(Seq::<Level>::empty(), self.0.threshold());
            lemma_most_permissive_push(Seq::<Level>::empty().push(self.0.threshold()), self.1.threshold());
            lemma_most_permissive_push(Seq::<Level>::empty().push(self.0.threshold()).push(self.1.threshold()), self.2.threshold());
            assert(self.thresholds() =~= Seq::<Level>::empty().push(self.0.threshold()).push(self.1.threshold()).push(self.2.threshold()));
        }
        max
    }

    fn write(&self, elapsed: Duration, record: &LogRecord) -> (results: Self::Results) {
        (
            if !self.0.ignore(record) {
                self.0.write(elapsed, record)
            } else {
                Ok(())
            },
            if !self.1.ignore(record) {
                self.1.write(elapsed, record)
            } else {
                Ok(())
            },
            if !self.2.ignore(record) {
                self.2.write(elapsed, record)
            } else {
                Ok(())
            },
        )
    }

    fn flush(&self) -> (results: Self::Results) {
        (self.0.flush(), self.1.flush(), self.2.flush())
    }
}

impl<A, B, C> TargetResults for (Result<(), A>, Result<(), B>, Result<(), C>) {
    open spec fn outcomes(&self) -> Seq<bool> {
        seq![self.0 is Ok, self.1 is Ok, self.2 is Ok]
    }

    fn failed(&self) -> (slots: Vec<usize>) {
        let flags = vec![self.0.is_ok(), self.1.is_ok(), self.2.is_ok()];
        assert(flags@ =~= self.outcomes());
        positions_of_failures(&flags)
    }
}

/// A collection of four targets.
impl<A: Target, B: Target, C: Target, D: Target> Targets for (A, B, C, D) {
    type Results = (Result<(), A::Error>, Result<(), B::Error>, Result<(), C::Error>, Result<(), D::Error>);

    open spec fn thresholds(&self) -> Seq<Level> {
        seq![self.0.threshold(), self.1.threshold(), self.2.threshold(), self.3.threshold()]
    }

    open spec fn dispatched(&self, elapsed: Duration, record: &LogRecord, results: Self::Results) -> bool {
        &&& slot_written(&self.0, elapsed, record, results.0)
        &&& slot_written(&self.1, elapsed, record, results.1)
        &&& slot_written(&self.2, elapsed, record, results.2)
        &&& slot_written(&self.3, elapsed, record, results.3)
    }

    open spec fn flushed(&self, results: Self::Results) -> bool {
        &&& self.0.flush_outcome(results.0)
        &&& self.1.flush_outcome(results.1)
        &&& self.2.flush_outcome(results.2)
        &&& self.3.flush_outcome(results.3)
    }

    fn max_level(&self) -> (filter: LevelFilter) {
        let max = LevelFilter::Off;
        let max = max.max(self.0.level().to_level_filter());
        let max = max.max(self.1.level().to_level_filter());
        let max = max.max(self.2.level().to_level_filter());
        let max = max.max(self.3.level().to_level_filter());
        proof {
            lemma_most_permissive_push(Seq::<Level>::empty(), self.0.threshold());
            lemma_most_permissive_push(Seq::<Level>::empty().push(self.0.threshold()), self.1.threshold());
            lemma_most_permissive_push(Seq::<Level>::empty().push(self.0.threshold()).push(self.1.threshold()), self.2.threshold());
            lemma_most_permissive_push(Seq::<Level>::empty().push(self.0.threshold()).push(self.1.threshold()).push(self.2.threshold()), self.3.threshold());
            assert(self.thresholds() =~= Seq::<Level>::empty().push(self.0.threshold()).push(self.1.threshold()).push(self.2.threshold()).push(self.3.threshold()));
        }
        max
    }

    fn write(&self, elapsed: Duration, record: &LogRecord) -> (results: Self::Results) {
        (
            if !self.0.ignore(record) {
                self.0.write(elapsed, record)
            } else {
                Ok(())
            },
            if !self.1.ignore(record) {
                self.1.write(elapsed, record)
            } else {
                Ok(())
            },
            if !self.2.ignore(record) {
                self.2.write(elapsed, record)
            } else {
                Ok(())
            },
            if !self.3.ignore(record) {
                self.3.write(elapsed, record)
            } else {
                Ok(())
            },
        )
    }

    fn flush(&self) -> (results: Self::Results) {
        (self.0.flush(), self.1.flush(), self.2.flush(), self.3.flush())
    }
}

impl<A, B, C, D> TargetResults for (Result<(), A>, Result<(), B>, Result<(), C>, Result<(), D>) {
    open spec fn outcomes(&self) -> Seq<bool> {
        seq![self.0 is Ok, self.1 is Ok, self.2 is Ok, self.3 is Ok]
    }

    fn failed(&self) -> (slots: Vec<usize>) {
        let flags = vec![self.0.is_ok(), self.1.is_ok(), self.2.is_ok(), self.3.is_ok()];
        assert(flags@ =~= self.outcomes());
        positions_of_failures(&flags)
    }
}

/// A collection of five targets.
impl<A: Target, B: Target, C: Target, D: Target, E: Target> Targets for (A, B, C, D, E) {
    type Results = (Result<(), A::Error>, Result<(), B::Error>, Result<(), C::Error>, Result<(), D::Error>, Result<(), E::Error>);

    open spec fn thresholds(&self) -> Seq<Level> {
        seq![self.0.threshold(), self.1.threshold(), self.2.threshold(), self.3.threshold(), self.4.threshold()]
    }

    open spec fn dispatched(&self, elapsed: Duration, record: &LogRecord, results: Self::Results) -> bool {
        &&& slot_written(&self.0, elapsed, record, results.0)
        &&& slot_written(&self.1, elapsed, record, results.1)
        &&& slot_written(&self.2, elapsed, record, results.2)
        &&& slot_written(&self.3, elapsed, record, results.3)
        &&& slot_written(&self.4, elapsed, record, results.4)
    }

    open spec fn flushed(&self, results: Self::Results) -> bool {
        &&& self.0.flush_outcome(results.0)
        &&& self.1.flush_outcome(results.1)
        &&& self.2.flush_outcome(results.2)
        &&& self.3.flush_outcome(results.3)
        &&& self.4.flush_outcome(results.4)
    }

    fn max_level(&self) -> (filter: LevelFilter) {
        let max = LevelFilter::Off;
        let max = max.max(self.0.level().to_level_filter());
        let max = max.max(self.1.level().to_level_filter());
        let max = max.max(self.2.level().to_level_filter());
        let max = max.max(self.3.level().to_level_filter());
        let max = max.max(self.4.level().to_level_filter());
        proof {
            lemma_most_permissive_push(Seq::<Level>::empty(), self.0.threshold());
            lemma_most_permissive_push(Seq::<Level>::empty().push(self.0.threshold()), self.1.threshold());
            lemma_most_permissive_push(Seq::<Level>::empty().push(self.0.threshold()).push(self.1.threshold()), self.2.threshold());
            lemma_most_permissive_push(Seq::<Level>::empty().push(self.0.threshold()).push(self.1.threshold()).push(self.2.threshold()), self.3.threshold());
            lemma_most_permissive_push(Seq::<Level>::empty().push(self.0.threshold()).push(self.1.threshold()).push(self.2.threshold()).push(self.3.threshold()), self.4.threshold());
            assert(self.thresholds() =~= Seq::<Level>::empty().push(self.0.threshold()).push(self.1.threshold()).push(self.2.threshold()).push(self.3.threshold()).push(self.4.threshold()));
        }
        max
    }

    fn write(&self, elapsed: Duration, record: &LogRecord) -> (results: Self::Results) {
        (
            if !self.0.ignore(record) {
                self.0.write(elapsed, record)
            } else {
                Ok(())
            },
            if !self.1.ignore(record) {
                self.1.write(elapsed, record)
            } else {
                Ok(())
            },
            if !self.2.ignore(record) {
                self.2.write(elapsed, record)
            } else {
                Ok(())
            },
            if !self.3.ignore(record) {
                self.3.write(elapsed, record)
            } else {
                Ok(())
            },
            if !self.4.ignore(record) {
                self.4.write(elapsed, record)
            } else {
                Ok(())
            },
        )
    }

    fn flush(&self) -> (results: Self::Results) {
        (self.0.flush(), self.1.flush(), self.2.flush(), self.3.flush(), self.4.flush())
    }
}

impl<A, B, C, D, E> TargetResults for (Result<(), A>, Result<(), B>, Result<(), C>, Result<(), D>, Result<(), E>) {
    open spec fn outcomes(&self) -> Seq<bool> {
        seq![self.0 is Ok, self.1 is Ok, self.2 is Ok, self.3 is Ok, self.4 is Ok]
    }

    fn failed(&self) -> (slots: Vec<usize>) {
        let flags = vec![self.0.is_ok(), self.1.is_ok(), self.2.is_ok(), self.3.is_ok(), self.4.is_ok()];
        assert(flags@ =~= self.outcomes());
        positions_of_failures(&flags)
    }
}

/// A collection of six targets.
impl<A: Target, B: Target, C: Target, D: Target, E: Target, F: Target> Targets for (A, B, C, D, E, F) {
    type Results = (Result<(), A::Error>, Result<(), B::Error>, Result<(), C::Error>, Result<(), D::Error>, Result<(), E::Error>, Result<(), F::Error>);

    open spec fn thresholds(&self) -> Seq<Level> {
        seq![self.0.threshold(), self.1.threshold(), self.2.threshold(), self.3.threshold(), self.4.threshold(), self.5.threshold()]
    }

    open spec fn dispatched(&self, elapsed: Duration, record: &LogRecord, results: Self::Results) -> bool {
        &&& slot_written(&self.0, elapsed, record, results.0)
        &&& slot_written(&self.1, elapsed, record, results.1)
        &&& slot_written(&self.2, elapsed, record, results.2)
        &&& slot_written(&self.3, elapsed, record, results.3)
        &&& slot_written(&self.4, elapsed, record, results.4)
        &&& slot_written(&self.5, elapsed, record, results.5)
    }

    open spec fn flushed(&self, results: Self::Results) -> bool {
        &&& self.0.flush_outcome(results.0)
        &&& self.1.flush_outcome(results.1)
        &&& self.2.flush_outcome(results.2)
        &&& self.3.flush_outcome(results.3)
        &&& self.4.flush_outcome(results.4)
        &&& self.5.flush_outcome(results.5)
    }

    fn max_level(&self) -> (filter: LevelFilter) {
        let max = LevelFilter::Off;
        let max = max.max(self.0.level().to_level_filter());
        let max = max.max(self.1.level().to_level_filter());
        let max = max.max(self.2.level().to_level_filter());
        let max = max.max(self.3.level().to_level_filter());
        let max = max.max(self.4.level().to_level_filter());
        let max = max.max(self.5.level().to_level_filter());
        proof {
            lemma_most_permissive_push(Seq::<Level>::empty(), self.0.threshold());
            lemma_most_permissive_push(Seq::<Level>::empty().push(self.0.threshold()), self.1.threshold());
            lemma_most_permissive_push(Seq::<Level>::empty().push(self.0.threshold()).push(self.1.threshold()), self.2.threshold());
            lemma_most_permissive_push(Seq::<Level>::empty().push(self.0.threshold()).push(self.1.threshold()).push(self.2.threshold()), self.3.threshold());
            lemma_most_permissive_push(Seq::<Level>::empty().push(self.0.threshold()).push(self.1.threshold()).push(self.2.threshold()).push(self.3.threshold()), self.4.threshold());
            lemma_most_permissive_push(Seq::<Level>::empty().push(self.0.threshold()).push(self.1.threshold()).push(self.2.threshold()).push(self.3.threshold()).push(self.4.threshold()), self.5.threshold());
            assert(self.thresholds() =~= Seq::<Level>::empty().push(self.0.threshold()).push(self.1.threshold()).push(self.2.threshold()).push(self.3.threshold()).push(self.4.threshold()).push(self.5.threshold()));
        }
        max
    }

    fn write(&self, elapsed: Duration, record: &LogRecord) -> (results: Self::Results) {
        (
            if !self.0.ignore(record) {
                self.0.write(elapsed, record)
            } else {
                Ok(())
            },
            if !self.1.ignore(record) {
                self.1.write(elapsed, record)
            } else {
                Ok(())
            },
            if !self.2.ignore(record) {
                self.2.write(elapsed, record)
            } else {
                Ok(())
            },
            if !self.3.ignore(record) {
                self.3.write(elapsed, record)
            } else {
                Ok(())
            },
            if !self.4.ignore(record) {
                self.4.write(elapsed, record)
            } else {
                Ok(())
            },
            if !self.5.ignore(record) {
                self.5.write(elapsed, record)
            } else {
                Ok(())
            },
        )
    }

    fn flush(&self) -> (results: Self::Results) {
        (self.0.flush(), self.1.flush(), self.2.flush(), self.3.flush(), self.4.flush(), self.5.flush())
    }
}

impl<A, B, C, D, E, F> TargetResults for (Result<(), A>, Result<(), B>, Result<(), C>, Result<(), D>, Result<(), E>, Result<(), F>) {
    open spec fn outcomes(&self) -> Seq<bool> {
        seq![self.0 is Ok, self.1 is Ok, self.2 is Ok, self.3 is Ok, self.4 is Ok, self.5 is Ok]
    }

    fn failed(&self) -> (slots: Vec<usize>) {
        let flags = vec![self.0.is_ok(), self.1.is_ok(), self.2.is_ok(), self.3.is_ok(), self.4.is_ok(), self.5.is_ok()];
        assert(flags@ =~= self.outcomes());
        positions_of_failures(&flags)
    }
}

/// A collection of seven targets.
impl<A: Target, B: Target, C: Target, D: Target, E: Target, F: Target, G: Target> Targets for (A, B, C, D, E, F, G) {
    type Results = (Result<(), A::Error>, Result<(), B::Error>, Result<(), C::Error>, Result<(), D::Error>, Result<(), E::Error>, Result<(), F::Error>, Result<(), G::Error>);

    open spec fn thresholds(&self) -> Seq<Level> {
        seq![self.0.threshold(), self.1.threshold(), self.2.threshold(), self.3.threshold(), self.4.threshold(), self.5.threshold(), self.6.threshold()]
    }

    open spec fn dispatched(&self, elapsed: Duration, record: &LogRecord, results: Self::Results) -> bool {
        &&& slot_written(&self.0, elapsed, record, results.0)
        &&& slot_written(&self.1, elapsed, record, results.1)
        &&& slot_written(&self.2, elapsed, record, results.2)
        &&& slot_written(&self.3, elapsed, record, results.3)
        &&& slot_written(&self.4, elapsed, record, results.4)
        &&& slot_written(&self.5, elapsed, record, results.5)
        &&& slot_written(&self.6, elapsed, record, results.6)
    }

    open spec fn flushed(&self, results: Self::Results) -> bool {
        &&& self.0.flush_outcome(results.0)
        &&& self.1.flush_outcome(results.1)
        &&& self.2.flush_outcome(results.2)
        &&& self.3.flush_outcome(results.3)
        &&& self.4.flush_outcome(results.4)
        &&& self.5.flush_outcome(results.5)
        &&& self.6.flush_outcome(results.6)
    }

    fn max_level(&self) -> (filter: LevelFilter) {
        let max = LevelFilter::Off;
        let max = max.max(self.0.level().to_level_filter());
        let max = max.max(self.1.level().to_level_filter());
        let max = max.max(self.2.level().to_level_filter());
        let max = max.max(self.3.level().to_level_filter());
        let max = max.max(self.4.level().to_level_filter());
        let max = max.max(self.5.level().to_level_filter());
        let max = max.max(self.6.level().to_level_filter());
        proof {
            lemma_most_permissive_push(Seq::<Level>::empty(), self.0.threshold());
            lemma_most_permissive_push(Seq::<Level>::empty().push(self.0.threshold()), self.1.threshold());
            lemma_most_permissive_push(Seq::<Level>::empty().push(self.0.threshold()).push(self.1.threshold()), self.2.threshold());
            lemma_most_permissive_push(Seq::<Level>::empty().push(self.0.threshold()).push(self.1.threshold()).push(self.2.threshold()), self.3.threshold());
            lemma_most_permissive_push(Seq::<Level>::empty().push(self.0.threshold()).push(self.1.threshold()).push(self.2.threshold()).push(self.3.threshold()), self.4.threshold());
            lemma_most_permissive_push(Seq::<Level>::empty().push(self.0.threshold()).push(self.1.threshold()).push(self.2.threshold()).push(self.3.threshold()).push(self.4.threshold()), self.5.threshold());
            lemma_most_permissive_push(Seq::<Level>::empty().push(self.0.threshold()).push(self.1.threshold()).push(self.2.threshold()).push(self.3.threshold()).push(self.4.threshold()).push(self.5.threshold()), self.6.threshold());
            assert(self.thresholds() =~= Seq::<Level>::empty().push(self.0.threshold()).push(self.1.threshold()).push(self.2.threshold()).push(self.3.threshold()).push(self.4.threshold()).push(self.5.threshold()).push(self.6.threshold()));
        }
        max
    }

    fn write(&self, elapsed: Duration, record: &LogRecord) -> (results: Self::Results) {
        (
            if !self.0.ignore(record) {
                self.0.write(elapsed, record)
            } else {
                Ok(())
            },
            if !self.1.ignore(record) {
                self.1.write(elapsed, record)
            } else {
                Ok(())
            },
            if !self.2.ignore(record) {
                self.2.write(elapsed, record)
            } else {
                Ok(())
            },
            if !self.3.ignore(record) {
                self.3.write(elapsed, record)
            } else {
                Ok(())
            },
            if !self.4.ignore(record) {
                self.4.write(elapsed, record)
            } else {
                Ok(())
            },
            if !self.5.ignore(record) {
                self.5.write(elapsed, record)
            } else {
                Ok(())
            },
            if !self.6.ignore(record) {
                self.6.write(elapsed, record)
            } else {
                Ok(())
            },
        )
    }

    fn flush(&self) -> (results: Self::Results) {
        (self.0.flush(), self.1.flush(), self.2.flush(), self.3.flush(), self.4.flush(), self.5.flush(), self.6.flush())
    }
}

impl<A, B, C, D, E, F, G> TargetResults for (Result<(), A>, Result<(), B>, Result<(), C>, Result<(), D>, Result<(), E>, Result<(), F>, Result<(), G>) {
    open spec fn outcomes(&self) -> Seq<bool> {
        seq![self.0 is Ok, self.1 is Ok, self.2 is Ok, self.3 is Ok, self.4 is Ok, self.5 is Ok, self.6 is Ok]
    }

    fn failed(&self) -> (slots: Vec<usize>) {
        let flags = vec![self.0.is_ok(), self.1.is_ok(), self.2.is_ok(), self.3.is_ok(), self.4.is_ok(), self.5.is_ok(), self.6.is_ok()];
        assert(flags@ =~= self.outcomes());
        positions_of_failures(&flags)
    }
}

/// A collection of eight targets.
impl<A: Target, B: Target, C: Target, D: Target, E: Target, F: Target, G: Target, H: Target> Targets for (A, B, C, D, E, F, G, H) {
    type Results = (Result<(), A::Error>, Result<(), B::Error>, Result<(), C::Error>, Result<(), D::Error>, Result<(), E::Error>, Result<(), F::Error>, Result<(), G::Error>, Result<(), H::Error>);

    open spec fn thresholds(&self) -> Seq<Level> {
        seq![self.0.threshold(), self.1.threshold(), self.2.threshold(), self.3.threshold(), self.4.threshold(), self.5.threshold(), self.6.threshold(), self.7.threshold()]
    }

    open spec fn dispatched(&self, elapsed: Duration, record: &LogRecord, results: Self::Results) -> bool {
        &&& slot_written(&self.0, elapsed, record, results.0)
        &&& slot_written(&self.1, elapsed, record, results.1)
        &&& slot_written(&self.2, elapsed, record, results.2)
        &&& slot_written(&self.3, elapsed, record, results.3)
        &&& slot_written(&self.4, elapsed, record, results.4)
        &&& slot_written(&self.5, elapsed, record, results.5)
        &&& slot_written(&self.6, elapsed, record, results.6)
        &&& slot_written(&self.7, elapsed, record, results.7)
    }

    open spec fn flushed(&self, results: Self::Results) -> bool {
        &&& self.0.flush_outcome(results.0)
        &&& self.1.flush_outcome(results.1)
        &&& self.2.flush_outcome(results.2)
        &&& self.3.flush_outcome(results.3)
        &&& self.4.flush_outcome(results.4)
        &&& self.5.flush_outcome(results.5)
        &&& self.6.flush_outcome(results.6)
        &&& self.7.flush_outcome(results.7)
    }

    fn max_level(&self) -> (filter: LevelFilter) {
        let max = LevelFilter::Off;
        let max = max.max(self.0.level().to_level_filter());
        let max = max.max(self.1.level().to_level_filter());
        let max = max.max(self.2.level().to_level_filter());
        let max = max.max(self.3.level().to_level_filter());
        let max = max.max(self.4.level().to_level_filter());
        let max = max.max(self.5.level().to_level_filter());
        let max = max.max(self.6.level().to_level_filter());
        let max = max.max(self.7.level().to_level_filter());
        proof {
            lemma_most_permissive_push(Seq::<Level>::empty(), self.0.threshold());
            lemma_most_permissive_push(Seq::<Level>::empty().push(self.0.threshold()), self.1.threshold());
            lemma_most_permissive_push(Seq::<Level>::empty().push(self.0.threshold()).push(self.1.threshold()), self.2.threshold());
            lemma_most_permissive_push(Seq::<Level>::empty().push(self.0.threshold()).push(self.1.threshold()).push(self.2.threshold()), self.3.threshold());
            lemma_most_permissive_push(Seq::<Level>::empty().push(self.0.threshold()).push(self.1.threshold()).push(self.2.threshold()).push(self.3.threshold()), self.4.threshold());
            lemma_most_permissive_push(Seq::<Level>::empty().push(self.0.threshold()).push(self.1.threshold()).push(self.2.threshold()).push(self.3.threshold()).push(self.4.threshold()), self.5.threshold());
            lemma_most_permissive_push(Seq::<Level>::empty().push(self.0.threshold()).push(self.1.threshold()).push(self.2.threshold()).push(self.3.threshold()).push(self.4.threshold()).push(self.5.threshold()), self.6.threshold());
            lemma_most_permissive_push(Seq::<Level>::empty().push(self.0.threshold()).push(self.1.threshold()).push(self.2.threshold()).push(self.3.threshold()).push(self.4.threshold()).push(self.5.threshold()).push(self.6.threshold()), self.7.threshold());
            assert(self.thresholds() =~= Seq::<Level>::empty().push(self.0.threshold()).push(self.1.threshold()).push(self.2.threshold()).push(self.3.threshold()).push(self.4.threshold()).push(self.5.threshold()).push(self.6.threshold()).push(self.7.threshold()));
        }
        max
    }

    fn write(&self, elapsed: Duration, record: &LogRecord) -> (results: Self::Results) {
        (
            if !self.0.ignore(record) {
                self.0.write(elapsed, record)
            } else {
                Ok(())
            },
            if !self.1.ignore(record) {
                self.1.write(elapsed, record)
            } else {
                Ok(())
            },
            if !self.2.ignore(record) {
                self.2.write(elapsed, record)
            } else {
                Ok(())
            },
            if !self.3.ignore(record) {
                self.3.write(elapsed, record)
            } else {
                Ok(())
            },
            if !self.4.ignore(record) {
                self.4.write(elapsed, record)
            } else {
                Ok(())
            },
            if !self.5.ignore(record) {
                self.5.write(elapsed, record)
            } else {
                Ok(())
            },
            if !self.6.ignore(record) {
                self.6.write(elapsed, record)
            } else {
                Ok(())
            },
            if !self.7.ignore(record) {
                self.7.write(elapsed, record)
            } else {
                Ok(())
            },
        )
    }

    fn flush(&self) -> (results: Self::Results) {
        (self.0.flush(), self.1.flush(), self.2.flush(), self.3.flush(), self.4.flush(), self.5.flush(), self.6.flush(), self.7.flush())
    }
}

impl<A, B, C, D, E, F, G, H> TargetResults for (Result<(), A>, Result<(), B>, Result<(), C>, Result<(), D>, Result<(), E>, Result<(), F>, Result<(), G>, Result<(), H>) {
    open spec fn outcomes(&self) -> Seq<bool> {
        seq![self.0 is Ok, self.1 is Ok, self.2 is Ok, self.3 is Ok, self.4 is Ok, self.5 is Ok, self.6 is Ok, self.7 is Ok]
    }

    fn failed(&self) -> (slots: Vec<usize>) {
        let flags = vec![self.0.is_ok(), self.1.is_ok(), self.2.is_ok(), self.3.is_ok(), self.4.is_ok(), self.5.is_ok(), self.6.is_ok(), self.7.is_ok()];
        assert(flags@ =~= self.outcomes());
        positions_of_failures(&flags)
    }
}

} // verus!
