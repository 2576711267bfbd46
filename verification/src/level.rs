//! Severity levels and the filters that admit them.

use vstd::prelude::*;

verus! {

/// The severity of a record, from most to least severe.
#[derive(Clone, Copy, Debug, PartialEq, Eq, Structural)]
pub enum Level {
    Error,
    Warn,
    Info,
    Debug,
    Trace,
}

/// A threshold on severities: `Off` admits nothing, every other filter admits
/// the level of the same name and all more severe ones.
#[derive(Clone, Copy, Debug, PartialEq, Eq, Structural)]
pub enum LevelFilter {
    Off,
    Error,
    Warn,
    Info,
    Debug,
    Trace,
}

impl Level {
    /// The position of the level in the order of severities: `Error` is 1,
    /// `Trace` is 5. A smaller rank is more severe.
    pub open spec fn rank(self) -> nat {
        match self {
            Level::Error => 1,
            Level::Warn => 2,
            Level::Info => 3,
            Level::Debug => 4,
            Level::Trace => 5,
        }
    }

    /// The filter that admits exactly this level and the more severe ones.
    pub open spec fn filter(self) -> LevelFilter {
        match self {
            Level::Error => LevelFilter::Error,
            Level::Warn => LevelFilter::Warn,
            Level::Info => LevelFilter::Info,
            Level::Debug => LevelFilter::Debug,
            Level::Trace => LevelFilter::Trace,
        }
    }

    /// The upper-case name under which the level appears in a line.
    pub open spec fn name(self) -> Seq<char> {
        match self {
            Level::Error => "ERROR"@,
            Level::Warn => "WARN"@,
            Level::Info => "INFO"@,
            Level::Debug => "DEBUG"@,
            Level::Trace => "TRACE"@,
        }
    }

    /// Converts the level to the filter of the same name.
    pub fn to_level_filter(&self) -> (f: LevelFilter)
        ensures
            f == self.filter(),
            f.rank() == self.rank(),
    {
        match self {
            Level::Error => LevelFilter::Error,
            Level::Warn => LevelFilter::Warn,
            Level::Info => LevelFilter::Info,
            Level::Debug => LevelFilter::Debug,
            Level::Trace => LevelFilter::Trace,
        }
    }

    /// The name of the level as it is written into a line.
    pub fn as_str(&self) -> (s: &'static str)
        ensures
            s@ == self.name(),
    {
        match self {
            Level::Error => "ERROR",
            Level::Warn => "WARN",
            Level::Info => "INFO",
            Level::Debug => "DEBUG",
            Level::Trace => "TRACE",
        }
    }
}

impl LevelFilter {
    /// The position of the filter in the order of permissiveness: `Off` is 0,
    /// `Trace` is 5. A filter has the rank of the least severe level it admits.
    pub open spec fn rank(self) -> nat {
        match self {
            LevelFilter::Off => 0,
            LevelFilter::Error => 1,
            LevelFilter::Warn => 2,
            LevelFilter::Info => 3,
            LevelFilter::Debug => 4,
            LevelFilter::Trace => 5,
        }
    }

    /// Whether a record of the given level passes the filter.
    pub open spec fn admits(self, level: Level) -> bool {
        level.rank() <= self.rank()
    }

    /// The more permissive of two filters.
    pub open spec fn join(self, other: LevelFilter) -> LevelFilter {
        if self.rank() >= other.rank() {
            self
        } else {
            other
        }
    }

    fn ordinal(&self) -> (n: u8)
        ensures
            n == self.rank(),
    {
        match self {
            LevelFilter::Off => 0,
            LevelFilter::Error => 1,
            LevelFilter::Warn => 2,
            LevelFilter::Info => 3,
            LevelFilter::Debug => 4,
            LevelFilter::Trace => 5,
        }
    }

    /// Whether a record of the given level passes the filter: its level is
    /// at least as severe as the filter's threshold.
    pub fn allows(&self, level: Level) -> (b: bool)
        ensures
            b == self.admits(level),
    {
        level.to_level_filter().ordinal() <= self.ordinal()
    }

    /// The more permissive of the two filters.
    pub fn max(self, other: LevelFilter) -> (f: LevelFilter)
        ensures
            f == self.join(other),
    {
        if self.ordinal() >= other.ordinal() {
            self
        } else {
            other
        }
    }
}

/// The ranks of levels and filters line up: two levels, or two filters, of
/// the same rank are the same, and a level's filter admits a second level
/// exactly if that one is no less severe.
pub proof fn lemma_rank_orders_levels(a: Level, b: Level, f: LevelFilter, g: LevelFilter)
    ensures
        a.rank() == b.rank() <==> a == b,
        f.rank() == g.rank() <==> f == g,
        a.filter().admits(b) <==> b.rank() <= a.rank(),
        a.filter().rank() == a.rank(),
        !LevelFilter::Off.admits(a),
        LevelFilter::Trace.admits(a),
{
}

/// `join` is the maximum of the order of permissiveness: it is one of its two
/// arguments, it admits whatever either of them admits, and nothing else.
pub proof fn lemma_join_is_maximum(f: LevelFilter, g: LevelFilter, level: Level)
    ensures
        f.join(g) == f || f.join(g) == g,
        f.join(g).rank() >= f.rank(),
        f.join(g).rank() >= g.rank(),
        f.join(g) == g.join(f),
        f.join(g).admits(level) <==> f.admits(level) || g.admits(level),
{
}

} // verus!
