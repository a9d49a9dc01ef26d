//! Severity levels and maximum-level filters, with the total order
//! Error < Warn < Info < Debug < Trace, and the gating test that decides
//! whether a call at a given level is enabled under a filter.

use vstd::prelude::*;

verus! {

/// Severity of a single log call, from most to least severe.
#[derive(Clone, Copy, Debug, PartialEq, Eq, Structural)]
pub enum Level {
    Error,
    Warn,
    Info,
    Debug,
    Trace,
}

/// Maximum-level filter: `Off` disables everything; otherwise a call is
/// enabled when its level is at least as severe as the filter.
#[derive(Clone, Copy, Debug, PartialEq, Eq, Structural)]
pub enum LevelFilter {
    Off,
    Error,
    Warn,
    Info,
    Debug,
    Trace,
}

/// Numeric severity rank of a level; smaller is more severe.
pub open spec fn level_rank(l: Level) -> int {
    match l {
        Level::Error => 1,
        Level::Warn => 2,
        Level::Info => 3,
        Level::Debug => 4,
        Level::Trace => 5,
    }
}

/// Numeric rank of a filter; a filter admits every level of rank at most its own.
pub open spec fn filter_rank(f: LevelFilter) -> int {
    match f {
        LevelFilter::Off => 0,
        LevelFilter::Error => 1,
        LevelFilter::Warn => 2,
        LevelFilter::Info => 3,
        LevelFilter::Debug => 4,
        LevelFilter::Trace => 5,
    }
}

/// A call at level `l` is enabled under filter `f`.
pub open spec fn spec_passes(l: Level, f: LevelFilter) -> bool {
    level_rank(l) <= filter_rank(f)
}

impl Level {
    /// Executable severity rank, equal to the specification rank.
    pub fn rank(self) -> (r: u8)
        ensures
            r as int == level_rank(self),
    {
        match self {
            Level::Error => 1,
            Level::Warn => 2,
            Level::Info => 3,
            Level::Debug => 4,
            Level::Trace => 5,
        }
    }

    /// Whether a call at this level is enabled under filter `f`.
    pub fn passes(self, f: LevelFilter) -> (r: bool)
        ensures
            r == spec_passes(self, f),
    {
        self.rank() <= f.rank()
    }
}

impl LevelFilter {
    /// Executable filter rank, equal to the specification rank.
    pub fn rank(self) -> (r: u8)
        ensures
            r as int == filter_rank(self),
    {
        match self {
            LevelFilter::Off => 0,
            LevelFilter::Error => 1,
            LevelFilter::Warn => 2,
            LevelFilter::Info => 3,
            LevelFilter::Debug => 4,
            LevelFilter::Trace => 5,
        }
    }
}

/// Relies on log::max_level: returns the process-wide runtime maximum level.
/// The value is mutable global state of the log crate, so nothing is promised
/// of which variant comes back.
#[verifier::external_body]
pub(crate) fn runtime_max_level() -> LevelFilter {
    match log::max_level() {
        log::LevelFilter::Off => LevelFilter::Off,
        log::LevelFilter::Error => LevelFilter::Error,
        log::LevelFilter::Warn => LevelFilter::Warn,
        log::LevelFilter::Info => LevelFilter::Info,
        log::LevelFilter::Debug => LevelFilter::Debug,
        log::LevelFilter::Trace => LevelFilter::Trace,
    }
}

/// Relies on log::STATIC_MAX_LEVEL: the compiled-in maximum level, fixed by
/// the log crate's build features. Which variant it is depends on the build,
/// so nothing is promised of the result.
#[verifier::external_body]
pub(crate) fn static_max_level() -> LevelFilter {
    match log::STATIC_MAX_LEVEL {
        log::LevelFilter::Off => LevelFilter::Off,
        log::LevelFilter::Error => LevelFilter::Error,
        log::LevelFilter::Warn => LevelFilter::Warn,
        log::LevelFilter::Info => LevelFilter::Info,
        log::LevelFilter::Debug => LevelFilter::Debug,
        log::LevelFilter::Trace => LevelFilter::Trace,
    }
}

} // verus!
