//! Severity levels and their mapping onto the `log` crate's filters.

use vstd::prelude::*;

verus! {

/// Lets verified code name `log::LevelFilter` and see its six variants.
#[verifier::external_type_specification]
pub struct ExLevelFilter(log::LevelFilter);

/// Lets verified code name `log::Level` and see its five variants.
#[verifier::external_type_specification]
pub struct ExLevel(log::Level);

/// Rank of a backend filter, as log orders it: `Off` is 0, `Trace` is 5.
pub open spec fn filter_rank(f: log::LevelFilter) -> nat {
    match f {
        log::LevelFilter::Off => 0,
        log::LevelFilter::Error => 1,
        log::LevelFilter::Warn => 2,
        log::LevelFilter::Info => 3,
        log::LevelFilter::Debug => 4,
        log::LevelFilter::Trace => 5,
    }
}

/// Rank of a record's level, as log orders it: `Error` is 1, `Trace` is 5.
pub open spec fn record_rank(l: log::Level) -> nat {
    match l {
        log::Level::Error => 1,
        log::Level::Warn => 2,
        log::Level::Info => 3,
        log::Level::Debug => 4,
        log::Level::Trace => 5,
    }
}

/// Whether a record at `level` passes `filter`: log orders the two enums by
/// their discriminants, and a backend sink emits a record exactly when this
/// holds for its filter.
fn record_within(level: log::Level, filter: log::LevelFilter) -> (r: bool)
    ensures
        r == (record_rank(level) <= filter_rank(filter)),
{
    let l: u8 = match level {
        log::Level::Error => 1,
        log::Level::Warn => 2,
        log::Level::Info => 3,
        log::Level::Debug => 4,
        log::Level::Trace => 5,
    };
    let f: u8 = match filter {
        log::LevelFilter::Off => 0,
        log::LevelFilter::Error => 1,
        log::LevelFilter::Warn => 2,
        log::LevelFilter::Info => 3,
        log::LevelFilter::Debug => 4,
        log::LevelFilter::Trace => 5,
    };
    l <= f
}

/// A configured severity threshold, ordered by increasing verbosity.
#[derive(Clone, Copy, Debug, PartialEq, Eq, Structural)]
pub enum LogLevel {
    Off,
    Error,
    Warn,
    Info,
    Debug,
    Trace,
}

impl LogLevel {
    /// Verbosity rank: `Off` is 0, `Trace` is 5.
    pub open spec fn rank(self) -> nat {
        match self {
            LogLevel::Off => 0,
            LogLevel::Error => 1,
            LogLevel::Warn => 2,
            LogLevel::Info => 3,
            LogLevel::Debug => 4,
            LogLevel::Trace => 5,
        }
    }

    /// The backend filter that stands for this threshold.
    pub open spec fn filter(self) -> log::LevelFilter {
        match self {
            LogLevel::Off => log::LevelFilter::Off,
            LogLevel::Error => log::LevelFilter::Error,
            LogLevel::Warn => log::LevelFilter::Warn,
            LogLevel::Info => log::LevelFilter::Info,
            LogLevel::Debug => log::LevelFilter::Debug,
            LogLevel::Trace => log::LevelFilter::Trace,
        }
    }

    /// A threshold lets a statement through when it is not `Off`, the
    /// statement has a real severity, and that severity is at least as
    /// severe as the threshold.
    pub open spec fn admits(self, statement: LogLevel) -> bool {
        &&& self != LogLevel::Off
        &&& statement != LogLevel::Off
        &&& statement.rank() <= self.rank()
    }

    /// The level a log statement of this severity carries; `Off` has none.
    pub open spec fn record_level(self) -> Option<log::Level> {
        match self {
            LogLevel::Off => None,
            LogLevel::Error => Some(log::Level::Error),
            LogLevel::Warn => Some(log::Level::Warn),
            LogLevel::Info => Some(log::Level::Info),
            LogLevel::Debug => Some(log::Level::Debug),
            LogLevel::Trace => Some(log::Level::Trace),
        }
    }

    pub fn to_level(&self) -> (r: Option<log::Level>)
        ensures
            r == self.record_level(),
    {
        match self {
            LogLevel::Off => None,
            LogLevel::Error => Some(log::Level::Error),
            LogLevel::Warn => Some(log::Level::Warn),
            LogLevel::Info => Some(log::Level::Info),
            LogLevel::Debug => Some(log::Level::Debug),
            LogLevel::Trace => Some(log::Level::Trace),
        }
    }

    /// Whether a sink with this threshold emits a statement of severity
    /// `statement`, decided as the backend decides it.
    pub fn permits(&self, statement: &LogLevel) -> (r: bool)
        ensures
            r == self.admits(*statement),
    {
        match statement.to_level() {
            None => false,
            Some(level) => record_within(level, self.to_level_filter()),
        }
    }

    pub fn to_level_filter(&self) -> (r: log::LevelFilter)
        ensures
            r == self.filter(),
    {
        match self {
            LogLevel::Off => log::LevelFilter::Off,
            LogLevel::Error => log::LevelFilter::Error,
            LogLevel::Warn => log::LevelFilter::Warn,
            LogLevel::Info => log::LevelFilter::Info,
            LogLevel::Debug => log::LevelFilter::Debug,
            LogLevel::Trace => log::LevelFilter::Trace,
        }
    }
}

/// The mapping onto backend filters is one-to-one and keeps the order:
/// a less verbose threshold gives a stricter filter.
pub proof fn lemma_filter_mapping(a: LogLevel, b: LogLevel)
    ensures
        (a.filter() == b.filter()) == (a == b),
        (a.rank() <= b.rank()) == (filter_rank(a.filter()) <= filter_rank(b.filter())),
        filter_rank(a.filter()) == a.rank(),
{
}

} // verus!
