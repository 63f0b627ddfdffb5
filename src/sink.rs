//! Building the backend's pieces, and the errors of installing it.

use vstd::prelude::*;
use crate::compose::TIME_FORMAT;

verus! {

/// Lets verified code carry log's installation error.
#[verifier::external_type_specification]
#[verifier::external_body]
pub struct ExSetLoggerError(log::SetLoggerError);

/// Lets verified code carry simplelog's sink configuration.
#[verifier::external_type_specification]
#[verifier::external_body]
pub struct ExConfig(simplelog::Config);

/// Lets verified code carry simplelog's terminal sink.
#[verifier::external_type_specification]
#[verifier::external_body]
pub struct ExTermLogger(simplelog::TermLogger);

/// Lets verified code choose where a terminal sink writes.
#[verifier::external_type_specification]
pub struct ExTerminalMode(simplelog::TerminalMode);

/// Lets verified code choose a terminal sink's colour policy.
#[verifier::external_type_specification]
pub struct ExColorChoice(simplelog::ColorChoice);

/// The filter a terminal sink stores and applies to every record.
pub uninterp spec fn term_threshold(t: simplelog::TermLogger) -> log::LevelFilter;

/// The strftime pattern a sink configuration stamps its lines with.
pub uninterp spec fn time_format_of(c: simplelog::Config) -> Seq<char>;

/// Relies on simplelog's `TermLogger::new`, which builds a terminal sink
/// with the given configuration, stream mode and colour policy, and stores
/// the given filter as the sink's threshold.
pub assume_specification[ simplelog::TermLogger::new ](
    log_level: log::LevelFilter,
    config: simplelog::Config,
    mode: simplelog::TerminalMode,
    color_choice: simplelog::ColorChoice,
) -> (r: Box<simplelog::TermLogger>)
    ensures
        term_threshold(*r) == log_level,
;

/// Relies on simplelog's `SharedLogger::level` for `TermLogger`, which
/// returns the threshold stored at construction.
pub assume_specification[ <simplelog::TermLogger as simplelog::SharedLogger>::level ](
    t: &simplelog::TermLogger,
) -> (r: log::LevelFilter)
    ensures
        r == term_threshold(*t),
;

/// Relies on simplelog's `ConfigBuilder`: the default configuration with
/// `set_time_format_str` applied, so timestamps follow the strftime pattern.
#[verifier::external_body]
fn config_with_time_format(format: &'static str) -> (r: simplelog::Config)
    ensures
        time_format_of(r) == format@,
{
    simplelog::ConfigBuilder::new().set_time_format_str(format).build()
}

/// Why composing and installing the backend failed.
#[derive(Debug)]
pub enum SetupError {
    /// The file of a file sink could not be opened or created.
    FileOpen { path: String },
    /// A backend was installed before in this process; it stays in place.
    AlreadyInitialized,
}

impl From<log::SetLoggerError> for SetupError {
    fn from(e: log::SetLoggerError) -> (r: SetupError)
        ensures
            r is AlreadyInitialized,
    {
        SetupError::AlreadyInitialized
    }
}

impl vstd::std_specs::convert::FromSpecImpl<log::SetLoggerError> for SetupError {
    open spec fn obeys_from_spec() -> bool {
        true
    }

    open spec fn from_spec(e: log::SetLoggerError) -> SetupError {
        SetupError::AlreadyInitialized
    }
}

/// The configuration every sink gets: defaults, with timestamps in
/// `TIME_FORMAT`.
pub fn sink_config() -> (r: simplelog::Config)
    ensures
        time_format_of(r) == TIME_FORMAT@,
{
    config_with_time_format(TIME_FORMAT)
}

/// A terminal sink with the given filter, stream mode and colour policy,
/// stamping its lines with `TIME_FORMAT`.
pub fn terminal_sink(
    level: log::LevelFilter,
    mode: simplelog::TerminalMode,
    color: simplelog::ColorChoice,
) -> (r: Box<simplelog::TermLogger>)
    ensures
        term_threshold(*r) == level,
{
    simplelog::TermLogger::new(level, sink_config(), mode, color)
}

} // verus!
