//! Composition of a process-wide logging backend from declarative profiles.
//!
//! The verified part of the library holds the severity model and the policy
//! that turns an ordered list of logger profiles into an ordered list of
//! sinks. Opening files and installing the backend are left to the caller.

pub mod level;
pub mod compose;
pub mod sink;

pub use compose::{plan_sinks, LogConfig, SinkPlan, TermLogConfig, WriteLogConfig, TIME_FORMAT};
pub use level::LogLevel;
pub use sink::{sink_config, terminal_sink, SetupError};
