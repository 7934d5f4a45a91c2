//! Log levels and logger settings. Writing log files is I/O and happens
//! outside this crate; the level names, the level a configured value
//! selects, and the default settings are fixed here.

use vstd::prelude::*;
use crate::strutil::{str_eq_ci, spec_lower};

verus! {

/// Log levels, most severe first.
#[derive(Clone, Copy, Debug, PartialEq, Eq, PartialOrd, Ord, Hash, Structural)]
pub enum LogLevel {
    Error,
    Warn,
    Info,
    Debug,
    Trace,
}

/// The level a configured value selects, matched without regard to ASCII
/// case: an unrecognized value is the most severe level, and no value at
/// all is `Info`.
pub open spec fn spec_level_of(value: Option<String>) -> LogLevel {
    match value {
        Option::Some(s) => {
            if spec_lower(s@) == "trace"@ {
                LogLevel::Trace
            } else if spec_lower(s@) == "debug"@ {
                LogLevel::Debug
            } else if spec_lower(s@) == "info"@ {
                LogLevel::Info
            } else if spec_lower(s@) == "warn"@ {
                LogLevel::Warn
            } else {
                LogLevel::Error
            }
        },
        Option::None => LogLevel::Info,
    }
}

impl LogLevel {
    /// The uppercase name of the level.
    pub fn as_str(&self) -> (r: &'static str)
        ensures
            *self == LogLevel::Error ==> r@ == "ERROR"@,
            *self == LogLevel::Warn ==> r@ == "WARN"@,
            *self == LogLevel::Info ==> r@ == "INFO"@,
            *self == LogLevel::Debug ==> r@ == "DEBUG"@,
            *self == LogLevel::Trace ==> r@ == "TRACE"@,
    {
        match self {
            LogLevel::Error => "ERROR",
            LogLevel::Warn => "WARN",
            LogLevel::Info => "INFO",
            LogLevel::Debug => "DEBUG",
            LogLevel::Trace => "TRACE",
        }
    }

    /// The level a configured value selects.
    pub fn from_env_value(value: &Option<String>) -> (r: LogLevel)
        ensures
            r == spec_level_of(*value),
    {
        match value {
            Some(s) => {
                if str_eq_ci(s.as_str(), "trace") {
                    LogLevel::Trace
                } else if str_eq_ci(s.as_str(), "debug") {
                    LogLevel::Debug
                } else if str_eq_ci(s.as_str(), "info") {
                    LogLevel::Info
                } else if str_eq_ci(s.as_str(), "warn") {
                    LogLevel::Warn
                } else {
                    LogLevel::Error
                }
            },
            None => LogLevel::Info,
        }
    }
}

/// Logger settings.
#[derive(Clone, Debug)]
pub struct LoggerConfig {
    pub level: LogLevel,
    pub log_to_file: bool,
    pub log_to_stdout: bool,
    pub json_format: bool,
    pub max_file_size_mb: u64,
    pub max_log_files: u32,
}

impl LoggerConfig {
    /// The settings the configured level and output format select: both
    /// outputs on, ten-megabyte files, five files kept.
    pub fn from_env_values(rust_log: &Option<String>, json_format: bool) -> (r: LoggerConfig)
        ensures
            r.level == spec_level_of(*rust_log),
            r.log_to_file,
            r.log_to_stdout,
            r.json_format == json_format,
            r.max_file_size_mb == 10,
            r.max_log_files == 5,
    {
        LoggerConfig {
            level: LogLevel::from_env_value(rust_log),
            log_to_file: true,
            log_to_stdout: true,
            json_format,
            max_file_size_mb: 10,
            max_log_files: 5,
        }
    }
}

impl Default for LoggerConfig {
    /// The settings with nothing configured: `Info`, human-readable
    /// output.
    fn default() -> (r: LoggerConfig)
        ensures
            r.level == LogLevel::Info,
            r.log_to_file,
            r.log_to_stdout,
            !r.json_format,
            r.max_file_size_mb == 10,
            r.max_log_files == 5,
    {
        LoggerConfig::from_env_values(&None, false)
    }
}

} // verus!
