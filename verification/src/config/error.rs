//! The faults that configuration handling reports.

use vstd::prelude::*;
use vstd::string::StringExecFns;

verus! {

/// Why a configuration was rejected.
#[derive(Debug, Clone)]
pub enum ConfigError {
    /// The list of master addresses is empty.
    MastersEmpty,
    /// The path of the SQLite database is empty.
    SqlitePathEmpty,
    /// The log level, folded to lower case, is none of the known levels.
    InvalidLogLevel(String),
    /// The log format, folded to lower case, is none of the known formats.
    InvalidLogFormat(String),
    /// The log output, folded to lower case, is none of the known outputs.
    InvalidLogOutput(String),
    /// File output is selected and the log file path is blank.
    LogFileRequired,
    /// The rotation threshold is zero.
    MaxSizeZero,
    /// The number of retained files is zero.
    MaxFilesZero,
    /// A process-wide configuration has been installed before.
    AlreadyInitialized,
    /// A process-wide logger has been installed before.
    LoggerAlreadyInitialized,
}

/// The mathematical value of a [`ConfigError`]: texts as character sequences.
pub enum ConfigFault {
    MastersEmpty,
    SqlitePathEmpty,
    InvalidLogLevel(Seq<char>),
    InvalidLogFormat(Seq<char>),
    InvalidLogOutput(Seq<char>),
    LogFileRequired,
    MaxSizeZero,
    MaxFilesZero,
    AlreadyInitialized,
    LoggerAlreadyInitialized,
}

impl View for ConfigError {
    type V = ConfigFault;

    open spec fn view(&self) -> ConfigFault {
        match *self {
            ConfigError::MastersEmpty => ConfigFault::MastersEmpty,
            ConfigError::SqlitePathEmpty => ConfigFault::SqlitePathEmpty,
            ConfigError::InvalidLogLevel(s) => ConfigFault::InvalidLogLevel(s@),
            ConfigError::InvalidLogFormat(s) => ConfigFault::InvalidLogFormat(s@),
            ConfigError::InvalidLogOutput(s) => ConfigFault::InvalidLogOutput(s@),
            ConfigError::LogFileRequired => ConfigFault::LogFileRequired,
            ConfigError::MaxSizeZero => ConfigFault::MaxSizeZero,
            ConfigError::MaxFilesZero => ConfigFault::MaxFilesZero,
            ConfigError::AlreadyInitialized => ConfigFault::AlreadyInitialized,
            ConfigError::LoggerAlreadyInitialized => ConfigFault::LoggerAlreadyInitialized,
        }
    }
}

/// The text that describes a fault.
pub open spec fn fault_message(f: ConfigFault) -> Seq<char> {
    match f {
        ConfigFault::MastersEmpty => "masters is empty"@,
        ConfigFault::SqlitePathEmpty => "sqlite_path is empty"@,
        ConfigFault::InvalidLogLevel(s) => "invalid log_level: "@ + s,
        ConfigFault::InvalidLogFormat(s) => "invalid log_format: "@ + s,
        ConfigFault::InvalidLogOutput(s) => "invalid log_output: "@ + s,
        ConfigFault::LogFileRequired => "log_file required when output=file/both"@,
        ConfigFault::MaxSizeZero => "max_size_mb must be > 0"@,
        ConfigFault::MaxFilesZero => "max_files must be > 0"@,
        ConfigFault::AlreadyInitialized => "Global config already initialized"@,
        ConfigFault::LoggerAlreadyInitialized => "Logger already initialized"@,
    }
}

impl ConfigError {
    /// The text that describes this fault.
    pub fn message(&self) -> (text: String)
        ensures
            text@ == fault_message(self@),
    {
        match self {
            ConfigError::MastersEmpty => "masters is empty".to_owned(),
            ConfigError::SqlitePathEmpty => "sqlite_path is empty".to_owned(),
            ConfigError::InvalidLogLevel(s) => "invalid log_level: ".to_owned().concat(s.as_str()),
            ConfigError::InvalidLogFormat(s) => "invalid log_format: ".to_owned().concat(
                s.as_str(),
            ),
            ConfigError::InvalidLogOutput(s) => "invalid log_output: ".to_owned().concat(
                s.as_str(),
            ),
            ConfigError::LogFileRequired => "log_file required when output=file/both".to_owned(),
            ConfigError::MaxSizeZero => "max_size_mb must be > 0".to_owned(),
            ConfigError::MaxFilesZero => "max_files must be > 0".to_owned(),
            ConfigError::AlreadyInitialized => "Global config already initialized".to_owned(),
            ConfigError::LoggerAlreadyInitialized => "Logger already initialized".to_owned(),
        }
    }
}

} // verus!
