//! The configuration schema, its defaults and its validation.

use crate::config::error::{ConfigError, ConfigFault};
use crate::text::{ascii_lower, is_blank, is_blank_text, same_text, to_ascii_lowercase};
use vstd::prelude::*;

verus! {

/// The whole configuration of the agent.
#[derive(Debug, Clone)]
pub struct Config {
    pub basic: BasicConfig,
    pub grpc: GrpcConfig,
    pub tls: TlsConfig,
    pub telemetry: TelemetryConfig,
}

/// Resource limits and local paths.
#[derive(Debug, Clone)]
pub struct BasicConfig {
    /// Directory that holds the plugins.
    pub plugin_dir: String,
    /// Path of the SQLite database file.
    pub sqlite_path: String,
    /// Memory ceiling in MB.
    pub max_memory_mb: u32,
    /// CPU ceiling in percent.
    pub max_cpu_percent: u32,
    /// Ceiling on open file handles.
    pub max_file_handles: u32,
}

/// How the agent reaches its masters.
#[derive(Debug, Clone)]
pub struct GrpcConfig {
    /// Addresses of the masters.
    pub masters: Vec<String>,
    /// Connect timeout in seconds.
    pub connect_timeout_secs: u64,
    /// Largest message accepted, in MB.
    pub max_receive_message_mb: u32,
    /// Largest message sent, in MB.
    pub max_send_message_mb: u32,
    pub keepalive: KeepaliveConfig,
    pub reconnect: ReconnectConfig,
}

/// Keepalive probing of an idle connection.
#[derive(Debug, Clone)]
pub struct KeepaliveConfig {
    /// Interval between probes in seconds.
    pub time_secs: u64,
    /// Time to wait for a probe's answer in seconds.
    pub timeout_secs: u64,
    /// Whether to probe while no call is active.
    pub permit_without_calls: bool,
}

/// Reconnection with growing delays.
#[derive(Debug, Clone)]
pub struct ReconnectConfig {
    /// Number of attempts before giving up.
    pub max_attempts: u32,
    /// First delay in seconds.
    pub initial_backoff_secs: u64,
    /// Largest delay in seconds.
    pub max_backoff_secs: u64,
    /// Factor by which the delay grows, as the bit pattern of the IEEE 754
    /// double that holds it.
    pub backoff_multiplier_bits: u64,
}

/// Transport security.
#[derive(Debug, Clone)]
pub struct TlsConfig {
    pub enable: bool,
    pub ca_file: String,
    pub cert_file: String,
    pub key_file: String,
    pub server_name_override: String,
}

/// Logging and metrics.
#[derive(Debug, Clone)]
pub struct TelemetryConfig {
    /// `error`, `warn`, `info`, `debug` or `trace`.
    pub log_level: String,
    /// `json` or `plain`.
    pub log_format: String,
    /// `stdout`, `file` or `both`.
    pub log_output: String,
    /// Path of the active log file; used when the output includes a file.
    pub log_file: String,
    pub log_rotation: LogRotationConfig,
    pub metrics_port: u16,
    pub metrics_path: String,
}

/// Size-triggered rotation of the log file.
#[derive(Debug, Clone)]
pub struct LogRotationConfig {
    /// Rotation threshold in MB.
    pub max_size_mb: u32,
    /// Number of files kept, the active one included.
    pub max_files: u32,
    /// Whether rotated files are compressed.
    pub compress: bool,
}

/// The bit pattern of the double 2.0, the default growth factor.
pub const DEFAULT_BACKOFF_MULTIPLIER_BITS: u64 = 0x4000_0000_0000_0000;

impl Default for BasicConfig {
    fn default() -> (r: Self)
        ensures
            r.plugin_dir@ == "./plugins"@,
            r.sqlite_path@ == "./data/db.sqlite"@,
            r.max_memory_mb == 32,
            r.max_cpu_percent == 3,
            r.max_file_handles == 32,
    {
        BasicConfig {
            plugin_dir: "./plugins".to_owned(),
            sqlite_path: "./data/db.sqlite".to_owned(),
            max_memory_mb: 32,
            max_cpu_percent: 3,
            max_file_handles: 32,
        }
    }
}

impl Default for KeepaliveConfig {
    fn default() -> (r: Self)
        ensures
            r.time_secs == 30,
            r.timeout_secs == 5,
            r.permit_without_calls,
    {
        KeepaliveConfig { time_secs: 30, timeout_secs: 5, permit_without_calls: true }
    }
}

impl Default for ReconnectConfig {
    fn default() -> (r: Self)
        ensures
            r.max_attempts == 5,
            r.initial_backoff_secs == 1,
            r.max_backoff_secs == 20,
            r.backoff_multiplier_bits == DEFAULT_BACKOFF_MULTIPLIER_BITS,
    {
        ReconnectConfig {
            max_attempts: 5,
            initial_backoff_secs: 1,
            max_backoff_secs: 20,
            backoff_multiplier_bits: DEFAULT_BACKOFF_MULTIPLIER_BITS,
        }
    }
}

impl Default for GrpcConfig {
    fn default() -> (r: Self)
        ensures
            r.masters@.len() == 1,
            r.masters@[0]@ == "127.0.0.1:50051"@,
            r.connect_timeout_secs == 5,
            r.max_receive_message_mb == 16,
            r.max_send_message_mb == 16,
            r.keepalive.time_secs == 30,
            r.keepalive.timeout_secs == 5,
            r.keepalive.permit_without_calls,
            r.reconnect.max_attempts == 5,
            r.reconnect.initial_backoff_secs == 1,
            r.reconnect.max_backoff_secs == 20,
            r.reconnect.backoff_multiplier_bits == DEFAULT_BACKOFF_MULTIPLIER_BITS,
    {
        let mut masters: Vec<String> = Vec::new();
        masters.push("127.0.0.1:50051".to_owned());
        GrpcConfig {
            masters,
            connect_timeout_secs: 5,
            max_receive_message_mb: 16,
            max_send_message_mb: 16,
            keepalive: KeepaliveConfig::default(),
            reconnect: ReconnectConfig::default(),
        }
    }
}

impl Default for TlsConfig {
    fn default() -> (r: Self)
        ensures
            !r.enable,
            r.ca_file@ == Seq::<char>::empty(),
            r.cert_file@ == Seq::<char>::empty(),
            r.key_file@ == Seq::<char>::empty(),
            r.server_name_override@ == Seq::<char>::empty(),
    {
        TlsConfig {
            enable: false,
            ca_file: String::new(),
            cert_file: String::new(),
            key_file: String::new(),
            server_name_override: String::new(),
        }
    }
}

impl Default for LogRotationConfig {
    fn default() -> (r: Self)
        ensures
            r.max_size_mb == 100,
            r.max_files == 7,
            r.compress,
    {
        LogRotationConfig { max_size_mb: 100, max_files: 7, compress: true }
    }
}

impl Default for TelemetryConfig {
    fn default() -> (r: Self)
        ensures
            r.log_level@ == "info"@,
            r.log_format@ == "json"@,
            r.log_output@ == "stdout"@,
            r.log_file@ == "./log/agent.log"@,
            r.log_rotation.max_size_mb == 100,
            r.log_rotation.max_files == 7,
            r.log_rotation.compress,
            r.metrics_port == 9090,
            r.metrics_path@ == "/metrics"@,
    {
        TelemetryConfig {
            log_level: "info".to_owned(),
            log_format: "json".to_owned(),
            log_output: "stdout".to_owned(),
            log_file: "./log/agent.log".to_owned(),
            log_rotation: LogRotationConfig::default(),
            metrics_port: 9090,
            metrics_path: "/metrics".to_owned(),
        }
    }
}

impl Default for Config {
    fn default() -> (r: Self)
        ensures
            r.basic.plugin_dir@ == "./plugins"@,
            r.basic.sqlite_path@ == "./data/db.sqlite"@,
            r.basic.max_memory_mb == 32,
            r.basic.max_cpu_percent == 3,
            r.basic.max_file_handles == 32,
            r.grpc.masters@.len() == 1,
            r.grpc.masters@[0]@ == "127.0.0.1:50051"@,
            r.grpc.connect_timeout_secs == 5,
            r.grpc.max_receive_message_mb == 16,
            r.grpc.max_send_message_mb == 16,
            r.grpc.keepalive.time_secs == 30,
            r.grpc.keepalive.timeout_secs == 5,
            r.grpc.keepalive.permit_without_calls,
            r.grpc.reconnect.max_attempts == 5,
            r.grpc.reconnect.initial_backoff_secs == 1,
            r.grpc.reconnect.max_backoff_secs == 20,
            r.grpc.reconnect.backoff_multiplier_bits == DEFAULT_BACKOFF_MULTIPLIER_BITS,
            !r.tls.enable,
            r.tls.ca_file@ == Seq::<char>::empty(),
            r.tls.cert_file@ == Seq::<char>::empty(),
            r.tls.key_file@ == Seq::<char>::empty(),
            r.tls.server_name_override@ == Seq::<char>::empty(),
            r.telemetry.log_level@ == "info"@,
            r.telemetry.log_format@ == "json"@,
            r.telemetry.log_output@ == "stdout"@,
            r.telemetry.log_file@ == "./log/agent.log"@,
            r.telemetry.log_rotation.max_size_mb == 100,
            r.telemetry.log_rotation.max_files == 7,
            r.telemetry.log_rotation.compress,
            r.telemetry.metrics_port == 9090,
            r.telemetry.metrics_path@ == "/metrics"@,
    {
        Config {
            basic: BasicConfig::default(),
            grpc: GrpcConfig::default(),
            tls: TlsConfig::default(),
            telemetry: TelemetryConfig::default(),
        }
    }
}

/// Whether a lower-case text names a log level.
pub open spec fn is_level_name(s: Seq<char>) -> bool {
    s == "error"@ || s == "warn"@ || s == "info"@ || s == "debug"@ || s == "trace"@
}

/// Whether a lower-case text names a log format.
pub open spec fn is_format_name(s: Seq<char>) -> bool {
    s == "json"@ || s == "plain"@
}

/// Whether a lower-case text names a log output.
pub open spec fn is_output_name(s: Seq<char>) -> bool {
    s == "stdout"@ || s == "file"@ || s == "both"@
}

/// Whether an output, given in lower case, includes the log file.
pub open spec fn wants_file(output: Seq<char>) -> bool {
    output == "file"@ || output == "both"@
}

/// Whether an output, given in lower case, includes the console.
pub open spec fn wants_stdout(output: Seq<char>) -> bool {
    output == "stdout"@ || output == "both"@
}

/// The first fault in the textual logging fields, if there is one. Level,
/// format and output are matched without regard to ASCII case; the log file
/// is asked for when the output includes a file.
pub open spec fn text_fault(t: &TelemetryConfig) -> Option<ConfigFault> {
    if !is_level_name(ascii_lower(t.log_level@)) {
        Some(ConfigFault::InvalidLogLevel(ascii_lower(t.log_level@)))
    } else if !is_format_name(ascii_lower(t.log_format@)) {
        Some(ConfigFault::InvalidLogFormat(ascii_lower(t.log_format@)))
    } else if !is_output_name(ascii_lower(t.log_output@)) {
        Some(ConfigFault::InvalidLogOutput(ascii_lower(t.log_output@)))
    } else if wants_file(ascii_lower(t.log_output@)) && is_blank(t.log_file@) {
        Some(ConfigFault::LogFileRequired)
    } else {
        None
    }
}

/// The first fault of the logging settings, if there is one: a fault of
/// the textual fields, else a rotation threshold of zero, else a file count
/// of zero.
pub open spec fn telemetry_fault(t: &TelemetryConfig) -> Option<ConfigFault> {
    if text_fault(t) is Some {
        text_fault(t)
    } else if t.log_rotation.max_size_mb == 0 {
        Some(ConfigFault::MaxSizeZero)
    } else if t.log_rotation.max_files == 0 {
        Some(ConfigFault::MaxFilesZero)
    } else {
        None
    }
}

/// The first fault of a configuration, if there is one.
pub open spec fn config_fault(c: &Config) -> Option<ConfigFault> {
    if c.grpc.masters@.len() == 0 {
        Some(ConfigFault::MastersEmpty)
    } else if c.basic.sqlite_path@.len() == 0 {
        Some(ConfigFault::SqlitePathEmpty)
    } else {
        telemetry_fault(&c.telemetry)
    }
}

/// Whether `s` names a log level.
pub fn names_level(s: &str) -> (r: bool)
    ensures
        r == is_level_name(s@),
{
    same_text(s, "error") || same_text(s, "warn") || same_text(s, "info") || same_text(s, "debug")
        || same_text(s, "trace")
}

/// Whether `s` names a log format.
pub fn names_format(s: &str) -> (r: bool)
    ensures
        r == is_format_name(s@),
{
    same_text(s, "json") || same_text(s, "plain")
}

/// Whether `s` names a log output.
pub fn names_output(s: &str) -> (r: bool)
    ensures
        r == is_output_name(s@),
{
    same_text(s, "stdout") || same_text(s, "file") || same_text(s, "both")
}

/// Whether the output `s`, given in lower case, includes the log file.
pub fn output_wants_file(s: &str) -> (r: bool)
    ensures
        r == wants_file(s@),
{
    same_text(s, "file") || same_text(s, "both")
}

/// Whether the output `s`, given in lower case, includes the console.
pub fn output_wants_stdout(s: &str) -> (r: bool)
    ensures
        r == wants_stdout(s@),
{
    same_text(s, "stdout") || same_text(s, "both")
}

/// Checks the textual logging fields and reports the first fault.
pub fn check_text_fields(t: &TelemetryConfig) -> (r: Result<(), ConfigError>)
    ensures
        r is Ok <==> text_fault(t) is None,
        r matches Err(e) ==> text_fault(t) == Some(e@),
{
    let level = to_ascii_lowercase(t.log_level.as_str());
    if !names_level(level.as_str()) {
        return Err(ConfigError::InvalidLogLevel(level));
    }
    let format = to_ascii_lowercase(t.log_format.as_str());
    if !names_format(format.as_str()) {
        return Err(ConfigError::InvalidLogFormat(format));
    }
    let output = to_ascii_lowercase(t.log_output.as_str());
    if !names_output(output.as_str()) {
        return Err(ConfigError::InvalidLogOutput(output));
    }
    if output_wants_file(output.as_str()) && is_blank_text(t.log_file.as_str()) {
        return Err(ConfigError::LogFileRequired);
    }
    Ok(())
}

/// Checks the logging settings and reports the first fault.
pub fn check_telemetry(t: &TelemetryConfig) -> (r: Result<(), ConfigError>)
    ensures
        r is Ok <==> telemetry_fault(t) is None,
        r matches Err(e) ==> telemetry_fault(t) == Some(e@),
{
    match check_text_fields(t) {
        Err(e) => {
            return Err(e);
        },
        Ok(_) => {},
    }
    if t.log_rotation.max_size_mb == 0 {
        return Err(ConfigError::MaxSizeZero);
    }
    if t.log_rotation.max_files == 0 {
        return Err(ConfigError::MaxFilesZero);
    }
    Ok(())
}

impl Config {
    /// Accepts a configuration that names at least one master, has a database
    /// path, whose logging fields are well formed and whose rotation
    /// threshold and file count are positive; otherwise reports the first
    /// fault.
    pub fn validate(&self) -> (r: Result<(), ConfigError>)
        ensures
            r is Ok <==> config_fault(self) is None,
            r matches Err(e) ==> config_fault(self) == Some(e@),
    {
        if self.grpc.masters.len() == 0 {
            return Err(ConfigError::MastersEmpty);
        }
        if self.basic.sqlite_path.as_str().is_empty() {
            return Err(ConfigError::SqlitePathEmpty);
        }
        check_telemetry(&self.telemetry)
    }
}

} // verus!
