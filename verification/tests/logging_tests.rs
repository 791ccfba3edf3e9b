use warden::cli::args::Cli;
use warden::cli::commands::run::Run;
use warden::cli::commands::Commands;
use warden::config::error::ConfigError;
use warden::config::global;
use warden::config::schema::{Config, TelemetryConfig};
use warden::once::OnceSlot;
use warden::run;
use warden::telemetry::logging::{
    init_global_logging, init_logging, validate_config, Lifecycle, LoggerHandle, MultiWriter,
    Teardown,
};
use warden::telemetry::protocol::{Cmd, FsAction, FsEvent};
use warden::telemetry::worker::RotatingFileWorker;

fn file_settings(output: &str) -> TelemetryConfig {
    let mut t = TelemetryConfig::default();
    t.log_output = output.to_string();
    t.log_file = "logs/app.log".to_string();
    t.log_rotation.max_size_mb = 1;
    t.log_rotation.max_files = 3;
    t.log_rotation.compress = false;
    t
}

#[test]
fn default_logging_settings_are_valid() {
    assert!(validate_config(&TelemetryConfig::default()).is_ok());
}

#[test]
fn validate_config_reports_each_fault() {
    let mut t = TelemetryConfig::default();
    t.log_level = "Verbose".to_string();
    let e = validate_config(&t).unwrap_err();
    assert!(matches!(&e, ConfigError::InvalidLogLevel(s) if s == "verbose"));
    let mut t = TelemetryConfig::default();
    t.log_format = "yaml".to_string();
    assert!(matches!(validate_config(&t), Err(ConfigError::InvalidLogFormat(s)) if s == "yaml"));
    let mut t = TelemetryConfig::default();
    t.log_output = "Nowhere".to_string();
    assert!(matches!(validate_config(&t), Err(ConfigError::InvalidLogOutput(s)) if s == "nowhere"));
    let mut t = file_settings("file");
    t.log_file = " ".to_string();
    assert!(matches!(validate_config(&t), Err(ConfigError::LogFileRequired)));
    let mut t = TelemetryConfig::default();
    t.log_rotation.max_size_mb = 0;
    t.log_rotation.max_files = 0;
    let e = validate_config(&t).unwrap_err();
    assert!(matches!(e, ConfigError::MaxSizeZero));
    assert_eq!(e.message(), "max_size_mb must be > 0");
    let mut t = TelemetryConfig::default();
    t.log_rotation.max_files = 0;
    let e = validate_config(&t).unwrap_err();
    assert!(matches!(e, ConfigError::MaxFilesZero));
    assert_eq!(e.message(), "max_files must be > 0");
}

#[test]
fn validate_config_reports_the_first_fault() {
    let mut t = TelemetryConfig::default();
    t.log_level = "x".to_string();
    t.log_format = "y".to_string();
    t.log_rotation.max_files = 0;
    assert!(matches!(validate_config(&t), Err(ConfigError::InvalidLogLevel(_))));
}

#[test]
fn init_logging_decides_the_rotation() {
    let h = init_logging(&file_settings("both")).unwrap();
    assert_eq!(h.state, Lifecycle::Running);
    assert_eq!(h.settings.level, "info");
    assert!(h.settings.json);
    assert!(h.settings.to_stdout);
    let f = h.settings.file.as_ref().unwrap();
    assert_eq!(f.path, "logs/app.log");
    assert_eq!(f.max_size_bytes, 1_048_576);
    assert_eq!(f.retained_generations, 2);
    assert!(!f.compress);
    assert!(h.has_worker());
}

#[test]
fn init_logging_with_default_rotation() {
    let mut t = TelemetryConfig::default();
    t.log_output = "file".to_string();
    t.log_level = "WARN".to_string();
    t.log_format = "plain".to_string();
    let h = init_logging(&t).unwrap();
    assert_eq!(h.settings.level, "warn");
    assert!(!h.settings.json);
    assert!(!h.settings.to_stdout);
    let f = h.settings.file.unwrap();
    assert_eq!(f.path, "./log/agent.log");
    assert_eq!(f.max_size_bytes, 100 * 1024 * 1024);
    assert_eq!(f.retained_generations, 6);
    assert!(f.compress);
}

#[test]
fn init_logging_with_largest_threshold() {
    let mut t = file_settings("file");
    t.log_rotation.max_size_mb = u32::MAX;
    t.log_rotation.max_files = u32::MAX;
    let f = init_logging(&t).unwrap().settings.file.unwrap();
    assert_eq!(f.max_size_bytes, 4_503_599_626_321_920);
    assert_eq!(f.retained_generations, 4_294_967_294);
}

#[test]
fn init_logging_rejects_bad_settings() {
    let mut t = TelemetryConfig::default();
    t.log_rotation.max_size_mb = 0;
    assert!(matches!(init_logging(&t), Err(ConfigError::MaxSizeZero)));
}

#[test]
fn stdout_only_starts_no_worker() {
    let h = init_logging(&TelemetryConfig::default()).unwrap();
    assert!(h.settings.to_stdout);
    assert!(h.settings.file.is_none());
    assert!(!h.has_worker());
    let mut w = MultiWriter::new(&h.settings).make_writer();
    let (accepted, d) = w.write(b"hello\n");
    assert_eq!(accepted, 6);
    assert!(d.console);
    assert!(d.command.is_none());
    let d = w.flush();
    assert!(d.console);
    assert!(d.command.is_none());
    let mut h = h;
    assert_eq!(h.shutdown(), Teardown::Nothing);
    assert_eq!(h.state, Lifecycle::Terminated);
}

#[test]
fn names_in_another_case_decide_as_in_lower_case() {
    let mut t = file_settings("Both");
    t.log_format = "JSON".to_string();
    let h = init_logging(&t).unwrap();
    assert!(h.settings.to_stdout);
    assert_eq!(h.settings.file.as_ref().unwrap().path, "logs/app.log");
    assert!(h.settings.json);
    let mut t = file_settings("FILE");
    t.log_format = "Plain".to_string();
    let h = init_logging(&t).unwrap();
    assert!(!h.settings.to_stdout);
    assert!(h.settings.file.is_some());
    assert!(!h.settings.json);
    let mut t = TelemetryConfig::default();
    t.log_output = "StdOut".to_string();
    let h = init_logging(&t).unwrap();
    assert!(h.settings.to_stdout);
    assert!(h.settings.file.is_none());
}

#[test]
fn every_accepted_output_has_a_destination() {
    for output in ["stdout", "file", "both", "STDOUT", "File", "bOTH"] {
        let h = init_logging(&file_settings(output)).unwrap();
        assert!(h.settings.to_stdout || h.settings.file.is_some());
    }
}

#[test]
fn file_output_in_another_case_asks_for_the_log_file() {
    let mut t = file_settings("FILE");
    t.log_file = String::new();
    assert!(matches!(validate_config(&t), Err(ConfigError::LogFileRequired)));
    assert!(matches!(init_logging(&t), Err(ConfigError::LogFileRequired)));
}

#[test]
fn both_outputs_reach_console_and_file() {
    let h = init_logging(&file_settings("both")).unwrap();
    let f = h.settings.file.clone().unwrap();
    let mut writer = MultiWriter::new(&h.settings).make_writer();
    let (accepted, d) = writer.write(b"hello\n");
    assert_eq!(accepted, 6);
    assert!(d.console);
    let write_cmd = d.command.unwrap();
    assert!(matches!(&write_cmd, Cmd::Write(b) if b == b"hello\n"));
    let d = writer.flush();
    assert!(d.console);
    let flush_cmd = d.command.unwrap();
    assert!(matches!(flush_cmd, Cmd::Flush));
    // The background writer serves the two commands.
    let mut file: Vec<u8> = Vec::new();
    let mut flushed = 0;
    let mut w = RotatingFileWorker::new(&f.path, f.max_size_bytes, f.retained_generations, f.compress);
    assert_eq!(w.advance(FsEvent::Done), FsAction::Open);
    assert_eq!(w.advance(FsEvent::Opened(0)), FsAction::Next);
    for cmd in [write_cmd, flush_cmd] {
        let mut action = w.handle(&cmd);
        while action != FsAction::Next {
            match action {
                FsAction::Append => {
                    if let Cmd::Write(b) = &cmd {
                        file.extend_from_slice(b);
                    }
                    action = w.advance(FsEvent::Appended);
                }
                FsAction::Flush => {
                    flushed += 1;
                    action = w.advance(FsEvent::Done);
                }
                other => panic!("unexpected {:?}", other),
            }
        }
    }
    assert_eq!(file, b"hello\n".to_vec());
    assert_eq!(flushed, 1);
}

#[test]
fn file_only_output_skips_the_console() {
    let h = init_logging(&file_settings("file")).unwrap();
    let m = MultiWriter::new(&h.settings);
    assert!(!m.to_stdout);
    assert!(m.to_file);
    let mut w = m.make_writer();
    let (accepted, d) = w.write(b"");
    assert_eq!(accepted, 0);
    assert!(!d.console);
    assert!(matches!(d.command, Some(Cmd::Write(b)) if b.is_empty()));
}

#[test]
fn teardown_is_idempotent() {
    let mut h = init_logging(&file_settings("file")).unwrap();
    assert_eq!(h.shutdown(), Teardown::ShutdownAndJoin);
    assert_eq!(h.state, Lifecycle::ShuttingDown);
    assert_eq!(h.shutdown(), Teardown::Nothing);
    assert_eq!(h.state, Lifecycle::ShuttingDown);
    h.joined();
    assert_eq!(h.state, Lifecycle::Terminated);
    assert_eq!(h.shutdown(), Teardown::Nothing);
    assert_eq!(h.state, Lifecycle::Terminated);
    h.joined();
    assert_eq!(h.state, Lifecycle::Terminated);
}

#[test]
fn joined_does_not_end_a_running_handle() {
    let mut h = init_logging(&file_settings("file")).unwrap();
    h.joined();
    assert_eq!(h.state, Lifecycle::Running);
}

#[test]
fn global_logger_is_installed_once() {
    let mut slot: OnceSlot<LoggerHandle> = OnceSlot::new();
    assert!(init_global_logging(&mut slot, &file_settings("file")).is_ok());
    assert_eq!(slot.get().unwrap().settings.file.as_ref().unwrap().path, "logs/app.log");
    let mut other = file_settings("both");
    other.log_file = "elsewhere.log".to_string();
    let e = init_global_logging(&mut slot, &other).unwrap_err();
    assert!(matches!(e, ConfigError::LoggerAlreadyInitialized));
    assert_eq!(e.message(), "Logger already initialized");
    assert_eq!(slot.get().unwrap().settings.file.as_ref().unwrap().path, "logs/app.log");
    assert!(!slot.get().unwrap().settings.to_stdout);
}

#[test]
fn global_logger_is_not_installed_from_bad_settings() {
    let mut slot: OnceSlot<LoggerHandle> = OnceSlot::new();
    let mut t = TelemetryConfig::default();
    t.log_rotation.max_files = 0;
    assert!(matches!(init_global_logging(&mut slot, &t), Err(ConfigError::MaxFilesZero)));
    assert!(!slot.is_set());
}

#[test]
fn execute_installs_configuration_and_logger() {
    let mut config_slot = OnceSlot::new();
    let mut logger_slot = OnceSlot::new();
    let mut c = Config::default();
    c.telemetry = file_settings("both");
    let cmd = Run { config: "config.yaml".to_string() };
    cmd.execute(c, &mut config_slot, &mut logger_slot);
    assert_eq!(global(&config_slot).telemetry.log_file, "logs/app.log");
    let h = logger_slot.get().unwrap();
    assert_eq!(h.state, Lifecycle::Running);
    assert_eq!(h.settings.file.as_ref().unwrap().retained_generations, 2);
}

#[test]
fn execute_leaves_an_installed_logger_in_place() {
    let mut config_slot = OnceSlot::new();
    let mut logger_slot = OnceSlot::new();
    assert!(init_global_logging(&mut logger_slot, &file_settings("file")).is_ok());
    let c = Config::default();
    Run { config: "config.yaml".to_string() }.execute(c, &mut config_slot, &mut logger_slot);
    assert!(config_slot.is_set());
    let h = logger_slot.get().unwrap();
    assert!(!h.settings.to_stdout);
    assert_eq!(h.settings.file.as_ref().unwrap().path, "logs/app.log");
}

#[test]
fn run_hands_back_a_second_logger() {
    let mut config_slot = OnceSlot::new();
    let mut logger_slot = OnceSlot::new();
    let cli = Cli { command: Commands::Run(Run { config: "config.yaml".to_string() }) };
    let mut c = Config::default();
    c.telemetry = file_settings("file");
    let logger = run(&cli, c, &mut config_slot, &mut logger_slot).unwrap();
    assert_eq!(logger.state, Lifecycle::Running);
    assert_eq!(logger.settings.file.unwrap().max_size_bytes, 1_048_576);
    assert!(logger_slot.is_set());
    assert!(config_slot.is_set());
}

#[test]
fn run_with_the_default_configuration() {
    let mut config_slot = OnceSlot::new();
    let mut logger_slot = OnceSlot::new();
    let cli = Cli { command: Commands::Run(Run { config: "c.yaml".to_string() }) };
    let logger = run(&cli, Config::default(), &mut config_slot, &mut logger_slot).unwrap();
    assert!(logger.settings.to_stdout);
    assert!(logger.settings.file.is_none());
    assert_eq!(logger.settings.level, "info");
    assert!(logger_slot.is_set());
    assert_eq!(global(&config_slot).telemetry.log_output, "stdout");
}
