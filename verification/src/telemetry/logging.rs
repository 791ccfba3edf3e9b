//! The logger as its owner sees it: validation of the logging settings, the
//! plan that follows from them, the writer that fans a record out, and the
//! life cycle of the handle.

use crate::config::error::{ConfigError, ConfigFault};
use crate::config::schema::{
    check_telemetry, output_wants_file, output_wants_stdout, telemetry_fault, wants_file,
    wants_stdout, TelemetryConfig,
};
use crate::once::OnceSlot;
use crate::telemetry::protocol::Cmd;
use crate::text::{ascii_lower, is_blank, same_text, to_ascii_lowercase};
use vstd::prelude::*;
use vstd::slice::slice_to_vec;

verus! {

/// Accepts logging settings whose level, format and output are known, that
/// name a log file where the output includes one, and whose rotation
/// threshold and file count are positive; otherwise reports the first fault.
pub fn validate_config(cfg: &TelemetryConfig) -> (r: Result<(), ConfigError>)
    ensures
        r is Ok <==> telemetry_fault(cfg) is None,
        r matches Err(e) ==> telemetry_fault(cfg) == Some(e@),
{
    check_telemetry(cfg)
}

/// How the log file is written and rotated.
#[derive(Debug, Clone)]
pub struct FileSettings {
    /// Path of the active file.
    pub path: String,
    /// Size in bytes above which a write rotates first.
    pub max_size_bytes: u64,
    /// Number of rotated generations to keep.
    pub retained_generations: usize,
    /// Whether a rotated file is handed to the compression hook.
    pub compress: bool,
}

/// Everything that the logging settings decide.
#[derive(Debug, Clone)]
pub struct LogSettings {
    /// The level below which records are filtered out, in lower case.
    pub level: String,
    /// Whether records are encoded as JSON; plain text otherwise.
    pub json: bool,
    /// Whether records go to the console.
    pub to_stdout: bool,
    /// The file that records go to, if any.
    pub file: Option<FileSettings>,
}

/// Whether `s` is what valid settings `cfg` decide. Level, format and
/// output count as folded to lower case.
pub open spec fn settings_of(cfg: &TelemetryConfig, s: LogSettings) -> bool {
    &&& s.level@ == ascii_lower(cfg.log_level@)
    &&& s.json == (ascii_lower(cfg.log_format@) == "json"@)
    &&& s.to_stdout == wants_stdout(ascii_lower(cfg.log_output@))
    &&& s.file is Some <==> wants_file(ascii_lower(cfg.log_output@))
    &&& s.file matches Some(f) ==> {
        &&& f.path@ == cfg.log_file@
        &&& f.max_size_bytes == cfg.log_rotation.max_size_mb * 1048576
        &&& f.retained_generations == cfg.log_rotation.max_files - 1
        &&& f.compress == cfg.log_rotation.compress
    }
}

/// Every accepted output has a destination: settings without fault send
/// records to the console, to the file, or to both.
pub proof fn lemma_accepted_output_has_destination(cfg: &TelemetryConfig, s: LogSettings)
    requires
        telemetry_fault(cfg) is None,
        settings_of(cfg, s),
    ensures
        s.to_stdout || s.file is Some,
        s.file is Some ==> !is_blank(cfg.log_file@),
{
}

/// Where a handle stands in its life.
#[derive(Debug, Clone, Copy, PartialEq, Eq, Structural)]
pub enum Lifecycle {
    /// No logger has been set up.
    Uninitialized,
    /// The logger is in use.
    Running,
    /// Teardown has begun: the worker is being told to stop and waited for.
    ShuttingDown,
    /// Teardown is over.
    Terminated,
}

/// What the owner of a handle has to do at a teardown.
#[derive(Debug, Clone, Copy, PartialEq, Eq, Structural)]
pub enum Teardown {
    /// Send the shutdown command, then wait for the worker to end.
    ShutdownAndJoin,
    /// Nothing: there is no worker, or teardown has been done before.
    Nothing,
}

/// The handle of a logger: what was decided for it and where it stands.
#[derive(Debug, Clone)]
pub struct LoggerHandle {
    pub settings: LogSettings,
    pub state: Lifecycle,
}

/// Sets up a logger from its settings: checks them and decides level,
/// encoding, destinations and rotation. The handle starts out running.
pub fn init_logging(cfg: &TelemetryConfig) -> (r: Result<LoggerHandle, ConfigError>)
    ensures
        r is Ok <==> telemetry_fault(cfg) is None,
        r matches Err(e) ==> telemetry_fault(cfg) == Some(e@),
        r matches Ok(h) ==> h.state == Lifecycle::Running && settings_of(cfg, h.settings),
{
    match validate_config(cfg) {
        Err(e) => {
            return Err(e);
        },
        Ok(_) => {},
    }
    let level = to_ascii_lowercase(cfg.log_level.as_str());
    let format = to_ascii_lowercase(cfg.log_format.as_str());
    let output = to_ascii_lowercase(cfg.log_output.as_str());
    let keep: usize = (cfg.log_rotation.max_files - 1) as usize;
    let mb: u64 = cfg.log_rotation.max_size_mb as u64;
    let max_size_bytes: u64 = mb * 1024 * 1024;
    let file = if output_wants_file(output.as_str()) {
        Some(
            FileSettings {
                path: cfg.log_file.clone(),
                max_size_bytes,
                retained_generations: keep,
                compress: cfg.log_rotation.compress,
            },
        )
    } else {
        None
    };
    let settings = LogSettings {
        level,
        json: same_text(format.as_str(), "json"),
        to_stdout: output_wants_stdout(output.as_str()),
        file,
    };
    Ok(LoggerHandle { settings, state: Lifecycle::Running })
}

impl LoggerHandle {
    /// The state after a teardown has begun in state `s`: a running handle
    /// with a worker shuts down, one without is done at once, and any other
    /// state stays.
    pub open spec fn after_teardown(s: Lifecycle, has_worker: bool) -> Lifecycle {
        if s == Lifecycle::Running {
            if has_worker {
                Lifecycle::ShuttingDown
            } else {
                Lifecycle::Terminated
            }
        } else {
            s
        }
    }

    /// What a teardown begun in state `s` asks of the owner.
    pub open spec fn teardown_of(s: Lifecycle, has_worker: bool) -> Teardown {
        if s == Lifecycle::Running && has_worker {
            Teardown::ShutdownAndJoin
        } else {
            Teardown::Nothing
        }
    }

    /// Whether a background worker belongs to this logger.
    pub fn has_worker(&self) -> (r: bool)
        ensures
            r == (self.settings.file is Some),
    {
        self.settings.file.is_some()
    }

    /// Begins the teardown. Only the first call on a running handle asks
    /// for anything; every later call asks for nothing and changes nothing.
    pub fn shutdown(&mut self) -> (t: Teardown)
        ensures
            t == Self::teardown_of(old(self).state, old(self).settings.file is Some),
            final(self).state == Self::after_teardown(
                old(self).state,
                old(self).settings.file is Some,
            ),
            final(self).settings == old(self).settings,
    {
        match self.state {
            Lifecycle::Running => {
                if self.settings.file.is_some() {
                    self.state = Lifecycle::ShuttingDown;
                    Teardown::ShutdownAndJoin
                } else {
                    self.state = Lifecycle::Terminated;
                    Teardown::Nothing
                }
            },
            _ => Teardown::Nothing,
        }
    }

    /// Records that the worker has ended: a handle that was shutting down
    /// is terminated.
    pub fn joined(&mut self)
        ensures
            final(self).state == (if old(self).state == Lifecycle::ShuttingDown {
                Lifecycle::Terminated
            } else {
                old(self).state
            }),
            final(self).settings == old(self).settings,
    {
        match self.state {
            Lifecycle::ShuttingDown => {
                self.state = Lifecycle::Terminated;
            },
            _ => {},
        }
    }
}

/// Teardown is idempotent: whatever the state, a second teardown asks for
/// nothing and leaves the state of the first.
pub proof fn lemma_teardown_idempotent(s: Lifecycle, has_worker: bool)
    ensures
        LoggerHandle::teardown_of(LoggerHandle::after_teardown(s, has_worker), has_worker)
            == Teardown::Nothing,
        LoggerHandle::after_teardown(LoggerHandle::after_teardown(s, has_worker), has_worker)
            == LoggerHandle::after_teardown(s, has_worker),
{
}

/// In the whole life of a handle the shutdown command is asked for at most
/// once: after it was asked for, the handle is never running again.
pub proof fn lemma_shutdown_sent_once(s: Lifecycle, has_worker: bool)
    requires
        LoggerHandle::teardown_of(s, has_worker) == Teardown::ShutdownAndJoin,
    ensures
        LoggerHandle::after_teardown(s, has_worker) == Lifecycle::ShuttingDown,
        LoggerHandle::teardown_of(Lifecycle::ShuttingDown, has_worker) == Teardown::Nothing,
        LoggerHandle::teardown_of(Lifecycle::Terminated, has_worker) == Teardown::Nothing,
{
}

/// The writer that the formatting layer is given: it says where each
/// record goes.
#[derive(Debug, Clone, Copy, PartialEq, Eq, Structural)]
pub struct MultiWriter {
    /// Whether records go to the console.
    pub to_stdout: bool,
    /// Whether records go to the background writer.
    pub to_file: bool,
}

/// A writer for one record, made by a [`MultiWriter`].
#[derive(Debug, Clone, Copy, PartialEq, Eq, Structural)]
pub struct MultiWriterHandle {
    pub to_stdout: bool,
    pub to_file: bool,
}

/// What is to be done with one call of the writer.
#[derive(Debug, Clone)]
pub struct Dispatch {
    /// Whether the console takes part: the buffer is written to it, or it
    /// is flushed. A failure there is ignored.
    pub console: bool,
    /// The command to put on the queue of the background writer, if any. A
    /// failure to enqueue is ignored.
    pub command: Option<Cmd>,
}

impl MultiWriter {
    /// The writer that the settings of a logger ask for.
    pub fn new(settings: &LogSettings) -> (w: Self)
        ensures
            w.to_stdout == settings.to_stdout,
            w.to_file == (settings.file is Some),
    {
        MultiWriter { to_stdout: settings.to_stdout, to_file: settings.file.is_some() }
    }

    /// A writer for one record, with the destinations of this writer.
    pub fn make_writer(&self) -> (h: MultiWriterHandle)
        ensures
            h.to_stdout == self.to_stdout,
            h.to_file == self.to_file,
    {
        MultiWriterHandle { to_stdout: self.to_stdout, to_file: self.to_file }
    }
}

impl MultiWriterHandle {
    /// Takes a record: it goes to the console if that is enabled, and a
    /// copy of it is queued for the file if that is enabled. The whole
    /// buffer is always accepted.
    pub fn write(&mut self, buf: &[u8]) -> (r: (usize, Dispatch))
        ensures
            *final(self) == *old(self),
            r.0 == buf@.len(),
            r.1.console == old(self).to_stdout,
            r.1.command is Some <==> old(self).to_file,
            r.1.command matches Some(c) ==> (c matches Cmd::Write(copy) && copy@ == buf@),
    {
        let command = if self.to_file {
            Some(Cmd::Write(slice_to_vec(buf)))
        } else {
            None
        };
        (buf.len(), Dispatch { console: self.to_stdout, command })
    }

    /// Flushes: the console is flushed if it is enabled, and a flush is
    /// queued for the file if that is enabled.
    pub fn flush(&mut self) -> (r: Dispatch)
        ensures
            *final(self) == *old(self),
            r.console == old(self).to_stdout,
            r.command is Some <==> old(self).to_file,
            r.command matches Some(c) ==> c is Flush,
    {
        let command = if self.to_file {
            Some(Cmd::Flush)
        } else {
            None
        };
        Dispatch { console: self.to_stdout, command }
    }
}

/// Sets up a logger and installs it in `slot`, the one place for the
/// logger of the process. Nothing is installed if the settings are at
/// fault; and a slot that is filled keeps its logger, and the attempt
/// fails.
pub fn init_global_logging(slot: &mut OnceSlot<LoggerHandle>, cfg: &TelemetryConfig) -> (r: Result<
    (),
    ConfigError,
>)
    ensures
        r is Ok <==> telemetry_fault(cfg) is None && old(slot)@ is None,
        r matches Err(e) ==> e@ == (if telemetry_fault(cfg) is Some {
            telemetry_fault(cfg)->Some_0
        } else {
            ConfigFault::LoggerAlreadyInitialized
        }),
        r is Err ==> final(slot)@ == old(slot)@,
        r is Ok ==> (final(slot)@ matches Some(h) && h.state == Lifecycle::Running && settings_of(
            cfg,
            h.settings,
        )),
{
    let handle = match init_logging(cfg) {
        Err(e) => {
            return Err(e);
        },
        Ok(h) => h,
    };
    match slot.set(handle) {
        Ok(_) => Ok(()),
        Err(_) => Err(ConfigError::LoggerAlreadyInitialized),
    }
}

} // verus!
