//! The `run` subcommand.

use crate::config::schema::{config_fault, Config};
use crate::config::{global, init_global_from_file};
use crate::once::OnceSlot;
use crate::telemetry::logging::{init_global_logging, settings_of, Lifecycle, LoggerHandle};
use std::sync::Arc;
use vstd::prelude::*;

verus! {

/// The arguments of `run`.
#[derive(Debug)]
pub struct Run {
    /// Path of the configuration file.
    pub config: String,
}

impl Run {
    /// Starts the agent with the configuration `candidate`, read from the
    /// file that the arguments name: installs the configuration, then the
    /// logger that it asks for. A slot that holds a logger already is no
    /// obstacle: it is left as it was.
    pub fn execute(
        &self,
        candidate: Config,
        config_slot: &mut OnceSlot<Arc<Config>>,
        logger_slot: &mut OnceSlot<LoggerHandle>,
    )
        requires
            config_fault(&candidate) is None,
            old(config_slot)@ is None,
        ensures
            final(config_slot)@ matches Some(c) && *c == candidate,
            old(logger_slot)@ is None ==> (final(logger_slot)@ matches Some(h) && h.state
                == Lifecycle::Running && settings_of(&candidate.telemetry, h.settings)),
            old(logger_slot)@ is Some ==> final(logger_slot)@ == old(logger_slot)@,
    {
        let installed = init_global_from_file(config_slot, candidate);
        assert(installed is Ok);
        let cfg = global(config_slot);
        let _ = init_global_logging(logger_slot, &cfg.telemetry);
    }
}

} // verus!
