pub mod cli;
pub mod config;
pub mod once;
pub mod telemetry;
pub mod text;

use crate::cli::args::Cli;
use crate::cli::commands::Commands;
use crate::config::error::ConfigError;
use crate::config::global;
use crate::config::schema::{config_fault, Config};
use crate::once::OnceSlot;
use crate::telemetry::logging::{init_logging, settings_of, Lifecycle, LoggerHandle};
use std::sync::Arc;
use vstd::prelude::*;

verus! {

/// Runs the command line `cli` with the configuration `candidate`: carries
/// out the subcommand, then sets up a logger of its own from the installed
/// configuration and hands it back. It never fails.
pub fn run(
    cli: &Cli,
    candidate: Config,
    config_slot: &mut OnceSlot<Arc<Config>>,
    logger_slot: &mut OnceSlot<LoggerHandle>,
) -> (r: Result<LoggerHandle, ConfigError>)
    requires
        config_fault(&candidate) is None,
        old(config_slot)@ is None,
    ensures
        r matches Ok(h) && h.state == Lifecycle::Running && settings_of(
            &candidate.telemetry,
            h.settings,
        ),
        final(config_slot)@ matches Some(c) && *c == candidate,
        old(logger_slot)@ is None ==> (final(logger_slot)@ matches Some(h) && h.state
            == Lifecycle::Running && settings_of(&candidate.telemetry, h.settings)),
        old(logger_slot)@ is Some ==> final(logger_slot)@ == old(logger_slot)@,
{
    match &cli.command {
        Commands::Run(run_cmd) => {
            run_cmd.execute(candidate, config_slot, logger_slot);
        },
    }
    let cfg = global(config_slot);
    init_logging(&cfg.telemetry)
}

} // verus!
