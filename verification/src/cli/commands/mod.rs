pub mod run;

use crate::cli::commands::run::Run;
use vstd::prelude::*;

verus! {

/// The subcommands.
#[derive(Debug)]
pub enum Commands {
    /// Start the agent.
    Run(Run),
}

} // verus!
