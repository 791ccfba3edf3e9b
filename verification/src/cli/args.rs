//! The command line, parsed.

use crate::cli::commands::Commands;
use vstd::prelude::*;

verus! {

/// A parsed command line: the subcommand that was given.
#[derive(Debug)]
pub struct Cli {
    pub command: Commands,
}

} // verus!
