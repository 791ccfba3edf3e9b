//! The vocabulary between the file worker and whoever touches the file
//! system for it: the worker asks for one operation at a time and is told
//! how it went.

use vstd::prelude::*;

verus! {

/// A request placed on the queue of the background writer.
#[derive(Debug, Clone)]
pub enum Cmd {
    /// Append these bytes to the log file.
    Write(Vec<u8>),
    /// Force buffered bytes to storage.
    Flush,
    /// Flush once more and stop.
    Shutdown,
}

/// One operation that the worker asks for. Files are named by generation:
/// generation 0 is the active file, generation `n > 0` the file rotated out
/// `n` rotations ago.
#[derive(Debug, Clone, Copy, PartialEq, Eq, Structural)]
pub enum FsAction {
    /// Create the directories above the active file.
    CreateParentDir,
    /// Open the active file for appending, creating it if absent, and
    /// report its length.
    Open,
    /// Release the handle of the active file.
    Close,
    /// Report whether the file of this generation exists.
    Probe(usize),
    /// Delete the file of this generation; a failure is ignored.
    Remove(usize),
    /// Rename the file of the first generation to the second; a failure is
    /// ignored.
    Rename(usize, usize),
    /// Run the compression hook on the file of this generation; a failure
    /// is ignored.
    Compress(usize),
    /// Append the buffer of the command being served to the active file.
    Append,
    /// Force buffered bytes of the active file to storage; a failure is
    /// ignored.
    Flush,
    /// Report that the file writer could not be started.
    ReportStartFailure,
    /// Report that a write failed, then pause for the back-off time.
    ReportWriteFailure,
    /// Nothing is pending: hand over the next command.
    Next,
    /// The worker has finished: leave the loop.
    Stop,
}

/// How an operation went.
#[derive(Debug, Clone, Copy, PartialEq, Eq, Structural)]
pub enum FsEvent {
    /// The operation was carried out, or its failure is of no interest.
    Done,
    /// The answer to a probe.
    Exists(bool),
    /// The active file is open and has this length.
    Opened(u64),
    /// All bytes of the buffer were appended.
    Appended,
    /// The operation failed.
    Failed,
}

/// How long the worker pauses after a failed write, in milliseconds.
pub const WRITE_BACKOFF_MS: u64 = 5;

} // verus!
