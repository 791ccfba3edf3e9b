//! A model of the log directory, against which the worker is run in proofs.
//! The model maps a generation to the bytes of its file; every operation
//! succeeds in it, and compression leaves a file as it is.

use crate::telemetry::protocol::{FsAction, FsEvent};
use crate::telemetry::worker::{action_of, Phase, WorkerState};
use vstd::prelude::*;

verus! {

/// The files of the log directory: generation to contents.
pub type Disk = Map<nat, Seq<u8>>;

/// The modelled world: the files, and a record of what was asked of it.
pub struct Sim {
    pub disk: Disk,
    /// The buffers appended so far, oldest first.
    pub appended: Seq<Seq<u8>>,
    /// How many of the appended buffers a flush has covered.
    pub flushed: nat,
}

/// A length as the file system reports it.
pub open spec fn clip(n: nat) -> u64 {
    if n > u64::MAX {
        u64::MAX
    } else {
        n as u64
    }
}

/// The contents of a generation; empty if there is no such file.
pub open spec fn contents(d: Disk, g: nat) -> Seq<u8> {
    if d.dom().contains(g) {
        d[g]
    } else {
        Seq::empty()
    }
}

/// The disk after renaming generation `from` to `to`: nothing happens if
/// `from` does not exist, and an existing `to` is replaced.
pub open spec fn renamed(d: Disk, from: nat, to: nat) -> Disk {
    if d.dom().contains(from) {
        d.remove(from).insert(to, d[from])
    } else {
        d
    }
}

/// The disk after opening the active file for appending.
pub open spec fn opened(d: Disk) -> Disk {
    if d.dom().contains(0) {
        d
    } else {
        d.insert(0, Seq::empty())
    }
}

/// The disk after appending `buf` to the active file.
pub open spec fn extended(d: Disk, buf: Seq<u8>) -> Disk {
    d.insert(0, contents(d, 0) + buf)
}

/// The world after the operation `a`, and the outcome that it reports.
/// `buf` is the buffer of the command being served.
pub open spec fn perform(sim: Sim, a: FsAction, buf: Seq<u8>) -> (Sim, FsEvent) {
    match a {
        FsAction::Probe(g) => (sim, FsEvent::Exists(sim.disk.dom().contains(g as nat))),
        FsAction::Remove(g) => (Sim { disk: sim.disk.remove(g as nat), ..sim }, FsEvent::Done),
        FsAction::Rename(from, to) => (
            Sim { disk: renamed(sim.disk, from as nat, to as nat), ..sim },
            FsEvent::Done,
        ),
        FsAction::Open => (
            Sim { disk: opened(sim.disk), ..sim },
            FsEvent::Opened(clip(contents(sim.disk, 0).len())),
        ),
        FsAction::Append => (
            Sim { disk: extended(sim.disk, buf), appended: sim.appended.push(buf), ..sim },
            FsEvent::Appended,
        ),
        FsAction::Flush => (Sim { flushed: sim.appended.len(), ..sim }, FsEvent::Done),
        _ => (sim, FsEvent::Done),
    }
}

/// A bound on the number of operations that a state still asks for before
/// the worker is idle or stopped.
pub open spec fn steps_left(s: WorkerState) -> nat {
    match s.phase {
        Phase::Idle => 0,
        Phase::Stopped => 0,
        Phase::Flushing(_) => 1,
        Phase::ReportingWrite => 2,
        Phase::ReportingStart => 2,
        Phase::Appending => 3,
        Phase::OpeningFirst => 3,
        Phase::Reopening => 4,
        Phase::Created => 4,
        Phase::Compressing => 5,
        Phase::BaseRename => 6,
        Phase::FirstRemove => 7,
        Phase::FirstProbe => 8,
        Phase::DropRemove => 8,
        Phase::BaseProbe => 9,
        Phase::DropProbe => 9,
        Phase::ShiftRename(i) => (4 * i + 10) as nat,
        Phase::ShiftCapRemove(i) => (4 * i + 11) as nat,
        Phase::ShiftCapProbe(i) => (4 * i + 12) as nat,
        Phase::ShiftProbe(i) => (4 * i + 13) as nat,
        Phase::Closing => (4 * s.keep + 16) as nat,
    }
}

/// Whether a state asks for no operation.
pub open spec fn at_rest(s: WorkerState) -> bool {
    s.phase == Phase::Idle || s.phase == Phase::Stopped
}

/// Every operation brings the worker nearer to rest.
pub proof fn lemma_steps_decrease(s: WorkerState, e: FsEvent)
    requires
        s.wf(),
        !at_rest(s),
    ensures
        steps_left(s.next(e)) < steps_left(s),
{
}

/// The worker run against the model until it is at rest: each operation it
/// asks for is performed and its outcome handed back.
pub open spec fn run(s: WorkerState, sim: Sim, buf: Seq<u8>) -> (WorkerState, Sim)
    decreases steps_left(s),
{
    if at_rest(s) {
        (s, sim)
    } else {
        let (sim2, e) = perform(sim, action_of(s.phase), buf);
        let s2 = s.next(e);
        if steps_left(s2) < steps_left(s) {
            run(s2, sim2, buf)
        } else {
            (s, sim)
        }
    }
}

} // verus!
