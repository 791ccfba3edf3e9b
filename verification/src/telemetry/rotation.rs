//! What a rotation does to the files, stated directly, and the proof that
//! the worker's steps do exactly that.

use crate::telemetry::model::{
    at_rest, lemma_steps_decrease, perform, renamed, run, Disk, Sim,
};
use crate::telemetry::worker::{action_of, after_shift, Phase, WorkerState};
use vstd::prelude::*;

verus! {

/// The files after the upward shift has handled the generations from
/// `keep` down to `j`: each of them that existed now stands one number
/// higher, and the generations below `j` are untouched.
pub open spec fn shift_above(d: Disk, keep: nat, j: nat) -> Disk {
    Map::new(
        |g: nat|
            if g < j {
                d.dom().contains(g)
            } else if g == j {
                j == keep + 1 && d.dom().contains(g)
            } else if g <= keep + 1 {
                d.dom().contains((g - 1) as nat) || (g == keep + 1 && d.dom().contains(g))
            } else {
                d.dom().contains(g)
            },
        |g: nat|
            if j < g <= keep + 1 && d.dom().contains((g - 1) as nat) {
                d[(g - 1) as nat]
            } else {
                d[g]
            },
    )
}

/// The files after one rotation that keeps `keep` generations, before the
/// active file is opened again. Without retention the active file is
/// deleted. With retention every file from the active one up to generation
/// `keep` moves one number up; what stood at `keep + 1` is replaced if
/// generation `keep` existed and stays otherwise; files beyond are
/// untouched.
pub open spec fn rotated(d: Disk, keep: nat) -> Disk {
    if keep == 0 {
        d.remove(0)
    } else {
        Map::new(
            |g: nat|
                g >= 1 && if g <= keep + 1 {
                    d.dom().contains((g - 1) as nat) || (g == keep + 1 && d.dom().contains(g))
                } else {
                    d.dom().contains(g)
                },
            |g: nat|
                if 1 <= g <= keep + 1 && d.dom().contains((g - 1) as nat) {
                    d[(g - 1) as nat]
                } else {
                    d[g]
                },
        )
    }
}

/// One operation of a run, written out.
pub proof fn lemma_run_step(s: WorkerState, sim: Sim, buf: Seq<u8>)
    requires
        s.wf(),
        !at_rest(s),
    ensures
        run(s, sim, buf) == run(
            s.next(perform(sim, action_of(s.phase), buf).1),
            perform(sim, action_of(s.phase), buf).0,
            buf,
        ),
{
    lemma_steps_decrease(s, perform(sim, action_of(s.phase), buf).1);
}

/// A run that starts at rest is over.
pub proof fn lemma_run_rest(s: WorkerState, sim: Sim, buf: Seq<u8>)
    requires
        at_rest(s),
    ensures
        run(s, sim, buf) == (s, sim),
{
}

/// The handling of generation `j` in the upward shift.
proof fn lemma_shift_one(s: WorkerState, sim: Sim, buf: Seq<u8>, d: Disk, j: nat)
    requires
        s.wf(),
        s.phase == Phase::ShiftProbe(j as usize),
        1 <= j <= s.keep,
        sim.disk == shift_above(d, s.keep as nat, j + 1),
    ensures
        run(s, sim, buf) == run(
            s.at(after_shift(j as usize)),
            Sim { disk: shift_above(d, s.keep as nat, j), ..sim },
            buf,
        ),
{
    let keep = s.keep as nat;
    let i = j as usize;
    let target = shift_above(d, keep, j);
    lemma_run_step(s, sim, buf);
    if d.dom().contains(j) {
        assert(sim.disk.dom().contains(j));
        let moved = renamed(sim.disk, j, j + 1);
        assert(moved =~= target);
        if j == keep {
            let s1 = s.at(Phase::ShiftCapProbe(i));
            lemma_run_step(s1, sim, buf);
            if sim.disk.dom().contains(j + 1) {
                let s2 = s.at(Phase::ShiftCapRemove(i));
                lemma_run_step(s2, sim, buf);
                let sim2 = Sim { disk: sim.disk.remove(j + 1), ..sim };
                let s3 = s.at(Phase::ShiftRename(i));
                lemma_run_step(s3, sim2, buf);
                assert(renamed(sim2.disk, j, j + 1) =~= target);
            } else {
                let s3 = s.at(Phase::ShiftRename(i));
                lemma_run_step(s3, sim, buf);
            }
        } else {
            let s3 = s.at(Phase::ShiftRename(i));
            lemma_run_step(s3, sim, buf);
        }
    } else {
        assert(!sim.disk.dom().contains(j));
        assert(sim.disk =~= target);
    }
}

/// The whole upward shift, from generation `j` down to generation 1.
proof fn lemma_shift(s: WorkerState, sim: Sim, buf: Seq<u8>, d: Disk, j: nat)
    requires
        s.wf(),
        s.phase == Phase::ShiftProbe(j as usize),
        1 <= j <= s.keep,
        sim.disk == shift_above(d, s.keep as nat, j + 1),
    ensures
        run(s, sim, buf) == run(
            s.at(Phase::BaseProbe),
            Sim { disk: shift_above(d, s.keep as nat, 1), ..sim },
            buf,
        ),
    decreases j,
{
    lemma_shift_one(s, sim, buf, d, j);
    if j > 1 {
        let s1 = s.at(Phase::ShiftProbe((j - 1) as usize));
        let sim1 = Sim { disk: shift_above(d, s.keep as nat, j), ..sim };
        lemma_shift(s1, sim1, buf, d, (j - 1) as nat);
    }
}

/// A rotation, from the release of the handle to the point where the
/// active file is opened again, leaves the files as [`rotated`] says.
pub proof fn lemma_rotation(s: WorkerState, sim: Sim, buf: Seq<u8>)
    requires
        s.wf(),
        s.phase == Phase::Closing,
    ensures
        run(s, sim, buf) == run(
            WorkerState { has_file: false, phase: Phase::Reopening, ..s },
            Sim { disk: rotated(sim.disk, s.keep as nat), ..sim },
            buf,
        ),
{
    let keep = s.keep as nat;
    let d = sim.disk;
    let c = WorkerState { has_file: false, ..s };
    let target = rotated(d, keep);
    lemma_run_step(s, sim, buf);
    if s.keep == 0 {
        let s1 = c.at(Phase::DropProbe);
        lemma_run_step(s1, sim, buf);
        if d.dom().contains(0) {
            lemma_run_step(c.at(Phase::DropRemove), sim, buf);
        } else {
            assert(d =~= target);
        }
    } else {
        let s1 = c.at(Phase::ShiftProbe(s.keep));
        assert(sim.disk =~= shift_above(d, keep, keep + 1));
        lemma_shift(s1, sim, buf, d, keep);
        let x = shift_above(d, keep, 1);
        let sim1 = Sim { disk: x, ..sim };
        let s2 = c.at(Phase::BaseProbe);
        lemma_run_step(s2, sim1, buf);
        if d.dom().contains(0) {
            assert(x.dom().contains(0));
            assert(!x.dom().contains(1));
            lemma_run_step(c.at(Phase::FirstProbe), sim1, buf);
            lemma_run_step(c.at(Phase::BaseRename), sim1, buf);
            assert(renamed(x, 0, 1) =~= target);
            let sim2 = Sim { disk: target, ..sim };
            if s.compress {
                lemma_run_step(c.at(Phase::Compressing), sim2, buf);
            }
        } else {
            assert(!x.dom().contains(0));
            assert(x =~= target);
        }
    }
}

} // verus!
