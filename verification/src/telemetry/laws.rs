//! What the worker guarantees, proved of the worker run against the model
//! of the log directory.

use crate::telemetry::model::{clip, contents, extended, opened, run, Disk, Sim};
use crate::telemetry::protocol::Cmd;
use crate::telemetry::rotation::{lemma_rotation, lemma_run_rest, lemma_run_step, rotated};
use crate::telemetry::worker::{grown, on_command, Phase, WorkerState};
use vstd::prelude::*;

verus! {

/// The worker's accounting agrees with the files: while it holds the active
/// file, the file exists and has the length that the worker believes.
pub open spec fn tracks(s: WorkerState, d: Disk) -> bool {
    s.has_file ==> d.dom().contains(0) && s.current_size == d[0].len()
}

/// The files after a write of `buf` by a worker in state `s`.
pub open spec fn written(s: WorkerState, d: Disk, buf: Seq<u8>) -> Disk {
    if s.overflows(buf.len() as usize) {
        extended(opened(rotated(d, s.keep as nat)), buf)
    } else if s.has_file {
        extended(d, buf)
    } else {
        d
    }
}

/// Opening a worker: it ends idle, holds the active file, and its size is
/// the true length of that file, whatever the file held before. The files
/// are untouched, but for an absent active file made empty.
pub proof fn lemma_open_resumes_size(s: WorkerState, sim: Sim, buf: Seq<u8>)
    requires
        s.wf(),
        s.phase == Phase::Created,
    ensures
        run(s, sim, buf).0 == (WorkerState {
            has_file: true,
            current_size: clip(contents(sim.disk, 0).len()),
            phase: Phase::Idle,
            ..s
        }),
        run(s, sim, buf).1 == (Sim { disk: opened(sim.disk), ..sim }),
        contents(sim.disk, 0).len() <= u64::MAX ==> tracks(
            run(s, sim, buf).0,
            run(s, sim, buf).1.disk,
        ),
{
    lemma_run_step(s, sim, buf);
    let s1 = s.at(Phase::OpeningFirst);
    lemma_run_step(s1, sim, buf);
    let s2 = WorkerState {
        has_file: true,
        current_size: clip(contents(sim.disk, 0).len()),
        phase: Phase::Idle,
        ..s
    };
    lemma_run_rest(s2, Sim { disk: opened(sim.disk), ..sim }, buf);
}

/// Serving a write. The files end as [`written`] says. A worker that holds
/// the file, or has to rotate, appends the buffer exactly once, ends idle
/// holding the file, and its accounting agrees with the files again.
pub proof fn lemma_write(s: WorkerState, sim: Sim, buf: Seq<u8>)
    requires
        s.wf(),
        s.phase == Phase::Idle,
        buf.len() <= usize::MAX,
        tracks(s, sim.disk),
    ensures
        ({
            let (s2, sim2) = run(s.on_write(buf.len() as usize), sim, buf);
            &&& s2.wf()
            &&& s2.phase == Phase::Idle
            &&& s2.keep == s.keep && s2.max_size == s.max_size && s2.compress == s.compress
            &&& tracks(s2, sim2.disk)
            &&& sim2.disk == written(s, sim.disk, buf)
            &&& sim2.flushed == sim.flushed
            &&& if s.has_file || s.overflows(buf.len() as usize) {
                s2.has_file && sim2.appended == sim.appended.push(buf)
            } else {
                s2 == s && sim2.appended == sim.appended
            }
        }),
{
    let len = buf.len() as usize;
    let s0 = s.on_write(len);
    if s.overflows(len) {
        lemma_rotation(s0, sim, buf);
        let d1 = rotated(sim.disk, s.keep as nat);
        assert(!d1.dom().contains(0));
        let s1 = WorkerState { has_file: false, phase: Phase::Reopening, ..s0 };
        let sim1 = Sim { disk: d1, ..sim };
        lemma_run_step(s1, sim1, buf);
        let s2 = WorkerState { has_file: true, current_size: 0, phase: Phase::Appending, ..s0 };
        let sim2 = Sim { disk: opened(d1), ..sim };
        lemma_run_step(s2, sim2, buf);
        let s3 = WorkerState { current_size: grown(0, len), phase: Phase::Idle, ..s2 };
        let sim3 = Sim {
            disk: extended(opened(d1), buf),
            appended: sim.appended.push(buf),
            ..sim
        };
        lemma_run_rest(s3, sim3, buf);
        assert(contents(opened(d1), 0) + buf =~= buf);
    } else if s.has_file {
        lemma_run_step(s0, sim, buf);
        let s3 = WorkerState { current_size: grown(s.current_size, len), phase: Phase::Idle, ..s0 };
        let sim3 = Sim { disk: extended(sim.disk, buf), appended: sim.appended.push(buf), ..sim };
        lemma_run_rest(s3, sim3, buf);
    } else {
        lemma_run_rest(s0, sim, buf);
    }
}

/// After a write the active file is never longer than the size ceiling and
/// the written record together: a record is appended whole, after a
/// rotation if it would not fit, and no earlier bytes stay before it then.
pub proof fn lemma_active_size_bound(s: WorkerState, sim: Sim, buf: Seq<u8>)
    requires
        s.wf(),
        s.phase == Phase::Idle,
        s.has_file,
        buf.len() <= usize::MAX,
        tracks(s, sim.disk),
    ensures
        ({
            let (s2, sim2) = run(s.on_write(buf.len() as usize), sim, buf);
            &&& sim2.disk.dom().contains(0)
            &&& sim2.disk[0].len() <= s.max_size + buf.len()
            &&& s.overflows(buf.len() as usize) ==> sim2.disk[0] == buf
            &&& !s.overflows(buf.len() as usize) ==> sim2.disk[0].len() <= s.max_size
        }),
{
    lemma_write(s, sim, buf);
    let d1 = rotated(sim.disk, s.keep as nat);
    assert(!d1.dom().contains(0));
    assert(contents(opened(d1), 0) + buf =~= buf);
}

/// The files after each of `segs` in turn was the contents of the active
/// file and was rotated out, the active file being opened again after each
/// rotation.
pub open spec fn after_rotations(d: Disk, keep: nat, segs: Seq<Seq<u8>>) -> Disk
    decreases segs.len(),
{
    if segs.len() == 0 {
        d
    } else {
        opened(rotated(after_rotations(d, keep, segs.drop_last()).insert(0, segs.last()), keep))
    }
}

/// The number of rotated generations on disk after `n` rotations. A
/// rotation moves generation `keep` to `keep + 1` before it deletes
/// anything, so with retention one generation more than `keep` can stand.
pub open spec fn generations_after(n: nat, keep: nat) -> nat {
    if keep == 0 {
        0
    } else if n <= keep + 1 {
        n
    } else {
        keep + 1
    }
}

/// Starting with no rotated file, after `n` rotations the rotated
/// generations on disk are exactly those numbered from 1 to
/// [`generations_after`], generation `g` holds what was rotated out `g`
/// rotations ago, and the active file is empty.
pub proof fn lemma_generations(d: Disk, keep: nat, segs: Seq<Seq<u8>>)
    requires
        forall|g: nat| d.dom().contains(g) ==> g == 0,
    ensures
        forall|g: nat|
            g >= 1 ==> (#[trigger] after_rotations(d, keep, segs).dom().contains(g) <==> g
                <= generations_after(segs.len(), keep)),
        forall|g: nat|
            1 <= g <= generations_after(segs.len(), keep) ==> #[trigger] after_rotations(
                d,
                keep,
                segs,
            )[g] == segs[segs.len() - g],
        segs.len() > 0 ==> after_rotations(d, keep, segs).dom().contains(0) && after_rotations(
            d,
            keep,
            segs,
        )[0] == Seq::<u8>::empty(),
    decreases segs.len(),
{
    if segs.len() > 0 {
        let before = segs.drop_last();
        lemma_generations(d, keep, before);
        let prev = after_rotations(d, keep, before);
        let full = prev.insert(0, segs.last());
        let now = after_rotations(d, keep, segs);
        assert(now == opened(rotated(full, keep)));
        assert forall|g: nat| g >= 1 implies (#[trigger] now.dom().contains(g) <==> g
            <= generations_after(segs.len(), keep)) by {
            if g >= 2 {
                assert(prev.dom().contains((g - 1) as nat) <==> (g - 1) as nat
                    <= generations_after(before.len(), keep));
            }
            assert(prev.dom().contains(g) <==> g <= generations_after(before.len(), keep));
        }
        assert forall|g: nat| 1 <= g <= generations_after(segs.len(), keep) implies #[trigger] now[g]
            == segs[segs.len() - g] by {
            if g >= 2 {
                assert(prev.dom().contains((g - 1) as nat));
                assert(prev[(g - 1) as nat] == before[before.len() - (g - 1)]);
            }
        }
    }
}

/// Retention. Starting with no rotated file, after `n` rotations that keep
/// `keep` generations, with `n` no more than `keep` or with no retention at
/// all, exactly `min(n, keep)` rotated generations are on disk; they are
/// numbered from 1, the newest, upwards by age, and no generation beyond
/// `keep` exists.
pub proof fn lemma_retention(d: Disk, keep: nat, segs: Seq<Seq<u8>>)
    requires
        forall|g: nat| d.dom().contains(g) ==> g == 0,
        segs.len() <= keep || keep == 0,
    ensures
        forall|g: nat|
            g >= 1 ==> (#[trigger] after_rotations(d, keep, segs).dom().contains(g) <==> g <= keep
                && g <= segs.len()),
        forall|g: nat|
            1 <= g <= keep && g <= segs.len() ==> #[trigger] after_rotations(d, keep, segs)[g]
                == segs[segs.len() - g],
        forall|g: nat| g > keep ==> !after_rotations(d, keep, segs).dom().contains(g),
{
    lemma_generations(d, keep, segs);
}

/// However many rotations have run, no generation beyond `keep + 1` exists.
pub proof fn lemma_generations_bounded(d: Disk, keep: nat, segs: Seq<Seq<u8>>)
    requires
        forall|g: nat| d.dom().contains(g) ==> g == 0,
    ensures
        forall|g: nat| g > keep + 1 ==> !after_rotations(d, keep, segs).dom().contains(g),
        keep == 0 ==> forall|g: nat| g >= 1 ==> !after_rotations(d, keep, segs).dom().contains(g),
{
    lemma_generations(d, keep, segs);
}

/// The bytes that a command carries.
pub open spec fn payload(cmd: Cmd) -> Seq<u8> {
    match cmd {
        Cmd::Write(buf) => buf@,
        _ => Seq::empty(),
    }
}

/// The worker and the world after an idle worker has served one command.
pub open spec fn serve(s: WorkerState, sim: Sim, cmd: Cmd) -> (WorkerState, Sim) {
    run(on_command(s, cmd), sim, payload(cmd))
}

/// The worker and the world after the commands of a queue were served in
/// order, up to the first that stops the worker.
pub open spec fn serve_all(s: WorkerState, sim: Sim, cmds: Seq<Cmd>) -> (WorkerState, Sim)
    decreases cmds.len(),
{
    if cmds.len() == 0 || s.phase != Phase::Idle {
        (s, sim)
    } else {
        let (s1, sim1) = serve(s, sim, cmds[0]);
        serve_all(s1, sim1, cmds.drop_first())
    }
}

/// The buffers of the writes that stand in a queue before its first
/// shutdown, in order.
pub open spec fn writes_before_shutdown(cmds: Seq<Cmd>) -> Seq<Seq<u8>>
    decreases cmds.len(),
{
    if cmds.len() == 0 {
        Seq::empty()
    } else {
        match cmds[0] {
            Cmd::Write(buf) => seq![buf@] + writes_before_shutdown(cmds.drop_first()),
            Cmd::Flush => writes_before_shutdown(cmds.drop_first()),
            Cmd::Shutdown => Seq::empty(),
        }
    }
}

/// Whether a queue holds a shutdown.
pub open spec fn has_shutdown(cmds: Seq<Cmd>) -> bool {
    exists|i: int| 0 <= i < cmds.len() && #[trigger] cmds[i] is Shutdown
}

/// Serving one command that is no shutdown: the worker is idle again and
/// holds the file, and a write has appended its buffer once.
pub proof fn lemma_serve(s: WorkerState, sim: Sim, cmd: Cmd)
    requires
        s.wf(),
        s.phase == Phase::Idle,
        s.has_file,
        tracks(s, sim.disk),
    ensures
        ({
            let (s2, sim2) = serve(s, sim, cmd);
            &&& s2.wf()
            &&& s2.has_file
            &&& tracks(s2, sim2.disk)
            &&& s2.keep == s.keep && s2.max_size == s.max_size && s2.compress == s.compress
            &&& match cmd {
                Cmd::Write(buf) => s2.phase == Phase::Idle && sim2.appended == sim.appended.push(
                    buf@,
                ) && sim2.flushed == sim.flushed && sim2.disk == written(s, sim.disk, buf@),
                Cmd::Flush => s2 == s && sim2 == (Sim { flushed: sim.appended.len(), ..sim }),
                Cmd::Shutdown => s2 == s.at(Phase::Stopped) && sim2 == (Sim {
                    flushed: sim.appended.len(),
                    ..sim
                }),
            }
        }),
{
    match cmd {
        Cmd::Write(buf) => {
            vstd::std_specs::vec::axiom_spec_len(&buf);
            lemma_write(s, sim, buf@);
        },
        Cmd::Flush => {
            let s1 = s.at(Phase::Flushing(false));
            lemma_run_step(s1, sim, payload(cmd));
            lemma_run_rest(s, Sim { flushed: sim.appended.len(), ..sim }, payload(cmd));
        },
        Cmd::Shutdown => {
            let s1 = s.at(Phase::Flushing(true));
            lemma_run_step(s1, sim, payload(cmd));
            lemma_run_rest(
                s.at(Phase::Stopped),
                Sim { flushed: sim.appended.len(), ..sim },
                payload(cmd),
            );
        },
    }
}

/// Nothing is dropped. A worker that holds its file appends the buffer of
/// every write that stands in the queue before the first shutdown, each
/// once and in the order of the queue, and appends nothing else. If the
/// queue holds a shutdown, the worker ends stopped and a flush has covered
/// every buffer appended; if not, it ends idle.
pub proof fn lemma_no_write_dropped(s: WorkerState, sim: Sim, cmds: Seq<Cmd>)
    requires
        s.wf(),
        s.phase == Phase::Idle,
        s.has_file,
        tracks(s, sim.disk),
    ensures
        ({
            let (s2, sim2) = serve_all(s, sim, cmds);
            &&& sim2.appended == sim.appended + writes_before_shutdown(cmds)
            &&& s2.wf()
            &&& s2.has_file
            &&& tracks(s2, sim2.disk)
            &&& s2.keep == s.keep && s2.max_size == s.max_size && s2.compress == s.compress
            &&& if has_shutdown(cmds) {
                s2.phase == Phase::Stopped && sim2.flushed == sim2.appended.len()
            } else {
                s2.phase == Phase::Idle
            }
        }),
    decreases cmds.len(),
{
    if cmds.len() == 0 {
        assert(sim.appended + Seq::<Seq<u8>>::empty() =~= sim.appended);
    } else {
        let rest = cmds.drop_first();
        lemma_serve(s, sim, cmds[0]);
        let (s1, sim1) = serve(s, sim, cmds[0]);
        match cmds[0] {
            Cmd::Shutdown => {
                assert(serve_all(s1, sim1, rest) == (s1, sim1));
                assert(sim.appended + Seq::<Seq<u8>>::empty() =~= sim.appended);
                assert(cmds[0] is Shutdown);
            },
            Cmd::Write(buf) => {
                lemma_no_write_dropped(s1, sim1, rest);
                assert(sim.appended.push(buf@) + writes_before_shutdown(rest) =~= sim.appended + (
                seq![buf@] + writes_before_shutdown(rest)));
                lemma_shutdown_in_rest(cmds);
            },
            Cmd::Flush => {
                lemma_no_write_dropped(s1, sim1, rest);
                lemma_shutdown_in_rest(cmds);
            },
        }
    }
}

/// The size bound holds throughout: whatever queue without a shutdown a
/// worker has served, after one more write the active file is no longer
/// than the size ceiling and that one record together.
pub proof fn lemma_size_bound_after_queue(s: WorkerState, sim: Sim, cmds: Seq<Cmd>, last: Vec<u8>)
    requires
        s.wf(),
        s.phase == Phase::Idle,
        s.has_file,
        tracks(s, sim.disk),
        !has_shutdown(cmds),
    ensures
        ({
            let (s1, sim1) = serve_all(s, sim, cmds);
            let (s2, sim2) = serve(s1, sim1, Cmd::Write(last));
            &&& sim2.disk.dom().contains(0)
            &&& sim2.disk[0].len() <= s.max_size + last@.len()
        }),
{
    lemma_no_write_dropped(s, sim, cmds);
    let (s1, sim1) = serve_all(s, sim, cmds);
    vstd::std_specs::vec::axiom_spec_len(&last);
    lemma_active_size_bound(s1, sim1, last@);
}

/// A queue that does not start with a shutdown holds one exactly if its
/// rest does.
proof fn lemma_shutdown_in_rest(cmds: Seq<Cmd>)
    requires
        cmds.len() > 0,
        !(cmds[0] is Shutdown),
    ensures
        has_shutdown(cmds) <==> has_shutdown(cmds.drop_first()),
{
    let rest = cmds.drop_first();
    if has_shutdown(cmds) {
        let i = choose|i: int| 0 <= i < cmds.len() && #[trigger] cmds[i] is Shutdown;
        assert(rest[i - 1] is Shutdown);
    }
    if has_shutdown(rest) {
        let i = choose|i: int| 0 <= i < rest.len() && #[trigger] rest[i] is Shutdown;
        assert(cmds[i + 1] is Shutdown);
    }
}

} // verus!
