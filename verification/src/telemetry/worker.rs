//! The rotating file worker as a state machine. The worker owns the
//! accounting of the active file and decides every step of a write, a flush
//! and a rotation; it never touches the file system itself. In each phase it
//! waits for the outcome of exactly one operation, [`action_of`] that phase,
//! and [`next`] gives the state that follows the outcome.

use crate::telemetry::protocol::{Cmd, FsAction, FsEvent};
use crate::text::{decimal, decimal_string, lemma_decimal_injective, lemma_decimal_nonempty};
use vstd::string::StringExecFns;
use vstd::prelude::*;

verus! {

/// Where the worker stands. A phase with an index speaks of the generation
/// with that number.
#[derive(Debug, Clone, Copy, PartialEq, Eq, Structural)]
pub enum Phase {
    /// Made, nothing done yet: the parent directories are to be created.
    Created,
    /// Opening the active file for the first time.
    OpeningFirst,
    /// Startup failed and is being reported.
    ReportingStart,
    /// Waiting for a command.
    Idle,
    /// Rotation: releasing the active handle.
    Closing,
    /// Rotation: asking whether generation `i` exists.
    ShiftProbe(usize),
    /// Rotation: generation `i` is the oldest kept; asking whether
    /// generation `i + 1` is in its way.
    ShiftCapProbe(usize),
    /// Rotation: deleting generation `i + 1`.
    ShiftCapRemove(usize),
    /// Rotation: renaming generation `i` to `i + 1`.
    ShiftRename(usize),
    /// Rotation: asking whether the active file exists.
    BaseProbe,
    /// Rotation: asking whether generation 1 is still there.
    FirstProbe,
    /// Rotation: deleting generation 1.
    FirstRemove,
    /// Rotation: renaming the active file to generation 1.
    BaseRename,
    /// Rotation: compressing generation 1.
    Compressing,
    /// Rotation without retention: asking whether the active file exists.
    DropProbe,
    /// Rotation without retention: deleting the active file.
    DropRemove,
    /// Rotation: opening a fresh active file.
    Reopening,
    /// Appending the buffer of the write being served.
    Appending,
    /// A write failed and is being reported.
    ReportingWrite,
    /// Flushing; `true` when the worker stops afterwards.
    Flushing(bool),
    /// Finished; no command is served any more.
    Stopped,
}

/// The accounting of the worker.
#[derive(Debug, Clone, Copy, PartialEq, Eq, Structural)]
pub struct WorkerState {
    /// Whether a handle of the active file is held.
    pub has_file: bool,
    /// Length of the active file as the worker knows it.
    pub current_size: u64,
    /// Size above which a write rotates first.
    pub max_size: u64,
    /// Number of rotated generations to keep.
    pub keep: usize,
    /// Whether a rotated file is handed to the compression hook.
    pub compress: bool,
    /// Length of the buffer of the write being served.
    pub pending: usize,
    pub phase: Phase,
}

/// The operation whose outcome a phase waits for.
pub open spec fn action_of(p: Phase) -> FsAction {
    match p {
        Phase::Created => FsAction::CreateParentDir,
        Phase::OpeningFirst => FsAction::Open,
        Phase::ReportingStart => FsAction::ReportStartFailure,
        Phase::Idle => FsAction::Next,
        Phase::Closing => FsAction::Close,
        Phase::ShiftProbe(i) => FsAction::Probe(i),
        Phase::ShiftCapProbe(i) => FsAction::Probe((i + 1) as usize),
        Phase::ShiftCapRemove(i) => FsAction::Remove((i + 1) as usize),
        Phase::ShiftRename(i) => FsAction::Rename(i, (i + 1) as usize),
        Phase::BaseProbe => FsAction::Probe(0),
        Phase::FirstProbe => FsAction::Probe(1),
        Phase::FirstRemove => FsAction::Remove(1),
        Phase::BaseRename => FsAction::Rename(0, 1),
        Phase::Compressing => FsAction::Compress(1),
        Phase::DropProbe => FsAction::Probe(0),
        Phase::DropRemove => FsAction::Remove(0),
        Phase::Reopening => FsAction::Open,
        Phase::Appending => FsAction::Append,
        Phase::ReportingWrite => FsAction::ReportWriteFailure,
        Phase::Flushing(_) => FsAction::Flush,
        Phase::Stopped => FsAction::Stop,
    }
}

/// The phase that follows the handling of generation `i` in the upward
/// shift: the next younger generation, or the active file after the last.
pub open spec fn after_shift(i: usize) -> Phase {
    if i > 1 {
        Phase::ShiftProbe((i - 1) as usize)
    } else {
        Phase::BaseProbe
    }
}

/// The sum of a size and a length, held at the largest size.
pub open spec fn grown(size: u64, len: usize) -> u64 {
    if size + len > u64::MAX {
        u64::MAX
    } else {
        (size + len) as u64
    }
}

impl WorkerState {
    /// What holds of every state that the worker reaches.
    pub open spec fn wf(self) -> bool {
        &&& self.keep < usize::MAX
        &&& match self.phase {
            Phase::ShiftProbe(i) => 1 <= i <= self.keep,
            Phase::ShiftRename(i) => 1 <= i <= self.keep,
            Phase::ShiftCapProbe(i) => 1 <= i == self.keep,
            Phase::ShiftCapRemove(i) => 1 <= i == self.keep,
            _ => true,
        }
    }

    /// This state in another phase.
    pub open spec fn at(self, phase: Phase) -> WorkerState {
        WorkerState { phase, ..self }
    }

    /// Whether appending `len` bytes would carry the active file over the
    /// size ceiling.
    pub open spec fn overflows(self, len: usize) -> bool {
        self.current_size + len > self.max_size
    }

    /// The state after the outcome `e` of the operation that this state
    /// waits for. A probe counts as answered with no unless the answer is
    /// yes; opening and appending count as failed unless the outcome says
    /// that they succeeded; the outcome of every other operation is ignored.
    pub open spec fn next(self, e: FsEvent) -> WorkerState {
        match self.phase {
            Phase::Created => if e == FsEvent::Failed {
                self.at(Phase::ReportingStart)
            } else {
                self.at(Phase::OpeningFirst)
            },
            Phase::OpeningFirst => match e {
                FsEvent::Opened(n) => WorkerState {
                    has_file: true,
                    current_size: n,
                    phase: Phase::Idle,
                    ..self
                },
                _ => self.at(Phase::ReportingStart),
            },
            Phase::ReportingStart => self.at(Phase::Stopped),
            Phase::Idle => self,
            Phase::Closing => WorkerState {
                has_file: false,
                phase: if self.keep > 0 {
                    Phase::ShiftProbe(self.keep)
                } else {
                    Phase::DropProbe
                },
                ..self
            },
            Phase::ShiftProbe(i) => if e == FsEvent::Exists(true) {
                if i == self.keep {
                    self.at(Phase::ShiftCapProbe(i))
                } else {
                    self.at(Phase::ShiftRename(i))
                }
            } else {
                self.at(after_shift(i))
            },
            Phase::ShiftCapProbe(i) => if e == FsEvent::Exists(true) {
                self.at(Phase::ShiftCapRemove(i))
            } else {
                self.at(Phase::ShiftRename(i))
            },
            Phase::ShiftCapRemove(i) => self.at(Phase::ShiftRename(i)),
            Phase::ShiftRename(i) => self.at(after_shift(i)),
            Phase::BaseProbe => if e == FsEvent::Exists(true) {
                self.at(Phase::FirstProbe)
            } else {
                self.at(Phase::Reopening)
            },
            Phase::FirstProbe => if e == FsEvent::Exists(true) {
                self.at(Phase::FirstRemove)
            } else {
                self.at(Phase::BaseRename)
            },
            Phase::FirstRemove => self.at(Phase::BaseRename),
            Phase::BaseRename => if self.compress {
                self.at(Phase::Compressing)
            } else {
                self.at(Phase::Reopening)
            },
            Phase::Compressing => self.at(Phase::Reopening),
            Phase::DropProbe => if e == FsEvent::Exists(true) {
                self.at(Phase::DropRemove)
            } else {
                self.at(Phase::Reopening)
            },
            Phase::DropRemove => self.at(Phase::Reopening),
            Phase::Reopening => match e {
                FsEvent::Opened(n) => WorkerState {
                    has_file: true,
                    current_size: n,
                    phase: Phase::Appending,
                    ..self
                },
                _ => self.at(Phase::ReportingWrite),
            },
            Phase::Appending => if e == FsEvent::Appended {
                WorkerState {
                    current_size: grown(self.current_size, self.pending),
                    phase: Phase::Idle,
                    ..self
                }
            } else {
                self.at(Phase::ReportingWrite)
            },
            Phase::ReportingWrite => self.at(Phase::Idle),
            Phase::Flushing(stop) => if stop {
                self.at(Phase::Stopped)
            } else {
                self.at(Phase::Idle)
            },
            Phase::Stopped => self,
        }
    }

    /// The state in which an idle worker takes up a write of `len` bytes:
    /// it rotates first when the bytes would carry the file over the
    /// ceiling, appends when it holds the file, and has nothing to do when
    /// it holds none.
    pub open spec fn on_write(self, len: usize) -> WorkerState {
        if self.overflows(len) {
            WorkerState { pending: len, phase: Phase::Closing, ..self }
        } else if self.has_file {
            WorkerState { pending: len, phase: Phase::Appending, ..self }
        } else {
            self
        }
    }

    /// The state in which an idle worker takes up a flush.
    pub open spec fn on_flush(self) -> WorkerState {
        if self.has_file {
            self.at(Phase::Flushing(false))
        } else {
            self
        }
    }

    /// The state in which an idle worker takes up a shutdown: it flushes
    /// once more if it holds the file, and stops.
    pub open spec fn on_shutdown(self) -> WorkerState {
        if self.has_file {
            self.at(Phase::Flushing(true))
        } else {
            self.at(Phase::Stopped)
        }
    }
}

/// Every step keeps the state well formed.
pub proof fn lemma_next_wf(s: WorkerState, e: FsEvent)
    requires
        s.wf(),
    ensures
        s.next(e).wf(),
        s.next(e).keep == s.keep,
        s.next(e).max_size == s.max_size,
        s.next(e).compress == s.compress,
        s.next(e).pending == s.pending,
{
}

/// The operation whose outcome the phase `p` waits for.
pub fn phase_action(p: Phase) -> (a: FsAction)
    requires
        p matches Phase::ShiftCapProbe(i) ==> i < usize::MAX,
        p matches Phase::ShiftCapRemove(i) ==> i < usize::MAX,
        p matches Phase::ShiftRename(i) ==> i < usize::MAX,
    ensures
        a == action_of(p),
{
    match p {
        Phase::Created => FsAction::CreateParentDir,
        Phase::OpeningFirst => FsAction::Open,
        Phase::ReportingStart => FsAction::ReportStartFailure,
        Phase::Idle => FsAction::Next,
        Phase::Closing => FsAction::Close,
        Phase::ShiftProbe(i) => FsAction::Probe(i),
        Phase::ShiftCapProbe(i) => FsAction::Probe(i + 1),
        Phase::ShiftCapRemove(i) => FsAction::Remove(i + 1),
        Phase::ShiftRename(i) => FsAction::Rename(i, i + 1),
        Phase::BaseProbe => FsAction::Probe(0),
        Phase::FirstProbe => FsAction::Probe(1),
        Phase::FirstRemove => FsAction::Remove(1),
        Phase::BaseRename => FsAction::Rename(0, 1),
        Phase::Compressing => FsAction::Compress(1),
        Phase::DropProbe => FsAction::Probe(0),
        Phase::DropRemove => FsAction::Remove(0),
        Phase::Reopening => FsAction::Open,
        Phase::Appending => FsAction::Append,
        Phase::ReportingWrite => FsAction::ReportWriteFailure,
        Phase::Flushing(_) => FsAction::Flush,
        Phase::Stopped => FsAction::Stop,
    }
}

/// The phase that follows the handling of generation `i` in the upward shift.
fn shift_successor(i: usize) -> (p: Phase)
    ensures
        p == after_shift(i),
{
    if i > 1 {
        Phase::ShiftProbe(i - 1)
    } else {
        Phase::BaseProbe
    }
}

/// Whether an outcome is the answer yes to a probe.
fn says_yes(e: FsEvent) -> (r: bool)
    ensures
        r == (e == FsEvent::Exists(true)),
{
    match e {
        FsEvent::Exists(b) => b,
        _ => false,
    }
}

impl WorkerState {
    /// This state in the phase `phase`.
    fn moved(self, phase: Phase) -> (r: WorkerState)
        ensures
            r == self.at(phase),
    {
        WorkerState { phase, ..self }
    }

    /// Whether appending `len` bytes would carry the active file over the
    /// size ceiling.
    pub fn would_overflow(self, len: usize) -> (r: bool)
        ensures
            r == self.overflows(len),
    {
        let len64: u64 = len as u64;
        len64 > self.max_size || self.current_size > self.max_size - len64
    }

    /// The state after the outcome `e` of the pending operation.
    pub fn step(self, e: FsEvent) -> (r: WorkerState)
        requires
            self.wf(),
        ensures
            r == self.next(e),
            r.wf(),
    {
        match self.phase {
            Phase::Created => match e {
                FsEvent::Failed => self.moved(Phase::ReportingStart),
                _ => self.moved(Phase::OpeningFirst),
            },
            Phase::OpeningFirst => match e {
                FsEvent::Opened(n) => WorkerState {
                    has_file: true,
                    current_size: n,
                    phase: Phase::Idle,
                    ..self
                },
                _ => self.moved(Phase::ReportingStart),
            },
            Phase::ReportingStart => self.moved(Phase::Stopped),
            Phase::Idle => self,
            Phase::Closing => {
                let phase = if self.keep > 0 {
                    Phase::ShiftProbe(self.keep)
                } else {
                    Phase::DropProbe
                };
                WorkerState { has_file: false, phase, ..self }
            },
            Phase::ShiftProbe(i) => if says_yes(e) {
                if i == self.keep {
                    self.moved(Phase::ShiftCapProbe(i))
                } else {
                    self.moved(Phase::ShiftRename(i))
                }
            } else {
                self.moved(shift_successor(i))
            },
            Phase::ShiftCapProbe(i) => if says_yes(e) {
                self.moved(Phase::ShiftCapRemove(i))
            } else {
                self.moved(Phase::ShiftRename(i))
            },
            Phase::ShiftCapRemove(i) => self.moved(Phase::ShiftRename(i)),
            Phase::ShiftRename(i) => self.moved(shift_successor(i)),
            Phase::BaseProbe => if says_yes(e) {
                self.moved(Phase::FirstProbe)
            } else {
                self.moved(Phase::Reopening)
            },
            Phase::FirstProbe => if says_yes(e) {
                self.moved(Phase::FirstRemove)
            } else {
                self.moved(Phase::BaseRename)
            },
            Phase::FirstRemove => self.moved(Phase::BaseRename),
            Phase::BaseRename => if self.compress {
                self.moved(Phase::Compressing)
            } else {
                self.moved(Phase::Reopening)
            },
            Phase::Compressing => self.moved(Phase::Reopening),
            Phase::DropProbe => if says_yes(e) {
                self.moved(Phase::DropRemove)
            } else {
                self.moved(Phase::Reopening)
            },
            Phase::DropRemove => self.moved(Phase::Reopening),
            Phase::Reopening => match e {
                FsEvent::Opened(n) => WorkerState {
                    has_file: true,
                    current_size: n,
                    phase: Phase::Appending,
                    ..self
                },
                _ => self.moved(Phase::ReportingWrite),
            },
            Phase::Appending => match e {
                FsEvent::Appended => {
                    let len64: u64 = self.pending as u64;
                    let size = if len64 > u64::MAX - self.current_size {
                        u64::MAX
                    } else {
                        self.current_size + len64
                    };
                    WorkerState { current_size: size, phase: Phase::Idle, ..self }
                },
                _ => self.moved(Phase::ReportingWrite),
            },
            Phase::ReportingWrite => self.moved(Phase::Idle),
            Phase::Flushing(stop) => if stop {
                self.moved(Phase::Stopped)
            } else {
                self.moved(Phase::Idle)
            },
            Phase::Stopped => self,
        }
    }
}

/// The base path with a dot and the numeral of `n` behind it.
pub open spec fn suffixed_path(base: Seq<char>, n: nat) -> Seq<char> {
    base + seq!['.'] + decimal(n)
}

/// The path of the file of generation `g`: the base path itself for the
/// active file, generation 0, and the base path with the number behind it
/// for a rotated one.
pub open spec fn generation_path(base: Seq<char>, g: nat) -> Seq<char> {
    if g == 0 {
        base
    } else {
        suffixed_path(base, g)
    }
}

/// A suffixed path is never the base path, and different numbers give
/// different paths.
pub proof fn lemma_suffixed_paths_differ(base: Seq<char>, n: nat, m: nat)
    ensures
        suffixed_path(base, n) != base,
        suffixed_path(base, n) == suffixed_path(base, m) ==> n == m,
{
    lemma_decimal_nonempty(n);
    assert(suffixed_path(base, n).len() > base.len());
    if suffixed_path(base, n) == suffixed_path(base, m) {
        let head = base + seq!['.'];
        let a = head + decimal(n);
        let b = head + decimal(m);
        assert(a.subrange(head.len() as int, a.len() as int) =~= decimal(n));
        assert(b.subrange(head.len() as int, b.len() as int) =~= decimal(m));
        lemma_decimal_injective(n, m);
    }
}

/// Different generations of one file have different paths.
pub proof fn lemma_generation_paths_differ(base: Seq<char>, n: nat, m: nat)
    requires
        generation_path(base, n) == generation_path(base, m),
    ensures
        n == m,
{
    lemma_suffixed_paths_differ(base, n, m);
    lemma_suffixed_paths_differ(base, m, n);
}

/// The background writer of one log file: the path of the active file and
/// the state of the worker.
#[derive(Debug, Clone)]
pub struct RotatingFileWorker {
    pub base_path: String,
    pub state: WorkerState,
}

impl RotatingFileWorker {
    pub open spec fn wf(&self) -> bool {
        self.state.wf()
    }

    /// A worker for the file at `base` that rotates above `max_size` bytes
    /// and keeps `keep` rotated generations. It holds no file yet; its first
    /// operation creates the parent directories.
    pub fn new(base: &str, max_size: u64, keep: usize, compress: bool) -> (w: Self)
        requires
            keep < usize::MAX,
        ensures
            w.wf(),
            w.base_path@ == base@,
            w.state == (WorkerState {
                has_file: false,
                current_size: 0,
                max_size,
                keep,
                compress,
                pending: 0,
                phase: Phase::Created,
            }),
    {
        RotatingFileWorker {
            base_path: base.to_owned(),
            state: WorkerState {
                has_file: false,
                current_size: 0,
                max_size,
                keep,
                compress,
                pending: 0,
                phase: Phase::Created,
            },
        }
    }

    /// The operation that the worker waits for.
    pub fn action(&self) -> (a: FsAction)
        requires
            self.wf(),
        ensures
            a == action_of(self.state.phase),
    {
        phase_action(self.state.phase)
    }

    /// Takes the outcome of the pending operation and names the next one.
    pub fn advance(&mut self, e: FsEvent) -> (a: FsAction)
        requires
            old(self).wf(),
        ensures
            final(self).wf(),
            final(self).base_path == old(self).base_path,
            final(self).state == old(self).state.next(e),
            a == action_of(final(self).state.phase),
    {
        self.state = self.state.step(e);
        phase_action(self.state.phase)
    }

    /// Takes up a write of `buf`: rotation comes first when the bytes would
    /// carry the active file over the ceiling.
    pub fn write(&mut self, buf: &[u8]) -> (a: FsAction)
        requires
            old(self).wf(),
            old(self).state.phase == Phase::Idle,
        ensures
            final(self).wf(),
            final(self).base_path == old(self).base_path,
            final(self).state == old(self).state.on_write(buf@.len() as usize),
            a == action_of(final(self).state.phase),
    {
        let len = buf.len();
        if self.state.would_overflow(len) {
            self.state = WorkerState { pending: len, phase: Phase::Closing, ..self.state };
        } else if self.state.has_file {
            self.state = WorkerState { pending: len, phase: Phase::Appending, ..self.state };
        }
        phase_action(self.state.phase)
    }

    /// Takes up a flush.
    pub fn flush(&mut self) -> (a: FsAction)
        requires
            old(self).wf(),
            old(self).state.phase == Phase::Idle,
        ensures
            final(self).wf(),
            final(self).base_path == old(self).base_path,
            final(self).state == old(self).state.on_flush(),
            a == action_of(final(self).state.phase),
    {
        if self.state.has_file {
            self.state = self.state.moved(Phase::Flushing(false));
        }
        phase_action(self.state.phase)
    }

    /// Takes up a shutdown.
    pub fn shutdown(&mut self) -> (a: FsAction)
        requires
            old(self).wf(),
            old(self).state.phase == Phase::Idle,
        ensures
            final(self).wf(),
            final(self).base_path == old(self).base_path,
            final(self).state == old(self).state.on_shutdown(),
            a == action_of(final(self).state.phase),
    {
        if self.state.has_file {
            self.state = self.state.moved(Phase::Flushing(true));
        } else {
            self.state = self.state.moved(Phase::Stopped);
        }
        phase_action(self.state.phase)
    }

    /// The base path with a dot and the number `n` behind it.
    pub fn suffixed(&self, n: usize) -> (path: String)
        ensures
            path@ == suffixed_path(self.base_path@, n as nat),
    {
        let number = decimal_string(n);
        let path = self.base_path.clone().concat(".").concat(number.as_str());
        proof {
            reveal_strlit(".");
            assert("."@ =~= seq!['.']);
        }
        path
    }

    /// The path of the file of generation `g`, as the operations name it.
    pub fn path_of(&self, g: usize) -> (path: String)
        ensures
            path@ == generation_path(self.base_path@, g as nat),
    {
        if g == 0 {
            self.base_path.clone()
        } else {
            self.suffixed(g)
        }
    }
}

/// The state in which an idle worker takes up a command.
pub open spec fn on_command(s: WorkerState, cmd: Cmd) -> WorkerState {
    match cmd {
        Cmd::Write(buf) => s.on_write(buf@.len() as usize),
        Cmd::Flush => s.on_flush(),
        Cmd::Shutdown => s.on_shutdown(),
    }
}

impl RotatingFileWorker {
    /// Takes up the next command from the queue and names the first
    /// operation that it needs.
    pub fn handle(&mut self, cmd: &Cmd) -> (a: FsAction)
        requires
            old(self).wf(),
            old(self).state.phase == Phase::Idle,
        ensures
            final(self).wf(),
            final(self).base_path == old(self).base_path,
            final(self).state == on_command(old(self).state, *cmd),
            a == action_of(final(self).state.phase),
    {
        match cmd {
            Cmd::Write(buf) => self.write(buf.as_slice()),
            Cmd::Flush => self.flush(),
            Cmd::Shutdown => self.shutdown(),
        }
    }
}

} // verus!
