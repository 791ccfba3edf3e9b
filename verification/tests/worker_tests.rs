use std::collections::BTreeMap;
use warden::telemetry::protocol::{Cmd, FsAction, FsEvent, WRITE_BACKOFF_MS};
use warden::telemetry::worker::{Phase, RotatingFileWorker};

/// A directory held in memory, with switches to make operations fail.
struct MemDir {
    files: BTreeMap<usize, Vec<u8>>,
    flushes: usize,
    compressed: Vec<usize>,
    start_failures: usize,
    write_failures: usize,
    fail_open: bool,
    fail_append: bool,
    fail_create_dir: bool,
    log: Vec<FsAction>,
}

fn mem_dir() -> MemDir {
    MemDir {
        files: BTreeMap::new(),
        flushes: 0,
        compressed: Vec::new(),
        start_failures: 0,
        write_failures: 0,
        fail_open: false,
        fail_append: false,
        fail_create_dir: false,
        log: Vec::new(),
    }
}

fn perform(dir: &mut MemDir, action: FsAction, buf: &[u8]) -> FsEvent {
    dir.log.push(action);
    match action {
        FsAction::CreateParentDir => {
            if dir.fail_create_dir {
                FsEvent::Failed
            } else {
                FsEvent::Done
            }
        }
        FsAction::Open => {
            if dir.fail_open {
                FsEvent::Failed
            } else {
                let len = dir.files.entry(0).or_default().len();
                FsEvent::Opened(len as u64)
            }
        }
        FsAction::Close => FsEvent::Done,
        FsAction::Probe(g) => FsEvent::Exists(dir.files.contains_key(&g)),
        FsAction::Remove(g) => {
            dir.files.remove(&g);
            FsEvent::Done
        }
        FsAction::Rename(from, to) => {
            if let Some(bytes) = dir.files.remove(&from) {
                dir.files.insert(to, bytes);
            }
            FsEvent::Done
        }
        FsAction::Compress(g) => {
            dir.compressed.push(g);
            FsEvent::Done
        }
        FsAction::Append => {
            if dir.fail_append {
                FsEvent::Failed
            } else {
                dir.files.entry(0).or_default().extend_from_slice(buf);
                FsEvent::Appended
            }
        }
        FsAction::Flush => {
            dir.flushes += 1;
            FsEvent::Done
        }
        FsAction::ReportStartFailure => {
            dir.start_failures += 1;
            FsEvent::Done
        }
        FsAction::ReportWriteFailure => {
            dir.write_failures += 1;
            FsEvent::Done
        }
        FsAction::Next | FsAction::Stop => unreachable!(),
    }
}

/// Performs what the worker asks for until it is idle or stopped.
fn settle(w: &mut RotatingFileWorker, dir: &mut MemDir, buf: &[u8]) -> FsAction {
    let mut action = w.action();
    let mut steps = 0;
    while action != FsAction::Next && action != FsAction::Stop {
        let event = perform(dir, action, buf);
        action = w.advance(event);
        steps += 1;
        assert!(steps < 100_000);
    }
    action
}

fn started(dir: &mut MemDir, max_size: u64, keep: usize, compress: bool) -> RotatingFileWorker {
    let mut w = RotatingFileWorker::new("log/agent.log", max_size, keep, compress);
    assert_eq!(settle(&mut w, dir, &[]), FsAction::Next);
    w
}

fn serve(w: &mut RotatingFileWorker, dir: &mut MemDir, cmd: &Cmd) -> FsAction {
    assert_eq!(w.action(), FsAction::Next);
    w.handle(cmd);
    let buf: &[u8] = match cmd {
        Cmd::Write(b) => b,
        _ => &[],
    };
    settle(w, dir, buf)
}

fn write(w: &mut RotatingFileWorker, dir: &mut MemDir, buf: &[u8]) {
    assert_eq!(serve(w, dir, &Cmd::Write(buf.to_vec())), FsAction::Next);
}

fn generations(dir: &MemDir) -> Vec<usize> {
    dir.files.keys().copied().collect()
}

#[test]
fn new_worker_creates_directory_then_opens() {
    let mut dir = mem_dir();
    let mut w = RotatingFileWorker::new("log/agent.log", 10, 2, false);
    assert_eq!(w.state.phase, Phase::Created);
    assert_eq!(w.action(), FsAction::CreateParentDir);
    assert_eq!(w.advance(FsEvent::Done), FsAction::Open);
    assert_eq!(w.advance(FsEvent::Opened(0)), FsAction::Next);
    assert!(w.state.has_file);
    assert_eq!(w.state.current_size, 0);
    assert_eq!(w.base_path, "log/agent.log");
    let w2 = started(&mut dir, 10, 2, false);
    assert_eq!(dir.log, vec![FsAction::CreateParentDir, FsAction::Open]);
    assert_eq!(w2.state.phase, Phase::Idle);
    assert_eq!(generations(&dir), vec![0]);
}

#[test]
fn reopening_resumes_the_size_of_an_existing_file() {
    let mut dir = mem_dir();
    dir.files.insert(0, vec![7u8; 37]);
    let mut w = started(&mut dir, 100, 2, false);
    assert_eq!(w.state.current_size, 37);
    write(&mut w, &mut dir, &[1u8; 3]);
    assert_eq!(w.state.current_size, 40);
    assert_eq!(dir.files[&0].len(), 40);
    assert_eq!(generations(&dir), vec![0]);
    // 40 + 61 > 100: the restart does not delay the rotation.
    write(&mut w, &mut dir, &[2u8; 61]);
    assert_eq!(generations(&dir), vec![0, 1]);
    assert_eq!(dir.files[&1].len(), 40);
    assert_eq!(w.state.current_size, 61);
}

#[test]
fn start_failure_is_reported_and_stops_the_worker() {
    let mut dir = mem_dir();
    dir.fail_open = true;
    let mut w = RotatingFileWorker::new("log/agent.log", 10, 2, false);
    assert_eq!(settle(&mut w, &mut dir, &[]), FsAction::Stop);
    assert_eq!(dir.start_failures, 1);
    assert_eq!(w.state.phase, Phase::Stopped);
    assert!(dir.files.is_empty());
    let mut dir = mem_dir();
    dir.fail_create_dir = true;
    let mut w = RotatingFileWorker::new("log/agent.log", 10, 2, false);
    assert_eq!(settle(&mut w, &mut dir, &[]), FsAction::Stop);
    assert_eq!(
        dir.log,
        vec![FsAction::CreateParentDir, FsAction::ReportStartFailure]
    );
}

#[test]
fn write_within_the_ceiling_appends_without_rotation() {
    let mut dir = mem_dir();
    let mut w = started(&mut dir, 10, 2, false);
    dir.log.clear();
    write(&mut w, &mut dir, b"hello");
    write(&mut w, &mut dir, b"world");
    assert_eq!(dir.log, vec![FsAction::Append, FsAction::Append]);
    assert_eq!(dir.files[&0], b"helloworld".to_vec());
    assert_eq!(w.state.current_size, 10);
    assert_eq!(generations(&dir), vec![0]);
}

#[test]
fn zero_byte_write_is_accepted() {
    let mut dir = mem_dir();
    let mut w = started(&mut dir, 10, 2, false);
    write(&mut w, &mut dir, b"0123456789");
    write(&mut w, &mut dir, b"");
    assert_eq!(w.state.current_size, 10);
    assert_eq!(generations(&dir), vec![0]);
    assert_eq!(dir.files[&0], b"0123456789".to_vec());
}

#[test]
fn overflowing_write_rotates_first_and_is_never_split() {
    let mut dir = mem_dir();
    let mut w = started(&mut dir, 10, 2, false);
    write(&mut w, &mut dir, b"01234567");
    dir.log.clear();
    write(&mut w, &mut dir, b"abc");
    assert_eq!(
        dir.log,
        vec![
            FsAction::Close,
            FsAction::Probe(2),
            FsAction::Probe(1),
            FsAction::Probe(0),
            FsAction::Probe(1),
            FsAction::Rename(0, 1),
            FsAction::Open,
            FsAction::Append,
        ]
    );
    assert_eq!(dir.files[&0], b"abc".to_vec());
    assert_eq!(dir.files[&1], b"01234567".to_vec());
    assert_eq!(w.state.current_size, 3);
}

#[test]
fn record_larger_than_the_ceiling_is_appended_after_rotation() {
    let mut dir = mem_dir();
    let mut w = started(&mut dir, 10, 1, false);
    write(&mut w, &mut dir, b"ab");
    let big = vec![9u8; 25];
    write(&mut w, &mut dir, &big);
    assert_eq!(dir.files[&0], big);
    assert_eq!(dir.files[&1], b"ab".to_vec());
    assert_eq!(w.state.current_size, 25);
    assert!(dir.files[&0].len() as u64 <= 10 + 25);
}

#[test]
fn active_file_never_exceeds_ceiling_plus_record() {
    let mut dir = mem_dir();
    let max = 64u64;
    let mut w = started(&mut dir, max, 3, false);
    let mut seed: u64 = 12345;
    for _ in 0..500 {
        seed = seed.wrapping_mul(6364136223846793005).wrapping_add(1442695040888963407);
        let len = ((seed >> 33) % 100) as usize;
        let before = w.state.current_size;
        write(&mut w, &mut dir, &vec![1u8; len]);
        let size = dir.files[&0].len() as u64;
        assert_eq!(size, w.state.current_size);
        assert!(size <= max + len as u64);
        if before + len as u64 > max {
            assert_eq!(size, len as u64);
        } else {
            assert!(size <= max);
        }
    }
}

#[test]
fn rotations_keep_generations_ordered_by_age() {
    let mut dir = mem_dir();
    let mut w = started(&mut dir, 4, 3, false);
    // Each record fills the file; the next write rotates it out.
    write(&mut w, &mut dir, b"aaaa");
    write(&mut w, &mut dir, b"bbbb");
    assert_eq!(generations(&dir), vec![0, 1]);
    write(&mut w, &mut dir, b"cccc");
    assert_eq!(generations(&dir), vec![0, 1, 2]);
    write(&mut w, &mut dir, b"dddd");
    assert_eq!(generations(&dir), vec![0, 1, 2, 3]);
    assert_eq!(dir.files[&1], b"cccc".to_vec());
    assert_eq!(dir.files[&2], b"bbbb".to_vec());
    assert_eq!(dir.files[&3], b"aaaa".to_vec());
    assert_eq!(dir.files[&0], b"dddd".to_vec());
}

#[test]
fn generations_never_pass_the_cap() {
    let mut dir = mem_dir();
    let keep = 2usize;
    let mut w = started(&mut dir, 1, keep, false);
    write(&mut w, &mut dir, b"0");
    for n in 1..=9u8 {
        write(&mut w, &mut dir, &[b'0' + n]);
        let rotated: Vec<usize> = generations(&dir).into_iter().filter(|g| *g > 0).collect();
        let expected: Vec<usize> = (1..=(n as usize).min(keep + 1)).collect();
        assert_eq!(rotated, expected);
        for g in rotated {
            assert_eq!(dir.files[&g], vec![b'0' + n - g as u8]);
        }
    }
}

#[test]
fn oldest_generation_is_deleted_before_it_is_replaced() {
    let mut dir = mem_dir();
    let mut w = started(&mut dir, 1, 1, false);
    write(&mut w, &mut dir, b"a");
    write(&mut w, &mut dir, b"b");
    write(&mut w, &mut dir, b"c");
    assert_eq!(generations(&dir), vec![0, 1, 2]);
    dir.log.clear();
    write(&mut w, &mut dir, b"d");
    assert_eq!(
        dir.log,
        vec![
            FsAction::Close,
            FsAction::Probe(1),
            FsAction::Probe(2),
            FsAction::Remove(2),
            FsAction::Rename(1, 2),
            FsAction::Probe(0),
            FsAction::Probe(1),
            FsAction::Rename(0, 1),
            FsAction::Open,
            FsAction::Append,
        ]
    );
    assert_eq!(dir.files[&2], b"b".to_vec());
    assert_eq!(dir.files[&1], b"c".to_vec());
}

#[test]
fn stale_first_generation_is_deleted_before_the_rename() {
    let mut w = RotatingFileWorker::new("a.log", 1, 1, false);
    w.advance(FsEvent::Done);
    w.advance(FsEvent::Opened(1));
    assert_eq!(w.write(b"x"), FsAction::Close);
    assert_eq!(w.advance(FsEvent::Done), FsAction::Probe(1));
    assert_eq!(w.advance(FsEvent::Exists(false)), FsAction::Probe(0));
    assert_eq!(w.advance(FsEvent::Exists(true)), FsAction::Probe(1));
    assert_eq!(w.advance(FsEvent::Exists(true)), FsAction::Remove(1));
    assert_eq!(w.advance(FsEvent::Done), FsAction::Rename(0, 1));
    assert_eq!(w.advance(FsEvent::Failed), FsAction::Open);
    assert_eq!(w.advance(FsEvent::Opened(0)), FsAction::Append);
    assert_eq!(w.advance(FsEvent::Appended), FsAction::Next);
    assert_eq!(w.state.current_size, 1);
}

#[test]
fn without_retention_the_active_file_is_deleted() {
    let mut dir = mem_dir();
    let mut w = started(&mut dir, 4, 0, true);
    write(&mut w, &mut dir, b"aaaa");
    dir.log.clear();
    write(&mut w, &mut dir, b"bb");
    assert_eq!(
        dir.log,
        vec![
            FsAction::Close,
            FsAction::Probe(0),
            FsAction::Remove(0),
            FsAction::Open,
            FsAction::Append,
        ]
    );
    assert_eq!(generations(&dir), vec![0]);
    assert_eq!(dir.files[&0], b"bb".to_vec());
    assert!(dir.compressed.is_empty());
}

#[test]
fn compression_hook_runs_on_the_first_generation() {
    let mut dir = mem_dir();
    let mut w = started(&mut dir, 4, 2, true);
    write(&mut w, &mut dir, b"aaaa");
    write(&mut w, &mut dir, b"bbbb");
    write(&mut w, &mut dir, b"cccc");
    assert_eq!(dir.compressed, vec![1, 1]);
    let mut dir = mem_dir();
    let mut w = started(&mut dir, 4, 2, false);
    write(&mut w, &mut dir, b"aaaa");
    write(&mut w, &mut dir, b"bbbb");
    assert!(dir.compressed.is_empty());
}

#[test]
fn failed_write_is_reported_and_the_worker_goes_on() {
    let mut dir = mem_dir();
    let mut w = started(&mut dir, 100, 2, false);
    write(&mut w, &mut dir, b"one");
    dir.fail_append = true;
    write(&mut w, &mut dir, b"two");
    assert_eq!(dir.write_failures, 1);
    assert_eq!(w.state.current_size, 3);
    assert_eq!(w.state.phase, Phase::Idle);
    dir.fail_append = false;
    write(&mut w, &mut dir, b"three");
    assert_eq!(dir.files[&0], b"onethree".to_vec());
    assert_eq!(w.state.current_size, 8);
    assert_eq!(WRITE_BACKOFF_MS, 5);
}

#[test]
fn failed_reopen_leaves_the_worker_without_file() {
    let mut dir = mem_dir();
    let mut w = started(&mut dir, 4, 1, false);
    write(&mut w, &mut dir, b"aaaa");
    dir.fail_open = true;
    write(&mut w, &mut dir, b"b");
    assert_eq!(dir.write_failures, 1);
    assert!(!w.state.has_file);
    // Without a file a flush asks for nothing, and a write that fits is skipped.
    dir.log.clear();
    assert_eq!(serve(&mut w, &mut dir, &Cmd::Flush), FsAction::Next);
    assert!(dir.log.is_empty());
    dir.fail_open = false;
    w.state.current_size = 0;
    write(&mut w, &mut dir, b"c");
    assert!(dir.log.is_empty());
    assert!(!w.state.has_file);
}

#[test]
fn flush_and_shutdown_flush_the_file() {
    let mut dir = mem_dir();
    let mut w = started(&mut dir, 100, 2, false);
    write(&mut w, &mut dir, b"x");
    assert_eq!(serve(&mut w, &mut dir, &Cmd::Flush), FsAction::Next);
    assert_eq!(dir.flushes, 1);
    assert_eq!(serve(&mut w, &mut dir, &Cmd::Shutdown), FsAction::Stop);
    assert_eq!(dir.flushes, 2);
    assert_eq!(w.state.phase, Phase::Stopped);
    assert_eq!(w.action(), FsAction::Stop);
    assert_eq!(w.advance(FsEvent::Done), FsAction::Stop);
}

#[test]
fn every_write_queued_before_shutdown_is_written() {
    let mut dir = mem_dir();
    let mut w = started(&mut dir, 8, 50, false);
    let queue = vec![
        Cmd::Write(b"alpha".to_vec()),
        Cmd::Flush,
        Cmd::Write(b"beta".to_vec()),
        Cmd::Write(b"gamma".to_vec()),
        Cmd::Write(b"delta".to_vec()),
        Cmd::Shutdown,
        Cmd::Write(b"late".to_vec()),
    ];
    let mut served = 0;
    for cmd in &queue {
        served += 1;
        if serve(&mut w, &mut dir, cmd) == FsAction::Stop {
            break;
        }
    }
    assert_eq!(served, 6);
    let mut all = Vec::new();
    for g in generations(&dir).into_iter().rev() {
        all.extend_from_slice(&dir.files[&g]);
    }
    assert_eq!(all, b"alphabetagammadelta".to_vec());
    assert_eq!(*dir.log.last().unwrap(), FsAction::Flush);
    assert_eq!(dir.flushes, 2);
}

#[test]
fn one_megabyte_ceiling_with_three_files() {
    let limit: u64 = 1024 * 1024;
    let mut dir = mem_dir();
    let mut w = started(&mut dir, limit, 2, false);
    let record = vec![b'r'; 1024];
    // 1025 records are just over one megabyte: the last one rotates.
    for _ in 0..1025 {
        write(&mut w, &mut dir, &record);
    }
    assert_eq!(generations(&dir), vec![0, 1]);
    assert_eq!(dir.files[&1].len() as u64, limit);
    assert_eq!(dir.files[&0].len(), 1024);
    for _ in 0..1024 {
        write(&mut w, &mut dir, &record);
    }
    assert_eq!(generations(&dir), vec![0, 1, 2]);
    assert_eq!(dir.files[&0].len(), 1024);
    assert_eq!(dir.files[&1].len() as u64, limit);
    assert_eq!(dir.files[&2].len() as u64, limit);
    // Mark the oldest segment, then overflow a third time: it moves on to
    // generation 3 and the others shift behind it.
    dir.files.insert(2, vec![b'o'; 10]);
    for _ in 0..1024 {
        write(&mut w, &mut dir, &record);
    }
    assert_eq!(dir.files[&3], vec![b'o'; 10]);
    assert_eq!(dir.files[&2].len() as u64, limit);
    assert_eq!(dir.files[&1].len() as u64, limit);
    assert_eq!(dir.files[&0].len(), 1024);
    // A fourth overflow deletes what stands at generation 3.
    for _ in 0..1024 {
        write(&mut w, &mut dir, &record);
    }
    assert_eq!(generations(&dir), vec![0, 1, 2, 3]);
    assert_eq!(dir.files[&3].len() as u64, limit);
}

#[test]
fn generation_paths() {
    let w = RotatingFileWorker::new("log/agent.log", 1, 3, false);
    assert_eq!(w.suffixed(0), "log/agent.log.0");
    assert_eq!(w.suffixed(1), "log/agent.log.1");
    assert_eq!(w.suffixed(2), "log/agent.log.2");
    assert_eq!(w.suffixed(10), "log/agent.log.10");
    assert_eq!(w.suffixed(120), "log/agent.log.120");
    for n in 0..30 {
        assert_ne!(w.suffixed(n), w.base_path);
        for m in 0..n {
            assert_ne!(w.suffixed(n), w.suffixed(m));
        }
    }
}

#[test]
fn paths_of_the_generations() {
    let w = RotatingFileWorker::new("log/agent.log", 1, 3, false);
    assert_eq!(w.path_of(0), "log/agent.log");
    assert_eq!(w.path_of(1), "log/agent.log.1");
    assert_eq!(w.path_of(4), "log/agent.log.4");
    assert_eq!(w.path_of(11), w.suffixed(11));
}

#[test]
fn size_is_held_at_the_largest_value() {
    let mut w = RotatingFileWorker::new("a.log", u64::MAX, 1, false);
    w.advance(FsEvent::Done);
    w.advance(FsEvent::Opened(u64::MAX - 2));
    assert_eq!(w.write(b"ab"), FsAction::Append);
    assert_eq!(w.advance(FsEvent::Appended), FsAction::Next);
    assert_eq!(w.state.current_size, u64::MAX);
    assert_eq!(w.write(b"c"), FsAction::Close);
}
