use cmdcache::coordinator::{Action, Event, Failure, Invocation, Phase};

/// An in-memory entry and clock that perform the coordinator's actions.
struct FakeStore {
    marker: Option<(Vec<u8>, i64)>,
    stdout_file: Option<Vec<u8>>,
    stderr_file: Option<Vec<u8>>,
    now: i64,
    result: (Option<i32>, Vec<u8>, Vec<u8>),
    launch_fails: bool,
    commit_fails: bool,
    runs: usize,
    lock_held: bool,
    shown_stdout: Vec<u8>,
    shown_stderr: Vec<u8>,
    log: Vec<Action>,
}

impl FakeStore {
    fn new(result: (Option<i32>, Vec<u8>, Vec<u8>)) -> FakeStore {
        FakeStore {
            marker: None,
            stdout_file: None,
            stderr_file: None,
            now: 1_700_000_000,
            result,
            launch_fails: false,
            commit_fails: false,
            runs: 0,
            lock_held: false,
            shown_stdout: Vec::new(),
            shown_stderr: Vec::new(),
            log: Vec::new(),
        }
    }

    /// Runs one invocation to its end and returns its exit action's fields.
    fn invoke(&mut self, ttl_secs: u64, cache_failures: bool) -> (i32, Option<Failure>) {
        self.shown_stdout.clear();
        self.shown_stderr.clear();
        self.log.clear();
        let (mut inv, mut action) = Invocation::start(ttl_secs, cache_failures);
        loop {
            self.log.push(action.clone());
            let event = match action {
                Action::AcquireLock => {
                    assert!(!self.lock_held);
                    self.lock_held = true;
                    Event::LockAcquired
                }
                Action::StatExitCode => {
                    assert!(self.lock_held);
                    match &self.marker {
                        Some((_, modified)) => Event::EntryModified { modified_secs: *modified, now_secs: self.now },
                        None => Event::EntryMissing,
                    }
                }
                Action::ReadExitCode => {
                    assert!(self.lock_held);
                    match &self.marker {
                        Some((text, _)) => Event::EntryText(text.clone()),
                        None => Event::EntryUnreadable,
                    }
                }
                Action::RunCommand => {
                    assert!(self.lock_held);
                    if self.launch_fails {
                        Event::LaunchFailed
                    } else {
                        self.runs += 1;
                        let (code, out, err) = self.result.clone();
                        Event::CommandFinished { code, stdout: out, stderr: err }
                    }
                }
                Action::WriteEntry { exit_code_text, stdout, stderr } => {
                    assert!(self.lock_held);
                    if self.commit_fails {
                        Event::CommitFailed
                    } else {
                        self.marker = Some((exit_code_text, self.now));
                        self.stdout_file = Some(stdout);
                        self.stderr_file = Some(stderr);
                        Event::Committed
                    }
                }
                Action::ReplayOutputs => {
                    assert!(self.lock_held);
                    match (&self.stdout_file, &self.stderr_file) {
                        (Some(out), Some(err)) => {
                            self.shown_stdout = out.clone();
                            self.shown_stderr = err.clone();
                            Event::Replayed
                        }
                        _ => Event::ReplayFailed,
                    }
                }
                Action::ReleaseLock => {
                    assert!(self.lock_held);
                    self.lock_held = false;
                    Event::LockReleased
                }
                Action::Exit { code, failure } => {
                    assert!(!self.lock_held);
                    assert_eq!(inv.phase, Phase::Finished);
                    return (code, failure);
                }
            };
            assert!(inv.accepts_event(&event));
            action = inv.step(event);
        }
    }
}

#[test]
fn echo_hello_is_cached_for_its_ttl() {
    let mut store = FakeStore::new((Some(0), b"hello\n".to_vec(), Vec::new()));
    let start = store.now;
    assert_eq!(store.invoke(60, false), (0, None));
    assert_eq!(store.runs, 1);
    assert_eq!(store.marker, Some((b"0".to_vec(), start)));
    assert_eq!(store.stdout_file, Some(b"hello\n".to_vec()));
    assert_eq!(store.stderr_file, Some(Vec::new()));
    assert_eq!(store.shown_stdout, b"hello\n".to_vec());

    store.now = start + 30;
    assert_eq!(store.invoke(60, false), (0, None));
    assert_eq!(store.runs, 1);
    assert!(!store.log.contains(&Action::RunCommand));
    assert_eq!(store.shown_stdout, b"hello\n".to_vec());
    assert_eq!(store.shown_stderr, Vec::<u8>::new());

    store.now = start + 61;
    assert_eq!(store.invoke(60, false), (0, None));
    assert_eq!(store.runs, 2);
}

#[test]
fn false_runs_every_time_without_cached_failures() {
    let mut store = FakeStore::new((Some(1), Vec::new(), Vec::new()));
    let start = store.now;
    for i in 0..3 {
        store.now = start + i;
        assert_eq!(store.invoke(3600, false), (1, None));
    }
    assert_eq!(store.runs, 3);
}

#[test]
fn false_is_cached_with_cached_failures() {
    let mut store = FakeStore::new((Some(1), Vec::new(), Vec::new()));
    let start = store.now;
    assert_eq!(store.invoke(5, true), (1, None));
    assert_eq!(store.runs, 1);
    store.now = start + 4;
    assert_eq!(store.invoke(5, true), (1, None));
    assert_eq!(store.runs, 1);
    store.now = start + 5;
    assert_eq!(store.invoke(5, true), (1, None));
    assert_eq!(store.runs, 2);
}

#[test]
fn replay_reproduces_binary_output() {
    let out: Vec<u8> = (0..=255).collect();
    let err = vec![0, 10, 13, 0xff];
    let mut store = FakeStore::new((Some(0), out.clone(), err.clone()));
    assert_eq!(store.invoke(60, false), (0, None));
    store.result = (Some(0), b"changed".to_vec(), Vec::new());
    assert_eq!(store.invoke(60, false), (0, None));
    assert_eq!(store.runs, 1);
    assert_eq!(store.shown_stdout, out);
    assert_eq!(store.shown_stderr, err);
}

#[test]
fn corrupt_marker_reruns_the_command() {
    let mut store = FakeStore::new((Some(0), b"x".to_vec(), Vec::new()));
    store.marker = Some((b"garbage".to_vec(), store.now));
    store.stdout_file = Some(b"stale".to_vec());
    store.stderr_file = Some(Vec::new());
    assert_eq!(store.invoke(60, false), (0, None));
    assert_eq!(store.runs, 1);
    assert_eq!(store.shown_stdout, b"x".to_vec());
    assert_eq!(store.marker, Some((b"0".to_vec(), store.now)));
}

#[test]
fn signalled_command_is_not_committed() {
    let mut store = FakeStore::new((None, b"partial".to_vec(), Vec::new()));
    assert_eq!(store.invoke(60, false), (1, Some(Failure::NoStatus)));
    assert_eq!(store.marker, None);
    assert!(store.shown_stdout.is_empty());
}

#[test]
fn launch_failure_exits_non_zero() {
    let mut store = FakeStore::new((Some(0), Vec::new(), Vec::new()));
    store.launch_fails = true;
    assert_eq!(store.invoke(60, false), (1, Some(Failure::Launch)));
    assert_eq!(store.marker, None);
}

#[test]
fn commit_failure_exits_non_zero() {
    let mut store = FakeStore::new((Some(0), b"out".to_vec(), Vec::new()));
    store.commit_fails = true;
    assert_eq!(store.invoke(60, false), (1, Some(Failure::Commit)));
    assert!(!store.lock_held);
}

#[test]
fn replay_failure_exits_non_zero() {
    let mut store = FakeStore::new((Some(0), Vec::new(), Vec::new()));
    store.marker = Some((b"0".to_vec(), store.now));
    assert_eq!(store.invoke(60, false), (1, Some(Failure::Replay)));
    assert_eq!(store.runs, 0);
}

#[test]
fn lock_failure_exits_at_once() {
    let (mut inv, action) = Invocation::start(60, false);
    assert_eq!(action, Action::AcquireLock);
    assert!(inv.accepts_event(&Event::LockFailed));
    assert!(!inv.accepts_event(&Event::Committed));
    let action = inv.step(Event::LockFailed);
    assert_eq!(action, Action::Exit { code: 1, failure: Some(Failure::Lock) });
    assert_eq!(inv.phase, Phase::Finished);
}

#[test]
fn failed_command_status_is_propagated() {
    let mut store = FakeStore::new((Some(42), b"".to_vec(), b"oops\n".to_vec()));
    assert_eq!(store.invoke(60, true), (42, None));
    assert_eq!(store.marker, Some((b"42".to_vec(), store.now)));
    assert_eq!(store.shown_stderr, b"oops\n".to_vec());
}
