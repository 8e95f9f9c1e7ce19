//! One invocation, as a state machine: take the entry's lock, check the entry,
//! on a miss run the command and commit its result, replay the outputs,
//! release the lock and exit. The caller performs each action and reports
//! what came of it as the next event.
use vstd::prelude::*;
use crate::entry::{entry_lookup, fresh_at, is_fresh, servable_code, servable_exit_code};
use crate::exit_code::{decimal_text, render_exit_code};

verus! {

/// Where an invocation stands: each phase waits for the outcome of one action.
#[derive(Debug, Clone, Copy, PartialEq, Eq, Structural)]
pub enum Phase {
    AcquireLock,
    CheckEntry,
    ReadEntry,
    Execute,
    Commit,
    Replay,
    ReleaseLock,
    Finished,
}

/// What ended an invocation without a result of its own.
#[derive(Debug, Clone, Copy, PartialEq, Eq, Structural)]
pub enum Failure {
    /// The entry's lock could not be taken.
    Lock,
    /// The command could not be started.
    Launch,
    /// The command ended without an exit status (it was killed by a signal).
    NoStatus,
    /// The entry could not be written.
    Commit,
    /// The cached outputs could not be read or written out.
    Replay,
}

/// The outcome of the last action, as the caller observed it.
#[derive(Debug, Clone, PartialEq, Eq)]
pub enum Event {
    LockAcquired,
    LockFailed,
    /// The commit marker does not exist.
    EntryMissing,
    /// The commit marker was last modified at `modified_secs`; the clock reads `now_secs`.
    EntryModified { modified_secs: i64, now_secs: i64 },
    /// The commit marker's contents.
    EntryText(Vec<u8>),
    EntryUnreadable,
    /// The command ran to its end with these results.
    CommandFinished { code: Option<i32>, stdout: Vec<u8>, stderr: Vec<u8> },
    LaunchFailed,
    Committed,
    CommitFailed,
    Replayed,
    ReplayFailed,
    LockReleased,
}

/// What the caller is to do next.
#[derive(Debug, Clone, PartialEq, Eq)]
pub enum Action {
    /// Wait for the entry's exclusive lock.
    AcquireLock,
    /// Find the commit marker's modification time.
    StatExitCode,
    /// Read the commit marker's contents.
    ReadExitCode,
    /// Run the command, capturing its status and outputs.
    RunCommand,
    /// Write the entry's exit-code file, then its stdout file, then its stderr file.
    WriteEntry { exit_code_text: Vec<u8>, stdout: Vec<u8>, stderr: Vec<u8> },
    /// Copy the cached stdout and stderr files to the live outputs.
    ReplayOutputs,
    /// Release the entry's lock.
    ReleaseLock,
    /// End the process with this status, reporting the failure if there is one.
    Exit { code: i32, failure: Option<Failure> },
}

impl Phase {
    /// The entry's lock is held in every phase between acquiring and releasing it.
    pub open spec fn holds_lock(self) -> bool {
        !(self == Phase::AcquireLock || self == Phase::Finished)
    }
}

impl Action {
    /// The action reads or writes the entry's data files.
    pub open spec fn touches_entry(self) -> bool {
        ||| self is StatExitCode
        ||| self is ReadExitCode
        ||| self is WriteEntry
        ||| self is ReplayOutputs
    }
}

/// The state of an invocation.
pub struct Invocation {
    pub ttl_secs: u64,
    pub cache_failures: bool,
    pub phase: Phase,
    /// The status to exit with, once known.
    pub exit_code: i32,
    pub failure: Option<Failure>,
}

impl Invocation {
    pub open spec fn wf(self) -> bool {
        self.failure is Some ==> self.exit_code == 1 && (self.phase == Phase::ReleaseLock
            || self.phase == Phase::Finished)
    }

    /// The events that can answer the action of the current phase.
    pub open spec fn accepts(self, e: Event) -> bool {
        match e {
            Event::LockAcquired | Event::LockFailed => self.phase == Phase::AcquireLock,
            Event::EntryMissing | Event::EntryModified { .. } => self.phase == Phase::CheckEntry,
            Event::EntryText(_) | Event::EntryUnreadable => self.phase == Phase::ReadEntry,
            Event::CommandFinished { .. } | Event::LaunchFailed => self.phase == Phase::Execute,
            Event::Committed | Event::CommitFailed => self.phase == Phase::Commit,
            Event::Replayed | Event::ReplayFailed => self.phase == Phase::Replay,
            Event::LockReleased => self.phase == Phase::ReleaseLock,
        }
    }

    /// `t` is `s` moved to `phase`, with the given status and failure, and the same options.
    pub open spec fn moved_to(
        s: Invocation,
        t: Invocation,
        phase: Phase,
        exit_code: i32,
        failure: Option<Failure>,
    ) -> bool {
        &&& t.ttl_secs == s.ttl_secs
        &&& t.cache_failures == s.cache_failures
        &&& t.phase == phase
        &&& t.exit_code == exit_code
        &&& t.failure == failure
    }

    /// A fatal failure while the lock is held: release it, then exit with status 1.
    pub open spec fn failed_with(s: Invocation, t: Invocation, a: Action, f: Failure) -> bool {
        Self::moved_to(s, t, Phase::ReleaseLock, 1, Some(f)) && a == Action::ReleaseLock
    }

    /// One step of an invocation: in state `s`, event `e` leads to state `t` and action `a`.
    pub open spec fn transition(s: Invocation, e: Event, t: Invocation, a: Action) -> bool {
        match e {
            Event::LockAcquired => Self::moved_to(s, t, Phase::CheckEntry, s.exit_code, None)
                && a == Action::StatExitCode,
            Event::LockFailed => Self::moved_to(s, t, Phase::Finished, 1, Some(Failure::Lock))
                && a == (Action::Exit { code: 1, failure: Some(Failure::Lock) }),
            Event::EntryMissing | Event::EntryUnreadable => Self::moved_to(
                s,
                t,
                Phase::Execute,
                s.exit_code,
                None,
            ) && a == Action::RunCommand,
            Event::EntryModified { modified_secs, now_secs } => if fresh_at(
                now_secs as int,
                modified_secs as int,
                s.ttl_secs as int,
            ) {
                Self::moved_to(s, t, Phase::ReadEntry, s.exit_code, None)
                    && a == Action::ReadExitCode
            } else {
                Self::moved_to(s, t, Phase::Execute, s.exit_code, None) && a == Action::RunCommand
            },
            Event::EntryText(text) => match servable_exit_code(text@, s.cache_failures) {
                Some(code) => Self::moved_to(s, t, Phase::Replay, code, None) && a
                    == Action::ReplayOutputs,
                None => Self::moved_to(s, t, Phase::Execute, s.exit_code, None) && a
                    == Action::RunCommand,
            },
            Event::CommandFinished { code, stdout, stderr } => match code {
                Some(c) => Self::moved_to(s, t, Phase::Commit, c, None) && (a matches
                    Action::WriteEntry { exit_code_text, stdout: out, stderr: err }
                    && exit_code_text@ == decimal_text(c as int) && out@ == stdout@ && err@
                    == stderr@),
                None => Self::failed_with(s, t, a, Failure::NoStatus),
            },
            Event::LaunchFailed => Self::failed_with(s, t, a, Failure::Launch),
            Event::Committed => Self::moved_to(s, t, Phase::Replay, s.exit_code, None) && a
                == Action::ReplayOutputs,
            Event::CommitFailed => Self::failed_with(s, t, a, Failure::Commit),
            Event::Replayed => Self::moved_to(s, t, Phase::ReleaseLock, s.exit_code, None) && a
                == Action::ReleaseLock,
            Event::ReplayFailed => Self::failed_with(s, t, a, Failure::Replay),
            Event::LockReleased => Self::moved_to(s, t, Phase::Finished, s.exit_code, s.failure)
                && a == (Action::Exit { code: s.exit_code, failure: s.failure }),
        }
    }

    /// A new invocation with the given options; its first action takes the lock.
    pub fn start(ttl_secs: u64, cache_failures: bool) -> (r: (Invocation, Action))
        ensures
            r.0.wf(),
            r.0.ttl_secs == ttl_secs,
            r.0.cache_failures == cache_failures,
            r.0.phase == Phase::AcquireLock,
            r.0.failure is None,
            r.1 == Action::AcquireLock,
    {
        (
            Invocation { ttl_secs, cache_failures, phase: Phase::AcquireLock, exit_code: 1, failure: None },
            Action::AcquireLock,
        )
    }

    /// Whether `event` can answer the action of the current phase.
    pub fn accepts_event(&self, event: &Event) -> (r: bool)
        ensures
            r == self.accepts(*event),
    {
        match event {
            Event::LockAcquired | Event::LockFailed => self.phase == Phase::AcquireLock,
            Event::EntryMissing | Event::EntryModified { .. } => self.phase == Phase::CheckEntry,
            Event::EntryText(_) | Event::EntryUnreadable => self.phase == Phase::ReadEntry,
            Event::CommandFinished { .. } | Event::LaunchFailed => self.phase == Phase::Execute,
            Event::Committed | Event::CommitFailed => self.phase == Phase::Commit,
            Event::Replayed | Event::ReplayFailed => self.phase == Phase::Replay,
            Event::LockReleased => self.phase == Phase::ReleaseLock,
        }
    }

    fn fail(&mut self, failure: Failure) -> (a: Action)
        ensures
            Self::failed_with(*old(self), *final(self), a, failure),
    {
        self.phase = Phase::ReleaseLock;
        self.exit_code = 1;
        self.failure = Some(failure);
        Action::ReleaseLock
    }

    /// Takes the invocation one step: from the outcome of the last action to the next action.
    pub fn step(&mut self, event: Event) -> (a: Action)
        requires
            old(self).wf(),
            old(self).accepts(event),
        ensures
            final(self).wf(),
            Self::transition(*old(self), event, *final(self), a),
    {
        match event {
            Event::LockAcquired => {
                self.phase = Phase::CheckEntry;
                Action::StatExitCode
            },
            Event::LockFailed => {
                self.phase = Phase::Finished;
                self.exit_code = 1;
                self.failure = Some(Failure::Lock);
                Action::Exit { code: 1, failure: Some(Failure::Lock) }
            },
            Event::EntryMissing | Event::EntryUnreadable => {
                self.phase = Phase::Execute;
                Action::RunCommand
            },
            Event::EntryModified { modified_secs, now_secs } => {
                if is_fresh(now_secs, modified_secs, self.ttl_secs) {
                    self.phase = Phase::ReadEntry;
                    Action::ReadExitCode
                } else {
                    self.phase = Phase::Execute;
                    Action::RunCommand
                }
            },
            Event::EntryText(text) => match servable_code(text.as_slice(), self.cache_failures) {
                Some(code) => {
                    self.phase = Phase::Replay;
                    self.exit_code = code;
                    Action::ReplayOutputs
                },
                None => {
                    self.phase = Phase::Execute;
                    Action::RunCommand
                },
            },
            Event::CommandFinished { code, stdout, stderr } => match code {
                Some(c) => {
                    self.phase = Phase::Commit;
                    self.exit_code = c;
                    Action::WriteEntry { exit_code_text: render_exit_code(c), stdout, stderr }
                },
                None => self.fail(Failure::NoStatus),
            },
            Event::LaunchFailed => self.fail(Failure::Launch),
            Event::Committed => {
                self.phase = Phase::Replay;
                Action::ReplayOutputs
            },
            Event::CommitFailed => self.fail(Failure::Commit),
            Event::Replayed => {
                self.phase = Phase::ReleaseLock;
                Action::ReleaseLock
            },
            Event::ReplayFailed => self.fail(Failure::Replay),
            Event::LockReleased => {
                self.phase = Phase::Finished;
                Action::Exit { code: self.exit_code, failure: self.failure }
            },
        }
    }

    /// Every step keeps the entry under its lock: an action that reads or
    /// writes the entry's data files, or runs the command, is issued while the
    /// lock is held; an exit comes only once the lock is released or was never
    /// taken, and an exit that reports a failure has a non-zero status.
    pub proof fn lemma_entry_work_under_lock(s: Invocation, e: Event, t: Invocation, a: Action)
        requires
            s.wf(),
            s.accepts(e),
            Self::transition(s, e, t, a),
        ensures
            t.wf(),
            a.touches_entry() || a is RunCommand ==> t.phase.holds_lock(),
            a is Exit ==> !t.phase.holds_lock() && (s.phase == Phase::ReleaseLock || s.phase
                == Phase::AcquireLock),
            a is Exit && a->failure is Some ==> a->code != 0,
    {
    }

    /// The cache check decides as a lookup does: given the commit marker's
    /// time and then its text, the invocation replays exactly when the lookup
    /// serves a status, and exits with that status; otherwise it runs the command.
    pub proof fn lemma_check_agrees_with_lookup(
        s: Invocation,
        modified_secs: i64,
        now_secs: i64,
        t: Invocation,
        a: Action,
        text: Vec<u8>,
        u: Invocation,
        b: Action,
    )
        requires
            s.phase == Phase::CheckEntry,
            Self::transition(s, Event::EntryModified { modified_secs, now_secs }, t, a),
            a == Action::ReadExitCode ==> Self::transition(t, Event::EntryText(text), u, b),
        ensures
            entry_lookup(Some(modified_secs), now_secs, Some(text@), s.ttl_secs, s.cache_failures)
                matches Some(code) ==> a == Action::ReadExitCode && b == Action::ReplayOutputs
                && u.exit_code == code,
            entry_lookup(Some(modified_secs), now_secs, Some(text@), s.ttl_secs, s.cache_failures)
                is None ==> a == Action::RunCommand || (a == Action::ReadExitCode && b
                == Action::RunCommand),
    {
    }
}

} // verus!
