//! One invocation of the tool, as a state machine over observed outcomes.
//!
//! The library performs no filesystem or process work itself.  Instead the
//! caller runs a loop: it performs the [`Action`] the session hands out,
//! reports what happened as an [`Event`], and receives the next action.
//! The machine encodes the whole pipeline — materialize the cache entry,
//! re-check staleness, conditionally rebuild, run the compiled binary —
//! and every decision in it is verified against the transition
//! specification below.
//!
//! The expected outcome of each action:
//! - [`Action::ResolveSource`]: canonicalize the source argument and check
//!   that it names an existing regular file; report the canonical path and
//!   the check's verdict ([`Event::SourceChecked`]).
//! - [`Action::CheckProjectDir`]: report whether the project directory
//!   exists ([`Event::DirChecked`]).
//! - [`Action::Scaffold`]: run `cargo new --bin` for the entry; report exit
//!   status and captured standard error ([`Event::ScaffoldDone`]).
//! - [`Action::BackupManifest`]: copy `Cargo.toml` to `Cargo.toml.orig`.
//! - [`Action::RefreshEntryLink`]: remove `src/main.rs` (tolerating a
//!   missing file) and symlink it to the source.
//! - [`Action::ReadManifestInputs`]: read `Cargo.toml.orig` and the entry
//!   point; report both contents ([`Event::ManifestInputs`]).
//! - [`Action::WriteManifest`]: write the carried bytes over `Cargo.toml`.
//! - [`Action::StatEntryPoint`]: report the entry point's modification
//!   time ([`Event::Stat`]).
//! - [`Action::ReadTimestampFile`]: report `time.stamp`'s content, or that
//!   it does not exist ([`Event::StampFile`]).
//! - [`Action::DeleteTimestampFile`]: remove the corrupt `time.stamp`.
//! - [`Action::RemoveLockFile`]: remove `Cargo.lock` if present.
//! - [`Action::Build`]: run `cargo build --release` in the project
//!   directory; report exit status and standard error
//!   ([`Event::BuildDone`]).
//! - [`Action::WriteTimestampFile`]: write the carried bytes over
//!   `time.stamp`.
//! - [`Action::RunBinary`]: spawn the compiled executable with the user's
//!   trailing arguments and inherited standard streams; report its exit
//!   code, or that it was killed by a signal ([`Event::RunExited`]).
//! - [`Action::Finish`]: exit with the carried code.
//! - [`Action::Fail`]: surface the carried error and exit unsuccessfully.
//!
//! A filesystem step that fails is reported as [`Event::IoErr`] with a
//! diagnostic message; the session then aborts.

use vstd::prelude::*;

use crate::Error;
use crate::manifest::{synthesize_manifest, synthesized};
use crate::stamp::{decimal_of, is_timestamp, parse_timestamp, render_timestamp, timestamp_value};

verus! {

/// What the caller must do next.
pub enum Action {
    /// Canonicalize the source argument and check it names a file.
    ResolveSource,
    /// Check whether the project directory exists.
    CheckProjectDir,
    /// Scaffold a fresh project with the external build tool.
    Scaffold,
    /// Back up the scaffold's pristine manifest.
    BackupManifest,
    /// Point the entry-point link at the source file.
    RefreshEntryLink,
    /// Read the manifest template and the entry point's text.
    ReadManifestInputs,
    /// Write these bytes over the project manifest.
    WriteManifest(Vec<u8>),
    /// Read the entry point's modification time.
    StatEntryPoint,
    /// Read the persisted timestamp file.
    ReadTimestampFile,
    /// Delete the corrupt timestamp file.
    DeleteTimestampFile,
    /// Remove the dependency lock file.
    RemoveLockFile,
    /// Build the project in release mode.
    Build,
    /// Write these bytes over the timestamp file.
    WriteTimestampFile(Vec<u8>),
    /// Run the compiled binary with the user's arguments.
    RunBinary,
    /// Exit, propagating this code as our own.
    Finish(i32),
    /// Abort with this error.
    Fail(Error),
}

/// What the caller observed while performing the last action.
pub enum Event {
    /// Start the session.
    Begin,
    /// The canonical source path, and whether it names a regular file.
    SourceChecked(String, bool),
    /// Whether the project directory exists.
    DirChecked(bool),
    /// The scaffold invocation's success, with captured standard error.
    ScaffoldDone(bool, Vec<u8>),
    /// The filesystem step succeeded.
    IoOk,
    /// The step failed; carries a diagnostic message.
    IoErr(Vec<u8>),
    /// The manifest template and the entry point's text.
    ManifestInputs(Vec<u8>, Vec<u8>),
    /// The entry point's modification time, in seconds since the epoch.
    Stat(i64),
    /// The timestamp file's content, or `None` when it does not exist.
    StampFile(Option<Vec<u8>>),
    /// The build invocation's success, with captured standard error.
    BuildDone(bool, Vec<u8>),
    /// The child's exit code, or `None` when a signal terminated it.
    RunExited(Option<i32>),
}

/// Where the session stands: which action is outstanding.
pub enum Phase {
    /// Nothing happened yet.
    Start,
    /// Waiting for the source file's resolution.
    CheckingSource,
    /// Waiting for the project-directory check.
    Checking,
    /// Waiting for the scaffold invocation.
    Scaffolding,
    /// Waiting for the manifest backup.
    BackingUp,
    /// Waiting for the entry-point link; `created` records whether this
    /// session scaffolded the directory first.
    Linking { created: bool },
    /// Waiting for the manifest inputs; `initial` is true during first
    /// creation, false during a staleness rebuild.
    ReadingManifest { initial: bool },
    /// Waiting for the manifest write.
    WritingManifest { initial: bool },
    /// Waiting for the lock-file removal.
    RemovingLock,
    /// Waiting for the build.
    Building { initial: bool },
    /// Waiting for the modification time that the timestamp will record.
    Statting { initial: bool },
    /// Waiting for the timestamp write.
    Stamping { initial: bool },
    /// Waiting for the modification time of the staleness check.
    StattingStale,
    /// Waiting for the timestamp file, to compare with `modified`.
    ReadingStamp { modified: i64 },
    /// Waiting for the corrupt timestamp file's deletion.
    DeletingStamp { content: Vec<u8> },
    /// Waiting for the compiled binary to exit.
    Running,
    /// The session finished; the child exited with `code`.
    Done { code: i32 },
    /// The session aborted.
    Failed,
}

/// Which events a phase can take.  `Done` and `Failed` are terminal.
pub open spec fn accepts(p: Phase, ev: Event) -> bool {
    match (p, ev) {
        (Phase::Start, Event::Begin) => true,
        (Phase::CheckingSource, Event::SourceChecked(_, _)) => true,
        (Phase::CheckingSource, Event::IoErr(_)) => true,
        (Phase::Checking, Event::DirChecked(_)) => true,
        (Phase::Scaffolding, Event::ScaffoldDone(_, _)) => true,
        (Phase::BackingUp, Event::IoOk) => true,
        (Phase::Linking { .. }, Event::IoOk) => true,
        (Phase::ReadingManifest { .. }, Event::ManifestInputs(_, _)) => true,
        (Phase::WritingManifest { .. }, Event::IoOk) => true,
        (Phase::RemovingLock, Event::IoOk) => true,
        (Phase::Building { .. }, Event::BuildDone(_, _)) => true,
        (Phase::Statting { .. }, Event::Stat(_)) => true,
        (Phase::Stamping { .. }, Event::IoOk) => true,
        (Phase::StattingStale, Event::Stat(_)) => true,
        (Phase::ReadingStamp { .. }, Event::StampFile(_)) => true,
        (Phase::DeletingStamp { .. }, Event::IoOk) => true,
        (Phase::Running, Event::RunExited(_)) => true,
        (Phase::Scaffolding, Event::IoErr(_)) => true,
        (Phase::BackingUp, Event::IoErr(_)) => true,
        (Phase::Linking { .. }, Event::IoErr(_)) => true,
        (Phase::ReadingManifest { .. }, Event::IoErr(_)) => true,
        (Phase::WritingManifest { .. }, Event::IoErr(_)) => true,
        (Phase::RemovingLock, Event::IoErr(_)) => true,
        (Phase::Building { .. }, Event::IoErr(_)) => true,
        (Phase::Statting { .. }, Event::IoErr(_)) => true,
        (Phase::Stamping { .. }, Event::IoErr(_)) => true,
        (Phase::StattingStale, Event::IoErr(_)) => true,
        (Phase::ReadingStamp { .. }, Event::IoErr(_)) => true,
        (Phase::DeletingStamp { .. }, Event::IoErr(_)) => true,
        (Phase::Running, Event::IoErr(_)) => true,
        _ => false,
    }
}

/// The phase after taking `ev` in `p`.
pub open spec fn step_phase(p: Phase, ev: Event) -> Phase {
    match (p, ev) {
        (_, Event::IoErr(_)) => Phase::Failed,
        (Phase::Start, Event::Begin) => Phase::CheckingSource,
        (Phase::CheckingSource, Event::SourceChecked(_, ok)) => if ok {
            Phase::Checking
        } else {
            Phase::Failed
        },
        (Phase::Checking, Event::DirChecked(present)) => if present {
            Phase::Linking { created: false }
        } else {
            Phase::Scaffolding
        },
        (Phase::Scaffolding, Event::ScaffoldDone(ok, _)) => if ok {
            Phase::BackingUp
        } else {
            Phase::Failed
        },
        (Phase::BackingUp, Event::IoOk) => Phase::Linking { created: true },
        (Phase::Linking { created }, Event::IoOk) => if created {
            Phase::ReadingManifest { initial: true }
        } else {
            Phase::StattingStale
        },
        (Phase::ReadingManifest { initial }, Event::ManifestInputs(_, _)) => Phase::WritingManifest {
            initial,
        },
        (Phase::WritingManifest { initial }, Event::IoOk) => if initial {
            Phase::Building { initial: true }
        } else {
            Phase::RemovingLock
        },
        (Phase::RemovingLock, Event::IoOk) => Phase::Building { initial: false },
        (Phase::Building { initial }, Event::BuildDone(ok, _)) => if ok {
            Phase::Statting { initial }
        } else {
            Phase::Failed
        },
        (Phase::Statting { initial }, Event::Stat(_)) => Phase::Stamping { initial },
        (Phase::Stamping { initial }, Event::IoOk) => if initial {
            Phase::StattingStale
        } else {
            Phase::Running
        },
        (Phase::StattingStale, Event::Stat(m)) => Phase::ReadingStamp { modified: m },
        (Phase::ReadingStamp { modified }, Event::StampFile(stamp)) => match stamp {
            Option::None => Phase::ReadingManifest { initial: false },
            Option::Some(c) => if is_timestamp(c@) {
                if modified > timestamp_value(c@) {
                    Phase::ReadingManifest { initial: false }
                } else {
                    Phase::Running
                }
            } else {
                Phase::DeletingStamp { content: c }
            },
        },
        (Phase::DeletingStamp { .. }, Event::IoOk) => Phase::Failed,
        (Phase::Running, Event::RunExited(code)) => match code {
            Option::Some(k) => Phase::Done { code: k },
            Option::None => Phase::Failed,
        },
        _ => p,
    }
}

/// The action handed out for taking `ev` in `p`, payloads included.
pub open spec fn step_action_ok(p: Phase, ev: Event, a: Action) -> bool {
    match (p, ev) {
        (Phase::Start, Event::IoErr(_)) => true,
        (Phase::Checking, Event::IoErr(_)) => true,
        (Phase::Done { .. }, Event::IoErr(_)) => true,
        (Phase::Failed, Event::IoErr(_)) => true,
        (_, Event::IoErr(msg)) => a matches Action::Fail(Error::Io(b)) && b@ == msg@,
        (Phase::Start, Event::Begin) => a == Action::ResolveSource,
        (Phase::CheckingSource, Event::SourceChecked(path, ok)) => if ok {
            a == Action::CheckProjectDir
        } else {
            a matches Action::Fail(Error::NotAFile(p)) && p@ == path@
        },
        (Phase::Checking, Event::DirChecked(present)) => if present {
            a == Action::RefreshEntryLink
        } else {
            a == Action::Scaffold
        },
        (Phase::Scaffolding, Event::ScaffoldDone(ok, err)) => if ok {
            a == Action::BackupManifest
        } else {
            a matches Action::Fail(Error::CargoNew(b)) && b@ == err@
        },
        (Phase::BackingUp, Event::IoOk) => a == Action::RefreshEntryLink,
        (Phase::Linking { created }, Event::IoOk) => if created {
            a == Action::ReadManifestInputs
        } else {
            a == Action::StatEntryPoint
        },
        (Phase::ReadingManifest { .. }, Event::ManifestInputs(t, s)) => a matches
            Action::WriteManifest(m) && m@ == synthesized(t@, s@),
        (Phase::WritingManifest { initial }, Event::IoOk) => if initial {
            a == Action::Build
        } else {
            a == Action::RemoveLockFile
        },
        (Phase::RemovingLock, Event::IoOk) => a == Action::Build,
        (Phase::Building { .. }, Event::BuildDone(ok, err)) => if ok {
            a == Action::StatEntryPoint
        } else {
            a matches Action::Fail(Error::CargoBuild(b)) && b@ == err@
        },
        (Phase::Statting { .. }, Event::Stat(m)) => a matches Action::WriteTimestampFile(b) && b@
            == decimal_of(m as int),
        (Phase::Stamping { initial }, Event::IoOk) => if initial {
            a == Action::StatEntryPoint
        } else {
            a == Action::RunBinary
        },
        (Phase::StattingStale, Event::Stat(_)) => a == Action::ReadTimestampFile,
        (Phase::ReadingStamp { modified }, Event::StampFile(stamp)) => match stamp {
            Option::None => a == Action::ReadManifestInputs,
            Option::Some(c) => if is_timestamp(c@) {
                if modified > timestamp_value(c@) {
                    a == Action::ReadManifestInputs
                } else {
                    a == Action::RunBinary
                }
            } else {
                a == Action::DeleteTimestampFile
            },
        },
        (Phase::DeletingStamp { content }, Event::IoOk) => a matches Action::Fail(
            Error::MalformedTimestamp(b),
        ) && b@ == content@,
        (Phase::Running, Event::RunExited(code)) => match code {
            Option::Some(k) => a == Action::Finish(k),
            Option::None => a matches Action::Fail(Error::SignalTerminated),
        },
        _ => true,
    }
}

/// One invocation's state.
pub struct Session {
    phase: Phase,
}

impl Session {
    /// The session's current phase.
    pub closed spec fn phase(&self) -> Phase {
        self.phase
    }

    /// Starts a session; feed it [`Event::Begin`] for the first action.
    pub fn new() -> (s: Session)
        ensures
            s.phase() == Phase::Start,
    {
        Session { phase: Phase::Start }
    }

    /// Takes the outcome of the last action and hands out the next one.
    pub fn next(&mut self, ev: Event) -> (a: Action)
        requires
            accepts(old(self).phase(), ev),
        ensures
            final(self).phase() == step_phase(old(self).phase(), ev),
            step_action_ok(old(self).phase(), ev, a),
    {
        let mut p = Phase::Failed;
        core::mem::swap(&mut p, &mut self.phase);
        let ghost p0 = p;
        let (np, a): (Phase, Action) = match (p, ev) {
            (Phase::Start, Event::Begin) => (Phase::CheckingSource, Action::ResolveSource),
            (Phase::CheckingSource, Event::SourceChecked(path, ok)) => {
                if ok {
                    (Phase::Checking, Action::CheckProjectDir)
                } else {
                    (Phase::Failed, Action::Fail(Error::NotAFile(path)))
                }
            },
            (Phase::Checking, Event::DirChecked(present)) => {
                if present {
                    (Phase::Linking { created: false }, Action::RefreshEntryLink)
                } else {
                    (Phase::Scaffolding, Action::Scaffold)
                }
            },
            (Phase::Scaffolding, Event::ScaffoldDone(ok, err)) => {
                if ok {
                    (Phase::BackingUp, Action::BackupManifest)
                } else {
                    (Phase::Failed, Action::Fail(Error::CargoNew(err)))
                }
            },
            (Phase::BackingUp, Event::IoOk) => (
                Phase::Linking { created: true },
                Action::RefreshEntryLink,
            ),
            (Phase::Linking { created }, Event::IoOk) => {
                if created {
                    (Phase::ReadingManifest { initial: true }, Action::ReadManifestInputs)
                } else {
                    (Phase::StattingStale, Action::StatEntryPoint)
                }
            },
            (Phase::ReadingManifest { initial }, Event::ManifestInputs(t, s)) => {
                let m = synthesize_manifest(&t, &s);
                (Phase::WritingManifest { initial }, Action::WriteManifest(m))
            },
            (Phase::WritingManifest { initial }, Event::IoOk) => {
                if initial {
                    (Phase::Building { initial: true }, Action::Build)
                } else {
                    (Phase::RemovingLock, Action::RemoveLockFile)
                }
            },
            (Phase::RemovingLock, Event::IoOk) => (
                Phase::Building { initial: false },
                Action::Build,
            ),
            (Phase::Building { initial }, Event::BuildDone(ok, err)) => {
                if ok {
                    (Phase::Statting { initial }, Action::StatEntryPoint)
                } else {
                    (Phase::Failed, Action::Fail(Error::CargoBuild(err)))
                }
            },
            (Phase::Statting { initial }, Event::Stat(m)) => {
                let b = render_timestamp(m);
                (Phase::Stamping { initial }, Action::WriteTimestampFile(b))
            },
            (Phase::Stamping { initial }, Event::IoOk) => {
                if initial {
                    (Phase::StattingStale, Action::StatEntryPoint)
                } else {
                    (Phase::Running, Action::RunBinary)
                }
            },
            (Phase::StattingStale, Event::Stat(m)) => (
                Phase::ReadingStamp { modified: m },
                Action::ReadTimestampFile,
            ),
            (Phase::ReadingStamp { modified }, Event::StampFile(stamp)) => {
                match stamp {
                    Option::None => (
                        Phase::ReadingManifest { initial: false },
                        Action::ReadManifestInputs,
                    ),
                    Option::Some(c) => {
                        match parse_timestamp(&c) {
                            Ok(t) => {
                                if modified > t {
                                    (
                                        Phase::ReadingManifest { initial: false },
                                        Action::ReadManifestInputs,
                                    )
                                } else {
                                    (Phase::Running, Action::RunBinary)
                                }
                            },
                            Err(_) => (
                                Phase::DeletingStamp { content: c },
                                Action::DeleteTimestampFile,
                            ),
                        }
                    },
                }
            },
            (Phase::DeletingStamp { content }, Event::IoOk) => (
                Phase::Failed,
                Action::Fail(Error::MalformedTimestamp(content)),
            ),
            (Phase::Running, Event::RunExited(code)) => {
                match code {
                    Option::Some(k) => (Phase::Done { code: k }, Action::Finish(k)),
                    Option::None => (Phase::Failed, Action::Fail(Error::SignalTerminated)),
                }
            },
            (_, Event::IoErr(msg)) => (Phase::Failed, Action::Fail(Error::Io(msg))),
            _ => {
                // No other pairing is accepted, so this arm cannot run.
                proof {
                    assert(!accepts(p0, ev));
                    assert(false);
                }
                (Phase::Failed, Action::Fail(Error::SignalTerminated))
            },
        };
        self.phase = np;
        a
    }
}

/// Law: materializing an entry whose project directory already exists only
/// refreshes the entry-point link — no scaffold, backup, manifest, build
/// or timestamp work happens before the staleness check.  A second
/// invocation right after a successful first one therefore redoes none of
/// the creation work.
pub proof fn lemma_existing_entry_refresh_only(a1: Action, a2: Action)
    requires
        step_action_ok(Phase::Checking, Event::DirChecked(true), a1),
        step_action_ok(Phase::Linking { created: false }, Event::IoOk, a2),
    ensures
        a1 == Action::RefreshEntryLink,
        a2 == Action::StatEntryPoint,
        step_phase(Phase::Checking, Event::DirChecked(true)) == (Phase::Linking {
            created: false,
        }),
        step_phase(Phase::Linking { created: false }, Event::IoOk) == Phase::StattingStale,
{
}

/// Law: first-time creation performs the full sequence, in order —
/// scaffold, back up the pristine manifest, link the entry point, write
/// the synthesized manifest, build, record the timestamp read from the
/// entry point — and only then re-checks staleness.
pub proof fn lemma_creation_sequence(err: Vec<u8>, modified: i64)
    ensures
        step_phase(Phase::Checking, Event::DirChecked(false)) == Phase::Scaffolding,
        step_phase(Phase::Scaffolding, Event::ScaffoldDone(true, err)) == Phase::BackingUp,
        step_phase(Phase::BackingUp, Event::IoOk) == (Phase::Linking { created: true }),
        step_phase(Phase::Linking { created: true }, Event::IoOk) == (Phase::ReadingManifest {
            initial: true,
        }),
        step_phase(Phase::WritingManifest { initial: true }, Event::IoOk) == (Phase::Building {
            initial: true,
        }),
        step_phase(Phase::Building { initial: true }, Event::BuildDone(true, err))
            == (Phase::Statting { initial: true }),
        step_phase(Phase::Statting { initial: true }, Event::Stat(modified)) == (Phase::Stamping {
            initial: true,
        }),
        step_phase(Phase::Stamping { initial: true }, Event::IoOk) == Phase::StattingStale,
        forall|a: Action|
            step_action_ok(Phase::Statting { initial: true }, Event::Stat(modified), a) ==> (a
                matches Action::WriteTimestampFile(b) && b@ == decimal_of(modified as int)
                && timestamp_value(b@) == modified),
{
    crate::stamp::lemma_timestamp_round_trip(modified);
}

/// Law: a failed build surfaces the captured standard error verbatim and
/// aborts the session.
pub proof fn lemma_build_failure_aborts(initial: bool, err: Vec<u8>, a: Action)
    requires
        step_action_ok(Phase::Building { initial }, Event::BuildDone(false, err), a),
    ensures
        a matches Action::Fail(e) && e matches Error::CargoBuild(b) && b@ == err@,
        step_phase(Phase::Building { initial }, Event::BuildDone(false, err)) == Phase::Failed,
{
}

/// Law: `Done` and `Failed` are terminal — an aborted session never runs
/// a stale or partial binary, and a finished one never restarts.
pub proof fn lemma_terminal_phases(code: i32, ev: Event)
    ensures
        !accepts(Phase::Failed, ev),
        !accepts(Phase::Done { code }, ev),
{
}

/// Law: the staleness verdict.  A missing timestamp file rebuilds; a
/// well-formed one rebuilds exactly when the modification time is newer
/// than the recorded one; equality reuses the cached build and goes
/// straight to the run step.
pub proof fn lemma_staleness_decision(modified: i64, stamp: Option<Vec<u8>>, a: Action)
    requires
        step_action_ok(Phase::ReadingStamp { modified }, Event::StampFile(stamp), a),
        stamp matches Some(c) ==> is_timestamp(c@),
    ensures
        match stamp {
            Option::None => a == Action::ReadManifestInputs,
            Option::Some(c) => if modified > timestamp_value(c@) {
                a == Action::ReadManifestInputs
            } else {
                a == Action::RunBinary
            },
        },
{
}

/// Law: a timestamp file that does not parse is deleted, and only then is
/// the failure surfaced, carrying the unparsable content verbatim.
pub proof fn lemma_malformed_stamp_deleted(modified: i64, c: Vec<u8>, a1: Action, a2: Action)
    requires
        !is_timestamp(c@),
        step_action_ok(Phase::ReadingStamp { modified }, Event::StampFile(Some(c)), a1),
        step_action_ok(Phase::DeletingStamp { content: c }, Event::IoOk, a2),
    ensures
        a1 == Action::DeleteTimestampFile,
        step_phase(Phase::ReadingStamp { modified }, Event::StampFile(Some(c)))
            == (Phase::DeletingStamp { content: c }),
        a2 matches Action::Fail(e) && e matches Error::MalformedTimestamp(b) && b@ == c@,
        step_phase(Phase::DeletingStamp { content: c }, Event::IoOk) == Phase::Failed,
{
}

/// Law: an argument that does not resolve to an existing regular file is
/// rejected before any cache state is touched, with the offending path in
/// the error.
pub proof fn lemma_not_a_file_rejected(path: String, a: Action)
    requires
        step_action_ok(Phase::CheckingSource, Event::SourceChecked(path, false), a),
    ensures
        a matches Action::Fail(e) && e matches Error::NotAFile(p) && p@ == path@,
        step_phase(Phase::CheckingSource, Event::SourceChecked(path, false)) == Phase::Failed,
{
}

/// Law: the child's exit code is propagated unchanged, and a
/// signal-terminated child is surfaced as a failure, never as a made-up
/// code.
pub proof fn lemma_exit_code_propagated(code: Option<i32>, a: Action)
    requires
        step_action_ok(Phase::Running, Event::RunExited(code), a),
    ensures
        match code {
            Option::Some(k) => a == Action::Finish(k) && step_phase(
                Phase::Running,
                Event::RunExited(code),
            ) == (Phase::Done { code: k }),
            Option::None => a matches Action::Fail(e) && e matches Error::SignalTerminated,
        },
{
}

} // verus!

