//! Installing the program in place of the launcher, as a state machine: the
//! caller performs each action and reports what came of it, and
//! [`install_step`] decides the next one.
//!
//! The launcher binary is moved aside (copied to `minecraft-launcher-real`)
//! unless that copy exists already, and this program is copied in its place,
//! unless it is there already. The launcher is closed first, with its
//! settings kept.

use vstd::prelude::*;
use crate::cli::LAUNCHER_BINARY_NAME;
use crate::launcher_setup::REAL_LAUNCHER_PROGRAM;
use crate::paths::{
    empty_path, file_name, is_plain_name, join, join_spec, opt_view, path_bytes, path_clone,
    path_file_name, separator,
};
use std::path::PathBuf;
use vstd::utf8::encode_utf8;
use crate::text::{contains_spec, str_contains, str_eq};

verus! {

/// The directory that holds the launcher.
pub const BIN_DIR: &'static str = "/usr/bin";

/// The argument that replaces an existing copy of the real launcher.
pub const UPGRADE_ARGUMENT: &'static str = "--upgrade";

/// What a lossy conversion puts in place of bytes that are not UTF-8.
pub const REPLACEMENT_CHARACTER: &'static str = "\u{FFFD}";

/// The launcher binary: `/usr/bin/minecraft-launcher`.
pub open spec fn launcher_path_spec() -> Seq<char> {
    join_spec(BIN_DIR@, LAUNCHER_BINARY_NAME@)
}

/// The moved-aside real launcher: `/usr/bin/minecraft-launcher-real`.
pub open spec fn real_launcher_path_spec() -> Seq<char> {
    join_spec(BIN_DIR@, REAL_LAUNCHER_PROGRAM@)
}

/// Where an install stands: what it waits to hear about.
#[derive(Debug, Clone, Copy, PartialEq, Eq, Structural)]
pub enum InstallPhase {
    /// Waits to hear whether the program runs as root.
    Escalating,
    /// Waits for the path of the running executable.
    LocatingSelf,
    /// Waits to hear whether the running executable exists.
    CheckingSelf,
    /// Waits to hear whether `/usr/bin` exists.
    CheckingBinDir,
    /// Waits to hear whether the launcher binary exists.
    CheckingLauncher,
    /// Waits for the comparison of the executable with the launcher binary.
    Comparing,
    /// Waits for the launcher's settings to be backed up.
    BackingUp,
    /// Waits to hear whether launcher processes were found (and stopped).
    Closing,
    /// Waits for the launcher's settings to be restored.
    Restoring,
    /// Waits for the old copy of the real launcher to be removed.
    RemovingReal,
    /// Waits to hear whether the copy of the real launcher exists.
    CheckingReal,
    /// Waits to hear whether the real launcher was copied aside.
    CopyingReal,
    /// Waits to hear, once more, whether the copy of the real launcher exists.
    RecheckingReal,
    /// Waits to hear whether the program was copied over the launcher.
    Replacing,
    /// The install is over.
    Finished,
}

/// An install in progress.
pub struct InstallState {
    /// What it waits to hear about.
    pub phase: InstallPhase,
    /// The file name the program was started under.
    pub binary_file_name: String,
    /// Whether an existing copy of the real launcher is replaced.
    pub upgrade: bool,
    /// The running executable, once known (its path need not be UTF-8).
    pub self_path: PathBuf,
}

/// What the caller reports after an action.
pub enum InstallEvent {
    /// The action is done.
    Done,
    /// The yes-or-no answer of the action: escalation succeeded, the path
    /// exists, launcher processes were found, the copy succeeded.
    Checked(bool),
    /// The path of the running executable, or the error that kept it from
    /// being known.
    SelfPath(Result<PathBuf, String>),
    /// Whether the executable and the launcher binary hold the same bytes,
    /// or the error that kept them from being compared.
    Compared(Result<bool, String>),
}

/// Why an install failed.
pub enum InstallFailure {
    /// The running executable's path could not be found.
    CurrentExe(String),
    /// The running executable no longer exists.
    ExecutableDeleted,
    /// The running executable's path has no file name.
    NoFileName,
    /// The executable's file name differs from the one it was started under.
    NameMismatch { current: String, started_as: String },
    /// The executable's file name is not valid UTF-8.
    NonUnicodeName,
    /// `/usr/bin` does not exist.
    NoBinDir,
    /// The launcher is not installed.
    LauncherMissing,
    /// The executable could not be compared with the launcher binary.
    Compare(String),
    /// A copy failed.
    CopyFailed,
    /// The caller reported something that does not answer the pending action.
    Aborted,
}

/// What the caller announces before the action.
pub enum InstallNote {
    /// "Starting install".
    StartingInstall,
    /// The comparison with the launcher binary may take a while.
    CheckingInstalled,
    /// The program is installed already.
    AlreadyInstalled,
    /// The launcher was closed for the install.
    ClosedLauncher,
    /// The copy of the real launcher exists and is kept.
    RealLauncherKept,
    /// The real launcher was copied from `from` to `to`.
    RealLauncherCopied { from: String, to: String },
    /// The install succeeded.
    InstallSucceeded,
}

/// What the caller does next.
pub enum InstallAction {
    /// Restart as root if needed; report [`InstallEvent::Checked`].
    Escalate,
    /// Find the running executable; report [`InstallEvent::SelfPath`].
    LocateSelf,
    /// Report whether this path exists ([`InstallEvent::Checked`]).
    CheckExists(String),
    /// Report whether the running executable, at this path, exists
    /// ([`InstallEvent::Checked`]).
    CheckSelfExists(PathBuf),
    /// Compare the bytes of the two files ([`InstallEvent::Compared`]).
    CompareFiles(PathBuf, String),
    /// Back up the launcher's settings; report [`InstallEvent::Done`].
    BackupProfiles,
    /// Find the user's launcher processes, not children of this program, and
    /// stop them; report whether any was found ([`InstallEvent::Checked`]).
    CloseLaunchers,
    /// Restore the launcher's settings; report [`InstallEvent::Done`].
    RestoreProfiles,
    /// Remove this file, reporting a failure; report [`InstallEvent::Done`].
    RemoveFile(String),
    /// Copy the first file to the second; report whether it succeeded
    /// ([`InstallEvent::Checked`]).
    CopyFile(String, String),
    /// Copy the running executable, at the first path, to the second; report
    /// whether it succeeded ([`InstallEvent::Checked`]).
    CopySelf(PathBuf, String),
    /// End the install successfully.
    Succeed,
    /// End the install with failure, for this reason (`None`: it was already
    /// reported).
    Fail(Option<InstallFailure>),
}

/// One step: an optional announcement, then an action.
pub struct InstallStep {
    pub note: Option<InstallNote>,
    pub action: InstallAction,
}

/// `args` holds the argument `--upgrade`.
pub open spec fn wants_upgrade(args: Seq<String>) -> bool {
    exists|i: int| 0 <= i < args.len() && #[trigger] args[i]@ == UPGRADE_ARGUMENT@
}

/// Whether `args` holds the argument `--upgrade`.
fn has_upgrade_argument(args: &Vec<String>) -> (res: bool)
    ensures
        res == wants_upgrade(args@),
{
    let mut i: usize = 0;
    while i < args.len()
        invariant
            i <= args.len(),
            forall|k: int| 0 <= k < i ==> #[trigger] args@[k]@ != UPGRADE_ARGUMENT@,
        decreases args.len() - i,
    {
        if str_eq(args[i].as_str(), UPGRADE_ARGUMENT) {
            return true;
        }
        i = i + 1;
    }
    false
}

/// The first step of an install of the program started under the file name
/// `binary_file_name` with the command line `args`: escalate.
pub fn install_begin(binary_file_name: &str, args: &Vec<String>) -> (res: (InstallState, InstallStep))
    ensures
        res.0.phase == InstallPhase::Escalating,
        res.0.binary_file_name@ == binary_file_name@,
        res.0.upgrade == wants_upgrade(args@),
        path_bytes(res.0.self_path) == Seq::<u8>::empty(),
        res.1.note is None,
        res.1.action is Escalate,
{
    let state = InstallState {
        phase: InstallPhase::Escalating,
        binary_file_name: binary_file_name.to_owned(),
        upgrade: has_upgrade_argument(args),
        self_path: empty_path(),
    };
    (state, InstallStep { note: None, action: InstallAction::Escalate })
}

/// `t` is `s` moved to `phase`, with everything else kept.
pub open spec fn moved(s: InstallState, t: InstallState, phase: InstallPhase) -> bool {
    &&& t.phase == phase
    &&& t.binary_file_name@ == s.binary_file_name@
    &&& t.upgrade == s.upgrade
    &&& path_bytes(t.self_path) == path_bytes(s.self_path)
}

/// The install ends with failure (the reason is stated separately).
pub open spec fn failed(t: InstallState, step: InstallStep) -> bool {
    &&& t.phase == InstallPhase::Finished
    &&& step.note is None
    &&& step.action is Fail
}

/// The step fails for a reason that satisfies `reason`.
pub open spec fn fails_with(t: InstallState, step: InstallStep, reason: spec_fn(InstallFailure) -> bool) -> bool {
    &&& failed(t, step)
    &&& step.action matches InstallAction::Fail(Some(f)) && reason(f)
}

/// The step fails with a simple reason.
pub open spec fn fails_simply(t: InstallState, step: InstallStep, reason: InstallFailure) -> bool {
    fails_with(t, step, |f: InstallFailure| f == reason)
}

/// The action is a check that `path` exists.
pub open spec fn checks(step: InstallStep, path: Seq<char>) -> bool {
    step.action matches InstallAction::CheckExists(p) && p@ == path
}

/// The action checks that the running executable, at `path`, exists.
pub open spec fn checks_self(step: InstallStep, path: Seq<u8>) -> bool {
    step.action matches InstallAction::CheckSelfExists(p) && path_bytes(p) == path
}

/// The action copies the running executable, at `from`, to `to`.
pub open spec fn copies_self(step: InstallStep, from: Seq<u8>, to: Seq<char>) -> bool {
    step.action matches InstallAction::CopySelf(a, b) && path_bytes(a) == from && b@ == to
}

/// The action copies `from` to `to`.
pub open spec fn copies(step: InstallStep, from: Seq<char>, to: Seq<char>) -> bool {
    step.action matches InstallAction::CopyFile(a, b) && a@ == from && b@ == to
}

/// What follows once the running executable was found to exist, given its
/// file name (`None` when its path has none): the name must be the one the
/// program was started under and hold no replacement character (which marks
/// bytes that were not UTF-8); then `/usr/bin` is checked.
pub open spec fn self_name_ok(s: InstallState, name: Option<Seq<char>>, t: InstallState, step: InstallStep) -> bool {
    match name {
        None => fails_simply(t, step, InstallFailure::NoFileName),
        Some(name) => if name != s.binary_file_name@ {
            fails_with(
                t,
                step,
                |f: InstallFailure|
                    f matches InstallFailure::NameMismatch { current, started_as } && current@ == name
                        && started_as@ == s.binary_file_name@,
            )
        } else if contains_spec(name, REPLACEMENT_CHARACTER@) {
            fails_simply(t, step, InstallFailure::NonUnicodeName)
        } else {
            moved(s, t, InstallPhase::CheckingBinDir) && step.note is None && checks(step, BIN_DIR@)
        },
    }
}

/// What follows the event `e` in the install `s`: `t` is the new state and
/// `step` the next step. Any event that does not answer the pending action
/// fails the install as [`InstallFailure::Aborted`].
pub open spec fn install_step_ok(s: InstallState, e: InstallEvent, t: InstallState, step: InstallStep) -> bool {
    match (s.phase, e) {
        (InstallPhase::Escalating, InstallEvent::Checked(true)) => moved(s, t, InstallPhase::LocatingSelf)
            && step.note == Some(InstallNote::StartingInstall) && step.action is LocateSelf,
        (InstallPhase::Escalating, InstallEvent::Checked(false)) => failed(t, step)
            && step.action == InstallAction::Fail(None),
        (InstallPhase::LocatingSelf, InstallEvent::SelfPath(Ok(path))) => {
            &&& t.phase == InstallPhase::CheckingSelf
            &&& t.binary_file_name@ == s.binary_file_name@
            &&& t.upgrade == s.upgrade
            &&& path_bytes(t.self_path) == path_bytes(path)
            &&& step.note is None
            &&& checks_self(step, path_bytes(path))
        },
        (InstallPhase::LocatingSelf, InstallEvent::SelfPath(Err(error))) => fails_with(
            t,
            step,
            |f: InstallFailure| f matches InstallFailure::CurrentExe(m) && m@ == error@,
        ),
        (InstallPhase::CheckingSelf, InstallEvent::Checked(false)) => fails_simply(
            t,
            step,
            InstallFailure::ExecutableDeleted,
        ),
        (InstallPhase::CheckingSelf, InstallEvent::Checked(true)) => self_name_ok(
            s,
            path_file_name(path_bytes(s.self_path)),
            t,
            step,
        ),
        (InstallPhase::CheckingBinDir, InstallEvent::Checked(false)) => fails_simply(
            t,
            step,
            InstallFailure::NoBinDir,
        ),
        (InstallPhase::CheckingBinDir, InstallEvent::Checked(true)) => moved(
            s,
            t,
            InstallPhase::CheckingLauncher,
        ) && step.note is None && checks(step, launcher_path_spec()),
        (InstallPhase::CheckingLauncher, InstallEvent::Checked(false)) => fails_simply(
            t,
            step,
            InstallFailure::LauncherMissing,
        ),
        (InstallPhase::CheckingLauncher, InstallEvent::Checked(true)) => {
            &&& moved(s, t, InstallPhase::Comparing)
            &&& step.note == Some(InstallNote::CheckingInstalled)
            &&& step.action matches InstallAction::CompareFiles(a, b) && path_bytes(a) == path_bytes(
                s.self_path,
            ) && b@
                == launcher_path_spec()
        },
        (InstallPhase::Comparing, InstallEvent::Compared(Ok(true))) => {
            &&& t.phase == InstallPhase::Finished
            &&& step.note == Some(InstallNote::AlreadyInstalled)
            &&& step.action is Succeed
        },
        (InstallPhase::Comparing, InstallEvent::Compared(Ok(false))) => moved(
            s,
            t,
            InstallPhase::BackingUp,
        ) && step.note is None && step.action is BackupProfiles,
        (InstallPhase::Comparing, InstallEvent::Compared(Err(error))) => fails_with(
            t,
            step,
            |f: InstallFailure| f matches InstallFailure::Compare(m) && m@ == error@,
        ),
        (InstallPhase::BackingUp, InstallEvent::Done) => moved(s, t, InstallPhase::Closing)
            && step.note is None && step.action is CloseLaunchers,
        (InstallPhase::Closing, InstallEvent::Checked(found)) => {
            &&& moved(s, t, InstallPhase::Restoring)
            &&& (if found {
                step.note == Some(InstallNote::ClosedLauncher)
            } else {
                step.note is None
            })
            &&& step.action is RestoreProfiles
        },
        (InstallPhase::Restoring, InstallEvent::Done) => if s.upgrade {
            moved(s, t, InstallPhase::RemovingReal) && step.note is None && (
            step.action matches InstallAction::RemoveFile(p) && p@ == real_launcher_path_spec())
        } else {
            moved(s, t, InstallPhase::CheckingReal) && step.note is None && checks(
                step,
                real_launcher_path_spec(),
            )
        },
        (InstallPhase::RemovingReal, InstallEvent::Done) => moved(
            s,
            t,
            InstallPhase::CheckingReal,
        ) && step.note is None && checks(step, real_launcher_path_spec()),
        (InstallPhase::CheckingReal, InstallEvent::Checked(false)) => moved(
            s,
            t,
            InstallPhase::CopyingReal,
        ) && step.note is None && copies(step, launcher_path_spec(), real_launcher_path_spec()),
        (InstallPhase::CheckingReal, InstallEvent::Checked(true)) => moved(
            s,
            t,
            InstallPhase::RecheckingReal,
        ) && step.note is None && checks(step, real_launcher_path_spec()),
        (InstallPhase::CopyingReal, InstallEvent::Checked(false)) => fails_simply(
            t,
            step,
            InstallFailure::CopyFailed,
        ),
        (InstallPhase::CopyingReal, InstallEvent::Checked(true)) => moved(
            s,
            t,
            InstallPhase::RecheckingReal,
        ) && step.note is None && checks(step, real_launcher_path_spec()),
        (InstallPhase::RecheckingReal, InstallEvent::Checked(exists)) => {
            &&& moved(s, t, InstallPhase::Replacing)
            &&& (if exists {
                step.note == Some(InstallNote::RealLauncherKept)
            } else {
                step.note matches Some(InstallNote::RealLauncherCopied { from, to }) && from@
                    == launcher_path_spec() && to@ == real_launcher_path_spec()
            })
            &&& copies_self(step, path_bytes(s.self_path), launcher_path_spec())
        },
        (InstallPhase::Replacing, InstallEvent::Checked(false)) => fails_simply(
            t,
            step,
            InstallFailure::CopyFailed,
        ),
        (InstallPhase::Replacing, InstallEvent::Checked(true)) => {
            &&& t.phase == InstallPhase::Finished
            &&& step.note == Some(InstallNote::InstallSucceeded)
            &&& step.action is Succeed
        },
        _ => fails_simply(t, step, InstallFailure::Aborted),
    }
}

/// `s` moved to `phase`.
fn advance(s: InstallState, phase: InstallPhase) -> (t: InstallState)
    ensures
        moved(s, t, phase),
{
    InstallState { phase, ..s }
}

/// The install ends in failure for `reason`.
fn fail(s: InstallState, reason: Option<InstallFailure>) -> (res: (InstallState, InstallStep))
    ensures
        failed(res.0, res.1),
        res.1.action == InstallAction::Fail(reason),
{
    (advance(s, InstallPhase::Finished), InstallStep { note: None, action: InstallAction::Fail(reason) })
}

/// A step without announcement.
fn quiet(action: InstallAction) -> (res: InstallStep)
    ensures
        res.note is None,
        res.action == action,
{
    InstallStep { note: None, action }
}

/// The launcher binary.
fn launcher_path() -> (res: String)
    ensures
        res@ == launcher_path_spec(),
{
    join(BIN_DIR, LAUNCHER_BINARY_NAME)
}

/// The moved-aside real launcher.
fn real_launcher_path() -> (res: String)
    ensures
        res@ == real_launcher_path_spec(),
{
    join(BIN_DIR, REAL_LAUNCHER_PROGRAM)
}

/// Decides the step after the running executable was found to exist, given
/// its file name `name`.
pub fn check_self_name(s: InstallState, name: Option<String>) -> (res: (InstallState, InstallStep))
    ensures
        self_name_ok(s, opt_view(name), res.0, res.1),
{
    match name {
        None => fail(s, Some(InstallFailure::NoFileName)),
        Some(name) => {
            if !str_eq(name.as_str(), s.binary_file_name.as_str()) {
                let started_as = s.binary_file_name.clone();
                fail(s, Some(InstallFailure::NameMismatch { current: name, started_as }))
            } else if str_contains(name.as_str(), REPLACEMENT_CHARACTER) {
                fail(s, Some(InstallFailure::NonUnicodeName))
            } else {
                (
                    advance(s, InstallPhase::CheckingBinDir),
                    quiet(InstallAction::CheckExists(BIN_DIR.to_owned())),
                )
            }
        },
    }
}

/// Decides the step after the event `e` in the install `s`.
pub fn install_step(s: InstallState, e: InstallEvent) -> (res: (InstallState, InstallStep))
    ensures
        install_step_ok(s, e, res.0, res.1),
        forall|dir: Seq<u8>, name: Seq<char>|
            s.phase == InstallPhase::CheckingSelf && (e matches InstallEvent::Checked(true))
                && path_bytes(s.self_path) == #[trigger] (dir + seq![separator()] + encode_utf8(name))
                && is_plain_name(name) ==> self_name_ok(
                s,
                Some(name),
                res.0,
                res.1,
            ),
{
    match (s.phase, e) {
        (InstallPhase::Escalating, InstallEvent::Checked(root)) => if root {
            (
                advance(s, InstallPhase::LocatingSelf),
                InstallStep { note: Some(InstallNote::StartingInstall), action: InstallAction::LocateSelf },
            )
        } else {
            fail(s, None)
        },
        (InstallPhase::LocatingSelf, InstallEvent::SelfPath(located)) => match located {
            Ok(path) => {
                let check = path_clone(&path);
                (
                    InstallState { phase: InstallPhase::CheckingSelf, self_path: path, ..s },
                    quiet(InstallAction::CheckSelfExists(check)),
                )
            },
            Err(error) => fail(s, Some(InstallFailure::CurrentExe(error))),
        },
        (InstallPhase::CheckingSelf, InstallEvent::Checked(exists)) => if exists {
            let name = file_name(&s.self_path);
            check_self_name(s, name)
        } else {
            fail(s, Some(InstallFailure::ExecutableDeleted))
        },
        (InstallPhase::CheckingBinDir, InstallEvent::Checked(exists)) => if exists {
            (advance(s, InstallPhase::CheckingLauncher), quiet(InstallAction::CheckExists(launcher_path())))
        } else {
            fail(s, Some(InstallFailure::NoBinDir))
        },
        (InstallPhase::CheckingLauncher, InstallEvent::Checked(exists)) => if exists {
            let from = path_clone(&s.self_path);
            (
                advance(s, InstallPhase::Comparing),
                InstallStep {
                    note: Some(InstallNote::CheckingInstalled),
                    action: InstallAction::CompareFiles(from, launcher_path()),
                },
            )
        } else {
            fail(s, Some(InstallFailure::LauncherMissing))
        },
        (InstallPhase::Comparing, InstallEvent::Compared(compared)) => match compared {
            Ok(same) => if same {
                (
                    advance(s, InstallPhase::Finished),
                    InstallStep { note: Some(InstallNote::AlreadyInstalled), action: InstallAction::Succeed },
                )
            } else {
                (advance(s, InstallPhase::BackingUp), quiet(InstallAction::BackupProfiles))
            },
            Err(error) => fail(s, Some(InstallFailure::Compare(error))),
        },
        (InstallPhase::BackingUp, InstallEvent::Done) => (
            advance(s, InstallPhase::Closing),
            quiet(InstallAction::CloseLaunchers),
        ),
        (InstallPhase::Closing, InstallEvent::Checked(found)) => {
            let note = if found {
                Some(InstallNote::ClosedLauncher)
            } else {
                None
            };
            (
                advance(s, InstallPhase::Restoring),
                InstallStep { note, action: InstallAction::RestoreProfiles },
            )
        },
        (InstallPhase::Restoring, InstallEvent::Done) => if s.upgrade {
            (advance(s, InstallPhase::RemovingReal), quiet(InstallAction::RemoveFile(real_launcher_path())))
        } else {
            (advance(s, InstallPhase::CheckingReal), quiet(InstallAction::CheckExists(real_launcher_path())))
        },
        (InstallPhase::RemovingReal, InstallEvent::Done) => (
            advance(s, InstallPhase::CheckingReal),
            quiet(InstallAction::CheckExists(real_launcher_path())),
        ),
        (InstallPhase::CheckingReal, InstallEvent::Checked(exists)) => if exists {
            (advance(s, InstallPhase::RecheckingReal), quiet(InstallAction::CheckExists(real_launcher_path())))
        } else {
            (
                advance(s, InstallPhase::CopyingReal),
                quiet(InstallAction::CopyFile(launcher_path(), real_launcher_path())),
            )
        },
        (InstallPhase::CopyingReal, InstallEvent::Checked(copied)) => if copied {
            (advance(s, InstallPhase::RecheckingReal), quiet(InstallAction::CheckExists(real_launcher_path())))
        } else {
            fail(s, Some(InstallFailure::CopyFailed))
        },
        (InstallPhase::RecheckingReal, InstallEvent::Checked(exists)) => {
            let note = if exists {
                InstallNote::RealLauncherKept
            } else {
                InstallNote::RealLauncherCopied { from: launcher_path(), to: real_launcher_path() }
            };
            let from = path_clone(&s.self_path);
            (
                advance(s, InstallPhase::Replacing),
                InstallStep { note: Some(note), action: InstallAction::CopySelf(from, launcher_path()) },
            )
        },
        (InstallPhase::Replacing, InstallEvent::Checked(copied)) => if copied {
            (
                advance(s, InstallPhase::Finished),
                InstallStep { note: Some(InstallNote::InstallSucceeded), action: InstallAction::Succeed },
            )
        } else {
            fail(s, Some(InstallFailure::CopyFailed))
        },
        _ => fail(s, Some(InstallFailure::Aborted)),
    }
}

/// How many steps an install in `phase` takes at most before it is over.
pub open spec fn install_rank(phase: InstallPhase) -> nat {
    match phase {
        InstallPhase::Escalating => 14,
        InstallPhase::LocatingSelf => 13,
        InstallPhase::CheckingSelf => 12,
        InstallPhase::CheckingBinDir => 11,
        InstallPhase::CheckingLauncher => 10,
        InstallPhase::Comparing => 9,
        InstallPhase::BackingUp => 8,
        InstallPhase::Closing => 7,
        InstallPhase::Restoring => 6,
        InstallPhase::RemovingReal => 5,
        InstallPhase::CheckingReal => 4,
        InstallPhase::CopyingReal => 3,
        InstallPhase::RecheckingReal => 2,
        InstallPhase::Replacing => 1,
        InstallPhase::Finished => 0,
    }
}

/// An install always ends: every step out of an unfinished install leads to
/// a phase of smaller rank, and the install is over exactly when the action
/// is to succeed or to fail.
pub proof fn lemma_install_terminates(s: InstallState, e: InstallEvent, t: InstallState, step: InstallStep)
    requires
        s.phase != InstallPhase::Finished,
        install_step_ok(s, e, t, step),
    ensures
        install_rank(t.phase) < install_rank(s.phase),
        (t.phase == InstallPhase::Finished) <==> (step.action is Succeed || step.action is Fail),
{
}

/// The launcher's settings survive the install: the launcher is closed only
/// right after its settings were backed up, and the settings are restored
/// right after it was closed, whatever was found.
pub proof fn lemma_settings_kept_around_closing(s: InstallState, e: InstallEvent, t: InstallState, step: InstallStep)
    requires
        install_step_ok(s, e, t, step),
    ensures
        step.action is CloseLaunchers ==> s.phase == InstallPhase::BackingUp && t.phase
            == InstallPhase::Closing,
        t.phase == InstallPhase::BackingUp ==> step.action is BackupProfiles,
        s.phase == InstallPhase::Closing && (e is Checked) ==> step.action is RestoreProfiles,
{
}

/// The launcher binary and the copy of the real launcher are different files.
proof fn lemma_launcher_paths_differ()
    ensures
        launcher_path_spec() != real_launcher_path_spec(),
{
    reveal_strlit("/usr/bin");
    reveal_strlit("minecraft-launcher");
    reveal_strlit("minecraft-launcher-real");
    assert(launcher_path_spec().len() != real_launcher_path_spec().len());
}

/// An existing copy of the real launcher is replaced only with
/// `--upgrade`: it is removed only when the install was asked to upgrade,
/// and the launcher is copied aside only after the copy was found missing.
pub proof fn lemma_real_launcher_kept_without_upgrade(s: InstallState, e: InstallEvent, t: InstallState, step: InstallStep)
    requires
        install_step_ok(s, e, t, step),
    ensures
        step.action is RemoveFile ==> s.upgrade,
        copies(step, launcher_path_spec(), real_launcher_path_spec()) ==> (s.phase
            == InstallPhase::CheckingReal && (e matches InstallEvent::Checked(false))),
{
    lemma_launcher_paths_differ();
}

/// The program is copied over the launcher only once everything before it
/// was done: only out of the second look at the copy of the real launcher, which
/// is reached only from the first look or from copying the real launcher aside.
/// An install that finds the program in place already ends successfully
/// without copying anything.
pub proof fn lemma_replace_only_after_moving_real_launcher(s: InstallState, e: InstallEvent, t: InstallState, step: InstallStep)
    requires
        install_step_ok(s, e, t, step),
    ensures
        t.phase == InstallPhase::Replacing ==> s.phase == InstallPhase::RecheckingReal,
        t.phase == InstallPhase::RecheckingReal ==> s.phase == InstallPhase::CheckingReal || (
        s.phase == InstallPhase::CopyingReal && e matches InstallEvent::Checked(true)),
        t.phase == InstallPhase::BackingUp ==> (s.phase == InstallPhase::Comparing && (
        e matches InstallEvent::Compared(Ok(false)))),
        (s.phase == InstallPhase::Comparing && (e matches InstallEvent::Compared(Ok(true))))
            ==> t.phase == InstallPhase::Finished && step.action is Succeed,
{
}

/// The phases in which the install only looks: from escalating up to the
/// comparison of the executable with the launcher binary.
pub open spec fn is_checking_phase(phase: InstallPhase) -> bool {
    match phase {
        InstallPhase::Escalating | InstallPhase::LocatingSelf | InstallPhase::CheckingSelf
        | InstallPhase::CheckingBinDir | InstallPhase::CheckingLauncher
        | InstallPhase::Comparing => true,
        _ => false,
    }
}

/// Actions that change no file and stop no process.
pub open spec fn changes_nothing(action: InstallAction) -> bool {
    match action {
        InstallAction::Escalate | InstallAction::LocateSelf | InstallAction::CheckExists(_)
        | InstallAction::CheckSelfExists(_) | InstallAction::CompareFiles(_, _)
        | InstallAction::Succeed | InstallAction::Fail(_) => true,
        _ => false,
    }
}

/// Installing when the program is already in place changes nothing: an
/// install starts in the checking phases, and every step out of them either
/// stays in them or ends the install, with an action that changes no file
/// and stops no process, until the comparison reports that the executable
/// differs from the launcher binary. When the comparison reports them the
/// same, the install ends successfully (see
/// [`lemma_replace_only_after_moving_real_launcher`]).
pub proof fn lemma_installed_program_left_alone(s: InstallState, e: InstallEvent, t: InstallState, step: InstallStep)
    requires
        is_checking_phase(s.phase),
        !(s.phase == InstallPhase::Comparing && (e matches InstallEvent::Compared(Ok(false)))),
        install_step_ok(s, e, t, step),
    ensures
        changes_nothing(step.action),
        is_checking_phase(t.phase) || t.phase == InstallPhase::Finished,
{
}

/// The state in which the `i`-th event of a run from `s` is handled.
pub open spec fn install_state_before(s: InstallState, steps: Seq<(InstallState, InstallStep)>, i: int) -> InstallState {
    if i == 0 {
        s
    } else {
        steps[i - 1].0
    }
}

/// `steps` is what an install from `s` goes through when the events
/// `events` are reported one after another: each entry follows the event of
/// the same place, in the state the entry before it left. Calling
/// [`install_step`] on each event in turn, from the state the previous call
/// returned, gives such a run, since its `ensures` is [`install_step_ok`].
pub open spec fn install_run_ok(s: InstallState, events: Seq<InstallEvent>, steps: Seq<(InstallState, InstallStep)>) -> bool {
    &&& steps.len() == events.len()
    &&& forall|i: int|
        #![trigger steps[i]]
        0 <= i < events.len() ==> install_step_ok(install_state_before(s, steps, i), events[i], steps[i].0, steps[i].1)
}

/// Installing over the installed program changes nothing, however long the
/// run: in every run of an install from the checking phases (where every
/// install begins, see [`install_begin`]), as long as no comparison reports
/// the executable different from the launcher binary, every action changes
/// no file and stops no process, and the install stays in the checking
/// phases or is finished.
pub proof fn lemma_install_again_changes_nothing(
    s: InstallState,
    events: Seq<InstallEvent>,
    steps: Seq<(InstallState, InstallStep)>,
    i: int,
)
    requires
        is_checking_phase(s.phase) || s.phase == InstallPhase::Finished,
        install_run_ok(s, events, steps),
        forall|j: int| 0 <= j < events.len() ==> !(#[trigger] events[j] matches InstallEvent::Compared(Ok(false))),
        0 <= i < events.len(),
    ensures
        changes_nothing(steps[i].1.action),
        is_checking_phase(steps[i].0.phase) || steps[i].0.phase == InstallPhase::Finished,
    decreases i,
{
    if i > 0 {
        lemma_install_again_changes_nothing(s, events, steps, i - 1);
    }
    let before = install_state_before(s, steps, i);
    assert(install_step_ok(before, events[i], steps[i].0, steps[i].1));
    assert(!(events[i] matches InstallEvent::Compared(Ok(false))));
    if is_checking_phase(before.phase) {
        lemma_installed_program_left_alone(before, events[i], steps[i].0, steps[i].1);
    }
}

} // verus!
