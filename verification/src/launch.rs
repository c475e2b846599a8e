//! The run that starts the launcher, as a state machine: the caller performs
//! each action and reports what came of it, and [`launch_step`] decides the
//! next one.
//!
//! The program runs twice. The first run, as the user, removes the Java
//! check, starts the launcher and writes its process id to a file, then
//! restarts itself through `sudo`. The second run, as root, reads that id,
//! raises the launcher's priority and watches for the game to start.

use vstd::prelude::*;

verus! {

/// The privileges the program runs with, as `sudo::check` reports them.
#[derive(Debug, Clone, Copy, PartialEq, Eq, Structural)]
pub enum Privilege {
    /// Real and effective user are root.
    Root,
    /// Real and effective user are an ordinary user.
    User,
    /// Set-user-id root: effective root, real user not root.
    Suid,
}

/// `sudo::check`: how the program runs, from `getuid` and `geteuid`. It
/// depends on how the program was started, so nothing is promised of it.
#[verifier::external_body]
fn current_privilege() -> (res: Privilege) {
    match sudo::check() {
        sudo::RunningAs::Root => Privilege::Root,
        sudo::RunningAs::User => Privilege::User,
        sudo::RunningAs::Suid => Privilege::Suid,
    }
}

/// Where a launch run stands: what it waits to hear about.
#[derive(Debug, Clone, Copy, PartialEq, Eq, Structural)]
pub enum LaunchState {
    /// Waits to hear whether a launcher is already open.
    CheckingOpen,
    /// Waits for the Java check to be removed.
    RemovingJavaCheck,
    /// Waits for a stale process-id file to be removed.
    RemovingStalePidFile,
    /// Waits for the launcher's process id.
    StartingLauncher,
    /// Waits for the process id to be written (or its absence reported).
    WritingPidFile,
    /// Waits to hear whether the program runs as root now.
    Escalating,
    /// Waits for the process id read from the file.
    ReadingPidFile,
    /// Waits for the priority change.
    Renicing,
    /// Waits for the process-id file to be removed.
    RemovingPidFile,
    /// Waits for the watcher to stop.
    Watching,
    /// The run is over.
    Finished,
}

/// How a launch run ends.
#[derive(Debug, Clone, Copy, PartialEq, Eq, Structural)]
pub enum LaunchOutcome {
    /// A launcher was already open: say so and exit successfully.
    AlreadyOpen,
    /// Privileges could not be raised: exit with failure.
    EscalationFailed,
    /// The watcher stopped: exit successfully.
    Completed,
    /// The caller reported something that does not answer the pending
    /// action: exit with failure.
    Aborted,
}

/// What the caller does next.
#[derive(Debug, Clone, Copy, PartialEq, Eq, Structural)]
pub enum LaunchAction {
    /// Look for launcher processes of the user, not children of this
    /// program, without stopping them; report [`LaunchEvent::OpenChecked`].
    FindOpenLauncher,
    /// Remove the Java check, if it exists; report [`LaunchEvent::Done`].
    RemoveJavaCheck,
    /// Remove the process-id file, ignoring failure; report
    /// [`LaunchEvent::Done`].
    RemovePidFile,
    /// Start the launcher; report [`LaunchEvent::LauncherStarted`].
    StartLauncher,
    /// Write this process id to the process-id file, reporting a failure;
    /// report [`LaunchEvent::Done`].
    WritePidFile(u32),
    /// Report that the launcher's process id was not received; report
    /// [`LaunchEvent::Done`].
    ReportMissingPid,
    /// Restart as root if needed; report [`LaunchEvent::Escalated`].
    Escalate,
    /// Wait until the process-id file holds a process id; report
    /// [`LaunchEvent::PidRead`].
    ReadPidFile,
    /// Raise the priority of the launcher's process, with this process id;
    /// report [`LaunchEvent::Done`].
    Renice(u32),
    /// Watch for the game to start; report [`LaunchEvent::Done`].
    WatchGame,
    /// End the run.
    Finish(LaunchOutcome),
}

/// What the caller reports after an action.
#[derive(Debug, Clone, Copy, PartialEq, Eq, Structural)]
pub enum LaunchEvent {
    /// The action is done.
    Done,
    /// Whether a launcher is already open.
    OpenChecked(bool),
    /// The launcher's process id, if it was received.
    LauncherStarted(Option<u32>),
    /// Whether the program runs as root now.
    Escalated(bool),
    /// The process id read from the process-id file.
    PidRead(u32),
}

/// The first step of a run: as the user, look for an open launcher; with
/// any other privileges, go straight to escalation.
pub open spec fn launch_first_spec(privilege: Privilege) -> (LaunchState, LaunchAction) {
    if privilege == Privilege::User {
        (LaunchState::CheckingOpen, LaunchAction::FindOpenLauncher)
    } else {
        (LaunchState::Escalating, LaunchAction::Escalate)
    }
}

/// The first step of a run that has the privileges `privilege`.
pub fn launch_first_step(privilege: Privilege) -> (res: (LaunchState, LaunchAction))
    ensures
        res == launch_first_spec(privilege),
{
    match privilege {
        Privilege::User => (LaunchState::CheckingOpen, LaunchAction::FindOpenLauncher),
        _ => (LaunchState::Escalating, LaunchAction::Escalate),
    }
}

/// The first step of this run, from the privileges it has
/// (`sudo::check`).
pub fn launch_start() -> (res: (LaunchState, LaunchAction))
    ensures
        res == launch_first_spec(Privilege::User) || res == launch_first_spec(Privilege::Root),
{
    launch_first_step(current_privilege())
}

/// The end of the run with `outcome`.
pub open spec fn finish(outcome: LaunchOutcome) -> (LaunchState, LaunchAction) {
    (LaunchState::Finished, LaunchAction::Finish(outcome))
}

/// The step after `event` in `state`. An event that does not answer the
/// pending action ends the run as [`LaunchOutcome::Aborted`].
pub open spec fn launch_step_spec(state: LaunchState, event: LaunchEvent) -> (
    LaunchState,
    LaunchAction,
) {
    match (state, event) {
        (LaunchState::CheckingOpen, LaunchEvent::OpenChecked(true)) => finish(
            LaunchOutcome::AlreadyOpen,
        ),
        (LaunchState::CheckingOpen, LaunchEvent::OpenChecked(false)) => (
            LaunchState::RemovingJavaCheck,
            LaunchAction::RemoveJavaCheck,
        ),
        (LaunchState::RemovingJavaCheck, LaunchEvent::Done) => (
            LaunchState::RemovingStalePidFile,
            LaunchAction::RemovePidFile,
        ),
        (LaunchState::RemovingStalePidFile, LaunchEvent::Done) => (
            LaunchState::StartingLauncher,
            LaunchAction::StartLauncher,
        ),
        (LaunchState::StartingLauncher, LaunchEvent::LauncherStarted(Some(pid))) => (
            LaunchState::WritingPidFile,
            LaunchAction::WritePidFile(pid),
        ),
        (LaunchState::StartingLauncher, LaunchEvent::LauncherStarted(None)) => (
            LaunchState::WritingPidFile,
            LaunchAction::ReportMissingPid,
        ),
        (LaunchState::WritingPidFile, LaunchEvent::Done) => (
            LaunchState::Escalating,
            LaunchAction::Escalate,
        ),
        (LaunchState::Escalating, LaunchEvent::Escalated(false)) => finish(
            LaunchOutcome::EscalationFailed,
        ),
        (LaunchState::Escalating, LaunchEvent::Escalated(true)) => (
            LaunchState::ReadingPidFile,
            LaunchAction::ReadPidFile,
        ),
        (LaunchState::ReadingPidFile, LaunchEvent::PidRead(pid)) => (
            LaunchState::Renicing,
            LaunchAction::Renice(pid),
        ),
        (LaunchState::Renicing, LaunchEvent::Done) => (
            LaunchState::RemovingPidFile,
            LaunchAction::RemovePidFile,
        ),
        (LaunchState::RemovingPidFile, LaunchEvent::Done) => (
            LaunchState::Watching,
            LaunchAction::WatchGame,
        ),
        (LaunchState::Watching, LaunchEvent::Done) => finish(LaunchOutcome::Completed),
        _ => finish(LaunchOutcome::Aborted),
    }
}

/// Decides the step after `event` in `state`.
pub fn launch_step(state: LaunchState, event: LaunchEvent) -> (res: (LaunchState, LaunchAction))
    ensures
        res == launch_step_spec(state, event),
{
    match (state, event) {
        (LaunchState::CheckingOpen, LaunchEvent::OpenChecked(open)) => if open {
            (LaunchState::Finished, LaunchAction::Finish(LaunchOutcome::AlreadyOpen))
        } else {
            (LaunchState::RemovingJavaCheck, LaunchAction::RemoveJavaCheck)
        },
        (LaunchState::RemovingJavaCheck, LaunchEvent::Done) => (
            LaunchState::RemovingStalePidFile,
            LaunchAction::RemovePidFile,
        ),
        (LaunchState::RemovingStalePidFile, LaunchEvent::Done) => (
            LaunchState::StartingLauncher,
            LaunchAction::StartLauncher,
        ),
        (LaunchState::StartingLauncher, LaunchEvent::LauncherStarted(received)) => match received {
            Some(pid) => (LaunchState::WritingPidFile, LaunchAction::WritePidFile(pid)),
            None => (LaunchState::WritingPidFile, LaunchAction::ReportMissingPid),
        },
        (LaunchState::WritingPidFile, LaunchEvent::Done) => (
            LaunchState::Escalating,
            LaunchAction::Escalate,
        ),
        (LaunchState::Escalating, LaunchEvent::Escalated(root)) => if root {
            (LaunchState::ReadingPidFile, LaunchAction::ReadPidFile)
        } else {
            (LaunchState::Finished, LaunchAction::Finish(LaunchOutcome::EscalationFailed))
        },
        (LaunchState::ReadingPidFile, LaunchEvent::PidRead(pid)) => (
            LaunchState::Renicing,
            LaunchAction::Renice(pid),
        ),
        (LaunchState::Renicing, LaunchEvent::Done) => (
            LaunchState::RemovingPidFile,
            LaunchAction::RemovePidFile,
        ),
        (LaunchState::RemovingPidFile, LaunchEvent::Done) => (
            LaunchState::Watching,
            LaunchAction::WatchGame,
        ),
        (LaunchState::Watching, LaunchEvent::Done) => (
            LaunchState::Finished,
            LaunchAction::Finish(LaunchOutcome::Completed),
        ),
        _ => (LaunchState::Finished, LaunchAction::Finish(LaunchOutcome::Aborted)),
    }
}

/// Whether a run that ends with `outcome` exits successfully.
pub open spec fn outcome_succeeds_spec(outcome: LaunchOutcome) -> bool {
    outcome == LaunchOutcome::AlreadyOpen || outcome == LaunchOutcome::Completed
}

/// Whether a run that ends with `outcome` exits successfully.
pub fn outcome_succeeds(outcome: LaunchOutcome) -> (res: bool)
    ensures
        res == outcome_succeeds_spec(outcome),
{
    match outcome {
        LaunchOutcome::AlreadyOpen => true,
        LaunchOutcome::Completed => true,
        _ => false,
    }
}

/// How many steps a run in `state` takes at most before it is finished.
pub open spec fn launch_rank(state: LaunchState) -> nat {
    match state {
        LaunchState::CheckingOpen => 10,
        LaunchState::RemovingJavaCheck => 9,
        LaunchState::RemovingStalePidFile => 8,
        LaunchState::StartingLauncher => 7,
        LaunchState::WritingPidFile => 6,
        LaunchState::Escalating => 5,
        LaunchState::ReadingPidFile => 4,
        LaunchState::Renicing => 3,
        LaunchState::RemovingPidFile => 2,
        LaunchState::Watching => 1,
        LaunchState::Finished => 0,
    }
}

/// A launch run always ends: every step out of an unfinished state leads to
/// a state of smaller rank, and the run has finished exactly when the action
/// is to end it.
pub proof fn lemma_launch_terminates(state: LaunchState, event: LaunchEvent)
    requires
        state != LaunchState::Finished,
    ensures
        launch_rank(launch_step_spec(state, event).0) < launch_rank(state),
        (launch_step_spec(state, event).0 == LaunchState::Finished) <==> (launch_step_spec(
            state,
            event,
        ).1 is Finish),
{
}

/// The states of the privileged part of a run: from escalation on.
pub open spec fn is_privileged_phase(state: LaunchState) -> bool {
    match state {
        LaunchState::Escalating | LaunchState::ReadingPidFile | LaunchState::Renicing
        | LaunchState::RemovingPidFile | LaunchState::Watching | LaunchState::Finished => true,
        _ => false,
    }
}

/// Actions that must only happen in the user's part of a run: starting the
/// launcher (and the Java check, which the launcher runs), and everything
/// that prepares it.
pub open spec fn is_user_only_action(action: LaunchAction) -> bool {
    match action {
        LaunchAction::FindOpenLauncher | LaunchAction::RemoveJavaCheck
        | LaunchAction::StartLauncher | LaunchAction::WritePidFile(_)
        | LaunchAction::ReportMissingPid => true,
        _ => false,
    }
}

/// The launcher is never started with root privileges: a run that starts
/// without being the plain user begins in the privileged part, the
/// privileged part is never left, and no step in it starts the launcher or
/// touches what the launcher runs.
pub proof fn lemma_launcher_started_only_as_user(
    privilege: Privilege,
    state: LaunchState,
    event: LaunchEvent,
)
    ensures
        privilege != Privilege::User ==> is_privileged_phase(launch_first_spec(privilege).0)
            && !is_user_only_action(launch_first_spec(privilege).1),
        is_privileged_phase(state) ==> is_privileged_phase(launch_step_spec(state, event).0)
            && !is_user_only_action(launch_step_spec(state, event).1),
{
}

/// The watcher runs only once the run holds root privileges and has read the
/// launcher's process id: the step that starts watching comes out of
/// removing the process-id file, which only follows the priority change for
/// the id read from the file, which only follows a successful escalation.
pub proof fn lemma_watch_follows_escalation(state: LaunchState, event: LaunchEvent)
    ensures
        launch_step_spec(state, event).1 == LaunchAction::WatchGame ==> state
            == LaunchState::RemovingPidFile,
        launch_step_spec(state, event).0 == LaunchState::RemovingPidFile ==> state
            == LaunchState::Renicing,
        launch_step_spec(state, event).0 == LaunchState::Renicing ==> state
            == LaunchState::ReadingPidFile && event is PidRead,
        launch_step_spec(state, event).0 == LaunchState::ReadingPidFile ==> state
            == LaunchState::Escalating && event == LaunchEvent::Escalated(true),
{
}

/// Only a run as the ordinary user looks for an open launcher; a run as
/// root, or set-user-id root, never does, and goes straight to escalation,
/// which leads on to reading the process id, raising the launcher's
/// priority and watching for the game.
pub proof fn lemma_root_run_goes_to_escalation(privilege: Privilege)
    ensures
        privilege != Privilege::User ==> launch_first_spec(privilege) == (
            LaunchState::Escalating,
            LaunchAction::Escalate,
        ),
        privilege == Privilege::User ==> launch_first_spec(privilege) == (
            LaunchState::CheckingOpen,
            LaunchAction::FindOpenLauncher,
        ),
        launch_first_spec(privilege).1 == LaunchAction::FindOpenLauncher <==> privilege == Privilege::User,
{
}

} // verus!
