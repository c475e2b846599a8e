//! The watcher, which waits for the game to start and then closes the
//! launcher, as a state machine: the caller performs each action and reports
//! what came of it, and [`watch_step`] decides the next one.

use vstd::prelude::*;
use crate::processes::{
    cmd_mentions, is_game_process, is_game_process_exec, ProcessInfo, GAME_MARKER, GAME_PROCESS_NAME,
    LAUNCHER_PROCESS_NAME,
};
use crate::text::contains_spec;
use crate::text::str_eq;

verus! {

/// A process event from the kernel's process connector, with the process id
/// as the kernel gives it (a signed C integer).
#[derive(Debug, Clone, Copy, PartialEq, Eq, Structural)]
pub enum ProcessEvent {
    /// A process replaced its program.
    Exec(i32),
    /// A process was created.
    Fork(i32),
    /// A process dumped core.
    Coredump(i32),
    /// A process ended.
    Exit(i32),
}

/// After a process started a program: the refresh of that one process
/// updated exactly one process (`updated`), the process is now known
/// (`process`), and it is the game. When this holds the watcher closes the
/// launcher (backing up its settings first and restoring them after) and
/// stops.
pub open spec fn game_started_spec(updated: usize, process: Option<ProcessInfo>) -> bool {
    updated == 1 && (process matches Some(p) && is_game_process(p))
}

/// Whether the program a process just started is the game.
pub fn game_started(updated: usize, process: Option<&ProcessInfo>) -> (res: bool)
    ensures
        res == game_started_spec(
            updated,
            match process {
                Some(p) => Some(*p),
                None => None,
            },
        ),
{
    if updated != 1 {
        return false;
    }
    match process {
        Some(p) => is_game_process_exec(p),
        None => false,
    }
}

/// After a process ended: it was known, under the launcher's process name,
/// and the launcher is not being closed by the watcher itself (`closing`).
/// When this holds the user closed the launcher before starting the game,
/// and the watcher stops.
pub open spec fn launcher_closed_spec(known_name: Option<&str>, closing: bool) -> bool {
    (known_name matches Some(name) && name@ == LAUNCHER_PROCESS_NAME@) && !closing
}

/// Whether the process that ended was the launcher, closed by the user.
pub fn launcher_closed(known_name: Option<&str>, closing: bool) -> (res: bool)
    ensures
        res == launcher_closed_spec(known_name, closing),
{
    match known_name {
        Some(name) => str_eq(name, LAUNCHER_PROCESS_NAME) && !closing,
        None => false,
    }
}

/// Where the watcher stands: what it waits to hear about.
#[derive(Debug, Clone, Copy, PartialEq, Eq, Structural)]
pub enum WatchState {
    /// Waits for the next process event (or for a report to be done).
    Waiting,
    /// Waits for what is known of a process that started a program.
    InspectingExec,
    /// Waits for what was known of a process that ended.
    InspectingExit,
    /// The game started: waits for the launcher's settings to be backed up.
    BackingUp,
    /// Waits for the launcher's processes to be stopped.
    Closing,
    /// Waits for the launcher's settings to be restored.
    Restoring,
    /// The watcher is done.
    Stopped,
}

/// What the caller does next.
#[derive(Debug, Clone, Copy, PartialEq, Eq, Structural)]
pub enum WatchAction {
    /// Receive the next process event; report [`WatchEvent::Received`].
    Receive,
    /// Report that no event could be received; report [`WatchEvent::Done`].
    ReportNoEvent,
    /// Report that an event's process id is negative; report
    /// [`WatchEvent::Done`].
    ReportBadPid(i32),
    /// Refresh what is known of this process, which started a program;
    /// report [`WatchEvent::ExecInspected`].
    InspectExec(u32),
    /// Look up what was known of this process, which ended; report
    /// [`WatchEvent::ExitInspected`].
    InspectExit(u32),
    /// Back up the launcher's settings; report [`WatchEvent::Done`].
    BackupProfiles,
    /// Find the user's launcher processes and stop them; report
    /// [`WatchEvent::Done`].
    CloseLaunchers,
    /// Restore the launcher's settings; report [`WatchEvent::Done`].
    RestoreProfiles,
    /// Stop watching.
    Stop,
}

/// What the caller reports after an action.
pub enum WatchEvent {
    /// The event received, or `None` when none could be received.
    Received(Option<ProcessEvent>),
    /// After a program started: how many processes the refresh of that one
    /// process updated, and what is now known of it.
    ExecInspected { updated: usize, process: Option<ProcessInfo> },
    /// After a process ended: the name it was known under, if any, and
    /// whether the watcher is stopping the launcher itself.
    ExitInspected { known_name: Option<String>, closing: bool },
    /// The action is done.
    Done,
}

/// The first step of the watcher: wait for an event.
pub fn watch_start() -> (res: (WatchState, WatchAction))
    ensures
        res == (WatchState::Waiting, WatchAction::Receive),
{
    (WatchState::Waiting, WatchAction::Receive)
}

/// The step after receiving `event` (`None` when none could be received):
/// nothing received or a negative process id is reported, a started
/// program or an ended process is looked into, and anything else is passed
/// over.
pub open spec fn received_spec(event: Option<ProcessEvent>) -> (WatchState, WatchAction) {
    match event {
        None => (WatchState::Waiting, WatchAction::ReportNoEvent),
        Some(ProcessEvent::Exec(pid)) => if pid < 0 {
            (WatchState::Waiting, WatchAction::ReportBadPid(pid))
        } else {
            (WatchState::InspectingExec, WatchAction::InspectExec(pid as u32))
        },
        Some(ProcessEvent::Exit(pid)) => if pid < 0 {
            (WatchState::Waiting, WatchAction::ReportBadPid(pid))
        } else {
            (WatchState::InspectingExit, WatchAction::InspectExit(pid as u32))
        },
        Some(ProcessEvent::Fork(_)) => (WatchState::Waiting, WatchAction::Receive),
        Some(ProcessEvent::Coredump(_)) => (WatchState::Waiting, WatchAction::Receive),
    }
}

/// The step after `event` in `state`. Once the game has started, the
/// watcher backs up the launcher's settings, closes the launcher, restores
/// the settings and stops; when the user closed the launcher first, it
/// stops at once. An event that does not answer the pending action stops
/// the watcher.
pub open spec fn watch_step_spec(state: WatchState, event: WatchEvent) -> (WatchState, WatchAction) {
    match (state, event) {
        (WatchState::Waiting, WatchEvent::Received(e)) => received_spec(e),
        (WatchState::Waiting, WatchEvent::Done) => (WatchState::Waiting, WatchAction::Receive),
        (WatchState::InspectingExec, WatchEvent::ExecInspected { updated, process }) => if game_started_spec(updated, process) {
            (WatchState::BackingUp, WatchAction::BackupProfiles)
        } else {
            (WatchState::Waiting, WatchAction::Receive)
        },
        (WatchState::InspectingExit, WatchEvent::ExitInspected { known_name, closing }) => if (known_name matches Some(name) && name@ == LAUNCHER_PROCESS_NAME@) && !closing {
            (WatchState::Stopped, WatchAction::Stop)
        } else {
            (WatchState::Waiting, WatchAction::Receive)
        },
        (WatchState::BackingUp, WatchEvent::Done) => (WatchState::Closing, WatchAction::CloseLaunchers),
        (WatchState::Closing, WatchEvent::Done) => (WatchState::Restoring, WatchAction::RestoreProfiles),
        (WatchState::Restoring, WatchEvent::Done) => (WatchState::Stopped, WatchAction::Stop),
        _ => (WatchState::Stopped, WatchAction::Stop),
    }
}

/// Decides the step after receiving `event`.
fn on_received(event: Option<ProcessEvent>) -> (res: (WatchState, WatchAction))
    ensures
        res == received_spec(event),
{
    match event {
        None => (WatchState::Waiting, WatchAction::ReportNoEvent),
        Some(ProcessEvent::Exec(pid)) => if pid < 0 {
            (WatchState::Waiting, WatchAction::ReportBadPid(pid))
        } else {
            (WatchState::InspectingExec, WatchAction::InspectExec(pid as u32))
        },
        Some(ProcessEvent::Exit(pid)) => if pid < 0 {
            (WatchState::Waiting, WatchAction::ReportBadPid(pid))
        } else {
            (WatchState::InspectingExit, WatchAction::InspectExit(pid as u32))
        },
        Some(ProcessEvent::Fork(_)) => (WatchState::Waiting, WatchAction::Receive),
        Some(ProcessEvent::Coredump(_)) => (WatchState::Waiting, WatchAction::Receive),
    }
}

/// Decides the step after `event` in `state`.
pub fn watch_step(state: WatchState, event: WatchEvent) -> (res: (WatchState, WatchAction))
    ensures
        res == watch_step_spec(state, event),
{
    match (state, event) {
        (WatchState::Waiting, WatchEvent::Received(e)) => on_received(e),
        (WatchState::Waiting, WatchEvent::Done) => (WatchState::Waiting, WatchAction::Receive),
        (WatchState::InspectingExec, WatchEvent::ExecInspected { updated, process }) => {
            let started = match &process {
                Some(p) => game_started(updated, Some(p)),
                None => game_started(updated, None),
            };
            if started {
                (WatchState::BackingUp, WatchAction::BackupProfiles)
            } else {
                (WatchState::Waiting, WatchAction::Receive)
            }
        },
        (WatchState::InspectingExit, WatchEvent::ExitInspected { known_name, closing }) => {
            let closed = match &known_name {
                Some(name) => launcher_closed(Some(name.as_str()), closing),
                None => launcher_closed(None, closing),
            };
            if closed {
                (WatchState::Stopped, WatchAction::Stop)
            } else {
                (WatchState::Waiting, WatchAction::Receive)
            }
        },
        (WatchState::BackingUp, WatchEvent::Done) => (WatchState::Closing, WatchAction::CloseLaunchers),
        (WatchState::Closing, WatchEvent::Done) => (WatchState::Restoring, WatchAction::RestoreProfiles),
        (WatchState::Restoring, WatchEvent::Done) => (WatchState::Stopped, WatchAction::Stop),
        _ => (WatchState::Stopped, WatchAction::Stop),
    }
}

/// The states before the game was seen starting.
pub open spec fn is_waiting_phase(state: WatchState) -> bool {
    state == WatchState::Waiting || state == WatchState::InspectingExec || state
        == WatchState::InspectingExit
}

/// Actions that touch the launcher or its settings.
pub open spec fn touches_launcher(action: WatchAction) -> bool {
    action == WatchAction::BackupProfiles || action == WatchAction::CloseLaunchers || action
        == WatchAction::RestoreProfiles
}

/// Nothing happens to the launcher before the game starts: while waiting,
/// the only step that touches the launcher or its settings is backing the
/// settings up, and it comes only right after a started program was found
/// to be the game. No received event (nothing received, a fork, a core
/// dump, a negative process id, any program start or process end) stops the
/// watcher or touches the launcher, and a program that is not the game
/// sends the watcher back to waiting.
pub proof fn lemma_nothing_before_game(state: WatchState, event: WatchEvent)
    requires
        is_waiting_phase(state),
    ensures
        touches_launcher(watch_step_spec(state, event).1) ==> (state == WatchState::InspectingExec
            && (event matches WatchEvent::ExecInspected { updated, process } && game_started_spec(
            updated,
            process,
        )) && watch_step_spec(state, event).1 == WatchAction::BackupProfiles),
        (state == WatchState::Waiting && (event is Received)) ==> is_waiting_phase(
            watch_step_spec(state, event).0,
        ) && !touches_launcher(watch_step_spec(state, event).1) && watch_step_spec(
            state,
            event,
        ).1 != WatchAction::Stop,
        (state == WatchState::InspectingExec && (event matches WatchEvent::ExecInspected {
            updated,
            process,
        } && !game_started_spec(updated, process))) ==> watch_step_spec(state, event) == (
        WatchState::Waiting, WatchAction::Receive),
{
}

/// Once the game started, the launcher's settings survive its closing: the
/// watcher backs them up, then closes the launcher, then restores them,
/// then stops, each step only right after the one before it.
pub proof fn lemma_settings_kept_around_closing(state: WatchState, event: WatchEvent)
    ensures
        watch_step_spec(state, event).1 == WatchAction::CloseLaunchers ==> state
            == WatchState::BackingUp,
        watch_step_spec(state, event).1 == WatchAction::RestoreProfiles ==> state
            == WatchState::Closing,
        state == WatchState::BackingUp && (event is Done) ==> watch_step_spec(state, event).1
            == WatchAction::CloseLaunchers,
        state == WatchState::Closing && (event is Done) ==> watch_step_spec(state, event).1
            == WatchAction::RestoreProfiles,
        state == WatchState::Restoring && (event is Done) ==> watch_step_spec(state, event) == (
        WatchState::Stopped, WatchAction::Stop),
{
}

/// The states and actions the watcher goes through from `state` when the
/// events `events` are reported one after another: the `i`-th entry is what
/// [`watch_step`] decides after the `i`-th event.
pub open spec fn watch_run(state: WatchState, events: Seq<WatchEvent>) -> Seq<(WatchState, WatchAction)>
    decreases events.len(),
{
    if events.len() == 0 {
        Seq::empty()
    } else {
        let next = watch_step_spec(state, events[0]);
        seq![next] + watch_run(next.0, events.drop_first())
    }
}

/// A run has one step per event.
proof fn lemma_watch_run_len(state: WatchState, events: Seq<WatchEvent>)
    ensures
        watch_run(state, events).len() == events.len(),
    decreases events.len(),
{
    if events.len() > 0 {
        let next = watch_step_spec(state, events[0]);
        lemma_watch_run_len(next.0, events.drop_first());
    }
}

/// The state in which the `i`-th event of a run from `state` is handled.
pub open spec fn state_before(state: WatchState, steps: Seq<(WatchState, WatchAction)>, i: int) -> WatchState {
    if i == 0 {
        state
    } else {
        steps[i - 1].0
    }
}

/// Before the first action that touches the launcher, a run from a waiting
/// (or stopped) state stays waiting or stopped, and that first action is
/// backing up the settings right after a started program was found to be
/// the game.
proof fn lemma_run_waits_for_game(state: WatchState, events: Seq<WatchEvent>, i: int)
    requires
        is_waiting_phase(state) || state == WatchState::Stopped,
        0 <= i < events.len(),
        forall|j: int| 0 <= j < i ==> !touches_launcher(#[trigger] watch_run(state, events)[j].1),
    ensures
        is_waiting_phase(state_before(state, watch_run(state, events), i)) || state_before(
            state,
            watch_run(state, events),
            i,
        ) == WatchState::Stopped,
        touches_launcher(watch_run(state, events)[i].1) ==> {
            &&& state_before(state, watch_run(state, events), i) == WatchState::InspectingExec
            &&& events[i] matches WatchEvent::ExecInspected { updated, process }
            &&& game_started_spec(updated, process)
            &&& watch_run(state, events)[i].1 == WatchAction::BackupProfiles
        },
    decreases i,
{
    let steps = watch_run(state, events);
    let next = watch_step_spec(state, events[0]);
    let rest = events.drop_first();
    assert(steps == seq![next] + watch_run(next.0, rest));
    lemma_watch_run_len(state, events);
    lemma_watch_run_len(next.0, rest);
    if i == 0 {
        if is_waiting_phase(state) {
            lemma_nothing_before_game(state, events[0]);
        }
    } else {
        assert(!touches_launcher(steps[0].1));
        assert(is_waiting_phase(next.0) || next.0 == WatchState::Stopped);
        assert forall|j: int| 0 <= j < i - 1 implies !touches_launcher(
            #[trigger] watch_run(next.0, rest)[j].1,
        ) by {
            assert(watch_run(next.0, rest)[j] == steps[j + 1]);
        }
        lemma_run_waits_for_game(next.0, rest, i - 1);
        assert(steps[i] == watch_run(next.0, rest)[i - 1]);
        assert(events[i] == rest[i - 1]);
        if i > 1 {
            assert(steps[i - 1] == watch_run(next.0, rest)[i - 2]);
        }
    }
}

/// Nothing happens to the launcher before the game starts, whatever events
/// come: in every run of the watcher from its start, the first action that
/// touches the launcher or its settings is backing up the settings, taken
/// right after a started program was found to be the game. Events that come
/// before it (nothing received, forks, core dumps, negative process ids,
/// other programs, ended processes) never stop the launcher or touch its
/// settings.
pub proof fn lemma_nothing_before_game_in_any_run(events: Seq<WatchEvent>, i: int)
    requires
        0 <= i < events.len(),
        touches_launcher(watch_run(WatchState::Waiting, events)[i].1),
        forall|j: int|
            0 <= j < i ==> !touches_launcher(#[trigger] watch_run(WatchState::Waiting, events)[j].1),
    ensures
        i > 0,
        watch_run(WatchState::Waiting, events)[i - 1].0 == WatchState::InspectingExec,
        events[i] matches WatchEvent::ExecInspected { updated, process } && game_started_spec(
            updated,
            process,
        ),
        watch_run(WatchState::Waiting, events)[i].1 == WatchAction::BackupProfiles,
{
    lemma_run_waits_for_game(WatchState::Waiting, events, i);
}

/// The game is recognised by its name and by any one of its arguments:
/// once the refresh of a started program updated exactly that one process,
/// and the process is named `java` and some argument (whichever it is)
/// contains `-Dminecraft.launcher.brand=minecraft-launcher`, the watcher
/// backs up the settings next, on its way to closing the launcher;
/// otherwise (another program, another count, or no process) it goes back
/// to waiting and touches nothing.
pub proof fn lemma_game_recognised_by_any_argument(updated: usize, process: Option<ProcessInfo>)
    ensures
        ({
            &&& updated == 1
            &&& process matches Some(p) && p.name@ == GAME_PROCESS_NAME@ && exists|a: int|
                0 <= a < p.cmd.len() && contains_spec(#[trigger] p.cmd[a]@, GAME_MARKER@)
        }) ==> watch_step_spec(
            WatchState::InspectingExec,
            WatchEvent::ExecInspected { updated, process },
        ) == (WatchState::BackingUp, WatchAction::BackupProfiles),
        !({
            &&& updated == 1
            &&& process matches Some(p) && p.name@ == GAME_PROCESS_NAME@ && exists|a: int|
                0 <= a < p.cmd.len() && contains_spec(#[trigger] p.cmd[a]@, GAME_MARKER@)
        }) ==> watch_step_spec(
            WatchState::InspectingExec,
            WatchEvent::ExecInspected { updated, process },
        ) == (WatchState::Waiting, WatchAction::Receive),
{
    if let Some(p) = process {
        if cmd_mentions(p.cmd@, GAME_MARKER@) {
            let a = choose|a: int| 0 <= a < p.cmd@.len() && contains_spec(#[trigger] p.cmd@[a]@, GAME_MARKER@);
            assert(p.cmd[a]@ == p.cmd@[a]@);
        }
        if exists|a: int| 0 <= a < p.cmd.len() && contains_spec(#[trigger] p.cmd[a]@, GAME_MARKER@) {
            let a = choose|a: int| 0 <= a < p.cmd.len() && contains_spec(#[trigger] p.cmd[a]@, GAME_MARKER@);
            assert(p.cmd@[a]@ == p.cmd[a]@);
            assert(cmd_mentions(p.cmd@, GAME_MARKER@));
        }
    }
}

} // verus!
