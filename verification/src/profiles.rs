//! Backing up the launcher's settings file before the launcher is closed,
//! and restoring it afterwards, as small state machines: the caller performs
//! each action and reports what came of it.

use std::path::PathBuf;
use vstd::prelude::*;
use crate::paths::{
    backup_path_for, backup_path_spec, get_launcher_profiles_path, opt_bytes, path_bytes, path_clone,
    profiles_path_for_home_spec,
};

verus! {

/// Where a backup or restore stands.
pub enum ProfilesState {
    /// Backup: waits for the text of the settings file at `profiles`.
    BackupReading { profiles: PathBuf },
    /// Backup: waits for the backup to be written.
    BackupWriting,
    /// Restore: waits for the text of the backup at `backup`, to be written
    /// to the settings file at `profiles`.
    RestoreReading { profiles: PathBuf, backup: PathBuf },
    /// Restore: waits for the settings file to be written; once it is, the
    /// backup at `backup` is removed next.
    RestoreWriting { backup: PathBuf },
    /// Restore: waits for the backup to be removed.
    RestoreRemoving,
    /// Nothing more to do.
    Done,
}

/// What the caller reports after an action.
pub enum ProfilesEvent {
    /// The text of the file that was read, or `None` when reading failed
    /// (the caller reports the failure).
    Read(Option<String>),
    /// Whether the file was written (the caller reports a failure).
    Written(bool),
    /// The file was removed, or its removal failed and was reported.
    Done,
}

/// What the caller announces before the action.
#[derive(Debug, Clone, Copy, PartialEq, Eq, Structural)]
pub enum ProfilesNote {
    /// The backup was written.
    BackedUp,
    /// The settings file was restored from the backup.
    Restored,
    /// The settings file could not be written, so the backup is kept.
    BackupKept,
}

/// What the caller does next.
pub enum ProfilesAction {
    /// Read this file; report [`ProfilesEvent::Read`].
    Read(PathBuf),
    /// Write the text (second) to the file (first); report
    /// [`ProfilesEvent::Written`].
    Write(PathBuf, String),
    /// Remove this file, reporting a failure; report [`ProfilesEvent::Done`].
    Remove(PathBuf),
    /// Report that no home directory (so no game directory) was found, and
    /// stop.
    ReportNoHome,
    /// Report that this settings path has no parent directory, and stop.
    ReportNoParent(PathBuf),
    /// Stop.
    Finish,
}

/// One step: an optional announcement, then an action.
pub struct ProfilesStep {
    pub note: Option<ProfilesNote>,
    pub action: ProfilesAction,
}

/// The step stops with the plain action `Finish` and no announcement.
pub open spec fn finishes(t: ProfilesState, step: ProfilesStep) -> bool {
    t is Done && step.note is None && step.action is Finish
}

/// The start of a backup, given the settings file's path (`None` when no
/// home directory was found): read the settings file.
pub open spec fn backup_start_ok(profiles: Option<Seq<u8>>, t: ProfilesState, step: ProfilesStep) -> bool {
    &&& step.note is None
    &&& match profiles {
        None => t is Done && step.action is ReportNoHome,
        Some(p) => (t matches ProfilesState::BackupReading { profiles } && path_bytes(profiles) == p) && (
        step.action matches ProfilesAction::Read(file) && path_bytes(file) == p),
    }
}

/// The start of a restore, given the settings file's path (`None` when no
/// home directory was found): read the backup beside the settings file.
pub open spec fn restore_start_ok(profiles: Option<Seq<u8>>, t: ProfilesState, step: ProfilesStep) -> bool {
    &&& step.note is None
    &&& match profiles {
        None => t is Done && step.action is ReportNoHome,
        Some(p) => match backup_path_spec(p) {
            None => t is Done && (step.action matches ProfilesAction::ReportNoParent(q) && path_bytes(q) == p),
            Some(b) => (t matches ProfilesState::RestoreReading { profiles, backup }
                && path_bytes(profiles) == p && path_bytes(backup) == b) && (step.action matches ProfilesAction::Read(
                file,
            ) && path_bytes(file) == b),
        },
    }
}

/// The step after the event `e` in `s`. An event that does not answer the
/// pending action stops.
pub open spec fn profiles_step_ok(s: ProfilesState, e: ProfilesEvent, t: ProfilesState, step: ProfilesStep) -> bool {
    match (s, e) {
        (ProfilesState::BackupReading { profiles }, ProfilesEvent::Read(None)) => finishes(t, step),
        (ProfilesState::BackupReading { profiles }, ProfilesEvent::Read(Some(text))) => {
            &&& step.note is None
            &&& match backup_path_spec(path_bytes(profiles)) {
                None => t is Done && (step.action matches ProfilesAction::ReportNoParent(q) && path_bytes(q)
                    == path_bytes(profiles)),
                Some(b) => t is BackupWriting && (step.action matches ProfilesAction::Write(
                    file,
                    written,
                ) && path_bytes(file) == b && written@ == text@),
            }
        },
        (ProfilesState::BackupWriting, ProfilesEvent::Written(ok)) => {
            &&& t is Done
            &&& step.action is Finish
            &&& step.note == (if ok {
                Some(ProfilesNote::BackedUp)
            } else {
                None
            })
        },
        (ProfilesState::RestoreReading { profiles, backup }, ProfilesEvent::Read(None)) => finishes(
            t,
            step,
        ),
        (ProfilesState::RestoreReading { profiles, backup }, ProfilesEvent::Read(Some(text))) => {
            &&& step.note is None
            &&& t matches ProfilesState::RestoreWriting { backup: b } && path_bytes(b) == path_bytes(backup)
            &&& step.action matches ProfilesAction::Write(file, written) && path_bytes(file) == path_bytes(profiles)
                && written@ == text@
        },
        (ProfilesState::RestoreWriting { backup }, ProfilesEvent::Written(ok)) => if ok {
            &&& t is RestoreRemoving
            &&& step.note == Some(ProfilesNote::Restored)
            &&& step.action matches ProfilesAction::Remove(file) && path_bytes(file) == path_bytes(backup)
        } else {
            &&& t is Done
            &&& step.note == Some(ProfilesNote::BackupKept)
            &&& step.action is Finish
        },
        (ProfilesState::RestoreRemoving, ProfilesEvent::Done) => finishes(t, step),
        _ => finishes(t, step),
    }
}

/// Stops.
fn finish() -> (res: (ProfilesState, ProfilesStep))
    ensures
        finishes(res.0, res.1),
{
    (ProfilesState::Done, ProfilesStep { note: None, action: ProfilesAction::Finish })
}

/// Starts a backup of the settings file at `profiles` (`None` when no home
/// directory was found).
pub fn backup_start_with(profiles: Option<PathBuf>) -> (res: (ProfilesState, ProfilesStep))
    ensures
        backup_start_ok(opt_bytes(profiles), res.0, res.1),
{
    match profiles {
        None => (ProfilesState::Done, ProfilesStep { note: None, action: ProfilesAction::ReportNoHome }),
        Some(path) => {
            let file = path_clone(&path);
            (
                ProfilesState::BackupReading { profiles: path },
                ProfilesStep { note: None, action: ProfilesAction::Read(file) },
            )
        },
    }
}

/// Starts a restore of the settings file at `profiles` (`None` when no home
/// directory was found).
pub fn restore_start_with(profiles: Option<PathBuf>) -> (res: (ProfilesState, ProfilesStep))
    ensures
        restore_start_ok(opt_bytes(profiles), res.0, res.1),
{
    match profiles {
        None => (ProfilesState::Done, ProfilesStep { note: None, action: ProfilesAction::ReportNoHome }),
        Some(path) => match backup_path_for(&path) {
            None => (
                ProfilesState::Done,
                ProfilesStep { note: None, action: ProfilesAction::ReportNoParent(path) },
            ),
            Some(backup) => {
                let file = path_clone(&backup);
                (
                    ProfilesState::RestoreReading { profiles: path, backup },
                    ProfilesStep { note: None, action: ProfilesAction::Read(file) },
                )
            },
        },
    }
}

/// The settings file of the current user's game directory, as
/// [`get_launcher_profiles_path`] finds it: the settings file for some home
/// directory, or `None` when none was found.
pub open spec fn found_profiles_path(profiles: Option<Seq<u8>>, game_folder: Option<&str>) -> bool {
    exists|home: Option<Seq<u8>>| profiles == #[trigger] profiles_path_for_home_spec(home, game_folder)
}

/// Starts a backup of the current user's settings file (the game directory's
/// name is `game_folder`, the value of `MC_GAME_FOLDER`, when set).
pub fn backup_start(game_folder: Option<&str>) -> (res: (ProfilesState, ProfilesStep))
    ensures
        exists|profiles: Option<Seq<u8>>|
            found_profiles_path(profiles, game_folder) && #[trigger] backup_start_ok(
                profiles,
                res.0,
                res.1,
            ),
{
    let profiles = get_launcher_profiles_path(game_folder);
    let ghost view = opt_bytes(profiles);
    let res = backup_start_with(profiles);
    assert(found_profiles_path(view, game_folder) && backup_start_ok(view, res.0, res.1));
    res
}

/// Starts a restore of the current user's settings file (the game
/// directory's name is `game_folder`, the value of `MC_GAME_FOLDER`, when
/// set).
pub fn restore_start(game_folder: Option<&str>) -> (res: (ProfilesState, ProfilesStep))
    ensures
        exists|profiles: Option<Seq<u8>>|
            found_profiles_path(profiles, game_folder) && #[trigger] restore_start_ok(
                profiles,
                res.0,
                res.1,
            ),
{
    let profiles = get_launcher_profiles_path(game_folder);
    let ghost view = opt_bytes(profiles);
    let res = restore_start_with(profiles);
    assert(found_profiles_path(view, game_folder) && restore_start_ok(view, res.0, res.1));
    res
}

/// Decides the step after the event `e` in `s`.
pub fn profiles_step(s: ProfilesState, e: ProfilesEvent) -> (res: (ProfilesState, ProfilesStep))
    ensures
        profiles_step_ok(s, e, res.0, res.1),
{
    match (s, e) {
        (ProfilesState::BackupReading { profiles }, ProfilesEvent::Read(read)) => match read {
            None => finish(),
            Some(text) => match backup_path_for(&profiles) {
                None => (
                    ProfilesState::Done,
                    ProfilesStep { note: None, action: ProfilesAction::ReportNoParent(profiles) },
                ),
                Some(backup) => (
                    ProfilesState::BackupWriting,
                    ProfilesStep { note: None, action: ProfilesAction::Write(backup, text) },
                ),
            },
        },
        (ProfilesState::BackupWriting, ProfilesEvent::Written(ok)) => {
            let note = if ok {
                Some(ProfilesNote::BackedUp)
            } else {
                None
            };
            (ProfilesState::Done, ProfilesStep { note, action: ProfilesAction::Finish })
        },
        (ProfilesState::RestoreReading { profiles, backup }, ProfilesEvent::Read(read)) => match read {
            None => finish(),
            Some(text) => (
                ProfilesState::RestoreWriting { backup },
                ProfilesStep { note: None, action: ProfilesAction::Write(profiles, text) },
            ),
        },
        (ProfilesState::RestoreWriting { backup }, ProfilesEvent::Written(ok)) => if ok {
            let file = path_clone(&backup);
            (
                ProfilesState::RestoreRemoving,
                ProfilesStep { note: Some(ProfilesNote::Restored), action: ProfilesAction::Remove(file) },
            )
        } else {
            (ProfilesState::Done, ProfilesStep { note: Some(ProfilesNote::BackupKept), action: ProfilesAction::Finish })
        },
        _ => finish(),
    }
}

/// Once the settings file was written back, a restore removes the backup
/// that it read.
pub proof fn lemma_restore_removes_backup(s: ProfilesState, t: ProfilesState, step: ProfilesStep)
    requires
        s is RestoreWriting,
        profiles_step_ok(s, ProfilesEvent::Written(true), t, step),
    ensures
        step.action matches ProfilesAction::Remove(file) && (s matches ProfilesState::RestoreWriting {
            backup,
        } && path_bytes(file) == path_bytes(backup)),
{
}

/// A restore that could not write the settings file keeps the backup: it
/// stops, saying so, and whatever is reported after that, it only stops
/// again; it never removes a file.
pub proof fn lemma_failed_restore_keeps_backup(
    s: ProfilesState,
    t: ProfilesState,
    step: ProfilesStep,
    e: ProfilesEvent,
    u: ProfilesState,
    next: ProfilesStep,
)
    requires
        s is RestoreWriting,
        profiles_step_ok(s, ProfilesEvent::Written(false), t, step),
        profiles_step_ok(t, e, u, next),
    ensures
        t is Done,
        step.note == Some(ProfilesNote::BackupKept),
        step.action is Finish,
        finishes(u, next),
{
}

/// A restore reads back what a backup wrote, and puts it where the backup
/// took it from: for a settings file that has a parent directory, the
/// backup reads the settings file and writes the text it read to the very
/// file that the restore then reads, and the restore writes the text it read
/// to the settings file.
pub proof fn lemma_backup_and_restore_meet(
    profiles: Seq<u8>,
    backup_state: ProfilesState,
    backup_first: ProfilesStep,
    saved: String,
    backup_next: ProfilesState,
    backup_second: ProfilesStep,
    restore_state: ProfilesState,
    restore_first: ProfilesStep,
    restored: String,
    restore_next: ProfilesState,
    restore_second: ProfilesStep,
)
    requires
        backup_path_spec(profiles) is Some,
        backup_start_ok(Some(profiles), backup_state, backup_first),
        profiles_step_ok(backup_state, ProfilesEvent::Read(Some(saved)), backup_next, backup_second),
        restore_start_ok(Some(profiles), restore_state, restore_first),
        profiles_step_ok(
            restore_state,
            ProfilesEvent::Read(Some(restored)),
            restore_next,
            restore_second,
        ),
    ensures
        backup_first.action matches ProfilesAction::Read(file) && path_bytes(file) == profiles,
        backup_second.action matches ProfilesAction::Write(file, text) && text@ == saved@ && (
        restore_first.action matches ProfilesAction::Read(read) && path_bytes(read) == path_bytes(file)),
        restore_second.action matches ProfilesAction::Write(file, text) && path_bytes(file) == profiles
            && text@ == restored@,
{
}

} // verus!
