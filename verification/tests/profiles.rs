use std::path::PathBuf;
use minecraft_launcher_launcher::profiles::{
    backup_start, backup_start_with, profiles_step, restore_start, restore_start_with,
    ProfilesAction, ProfilesEvent, ProfilesNote, ProfilesState, ProfilesStep,
};

fn describe(step: &ProfilesStep) -> String {
    let note = match step.note {
        None => "",
        Some(ProfilesNote::BackedUp) => "backed-up; ",
        Some(ProfilesNote::Restored) => "restored; ",
        Some(ProfilesNote::BackupKept) => "kept; ",
    };
    let action = match &step.action {
        ProfilesAction::Read(f) => format!("read {}", f.display()),
        ProfilesAction::Write(f, t) => format!("write {} <- {t}", f.display()),
        ProfilesAction::Remove(f) => format!("remove {}", f.display()),
        ProfilesAction::ReportNoHome => "no-home".to_owned(),
        ProfilesAction::ReportNoParent(p) => format!("no-parent {}", p.display()),
        ProfilesAction::Finish => "finish".to_owned(),
    };
    format!("{note}{action}")
}

fn run(start: (ProfilesState, ProfilesStep), events: Vec<ProfilesEvent>) -> Vec<String> {
    let (mut state, step) = start;
    let mut out = vec![describe(&step)];
    for e in events {
        let (s, step) = profiles_step(state, e);
        state = s;
        out.push(describe(&step));
    }
    out
}

const PROFILES: &str = "/home/steve/.minecraft/launcher_profiles.json";
const BACKUP: &str = "/home/steve/.minecraft/launcher_profiles.json.mllbackup";

#[test]
fn backup_copies_settings_beside_them() {
    let steps = run(
        backup_start_with(Some(PathBuf::from(PROFILES))),
        vec![ProfilesEvent::Read(Some("{}".to_owned())), ProfilesEvent::Written(true)],
    );
    assert_eq!(
        steps,
        vec![format!("read {PROFILES}"), format!("write {BACKUP} <- {{}}"), "backed-up; finish".to_owned()]
    );
    let steps = run(
        backup_start_with(Some(PathBuf::from(PROFILES))),
        vec![ProfilesEvent::Read(Some("x".to_owned())), ProfilesEvent::Written(false)],
    );
    assert_eq!(steps[2], "finish");
    let steps = run(backup_start_with(Some(PathBuf::from(PROFILES))), vec![ProfilesEvent::Read(None)]);
    assert_eq!(steps[1], "finish");
    let steps = run(backup_start_with(None), vec![]);
    assert_eq!(steps, vec!["no-home"]);
}

#[test]
fn restore_writes_back_and_removes_backup() {
    let steps = run(
        restore_start_with(Some(PathBuf::from(PROFILES))),
        vec![ProfilesEvent::Read(Some("{a}".to_owned())), ProfilesEvent::Written(true), ProfilesEvent::Done],
    );
    assert_eq!(
        steps,
        vec![
            format!("read {BACKUP}"),
            format!("write {PROFILES} <- {{a}}"),
            format!("restored; remove {BACKUP}"),
            "finish".to_owned(),
        ]
    );
    let steps = run(
        restore_start_with(Some(PathBuf::from(PROFILES))),
        vec![ProfilesEvent::Read(Some("{a}".to_owned())), ProfilesEvent::Written(false)],
    );
    assert_eq!(steps, vec![format!("read {BACKUP}"), format!("write {PROFILES} <- {{a}}"), "kept; finish".to_owned()]);
    assert!(steps.iter().all(|s| !s.contains("remove")));
    let steps = run(restore_start_with(Some(PathBuf::from(PROFILES))), vec![ProfilesEvent::Read(None)]);
    assert_eq!(steps[1], "finish");
    assert_eq!(run(restore_start_with(Some(PathBuf::from("/"))), vec![]), vec!["no-parent /"]);
    assert_eq!(run(restore_start_with(None), vec![]), vec!["no-home"]);
}

#[test]
fn backup_without_parent_and_unexpected_events() {
    let steps = run(
        backup_start_with(Some(PathBuf::from("/"))),
        vec![ProfilesEvent::Read(Some("t".to_owned()))],
    );
    assert_eq!(steps[1], "no-parent /");
    let steps = run(backup_start_with(Some(PathBuf::from(PROFILES))), vec![ProfilesEvent::Done]);
    assert_eq!(steps[1], "finish");
}

#[test]
fn starts_from_the_current_users_settings() {
    let expected = home::home_dir().map(|h| h.join(".minecraft").join("launcher_profiles.json"));
    let (_, step) = backup_start(None);
    match (&step.action, &expected) {
        (ProfilesAction::Read(file), Some(path)) => assert_eq!(file, path),
        (ProfilesAction::ReportNoHome, None) => {},
        _ => panic!("unexpected start of backup"),
    }
    let (_, step) = restore_start(Some("games"));
    let expected_backup =
        home::home_dir().map(|h| h.join("games").join("launcher_profiles.json.mllbackup"));
    match (&step.action, &expected_backup) {
        (ProfilesAction::Read(file), Some(path)) => assert_eq!(file, path),
        (ProfilesAction::ReportNoHome, None) => {},
        _ => panic!("unexpected start of restore"),
    }
}
