use minecraft_launcher_launcher::processes::{
    cmd_mentions_exec, find_launcher_processes, is_game_process_exec, is_named_launcher_exec,
    is_stealth_launcher_exec, signal_target, LauncherProcess, ProcessInfo,
};
use minecraft_launcher_launcher::watch::{
    game_started, launcher_closed, watch_start, watch_step, ProcessEvent, WatchAction, WatchEvent,
    WatchState,
};

fn process(pid: u32, name: &str, parent: Option<u32>, uid: Option<u32>, cmd: &[&str]) -> ProcessInfo {
    ProcessInfo {
        pid,
        name: name.to_owned(),
        parent,
        effective_uid: uid,
        cmd: cmd.iter().map(|a| (*a).to_owned()).collect(),
    }
}

fn found(list: &[LauncherProcess]) -> Vec<(u32, &str, bool)> {
    list.iter().map(|p| (p.pid, p.name.as_str(), p.stealth)).collect()
}

fn snapshot() -> Vec<ProcessInfo> {
    vec![
        // the launcher's helper, listed before the launcher itself
        process(300, "exe", Some(200), Some(1000), &["/opt/x/exe", "--launcherui", "--x"]),
        // the launcher
        process(200, "minecraft-launc", Some(1), Some(1000), &["/usr/bin/minecraft-launcher-real"]),
        // this program
        process(100, "minecraft-launc", Some(1), Some(1000), &["/usr/bin/minecraft-launcher"]),
        // a copy of this program under its own name
        process(
            150,
            "minecraft-launc",
            Some(1),
            Some(1000),
            &["/home/u/minecraft-launcher-launcher"],
        ),
        // a root process
        process(400, "minecraft-launc", Some(1), Some(0), &["x"]),
        // unknown user
        process(401, "minecraft-launc", Some(1), None, &["x"]),
        // a child of this program
        process(500, "minecraft-launcher", Some(100), Some(1000), &["y"]),
        // an `exe` that is not the launcher's helper
        process(600, "exe", Some(1), Some(1000), &["/bin/exe"]),
        // unrelated
        process(700, "bash", Some(1), Some(1000), &["bash"]),
    ]
}

#[test]
fn finds_launchers_and_helpers_without_parent_check() {
    let procs = snapshot();
    let list = find_launcher_processes(&procs, 100, false);
    assert_eq!(
        found(&list),
        vec![(200, "minecraft-launc", false), (500, "minecraft-launcher", false), (300, "exe", true)]
    );
}

#[test]
fn finds_launchers_and_helpers_with_parent_check() {
    let procs = snapshot();
    let list = find_launcher_processes(&procs, 100, true);
    assert_eq!(found(&list), vec![(200, "minecraft-launc", false), (300, "exe", true)]);
}

#[test]
fn finds_nothing_in_an_empty_or_foreign_snapshot() {
    assert!(find_launcher_processes(&vec![], 1, true).is_empty());
    let procs = vec![process(5, "bash", None, Some(1000), &["bash"])];
    assert!(find_launcher_processes(&procs, 1, false).is_empty());
}

#[test]
fn never_reports_this_program_or_root() {
    let procs = snapshot();
    for check_parent in [false, true] {
        for p in find_launcher_processes(&procs, 100, check_parent) {
            assert_ne!(p.pid, 100);
            assert_ne!(p.pid, 150);
            assert_ne!(p.pid, 400);
            assert_ne!(p.pid, 401);
        }
    }
}

#[test]
fn single_process_predicates() {
    let helper = process(9, "exe", None, Some(1), &["a", "--launcherui"]);
    assert!(is_stealth_launcher_exec(&helper, 1, true));
    assert!(!is_named_launcher_exec(&helper, 1, true));
    let launcher = process(9, "xminecraft-launcy", None, Some(1), &[]);
    assert!(is_named_launcher_exec(&launcher, 1, true));
    assert!(!is_named_launcher_exec(&launcher, 9, true));
    assert!(cmd_mentions_exec(&vec!["ab".to_owned(), "cd".to_owned()], "d"));
    assert!(!cmd_mentions_exec(&vec![], ""));
}

#[test]
fn recognises_the_game() {
    let game = process(
        10,
        "java",
        Some(200),
        Some(1000),
        &["java", "-Xmx4G", "-Dminecraft.launcher.brand=minecraft-launcher", "net.minecraft.client.main.Main"],
    );
    assert!(is_game_process_exec(&game));
    let other_java = process(11, "java", None, Some(1000), &["java", "-jar", "x.jar"]);
    assert!(!is_game_process_exec(&other_java));
    let renamed = process(12, "javaw", None, Some(1000), &["-Dminecraft.launcher.brand=minecraft-launcher"]);
    assert!(!is_game_process_exec(&renamed));
    assert!(game_started(1, Some(&game)));
    assert!(!game_started(0, Some(&game)));
    assert!(!game_started(2, Some(&game)));
    assert!(!game_started(1, None));
    assert!(!game_started(1, Some(&other_java)));
}

#[test]
fn signal_targets() {
    assert_eq!(signal_target(1234), Some(1234));
    assert_eq!(signal_target(2_147_483_647), Some(i32::MAX));
    assert_eq!(signal_target(2_147_483_648), None);
    assert_eq!(signal_target(u32::MAX), None);
}

fn received(e: Option<ProcessEvent>) -> (WatchState, WatchAction) {
    watch_step(WatchState::Waiting, WatchEvent::Received(e))
}

#[test]
fn watch_actions() {
    assert_eq!(watch_start(), (WatchState::Waiting, WatchAction::Receive));
    assert_eq!(received(None), (WatchState::Waiting, WatchAction::ReportNoEvent));
    assert_eq!(
        received(Some(ProcessEvent::Exec(42))),
        (WatchState::InspectingExec, WatchAction::InspectExec(42))
    );
    assert_eq!(received(Some(ProcessEvent::Exec(-3))), (WatchState::Waiting, WatchAction::ReportBadPid(-3)));
    assert_eq!(
        received(Some(ProcessEvent::Exit(0))),
        (WatchState::InspectingExit, WatchAction::InspectExit(0))
    );
    assert_eq!(received(Some(ProcessEvent::Exit(-1))), (WatchState::Waiting, WatchAction::ReportBadPid(-1)));
    assert_eq!(received(Some(ProcessEvent::Fork(5))), (WatchState::Waiting, WatchAction::Receive));
    assert_eq!(received(Some(ProcessEvent::Coredump(5))), (WatchState::Waiting, WatchAction::Receive));
    assert_eq!(watch_step(WatchState::Waiting, WatchEvent::Done), (WatchState::Waiting, WatchAction::Receive));
}

#[test]
fn watch_closes_launcher_after_game_start() {
    let game = process(10, "java", Some(200), Some(1000), &["java", "-Dminecraft.launcher.brand=minecraft-launcher"]);
    let (s, a) = watch_step(
        WatchState::InspectingExec,
        WatchEvent::ExecInspected { updated: 1, process: Some(game) },
    );
    assert_eq!((s, a), (WatchState::BackingUp, WatchAction::BackupProfiles));
    let (s, a) = watch_step(s, WatchEvent::Done);
    assert_eq!((s, a), (WatchState::Closing, WatchAction::CloseLaunchers));
    let (s, a) = watch_step(s, WatchEvent::Done);
    assert_eq!((s, a), (WatchState::Restoring, WatchAction::RestoreProfiles));
    assert_eq!(watch_step(s, WatchEvent::Done), (WatchState::Stopped, WatchAction::Stop));
    let other = process(11, "java", None, Some(1000), &["java"]);
    assert_eq!(
        watch_step(WatchState::InspectingExec, WatchEvent::ExecInspected { updated: 1, process: Some(other) }),
        (WatchState::Waiting, WatchAction::Receive)
    );
}

#[test]
fn watch_stops_when_user_closes_launcher() {
    let exit = |name: Option<&str>, closing: bool| {
        watch_step(
            WatchState::InspectingExit,
            WatchEvent::ExitInspected { known_name: name.map(str::to_owned), closing },
        )
    };
    assert_eq!(exit(Some("minecraft-launc"), false), (WatchState::Stopped, WatchAction::Stop));
    assert_eq!(exit(Some("minecraft-launc"), true), (WatchState::Waiting, WatchAction::Receive));
    assert_eq!(exit(Some("bash"), false), (WatchState::Waiting, WatchAction::Receive));
    assert_eq!(exit(None, false), (WatchState::Waiting, WatchAction::Receive));
    assert_eq!(watch_step(WatchState::Waiting, WatchEvent::ExitInspected { known_name: None, closing: false }), (WatchState::Stopped, WatchAction::Stop));
}

#[test]
fn launcher_closed_by_user() {
    assert!(launcher_closed(Some("minecraft-launc"), false));
    assert!(!launcher_closed(Some("minecraft-launc"), true));
    assert!(!launcher_closed(Some("minecraft-launcher"), false));
    assert!(!launcher_closed(Some("java"), false));
    assert!(!launcher_closed(None, false));
}

#[test]
fn watch_run_touches_nothing_before_the_game() {
    let game = process(10, "java", Some(200), Some(1000), &["java", "-Dminecraft.launcher.brand=minecraft-launcher"]);
    let other = process(11, "bash", Some(1), Some(1000), &["bash"]);
    let events = vec![
        WatchEvent::Received(Some(ProcessEvent::Fork(7))),
        WatchEvent::Received(Some(ProcessEvent::Coredump(7))),
        WatchEvent::Received(None),
        WatchEvent::Done,
        WatchEvent::Received(Some(ProcessEvent::Exec(-4))),
        WatchEvent::Done,
        WatchEvent::Received(Some(ProcessEvent::Exec(11))),
        WatchEvent::ExecInspected { updated: 1, process: Some(other) },
        WatchEvent::Received(Some(ProcessEvent::Exit(11))),
        WatchEvent::ExitInspected { known_name: Some("bash".to_owned()), closing: false },
        WatchEvent::Received(Some(ProcessEvent::Exec(10))),
        WatchEvent::ExecInspected { updated: 1, process: Some(game) },
        WatchEvent::Done,
        WatchEvent::Done,
        WatchEvent::Done,
    ];
    let (mut state, first) = watch_start();
    let mut actions = vec![first];
    for e in events {
        let (s, a) = watch_step(state, e);
        state = s;
        actions.push(a);
    }
    let touching = |a: &WatchAction| {
        matches!(a, WatchAction::BackupProfiles | WatchAction::CloseLaunchers | WatchAction::RestoreProfiles)
    };
    let first_touch = actions.iter().position(touching).unwrap();
    assert_eq!(first_touch, 12);
    assert_eq!(actions[first_touch], WatchAction::BackupProfiles);
    assert!(actions[..first_touch].iter().all(|a| *a != WatchAction::Stop));
    assert_eq!(
        &actions[12..],
        &[WatchAction::BackupProfiles, WatchAction::CloseLaunchers, WatchAction::RestoreProfiles, WatchAction::Stop]
    );
    assert_eq!(state, WatchState::Stopped);
}
