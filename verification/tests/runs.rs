use std::path::PathBuf;
use minecraft_launcher_launcher::cli::{decide, dispatch, Command, StartupWarning};
use minecraft_launcher_launcher::compare::{bytes_verdict, size_verdict};
use minecraft_launcher_launcher::install::{
    check_self_name, install_begin, install_step, InstallAction, InstallEvent, InstallFailure, InstallNote,
    InstallPhase, InstallState, InstallStep,
};
use minecraft_launcher_launcher::launch::{
    launch_first_step, launch_start, launch_step, outcome_succeeds, LaunchAction, LaunchEvent,
    LaunchOutcome, LaunchState, Privilege,
};

fn args(list: &[&str]) -> Vec<String> {
    list.iter().map(|a| (*a).to_owned()).collect()
}

#[test]
fn dispatch_install() {
    let d = dispatch(&args(&["/tmp/dl/minecraft-launcher-launcher", "--install", "--upgrade"]));
    assert_eq!(d.warning, None);
    match d.command {
        Command::Install { binary_file_name } => {
            assert_eq!(binary_file_name, "minecraft-launcher-launcher")
        },
        _ => panic!("expected install"),
    }
}

#[test]
fn dispatch_invalid_argument() {
    let d = dispatch(&args(&["/usr/bin/minecraft-launcher", "--help"]));
    assert_eq!(d.warning, None);
    match d.command {
        Command::InvalidArgument(a) => assert_eq!(a, "--help"),
        _ => panic!("expected invalid argument"),
    }
}

#[test]
fn dispatch_launch_and_usage() {
    let d = dispatch(&args(&["/usr/bin/minecraft-launcher"]));
    assert!(matches!(d.command, Command::Launch));
    let d = dispatch(&args(&["minecraft-launcher"]));
    assert!(matches!(d.command, Command::Launch));
    let d = dispatch(&args(&["./minecraft-launcher-launcher"]));
    assert!(matches!(d.command, Command::Usage));
    assert_eq!(d.warning, None);
}

#[test]
fn dispatch_warnings() {
    let d = dispatch(&args(&[]));
    assert_eq!(d.warning, Some(StartupWarning::NoProgramPath));
    assert!(matches!(d.command, Command::Usage));
    let d = dispatch(&args(&["/usr/bin/.."]));
    assert_eq!(d.warning, Some(StartupWarning::NoFileName));
    assert!(matches!(d.command, Command::Usage));
    let d = dispatch(&args(&["/", "--install"]));
    assert_eq!(d.warning, Some(StartupWarning::NoFileName));
    assert!(matches!(d.command, Command::Usage));
}

#[test]
fn file_comparison_verdicts() {
    assert_eq!(size_verdict(3, 4), Some(false));
    assert_eq!(size_verdict(4, 4), None);
    assert!(bytes_verdict(b"abcd", b"abcd"));
    assert!(!bytes_verdict(b"abcd", b"abcx"));
    assert!(bytes_verdict(b"", b""));
    assert!(bytes_verdict(b"ab", b"abc"));
}

fn run_launch(first: (LaunchState, LaunchAction), events: &[LaunchEvent]) -> Vec<LaunchAction> {
    let (mut state, action) = first;
    let mut actions = vec![action];
    for e in events {
        let (s, a) = launch_step(state, *e);
        state = s;
        actions.push(a);
    }
    actions
}

#[test]
fn launch_as_user_then_as_root() {
    let user = run_launch(
        launch_first_step(Privilege::User),
        &[
            LaunchEvent::OpenChecked(false),
            LaunchEvent::Done,
            LaunchEvent::Done,
            LaunchEvent::LauncherStarted(Some(4321)),
            LaunchEvent::Done,
            LaunchEvent::Escalated(true),
            LaunchEvent::PidRead(4321),
            LaunchEvent::Done,
            LaunchEvent::Done,
            LaunchEvent::Done,
        ],
    );
    assert_eq!(
        user,
        vec![
            LaunchAction::FindOpenLauncher,
            LaunchAction::RemoveJavaCheck,
            LaunchAction::RemovePidFile,
            LaunchAction::StartLauncher,
            LaunchAction::WritePidFile(4321),
            LaunchAction::Escalate,
            LaunchAction::ReadPidFile,
            LaunchAction::Renice(4321),
            LaunchAction::RemovePidFile,
            LaunchAction::WatchGame,
            LaunchAction::Finish(LaunchOutcome::Completed),
        ]
    );
    let root = run_launch(
        launch_first_step(Privilege::Root),
        &[LaunchEvent::Escalated(true), LaunchEvent::PidRead(9), LaunchEvent::Done, LaunchEvent::Done, LaunchEvent::Done],
    );
    assert_eq!(
        root,
        vec![
            LaunchAction::Escalate,
            LaunchAction::ReadPidFile,
            LaunchAction::Renice(9),
            LaunchAction::RemovePidFile,
            LaunchAction::WatchGame,
            LaunchAction::Finish(LaunchOutcome::Completed),
        ]
    );
    assert_eq!(launch_first_step(Privilege::Suid), launch_first_step(Privilege::Root));
}

#[test]
fn launch_already_open_or_failing() {
    let open = run_launch(launch_first_step(Privilege::User), &[LaunchEvent::OpenChecked(true)]);
    assert_eq!(open, vec![LaunchAction::FindOpenLauncher, LaunchAction::Finish(LaunchOutcome::AlreadyOpen)]);
    let no_pid = run_launch(
        launch_first_step(Privilege::User),
        &[
            LaunchEvent::OpenChecked(false),
            LaunchEvent::Done,
            LaunchEvent::Done,
            LaunchEvent::LauncherStarted(None),
            LaunchEvent::Done,
            LaunchEvent::Escalated(false),
        ],
    );
    assert_eq!(no_pid[4], LaunchAction::ReportMissingPid);
    assert_eq!(no_pid[6], LaunchAction::Finish(LaunchOutcome::EscalationFailed));
    let wrong = run_launch(launch_first_step(Privilege::User), &[LaunchEvent::Done]);
    assert_eq!(wrong[1], LaunchAction::Finish(LaunchOutcome::Aborted));
    assert!(outcome_succeeds(LaunchOutcome::AlreadyOpen));
    assert!(outcome_succeeds(LaunchOutcome::Completed));
    assert!(!outcome_succeeds(LaunchOutcome::EscalationFailed));
    assert!(!outcome_succeeds(LaunchOutcome::Aborted));
    let (state, action) = launch_start();
    assert!(
        (state, action) == launch_first_step(Privilege::User)
            || (state, action) == launch_first_step(Privilege::Root)
    );
}

fn describe(step: &InstallStep) -> String {
    let note = match &step.note {
        None => String::new(),
        Some(InstallNote::StartingInstall) => "starting; ".to_owned(),
        Some(InstallNote::CheckingInstalled) => "checking; ".to_owned(),
        Some(InstallNote::AlreadyInstalled) => "already; ".to_owned(),
        Some(InstallNote::ClosedLauncher) => "closed; ".to_owned(),
        Some(InstallNote::RealLauncherKept) => "kept; ".to_owned(),
        Some(InstallNote::RealLauncherCopied { from, to }) => format!("copied {from} {to}; "),
        Some(InstallNote::InstallSucceeded) => "succeeded; ".to_owned(),
    };
    let action = match &step.action {
        InstallAction::Escalate => "escalate".to_owned(),
        InstallAction::LocateSelf => "locate".to_owned(),
        InstallAction::CheckExists(p) => format!("exists {p}"),
        InstallAction::CheckSelfExists(p) => format!("exists {}", p.display()),
        InstallAction::CompareFiles(a, b) => format!("compare {} {b}", a.display()),
        InstallAction::BackupProfiles => "backup".to_owned(),
        InstallAction::CloseLaunchers => "close".to_owned(),
        InstallAction::RestoreProfiles => "restore".to_owned(),
        InstallAction::RemoveFile(p) => format!("remove {p}"),
        InstallAction::CopyFile(a, b) => format!("copy {a} {b}"),
        InstallAction::CopySelf(a, b) => format!("copy {} {b}", a.display()),
        InstallAction::Succeed => "succeed".to_owned(),
        InstallAction::Fail(None) => "fail".to_owned(),
        InstallAction::Fail(Some(f)) => format!(
            "fail {}",
            match f {
                InstallFailure::CurrentExe(e) => format!("exe {e}"),
                InstallFailure::ExecutableDeleted => "deleted".to_owned(),
                InstallFailure::NoFileName => "no-name".to_owned(),
                InstallFailure::NameMismatch { current, started_as } => format!("names {current} {started_as}"),
                InstallFailure::NonUnicodeName => "non-unicode".to_owned(),
                InstallFailure::NoBinDir => "no-bin".to_owned(),
                InstallFailure::LauncherMissing => "no-launcher".to_owned(),
                InstallFailure::Compare(e) => format!("compare {e}"),
                InstallFailure::CopyFailed => "copy".to_owned(),
                InstallFailure::Aborted => "aborted".to_owned(),
            }
        ),
    };
    format!("{note}{action}")
}

fn run_install(name: &str, command_line: &[&str], events: Vec<InstallEvent>) -> (Vec<String>, InstallPhase) {
    let (mut state, step): (InstallState, InstallStep) = install_begin(name, &args(command_line));
    let mut steps = vec![describe(&step)];
    for e in events {
        let (s, step) = install_step(state, e);
        state = s;
        steps.push(describe(&step));
    }
    (steps, state.phase)
}

const SELF: &str = "/home/u/minecraft-launcher-launcher";

fn up_to_comparison() -> Vec<InstallEvent> {
    vec![
        InstallEvent::Checked(true),
        InstallEvent::SelfPath(Ok(PathBuf::from(SELF))),
        InstallEvent::Checked(true),
        InstallEvent::Checked(true),
        InstallEvent::Checked(true),
    ]
}

#[test]
fn install_fresh() {
    let mut events = up_to_comparison();
    events.extend([
        InstallEvent::Compared(Ok(false)),
        InstallEvent::Done,
        InstallEvent::Checked(true),
        InstallEvent::Done,
        InstallEvent::Checked(false),
        InstallEvent::Checked(true),
        InstallEvent::Checked(true),
        InstallEvent::Checked(true),
    ]);
    let (steps, phase) = run_install("minecraft-launcher-launcher", &["x", "--install"], events);
    assert_eq!(
        steps,
        vec![
            "escalate",
            "starting; locate",
            "exists /home/u/minecraft-launcher-launcher",
            "exists /usr/bin",
            "exists /usr/bin/minecraft-launcher",
            "checking; compare /home/u/minecraft-launcher-launcher /usr/bin/minecraft-launcher",
            "backup",
            "close",
            "closed; restore",
            "exists /usr/bin/minecraft-launcher-real",
            "copy /usr/bin/minecraft-launcher /usr/bin/minecraft-launcher-real",
            "exists /usr/bin/minecraft-launcher-real",
            "kept; copy /home/u/minecraft-launcher-launcher /usr/bin/minecraft-launcher",
            "succeeded; succeed",
        ]
    );
    assert_eq!(phase, InstallPhase::Finished);
}

#[test]
fn install_upgrade_and_copy_report() {
    let mut events = up_to_comparison();
    events.extend([
        InstallEvent::Compared(Ok(false)),
        InstallEvent::Done,
        InstallEvent::Checked(false),
        InstallEvent::Done,
        InstallEvent::Done,
        InstallEvent::Checked(false),
        InstallEvent::Checked(true),
        InstallEvent::Checked(false),
        InstallEvent::Checked(false),
    ]);
    let (steps, phase) =
        run_install("minecraft-launcher-launcher", &["x", "--install", "--upgrade"], events);
    assert_eq!(steps[8], "restore");
    assert_eq!(steps[9], "remove /usr/bin/minecraft-launcher-real");
    assert_eq!(steps[10], "exists /usr/bin/minecraft-launcher-real");
    assert_eq!(steps[11], "copy /usr/bin/minecraft-launcher /usr/bin/minecraft-launcher-real");
    assert_eq!(steps[12], "exists /usr/bin/minecraft-launcher-real");
    assert_eq!(
        steps[13],
        "copied /usr/bin/minecraft-launcher /usr/bin/minecraft-launcher-real; copy /home/u/minecraft-launcher-launcher /usr/bin/minecraft-launcher"
    );
    assert_eq!(steps[14], "fail copy");
    assert_eq!(phase, InstallPhase::Finished);
}

#[test]
fn install_keeps_existing_real_launcher() {
    let mut events = up_to_comparison();
    events.extend([
        InstallEvent::Compared(Ok(false)),
        InstallEvent::Done,
        InstallEvent::Checked(false),
        InstallEvent::Done,
        InstallEvent::Checked(true),
        InstallEvent::Checked(true),
    ]);
    let (steps, _) = run_install("minecraft-launcher-launcher", &["x", "--install"], events);
    assert_eq!(steps[9], "exists /usr/bin/minecraft-launcher-real");
    assert_eq!(steps[10], "exists /usr/bin/minecraft-launcher-real");
    assert_eq!(steps[11], "kept; copy /home/u/minecraft-launcher-launcher /usr/bin/minecraft-launcher");
}

#[test]
fn install_already_installed() {
    let mut events = up_to_comparison();
    events.push(InstallEvent::Compared(Ok(true)));
    let (steps, phase) = run_install("minecraft-launcher-launcher", &["x"], events);
    assert_eq!(steps.last().unwrap(), "already; succeed");
    assert_eq!(phase, InstallPhase::Finished);
}

#[test]
fn install_failures() {
    let name = "minecraft-launcher-launcher";
    let (steps, _) = run_install(name, &[], vec![InstallEvent::Checked(false)]);
    assert_eq!(steps[1], "fail");
    let (steps, _) = run_install(
        name,
        &[],
        vec![InstallEvent::Checked(true), InstallEvent::SelfPath(Err("gone".to_owned()))],
    );
    assert_eq!(steps[2], "fail exe gone");
    let (steps, _) = run_install(
        name,
        &[],
        vec![InstallEvent::Checked(true), InstallEvent::SelfPath(Ok(PathBuf::from(SELF))), InstallEvent::Checked(false)],
    );
    assert_eq!(steps[3], "fail deleted");
    let (steps, _) = run_install(
        "other",
        &[],
        vec![InstallEvent::Checked(true), InstallEvent::SelfPath(Ok(PathBuf::from(SELF))), InstallEvent::Checked(true)],
    );
    assert_eq!(steps[3], "fail names minecraft-launcher-launcher other");
    let (steps, _) = run_install(
        name,
        &[],
        vec![InstallEvent::Checked(true), InstallEvent::SelfPath(Ok(PathBuf::from("/"))), InstallEvent::Checked(true)],
    );
    assert_eq!(steps[3], "fail no-name");
    let (steps, _) = run_install(
        "a\u{FFFD}b",
        &[],
        vec![InstallEvent::Checked(true), InstallEvent::SelfPath(Ok(PathBuf::from("/x/a\u{FFFD}b"))), InstallEvent::Checked(true)],
    );
    assert_eq!(steps[3], "fail non-unicode");
    let mut events = up_to_comparison();
    events.truncate(3);
    events.push(InstallEvent::Checked(false));
    let (steps, _) = run_install(name, &[], events);
    assert_eq!(steps[4], "fail no-bin");
    let mut events = up_to_comparison();
    events.truncate(4);
    events.push(InstallEvent::Checked(false));
    let (steps, _) = run_install(name, &[], events);
    assert_eq!(steps[5], "fail no-launcher");
    let mut events = up_to_comparison();
    events.push(InstallEvent::Compared(Err("io".to_owned())));
    let (steps, _) = run_install(name, &[], events);
    assert_eq!(steps[6], "fail compare io");
    let (steps, phase) = run_install(name, &[], vec![InstallEvent::Done]);
    assert_eq!(steps[1], "fail aborted");
    assert_eq!(phase, InstallPhase::Finished);
}

#[test]
fn decisions_from_a_given_file_name() {
    let d = decide(&args(&["whatever/path"]), Some("minecraft-launcher".to_owned()));
    assert!(matches!(d.command, Command::Launch));
    let d = decide(&args(&["whatever/path"]), None);
    assert_eq!(d.warning, Some(StartupWarning::NoFileName));
    let d = decide(&args(&[]), Some("minecraft-launcher".to_owned()));
    assert_eq!(d.warning, Some(StartupWarning::NoProgramPath));
}

#[test]
fn self_name_checks() {
    let state = || InstallState {
        phase: InstallPhase::CheckingSelf,
        binary_file_name: "mll".to_owned(),
        upgrade: false,
        self_path: PathBuf::from("/x/mll"),
    };
    let (s, step) = check_self_name(state(), Some("mll".to_owned()));
    assert_eq!(s.phase, InstallPhase::CheckingBinDir);
    assert_eq!(describe(&step), "exists /usr/bin");
    let (s, step) = check_self_name(state(), Some("other".to_owned()));
    assert_eq!(s.phase, InstallPhase::Finished);
    assert_eq!(describe(&step), "fail names other mll");
    let (_, step) = check_self_name(state(), None);
    assert_eq!(describe(&step), "fail no-name");
}

#[test]
fn install_again_changes_nothing() {
    let mut events = up_to_comparison();
    events.push(InstallEvent::Compared(Ok(true)));
    events.push(InstallEvent::Done);
    events.push(InstallEvent::Checked(true));
    let (steps, phase) = run_install("minecraft-launcher-launcher", &["x", "--install", "--upgrade"], events);
    for step in &steps {
        let action = step.rsplit("; ").next().unwrap();
        for changing in ["copy", "remove", "backup", "close", "restore"] {
            assert!(!action.starts_with(changing), "{step}");
        }
    }
    assert_eq!(steps[6], "already; succeed");
    assert_eq!(steps[7], "fail aborted");
    assert_eq!(phase, InstallPhase::Finished);
}
