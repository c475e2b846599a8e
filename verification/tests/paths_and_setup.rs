use minecraft_launcher_launcher::get_launcher_profiles_path;
use minecraft_launcher_launcher::launcher_setup::{launcher_environment, renice_commands};
use minecraft_launcher_launcher::paths::{
    backup_path_for, backup_path_in, get_minecraft_dir, get_minecraft_dir_from_home_path, javacheck_path,
    javacheck_path_for_home, javacheck_path_in, join, launcher_profiles_path_for_home,
    launcher_profiles_path_in, minecraft_dir_for_home,
};
use std::path::{Path, PathBuf};

#[test]
fn join_follows_path_join() {
    let cases = [
        ("/home/u", ".minecraft"),
        ("/home/u/", ".minecraft"),
        ("/home/u", "/srv/games"),
        ("", "x"),
        ("a", ""),
        ("/", "x"),
        ("a//", "b/c"),
    ];
    for (base, path) in cases {
        let expected = Path::new(base).join(path).to_string_lossy().into_owned();
        assert_eq!(join(base, path), expected, "join({base:?}, {path:?})");
    }
    assert_eq!(join("/home/u", ".minecraft"), "/home/u/.minecraft");
    assert_eq!(join("/home/u", "/abs"), "/abs");
}

fn pb(s: &str) -> PathBuf {
    PathBuf::from(s)
}

#[test]
fn game_directory_under_home() {
    assert_eq!(get_minecraft_dir_from_home_path(&pb("/home/steve"), None), pb("/home/steve/.minecraft"));
    assert_eq!(
        get_minecraft_dir_from_home_path(&pb("/home/steve"), Some("games/mc")),
        pb("/home/steve/games/mc")
    );
    assert_eq!(get_minecraft_dir_from_home_path(&pb("/home/steve"), Some("/opt/mc")), pb("/opt/mc"));
}

#[test]
fn game_directory_keeps_the_home_path() {
    let home = pb("/home/ste ve/ünï/");
    let dir = get_minecraft_dir_from_home_path(&home, None);
    assert_eq!(dir, pb("/home/ste ve/ünï/.minecraft"));
    let profiles = launcher_profiles_path_in(&dir);
    assert_eq!(profiles, pb("/home/ste ve/ünï/.minecraft/launcher_profiles.json"));
    assert_eq!(
        backup_path_for(&profiles),
        Some(pb("/home/ste ve/ünï/.minecraft/launcher_profiles.json.mllbackup"))
    );
    assert_eq!(javacheck_path_in(&dir), pb("/home/ste ve/ünï/.minecraft/launcher/JavaCheck.jar"));
}

#[test]
fn game_directory_of_current_user() {
    let expected = home::home_dir().map(|h| h.join(".minecraft"));
    assert_eq!(get_minecraft_dir(None), expected);
    let profiles = home::home_dir().map(|h| h.join("mcdir").join("launcher_profiles.json"));
    assert_eq!(get_launcher_profiles_path(Some("mcdir")), profiles);
    let javacheck = home::home_dir().map(|h| h.join(".minecraft/launcher/JavaCheck.jar"));
    assert_eq!(javacheck_path(None), javacheck);
}

#[test]
fn launcher_files() {
    assert_eq!(
        launcher_profiles_path_in(&pb("/home/steve/.minecraft")),
        pb("/home/steve/.minecraft/launcher_profiles.json")
    );
    assert_eq!(
        javacheck_path_in(&pb("/home/steve/.minecraft")),
        pb("/home/steve/.minecraft/launcher/JavaCheck.jar")
    );
    assert_eq!(
        backup_path_for(&pb("/home/steve/.minecraft/launcher_profiles.json")),
        Some(pb("/home/steve/.minecraft/launcher_profiles.json.mllbackup"))
    );
    assert_eq!(
        backup_path_for(&pb("/home/steve/./launcher_profiles.json")),
        Some(pb("/home/steve/launcher_profiles.json.mllbackup"))
    );
    assert_eq!(
        backup_path_for(&pb("launcher_profiles.json")),
        Some(pb("launcher_profiles.json.mllbackup"))
    );
    assert_eq!(backup_path_for(&pb("/")), None);
    assert_eq!(backup_path_for(&pb("")), None);
}

fn pairs(env: &[(String, String)]) -> Vec<(&str, &str)> {
    env.iter().map(|(k, v)| (k.as_str(), v.as_str())).collect()
}

#[test]
fn launcher_environment_with_gl_overrides() {
    let env = launcher_environment(None);
    assert!(!env.gl_overrides_skipped);
    assert_eq!(
        pairs(&env.vars),
        vec![
            ("vblank_mode", "0"),
            ("__GL_SYNC_TO_VBLANK", "0"),
            ("ALSOFT_DRIVERS", "pipewire"),
            ("LIBGL_DRI2_DISABLE", "true"),
            ("MESA_NO_ERROR", "true"),
            ("MESA_GL_VERSION_OVERRIDE", "4.3"),
            ("MESA_GLES_VERSION_OVERRIDE", "3.2"),
            ("MESA_GLSL_VERSION_OVERRIDE", "430"),
            ("DRI_NO_MSAA", "true"),
            ("MESA_SHADER_CACHE_DISABLE", "false"),
            ("MESA_SHADER_CACHE_MAX_SIZE", "4G"),
        ]
    );
    let other = launcher_environment(Some("false"));
    assert!(!other.gl_overrides_skipped);
    assert_eq!(other.vars, env.vars);
}

#[test]
fn launcher_environment_without_gl_overrides() {
    let env = launcher_environment(Some("true"));
    assert!(env.gl_overrides_skipped);
    assert_eq!(
        pairs(&env.vars),
        vec![
            ("vblank_mode", "0"),
            ("__GL_SYNC_TO_VBLANK", "0"),
            ("ALSOFT_DRIVERS", "pipewire"),
            ("LIBGL_DRI2_DISABLE", "true"),
            ("MESA_NO_ERROR", "true"),
            ("DRI_NO_MSAA", "true"),
            ("MESA_SHADER_CACHE_DISABLE", "false"),
            ("MESA_SHADER_CACHE_MAX_SIZE", "4G"),
        ]
    );
    assert!(env.vars.iter().all(|(k, _)| k != "LD_PRELOAD"));
}

#[test]
fn launcher_environment_names_each_variable_once() {
    for value in [None, Some("true"), Some("TRUE"), Some("")] {
        let env = launcher_environment(value);
        let mut names: Vec<&String> = env.vars.iter().map(|(k, _)| k).collect();
        names.sort();
        names.dedup();
        assert_eq!(names.len(), env.vars.len());
    }
}

#[test]
fn priority_commands() {
    let commands = renice_commands(1234);
    assert_eq!(commands.len(), 2);
    assert_eq!(commands[0].program, "renice");
    assert_eq!(commands[0].args, vec!["-n", "-6", "-p", "1234"]);
    assert_eq!(commands[0].label, "renice (-6)");
    assert_eq!(commands[1].program, "ionice");
    assert_eq!(commands[1].args, vec!["-c", "2", "-n", "0", "-p", "1234"]);
    assert_eq!(commands[1].label, "ionice (class 2, prio 0)");
}

#[test]
fn backup_beside_a_directory() {
    assert_eq!(
        backup_path_in(&pb("/home/steve/.minecraft")),
        pb("/home/steve/.minecraft/launcher_profiles.json.mllbackup")
    );
    assert_eq!(backup_path_in(&pb("")), pb("launcher_profiles.json.mllbackup"));
}

#[test]
fn settings_file_sits_in_the_game_directory() {
    for dir in ["/home/steve/.minecraft", "/home/ste ve/games/mc", "rel/dir", ".minecraft"] {
        let profiles = launcher_profiles_path_in(&pb(dir));
        assert_eq!(profiles.file_name().unwrap(), "launcher_profiles.json");
        assert_eq!(profiles.parent(), Some(Path::new(dir)));
        let backup = backup_path_for(&profiles).unwrap();
        assert_eq!(backup.file_name().unwrap(), "launcher_profiles.json.mllbackup");
        assert_eq!(backup.parent(), Some(Path::new(dir)));
    }
    let home = pb("/home/steve");
    let profiles = launcher_profiles_path_in(&get_minecraft_dir_from_home_path(&home, None));
    assert_eq!(profiles.parent(), Some(home.join(".minecraft").as_path()));
}

#[test]
fn lookups_for_a_given_home() {
    let home = Some(pb("/home/steve"));
    assert_eq!(minecraft_dir_for_home(home.clone(), None), Some(pb("/home/steve/.minecraft")));
    assert_eq!(minecraft_dir_for_home(home.clone(), Some("mc")), Some(pb("/home/steve/mc")));
    assert_eq!(
        launcher_profiles_path_for_home(home.clone(), None),
        Some(pb("/home/steve/.minecraft/launcher_profiles.json"))
    );
    assert_eq!(
        javacheck_path_for_home(home, Some("/opt/mc")),
        Some(pb("/opt/mc/launcher/JavaCheck.jar"))
    );
    assert_eq!(minecraft_dir_for_home(None, None), None);
    assert_eq!(launcher_profiles_path_for_home(None, Some("mc")), None);
    assert_eq!(javacheck_path_for_home(None, None), None);
}
