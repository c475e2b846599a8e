//! How the launcher is started: the environment variables it gets and the
//! commands that raise its CPU and I/O priority.

use vstd::prelude::*;
use crate::number::{decimal, decimal_string};
use crate::text::str_eq;

verus! {

/// The program that is started: the real launcher, moved aside when this
/// program was installed in its place.
pub const REAL_LAUNCHER_PROGRAM: &'static str = "minecraft-launcher-real";

/// The variable that, set to `true`, keeps the advertised OpenGL versions as
/// the driver reports them.
pub const NO_GL_VERSION_OVERRIDE_VAR: &'static str = "MC_LAUNCHER_LAUNCHER_NO_GL_VERSION_OVERRIDE";

/// The view of a list of variable settings.
pub open spec fn pairs_view(pairs: Seq<(String, String)>) -> Seq<(Seq<char>, Seq<char>)> {
    pairs.map_values(|p: (String, String)| (p.0@, p.1@))
}

/// The OpenGL version overrides are left out exactly when the variable
/// `MC_LAUNCHER_LAUNCHER_NO_GL_VERSION_OVERRIDE` is set to `true`.
pub open spec fn gl_overrides_disabled(no_gl_override: Option<&str>) -> bool {
    no_gl_override matches Some(value) && value@ == "true"@
}

/// The settings that come before the OpenGL version overrides: no vertical
/// sync (Mesa and NVIDIA), OpenAL on PipeWire, DRI3, no GL error checking.
pub open spec fn leading_settings() -> Seq<(Seq<char>, Seq<char>)> {
    seq![
        ("vblank_mode"@, "0"@),
        ("__GL_SYNC_TO_VBLANK"@, "0"@),
        ("ALSOFT_DRIVERS"@, "pipewire"@),
        ("LIBGL_DRI2_DISABLE"@, "true"@),
        ("MESA_NO_ERROR"@, "true"@),
    ]
}

/// The advertised OpenGL, GLES and GLSL versions.
pub open spec fn gl_override_settings() -> Seq<(Seq<char>, Seq<char>)> {
    seq![
        ("MESA_GL_VERSION_OVERRIDE"@, "4.3"@),
        ("MESA_GLES_VERSION_OVERRIDE"@, "3.2"@),
        ("MESA_GLSL_VERSION_OVERRIDE"@, "430"@),
    ]
}

/// The settings after the OpenGL version overrides: no MSAA, and a large
/// shader cache.
pub open spec fn trailing_settings() -> Seq<(Seq<char>, Seq<char>)> {
    seq![
        ("DRI_NO_MSAA"@, "true"@),
        ("MESA_SHADER_CACHE_DISABLE"@, "false"@),
        ("MESA_SHADER_CACHE_MAX_SIZE"@, "4G"@),
    ]
}

/// The variables the launcher is started with. A preload of mimalloc is not
/// among them: with it the launcher never finishes loading.
pub open spec fn launcher_environment_spec(no_gl_override: Option<&str>) -> Seq<
    (Seq<char>, Seq<char>),
> {
    leading_settings() + (if gl_overrides_disabled(no_gl_override) {
        Seq::empty()
    } else {
        gl_override_settings()
    }) + trailing_settings()
}

/// The variables to start the launcher with, and whether the OpenGL version
/// overrides were left out (which the caller announces).
pub struct LauncherEnvironment {
    /// Name and value of each variable, each name once.
    pub vars: Vec<(String, String)>,
    /// The OpenGL version overrides were left out.
    pub gl_overrides_skipped: bool,
}

/// Appends the setting `name=value` to `vars`.
fn push_setting(vars: &mut Vec<(String, String)>, name: &str, value: &str)
    ensures
        pairs_view(final(vars)@) == pairs_view(old(vars)@).push((name@, value@)),
{
    vars.push((name.to_owned(), value.to_owned()));
    assert(pairs_view(vars@) =~= pairs_view(old(vars)@).push((name@, value@)));
}

/// The environment for the launcher, given the value of
/// `MC_LAUNCHER_LAUNCHER_NO_GL_VERSION_OVERRIDE` (`None` when it is unset).
pub fn launcher_environment(no_gl_override: Option<&str>) -> (res: LauncherEnvironment)
    ensures
        pairs_view(res.vars@) == launcher_environment_spec(no_gl_override),
        res.gl_overrides_skipped == gl_overrides_disabled(no_gl_override),
{
    let skip = match no_gl_override {
        Some(value) => str_eq(value, "true"),
        None => false,
    };
    let mut vars: Vec<(String, String)> = Vec::new();
    push_setting(&mut vars, "vblank_mode", "0");
    push_setting(&mut vars, "__GL_SYNC_TO_VBLANK", "0");
    push_setting(&mut vars, "ALSOFT_DRIVERS", "pipewire");
    push_setting(&mut vars, "LIBGL_DRI2_DISABLE", "true");
    push_setting(&mut vars, "MESA_NO_ERROR", "true");
    let ghost lead = pairs_view(vars@);
    assert(lead =~= leading_settings());
    if !skip {
        push_setting(&mut vars, "MESA_GL_VERSION_OVERRIDE", "4.3");
        push_setting(&mut vars, "MESA_GLES_VERSION_OVERRIDE", "3.2");
        push_setting(&mut vars, "MESA_GLSL_VERSION_OVERRIDE", "430");
        assert(pairs_view(vars@) =~= lead + gl_override_settings());
    } else {
        assert(pairs_view(vars@) =~= lead + Seq::<(Seq<char>, Seq<char>)>::empty());
    }
    let ghost middle = pairs_view(vars@);
    push_setting(&mut vars, "DRI_NO_MSAA", "true");
    push_setting(&mut vars, "MESA_SHADER_CACHE_DISABLE", "false");
    push_setting(&mut vars, "MESA_SHADER_CACHE_MAX_SIZE", "4G");
    assert(pairs_view(vars@) =~= middle + trailing_settings());
    LauncherEnvironment { vars, gl_overrides_skipped: skip }
}

/// No variable is set twice.
pub open spec fn names_distinct(vars: Seq<(Seq<char>, Seq<char>)>) -> bool {
    forall|i: int, j: int| 0 <= i < j < vars.len() ==> #[trigger] vars[i].0 != #[trigger] vars[j].0
}

/// The launcher's environment sets each variable once, and never preloads a
/// library (`LD_PRELOAD` is not among its names).
pub proof fn lemma_environment_well_formed(no_gl_override: Option<&str>)
    ensures
        names_distinct(launcher_environment_spec(no_gl_override)),
        forall|i: int|
            0 <= i < launcher_environment_spec(no_gl_override).len() ==> (
            #[trigger] launcher_environment_spec(no_gl_override)[i]).0 != "LD_PRELOAD"@,
{
    reveal_strlit("vblank_mode");
    reveal_strlit("__GL_SYNC_TO_VBLANK");
    reveal_strlit("ALSOFT_DRIVERS");
    reveal_strlit("LIBGL_DRI2_DISABLE");
    reveal_strlit("MESA_NO_ERROR");
    reveal_strlit("MESA_GL_VERSION_OVERRIDE");
    reveal_strlit("MESA_GLES_VERSION_OVERRIDE");
    reveal_strlit("MESA_GLSL_VERSION_OVERRIDE");
    reveal_strlit("DRI_NO_MSAA");
    reveal_strlit("MESA_SHADER_CACHE_DISABLE");
    reveal_strlit("MESA_SHADER_CACHE_MAX_SIZE");
    reveal_strlit("LD_PRELOAD");
    let vars = launcher_environment_spec(no_gl_override);
    assert forall|i: int, j: int| 0 <= i < j < vars.len() implies #[trigger] vars[i].0
        != #[trigger] vars[j].0 by {
        let a = vars[i].0;
        let b = vars[j].0;
        if a.len() == b.len() {
            if a[0] != b[0] {
            } else if a[7] != b[7] {
            } else {
                assert(a[20] != b[20]);
            }
        }
    }
    assert forall|i: int| 0 <= i < vars.len() implies (#[trigger] vars[i]).0 != "LD_PRELOAD"@ by {
        let a = vars[i].0;
        if a.len() == "LD_PRELOAD"@.len() {
            assert(a[0] != "LD_PRELOAD"@[0]);
        }
    }
}

/// A command that changes the launcher's scheduling priority.
pub struct PriorityCommand {
    /// The program to run.
    pub program: String,
    /// Its arguments.
    pub args: Vec<String>,
    /// How the command is named in the report of its outcome.
    pub label: String,
}

/// The plain-value view of a [`PriorityCommand`].
pub struct PriorityCommandView {
    pub program: Seq<char>,
    pub args: Seq<Seq<char>>,
    pub label: Seq<char>,
}

impl View for PriorityCommand {
    type V = PriorityCommandView;

    open spec fn view(&self) -> PriorityCommandView {
        PriorityCommandView {
            program: self.program@,
            args: self.args@.map_values(|a: String| a@),
            label: self.label@,
        }
    }
}

/// The commands for the launcher with process id `pid`: `renice -n -6 -p PID`
/// (higher CPU priority), then `ionice -c 2 -n 0 -p PID` (best-effort class,
/// highest I/O priority).
pub open spec fn renice_commands_spec(pid: u32) -> Seq<PriorityCommandView> {
    let p = decimal(pid as nat);
    seq![
        PriorityCommandView {
            program: "renice"@,
            args: seq!["-n"@, "-6"@, "-p"@, p],
            label: "renice (-6)"@,
        },
        PriorityCommandView {
            program: "ionice"@,
            args: seq!["-c"@, "2"@, "-n"@, "0"@, "-p"@, p],
            label: "ionice (class 2, prio 0)"@,
        },
    ]
}

/// The commands that raise the priority of the launcher with process id
/// `pid`, in the order they are run.
pub fn renice_commands(pid: u32) -> (res: Vec<PriorityCommand>)
    ensures
        res@.map_values(|c: PriorityCommand| c@) == renice_commands_spec(pid),
{
    let mut renice_args: Vec<String> = Vec::new();
    renice_args.push("-n".to_owned());
    renice_args.push("-6".to_owned());
    renice_args.push("-p".to_owned());
    renice_args.push(decimal_string(pid));
    let mut ionice_args: Vec<String> = Vec::new();
    ionice_args.push("-c".to_owned());
    ionice_args.push("2".to_owned());
    ionice_args.push("-n".to_owned());
    ionice_args.push("0".to_owned());
    ionice_args.push("-p".to_owned());
    ionice_args.push(decimal_string(pid));
    let renice = PriorityCommand {
        program: "renice".to_owned(),
        args: renice_args,
        label: "renice (-6)".to_owned(),
    };
    let ionice = PriorityCommand {
        program: "ionice".to_owned(),
        args: ionice_args,
        label: "ionice (class 2, prio 0)".to_owned(),
    };
    assert(renice@.args =~= seq!["-n"@, "-6"@, "-p"@, decimal(pid as nat)]);
    assert(ionice@.args =~= seq!["-c"@, "2"@, "-n"@, "0"@, "-p"@, decimal(pid as nat)]);
    let mut res: Vec<PriorityCommand> = Vec::new();
    res.push(renice);
    res.push(ionice);
    assert(res@.map_values(|c: PriorityCommand| c@) =~= renice_commands_spec(pid));
    res
}

} // verus!
