//! Recognising the launcher's processes, and the game's, in a snapshot of
//! the running processes.

use vstd::prelude::*;
use crate::text::{contains_spec, str_contains, str_eq};

verus! {

/// What the process table says of one process, as plain values.
pub struct ProcessInfo {
    /// Process id.
    pub pid: u32,
    /// Process name, as the kernel keeps it (at most 15 bytes on Linux).
    pub name: String,
    /// Parent's process id, if known.
    pub parent: Option<u32>,
    /// Effective user id, if known.
    pub effective_uid: Option<u32>,
    /// Command line, one element per argument.
    pub cmd: Vec<String>,
}

/// A launcher process that was found, as the caller reports and stops it.
pub struct LauncherProcess {
    /// Process id.
    pub pid: u32,
    /// Process name.
    pub name: String,
    /// Whether it was found as the launcher's user-interface helper, which
    /// runs under the name `exe`, rather than by the launcher's own name.
    pub stealth: bool,
}

/// The plain-value view of a [`LauncherProcess`].
pub struct LauncherProcessView {
    pub pid: u32,
    pub name: Seq<char>,
    pub stealth: bool,
}

impl View for LauncherProcess {
    type V = LauncherProcessView;

    open spec fn view(&self) -> LauncherProcessView {
        LauncherProcessView { pid: self.pid, name: self.name@, stealth: self.stealth }
    }
}

/// The launcher's process name, cut to the 15 bytes that Linux keeps.
pub const LAUNCHER_PROCESS_NAME: &'static str = "minecraft-launc";

/// The name under which the launcher's user-interface helper runs.
pub const STEALTH_PROCESS_NAME: &'static str = "exe";

/// The argument that marks the launcher's user-interface helper.
pub const STEALTH_MARKER: &'static str = "--launcherui";

/// Text in the command line of this program itself, which must never be
/// taken for the launcher.
pub const SELF_MARKER: &'static str = "minecraft-launcher-launcher";

/// The name of the game's runtime.
pub const GAME_PROCESS_NAME: &'static str = "java";

/// The argument with which the launcher starts the game.
pub const GAME_MARKER: &'static str = "-Dminecraft.launcher.brand=minecraft-launcher";

/// Some argument of the command line `cmd` contains `needle`.
pub open spec fn cmd_mentions(cmd: Seq<String>, needle: Seq<char>) -> bool {
    exists|i: int| 0 <= i < cmd.len() && contains_spec(#[trigger] cmd[i]@, needle)
}

/// Whether some argument of `cmd` contains `needle`.
pub fn cmd_mentions_exec(cmd: &Vec<String>, needle: &str) -> (res: bool)
    ensures
        res == cmd_mentions(cmd@, needle@),
{
    let mut i: usize = 0;
    while i < cmd.len()
        invariant
            i <= cmd.len(),
            forall|k: int| 0 <= k < i ==> !contains_spec(#[trigger] cmd@[k]@, needle@),
        decreases cmd.len() - i,
    {
        if str_contains(cmd[i].as_str(), needle) {
            return true;
        }
        i = i + 1;
    }
    false
}

/// `p` is neither this program (`self_pid`), nor, when `check_parent` holds,
/// a child of it, and it runs under a known user that is not root.
pub open spec fn is_foreign_user_process(p: ProcessInfo, self_pid: u32, check_parent: bool) -> bool {
    &&& p.pid != self_pid
    &&& (!check_parent || p.parent != Some(self_pid))
    &&& p.effective_uid matches Some(uid) && uid != 0
}

/// `p` is a launcher process found by name: its name contains the
/// launcher's process name, it is a foreign user process, and its command
/// line does not show it to be this program.
pub open spec fn is_named_launcher(p: ProcessInfo, self_pid: u32, check_parent: bool) -> bool {
    &&& contains_spec(p.name@, LAUNCHER_PROCESS_NAME@)
    &&& is_foreign_user_process(p, self_pid, check_parent)
    &&& !cmd_mentions(p.cmd@, SELF_MARKER@)
}

/// `p` is the launcher's user-interface helper: it is named `exe`, it is a
/// foreign user process, its command line has `--launcherui`, and it does
/// not show it to be this program.
pub open spec fn is_stealth_launcher(p: ProcessInfo, self_pid: u32, check_parent: bool) -> bool {
    &&& p.name@ == STEALTH_PROCESS_NAME@
    &&& is_foreign_user_process(p, self_pid, check_parent)
    &&& cmd_mentions(p.cmd@, STEALTH_MARKER@)
    &&& !cmd_mentions(p.cmd@, SELF_MARKER@)
}

/// The report of a found process.
pub open spec fn found_view(p: ProcessInfo, stealth: bool) -> LauncherProcessView {
    LauncherProcessView { pid: p.pid, name: p.name@, stealth }
}

/// The launcher processes found by name, in snapshot order.
pub open spec fn named_launchers(procs: Seq<ProcessInfo>, self_pid: u32, check_parent: bool) -> Seq<
    LauncherProcessView,
> {
    procs.filter_map(
        |p: ProcessInfo|
            if is_named_launcher(p, self_pid, check_parent) {
                Some(found_view(p, false))
            } else {
                None
            },
    )
}

/// The launcher's user-interface helpers, in snapshot order.
pub open spec fn stealth_launchers(procs: Seq<ProcessInfo>, self_pid: u32, check_parent: bool) -> Seq<
    LauncherProcessView,
> {
    procs.filter_map(
        |p: ProcessInfo|
            if is_stealth_launcher(p, self_pid, check_parent) {
                Some(found_view(p, true))
            } else {
                None
            },
    )
}

/// All launcher processes of a snapshot: those found by name, then the
/// user-interface helpers.
pub open spec fn launcher_processes(procs: Seq<ProcessInfo>, self_pid: u32, check_parent: bool) -> Seq<
    LauncherProcessView,
> {
    named_launchers(procs, self_pid, check_parent) + stealth_launchers(procs, self_pid, check_parent)
}

/// Whether `p` is a foreign user process.
fn is_foreign_user_process_exec(p: &ProcessInfo, self_pid: u32, check_parent: bool) -> (res: bool)
    ensures
        res == is_foreign_user_process(*p, self_pid, check_parent),
{
    let parent_is_self = match p.parent {
        Some(parent) => parent == self_pid,
        None => false,
    };
    let foreign_user = match p.effective_uid {
        Some(uid) => uid != 0,
        None => false,
    };
    p.pid != self_pid && (!check_parent || !parent_is_self) && foreign_user
}

/// Whether `p` is a launcher process found by name.
pub fn is_named_launcher_exec(p: &ProcessInfo, self_pid: u32, check_parent: bool) -> (res: bool)
    ensures
        res == is_named_launcher(*p, self_pid, check_parent),
{
    str_contains(p.name.as_str(), LAUNCHER_PROCESS_NAME) && is_foreign_user_process_exec(
        p,
        self_pid,
        check_parent,
    ) && !cmd_mentions_exec(&p.cmd, SELF_MARKER)
}

/// Whether `p` is the launcher's user-interface helper.
pub fn is_stealth_launcher_exec(p: &ProcessInfo, self_pid: u32, check_parent: bool) -> (res: bool)
    ensures
        res == is_stealth_launcher(*p, self_pid, check_parent),
{
    str_eq(p.name.as_str(), STEALTH_PROCESS_NAME) && is_foreign_user_process_exec(
        p,
        self_pid,
        check_parent,
    ) && cmd_mentions_exec(&p.cmd, STEALTH_MARKER) && !cmd_mentions_exec(&p.cmd, SELF_MARKER)
}

/// Finds the launcher's processes in the snapshot `procs` (in the order the
/// process table lists them), leaving out this program (`self_pid`) and,
/// when `check_parent` holds, its children: first the processes whose name
/// contains `minecraft-launc`, then the user-interface helpers named `exe`
/// that were started with `--launcherui`; processes of root, of an unknown
/// user, or whose command line names `minecraft-launcher-launcher` are left
/// out.
pub fn find_launcher_processes(procs: &Vec<ProcessInfo>, self_pid: u32, check_parent: bool) -> (found:
    Vec<LauncherProcess>)
    ensures
        found@.map_values(|f: LauncherProcess| f@) == launcher_processes(
            procs@,
            self_pid,
            check_parent,
        ),
{
    let mut found: Vec<LauncherProcess> = Vec::new();
    let n = procs.len();
    let mut i: usize = 0;
    while i < n
        invariant
            n == procs.len(),
            i <= n,
            found@.map_values(|f: LauncherProcess| f@) == named_launchers(
                procs@.take(i as int),
                self_pid,
                check_parent,
            ),
        decreases n - i,
    {
        let p = &procs[i];
        assert(procs@.take(i + 1).drop_last() =~= procs@.take(i as int));
        if is_named_launcher_exec(p, self_pid, check_parent) {
            found.push(LauncherProcess { pid: p.pid, name: p.name.clone(), stealth: false });
        }
        assert(found@.map_values(|f: LauncherProcess| f@) =~= named_launchers(
            procs@.take(i + 1),
            self_pid,
            check_parent,
        ));
        i = i + 1;
    }
    assert(procs@.take(n as int) =~= procs@);
    let ghost named = named_launchers(procs@, self_pid, check_parent);
    let mut j: usize = 0;
    while j < n
        invariant
            n == procs.len(),
            j <= n,
            named == named_launchers(procs@, self_pid, check_parent),
            found@.map_values(|f: LauncherProcess| f@) == named + stealth_launchers(
                procs@.take(j as int),
                self_pid,
                check_parent,
            ),
        decreases n - j,
    {
        let p = &procs[j];
        assert(procs@.take(j + 1).drop_last() =~= procs@.take(j as int));
        let ghost before = found@.map_values(|f: LauncherProcess| f@);
        let ghost prev = stealth_launchers(procs@.take(j as int), self_pid, check_parent);
        if is_stealth_launcher_exec(p, self_pid, check_parent) {
            found.push(LauncherProcess { pid: p.pid, name: p.name.clone(), stealth: true });
            assert(found@.map_values(|f: LauncherProcess| f@) =~= before.push(
                found_view(procs@[j as int], true),
            ));
            assert(stealth_launchers(procs@.take(j + 1), self_pid, check_parent) == prev + seq![
                found_view(procs@[j as int], true),
            ]);
            assert(named + (prev + seq![found_view(procs@[j as int], true)]) =~= (named + prev)
                + seq![found_view(procs@[j as int], true)]);
        } else {
            assert(stealth_launchers(procs@.take(j + 1), self_pid, check_parent) == prev);
        }
        assert(found@.map_values(|f: LauncherProcess| f@) =~= named + stealth_launchers(
            procs@.take(j + 1),
            self_pid,
            check_parent,
        ));
        j = j + 1;
    }
    assert(procs@.take(n as int) =~= procs@);
    found
}

/// `p` is the game: the runtime named `java`, started by the launcher (its
/// command line carries the launcher's brand).
pub open spec fn is_game_process(p: ProcessInfo) -> bool {
    &&& p.name@ == GAME_PROCESS_NAME@
    &&& cmd_mentions(p.cmd@, GAME_MARKER@)
}

/// Whether `p` is the game started by the launcher.
pub fn is_game_process_exec(p: &ProcessInfo) -> (res: bool)
    ensures
        res == is_game_process(*p),
{
    str_eq(p.name.as_str(), GAME_PROCESS_NAME) && cmd_mentions_exec(&p.cmd, GAME_MARKER)
}

/// The process id to signal for the launcher process `pid`: the same
/// number as a signed id, or `None` when it does not fit one (such a process
/// is left alone).
pub open spec fn signal_target_spec(pid: u32) -> Option<i32> {
    if pid <= i32::MAX {
        Some(pid as i32)
    } else {
        None
    }
}

/// The signed process id to send the stop signal to, for the launcher
/// process `pid` (`i32::try_from`).
pub fn signal_target(pid: u32) -> (res: Option<i32>)
    ensures
        res == signal_target_spec(pid),
{
    if pid <= 0x7fff_ffff {
        Some(pid as i32)
    } else {
        None
    }
}

/// `f` reports a process of `procs` that is a foreign user process and whose
/// command line does not show it to be this program.
pub open spec fn reports_foreign_process(
    f: LauncherProcessView,
    procs: Seq<ProcessInfo>,
    self_pid: u32,
    check_parent: bool,
) -> bool {
    exists|p: ProcessInfo|
        #![trigger procs.contains(p)]
        procs.contains(p) && is_foreign_user_process(p, self_pid, check_parent) && !cmd_mentions(
            p.cmd@,
            SELF_MARKER@,
        ) && found_view(p, f.stealth) == f
}

/// Every report in `found` is of a foreign process of `procs`.
pub open spec fn all_foreign(
    found: Seq<LauncherProcessView>,
    procs: Seq<ProcessInfo>,
    self_pid: u32,
    check_parent: bool,
) -> bool {
    forall|i: int|
        0 <= i < found.len() ==> reports_foreign_process(
            #[trigger] found[i],
            procs,
            self_pid,
            check_parent,
        )
}

/// What is reported of a prefix of the snapshot is a report of the whole.
proof fn lemma_foreign_in_longer(
    f: LauncherProcessView,
    procs: Seq<ProcessInfo>,
    self_pid: u32,
    check_parent: bool,
)
    requires
        procs.len() > 0,
        reports_foreign_process(f, procs.drop_last(), self_pid, check_parent),
    ensures
        reports_foreign_process(f, procs, self_pid, check_parent),
{
    let p = choose|p: ProcessInfo|
        #![trigger procs.drop_last().contains(p)]
        procs.drop_last().contains(p) && is_foreign_user_process(p, self_pid, check_parent)
            && !cmd_mentions(p.cmd@, SELF_MARKER@) && found_view(p, f.stealth) == f;
    let k = choose|k: int| 0 <= k < procs.drop_last().len() && procs.drop_last()[k] == p;
    assert(procs[k] == p);
    assert(procs.contains(p));
}

/// The launchers found by name are foreign processes of the snapshot.
proof fn lemma_named_foreign(procs: Seq<ProcessInfo>, self_pid: u32, check_parent: bool)
    ensures
        all_foreign(named_launchers(procs, self_pid, check_parent), procs, self_pid, check_parent),
    decreases procs.len(),
{
    if procs.len() > 0 {
        let rest = procs.drop_last();
        lemma_named_foreign(rest, self_pid, check_parent);
        let found = named_launchers(procs, self_pid, check_parent);
        let before = named_launchers(rest, self_pid, check_parent);
        assert forall|i: int| 0 <= i < found.len() implies reports_foreign_process(
            #[trigger] found[i],
            procs,
            self_pid,
            check_parent,
        ) by {
            if i < before.len() {
                assert(found[i] == before[i]);
                lemma_foreign_in_longer(found[i], procs, self_pid, check_parent);
            } else {
                let p = procs.last();
                assert(procs[procs.len() - 1] == p);
                assert(procs.contains(p));
            }
        }
    }
}

/// The user-interface helpers found are foreign processes of the snapshot.
proof fn lemma_stealth_foreign(procs: Seq<ProcessInfo>, self_pid: u32, check_parent: bool)
    ensures
        all_foreign(stealth_launchers(procs, self_pid, check_parent), procs, self_pid, check_parent),
    decreases procs.len(),
{
    if procs.len() > 0 {
        let rest = procs.drop_last();
        lemma_stealth_foreign(rest, self_pid, check_parent);
        let found = stealth_launchers(procs, self_pid, check_parent);
        let before = stealth_launchers(rest, self_pid, check_parent);
        assert forall|i: int| 0 <= i < found.len() implies reports_foreign_process(
            #[trigger] found[i],
            procs,
            self_pid,
            check_parent,
        ) by {
            if i < before.len() {
                assert(found[i] == before[i]);
                lemma_foreign_in_longer(found[i], procs, self_pid, check_parent);
            } else {
                let p = procs.last();
                assert(procs[procs.len() - 1] == p);
                assert(procs.contains(p));
            }
        }
    }
}

/// The launcher closer never turns on this program or on root: every process
/// it finds is a process of the snapshot other than this program (and, when
/// `check_parent` holds, not a child of it), run by a known user other than
/// root, whose command line does not name this program.
pub proof fn lemma_never_targets_self_or_root(procs: Seq<ProcessInfo>, self_pid: u32, check_parent: bool)
    ensures
        all_foreign(launcher_processes(procs, self_pid, check_parent), procs, self_pid, check_parent),
        forall|i: int|
            0 <= i < launcher_processes(procs, self_pid, check_parent).len() ==> (#[trigger] launcher_processes(
                procs,
                self_pid,
                check_parent,
            )[i]).pid != self_pid,
{
    lemma_named_foreign(procs, self_pid, check_parent);
    lemma_stealth_foreign(procs, self_pid, check_parent);
    let named = named_launchers(procs, self_pid, check_parent);
    let stealth = stealth_launchers(procs, self_pid, check_parent);
    let all = launcher_processes(procs, self_pid, check_parent);
    assert forall|i: int| 0 <= i < all.len() implies reports_foreign_process(
        #[trigger] all[i],
        procs,
        self_pid,
        check_parent,
    ) by {
        if i < named.len() {
            assert(all[i] == named[i]);
        } else {
            assert(all[i] == stealth[i - named.len()]);
        }
    }
    assert forall|i: int| 0 <= i < all.len() implies (#[trigger] all[i]).pid != self_pid by {
        assert(reports_foreign_process(all[i], procs, self_pid, check_parent));
    }
}

/// `f` reports a process of `procs` that is a launcher by name.
pub open spec fn from_named_launcher(f: LauncherProcessView, procs: Seq<ProcessInfo>, self_pid: u32, check_parent: bool) -> bool {
    exists|p: ProcessInfo|
        #![trigger procs.contains(p)]
        procs.contains(p) && is_named_launcher(p, self_pid, check_parent) && found_view(p, false) == f
}

/// `f` reports a process of `procs` that is a user-interface helper.
pub open spec fn from_stealth_launcher(f: LauncherProcessView, procs: Seq<ProcessInfo>, self_pid: u32, check_parent: bool) -> bool {
    exists|p: ProcessInfo|
        #![trigger procs.contains(p)]
        procs.contains(p) && is_stealth_launcher(p, self_pid, check_parent) && found_view(p, true) == f
}

/// A report of a prefix of the snapshot reports the same process of the
/// whole.
proof fn lemma_from_launcher_in_longer(f: LauncherProcessView, procs: Seq<ProcessInfo>, self_pid: u32, check_parent: bool)
    requires
        procs.len() > 0,
    ensures
        from_named_launcher(f, procs.drop_last(), self_pid, check_parent) ==> from_named_launcher(f, procs, self_pid, check_parent),
        from_stealth_launcher(f, procs.drop_last(), self_pid, check_parent) ==> from_stealth_launcher(f, procs, self_pid, check_parent),
{
    let rest = procs.drop_last();
    if from_named_launcher(f, rest, self_pid, check_parent) {
        let p = choose|p: ProcessInfo|
            #![trigger rest.contains(p)]
            rest.contains(p) && is_named_launcher(p, self_pid, check_parent) && found_view(p, false) == f;
        let k = choose|k: int| 0 <= k < rest.len() && rest[k] == p;
        assert(procs[k] == p);
        assert(procs.contains(p));
    }
    if from_stealth_launcher(f, rest, self_pid, check_parent) {
        let p = choose|p: ProcessInfo|
            #![trigger rest.contains(p)]
            rest.contains(p) && is_stealth_launcher(p, self_pid, check_parent) && found_view(p, true) == f;
        let k = choose|k: int| 0 <= k < rest.len() && rest[k] == p;
        assert(procs[k] == p);
        assert(procs.contains(p));
    }
}

/// Each process found by name comes from a process of the snapshot that is
/// a launcher by name.
proof fn lemma_named_from_snapshot(procs: Seq<ProcessInfo>, self_pid: u32, check_parent: bool)
    ensures
        forall|i: int|
            0 <= i < named_launchers(procs, self_pid, check_parent).len() ==> from_named_launcher(
                #[trigger] named_launchers(procs, self_pid, check_parent)[i],
                procs,
                self_pid,
                check_parent,
            ),
    decreases procs.len(),
{
    if procs.len() > 0 {
        let rest = procs.drop_last();
        lemma_named_from_snapshot(rest, self_pid, check_parent);
        let found = named_launchers(procs, self_pid, check_parent);
        let before = named_launchers(rest, self_pid, check_parent);
        if is_named_launcher(procs.last(), self_pid, check_parent) {
            assert(found == before + seq![found_view(procs.last(), false)]);
        } else {
            assert(found == before);
        }
        assert forall|i: int| 0 <= i < found.len() implies from_named_launcher(
            #[trigger] found[i],
            procs,
            self_pid,
            check_parent,
        ) by {
            lemma_from_launcher_in_longer(found[i], procs, self_pid, check_parent);
            if i < before.len() {
                assert(found[i] == before[i]);
            } else {
                let p = procs.last();
                assert(procs[procs.len() - 1] == p);
                assert(procs.contains(p));
            }
        }
    }
}

/// Each helper found comes from a process of the snapshot that is a helper.
proof fn lemma_stealth_from_snapshot(procs: Seq<ProcessInfo>, self_pid: u32, check_parent: bool)
    ensures
        forall|i: int|
            0 <= i < stealth_launchers(procs, self_pid, check_parent).len() ==> from_stealth_launcher(
                #[trigger] stealth_launchers(procs, self_pid, check_parent)[i],
                procs,
                self_pid,
                check_parent,
            ),
    decreases procs.len(),
{
    if procs.len() > 0 {
        let rest = procs.drop_last();
        lemma_stealth_from_snapshot(rest, self_pid, check_parent);
        let found = stealth_launchers(procs, self_pid, check_parent);
        let before = stealth_launchers(rest, self_pid, check_parent);
        if is_stealth_launcher(procs.last(), self_pid, check_parent) {
            assert(found == before + seq![found_view(procs.last(), true)]);
        } else {
            assert(found == before);
        }
        assert forall|i: int| 0 <= i < found.len() implies from_stealth_launcher(
            #[trigger] found[i],
            procs,
            self_pid,
            check_parent,
        ) by {
            lemma_from_launcher_in_longer(found[i], procs, self_pid, check_parent);
            if i < before.len() {
                assert(found[i] == before[i]);
            } else {
                let p = procs.last();
                assert(procs[procs.len() - 1] == p);
                assert(procs.contains(p));
            }
        }
    }
}

/// The game's runtime name holds no launcher name: `java` is shorter than
/// `minecraft-launc`, and is not `exe`.
proof fn lemma_game_name_is_no_launcher_name()
    ensures
        !contains_spec(GAME_PROCESS_NAME@, LAUNCHER_PROCESS_NAME@),
        GAME_PROCESS_NAME@ != STEALTH_PROCESS_NAME@,
{
    reveal_strlit("java");
    reveal_strlit("minecraft-launc");
    reveal_strlit("exe");
    assert(GAME_PROCESS_NAME@.len() == 4);
    assert(LAUNCHER_PROCESS_NAME@.len() == 15);
    assert(STEALTH_PROCESS_NAME@.len() == 3);
}

/// Only launcher processes are reported, by their names: a process reported
/// as found by name has a name in which `minecraft-launc` occurs; one
/// reported as the user-interface helper is named `exe` and has an argument
/// in which `--launcherui` occurs; every report gives the id and name of a
/// process of the snapshot. So the game, named `java`, is never reported,
/// even when the launcher started it.
pub proof fn lemma_reports_only_launchers(procs: Seq<ProcessInfo>, self_pid: u32, check_parent: bool)
    ensures
        forall|i: int|
            #![trigger launcher_processes(procs, self_pid, check_parent)[i]]
            0 <= i < launcher_processes(procs, self_pid, check_parent).len() ==> {
                let f = launcher_processes(procs, self_pid, check_parent)[i];
                &&& !f.stealth ==> contains_spec(f.name, LAUNCHER_PROCESS_NAME@)
                &&& f.stealth ==> f.name == STEALTH_PROCESS_NAME@
                &&& f.name != GAME_PROCESS_NAME@
                &&& exists|k: int|
                    0 <= k < procs.len() && (#[trigger] procs[k]).pid == f.pid && procs[k].name@ == f.name
                        && (f.stealth ==> exists|a: int|
                        0 <= a < procs[k].cmd.len() && contains_spec(
                            #[trigger] procs[k].cmd[a]@,
                            STEALTH_MARKER@,
                        ))
            },
{
    lemma_named_from_snapshot(procs, self_pid, check_parent);
    lemma_stealth_from_snapshot(procs, self_pid, check_parent);
    lemma_game_name_is_no_launcher_name();
    let named = named_launchers(procs, self_pid, check_parent);
    let stealth = stealth_launchers(procs, self_pid, check_parent);
    let all = launcher_processes(procs, self_pid, check_parent);
    assert forall|i: int| 0 <= i < all.len() implies {
        let f = #[trigger] all[i];
        &&& !f.stealth ==> contains_spec(f.name, LAUNCHER_PROCESS_NAME@)
        &&& f.stealth ==> f.name == STEALTH_PROCESS_NAME@
        &&& f.name != GAME_PROCESS_NAME@
        &&& exists|k: int|
            0 <= k < procs.len() && (#[trigger] procs[k]).pid == f.pid && procs[k].name@ == f.name && (
            f.stealth ==> exists|a: int|
                0 <= a < procs[k].cmd.len() && contains_spec(#[trigger] procs[k].cmd[a]@, STEALTH_MARKER@))
    } by {
        if i < named.len() {
            assert(all[i] == named[i]);
            let p = choose|p: ProcessInfo|
                #![trigger procs.contains(p)]
                procs.contains(p) && is_named_launcher(p, self_pid, check_parent) && found_view(p, false)
                    == named[i];
            let k = choose|k: int| 0 <= k < procs.len() && procs[k] == p;
            assert(procs[k].pid == all[i].pid);
        } else {
            assert(all[i] == stealth[i - named.len()]);
            let p = choose|p: ProcessInfo|
                #![trigger procs.contains(p)]
                procs.contains(p) && is_stealth_launcher(p, self_pid, check_parent) && found_view(p, true)
                    == stealth[i - named.len()];
            let k = choose|k: int| 0 <= k < procs.len() && procs[k] == p;
            assert(procs[k].pid == all[i].pid);
            let a = choose|a: int| 0 <= a < p.cmd@.len() && contains_spec(#[trigger] p.cmd@[a]@, STEALTH_MARKER@);
            assert(procs[k].cmd[a]@ == p.cmd@[a]@);
        }
    }
}

/// What is in the snapshot before a position stays reported as it grows.
proof fn lemma_named_contains(procs: Seq<ProcessInfo>, self_pid: u32, check_parent: bool, k: int)
    requires
        0 <= k < procs.len(),
        is_named_launcher(procs[k], self_pid, check_parent),
    ensures
        named_launchers(procs, self_pid, check_parent).contains(found_view(procs[k], false)),
    decreases procs.len(),
{
    let rest = procs.drop_last();
    let before = named_launchers(rest, self_pid, check_parent);
    let found = named_launchers(procs, self_pid, check_parent);
    if k == procs.len() - 1 {
        assert(found == before + seq![found_view(procs[k], false)]);
        assert(found[found.len() - 1] == found_view(procs[k], false));
    } else {
        assert(rest[k] == procs[k]);
        lemma_named_contains(rest, self_pid, check_parent, k);
        let j = choose|j: int| 0 <= j < before.len() && before[j] == found_view(procs[k], false);
        if is_named_launcher(procs.last(), self_pid, check_parent) {
            assert(found == before + seq![found_view(procs.last(), false)]);
        } else {
            assert(found == before);
        }
        assert(found[j] == before[j]);
    }
}

/// Every launcher of the user is found: a process of the snapshot whose name
/// contains `minecraft-launc`, that is not this program (nor, when
/// `check_parent` holds, a child of it), that runs under a known user other
/// than root, and none of whose arguments contains
/// `minecraft-launcher-launcher`, is reported, by its id and name, as found
/// by name.
pub proof fn lemma_finds_every_launcher(procs: Seq<ProcessInfo>, self_pid: u32, check_parent: bool, k: int)
    requires
        0 <= k < procs.len(),
        contains_spec(procs[k].name@, LAUNCHER_PROCESS_NAME@),
        procs[k].pid != self_pid,
        check_parent ==> procs[k].parent != Some(self_pid),
        procs[k].effective_uid matches Some(uid) && uid != 0,
        forall|a: int| 0 <= a < procs[k].cmd.len() ==> !contains_spec(#[trigger] procs[k].cmd[a]@, SELF_MARKER@),
    ensures
        launcher_processes(procs, self_pid, check_parent).contains(
            LauncherProcessView { pid: procs[k].pid, name: procs[k].name@, stealth: false },
        ),
{
    assert(!cmd_mentions(procs[k].cmd@, SELF_MARKER@)) by {
        if cmd_mentions(procs[k].cmd@, SELF_MARKER@) {
            let a = choose|a: int| 0 <= a < procs[k].cmd@.len() && contains_spec(#[trigger] procs[k].cmd@[a]@, SELF_MARKER@);
            assert(procs[k].cmd[a]@ == procs[k].cmd@[a]@);
        }
    }
    lemma_named_contains(procs, self_pid, check_parent, k);
    let named = named_launchers(procs, self_pid, check_parent);
    let all = launcher_processes(procs, self_pid, check_parent);
    let j = choose|j: int| 0 <= j < named.len() && named[j] == found_view(procs[k], false);
    assert(all[j] == named[j]);
}

} // verus!
