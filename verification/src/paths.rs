//! File-system paths: joining text paths as `Path::join` does, file names,
//! and the places of the launcher's files under the game directory (held as
//! `PathBuf`, since a home directory or an executable's path need not be
//! valid UTF-8).

use std::path::PathBuf;
use vstd::prelude::*;
use vstd::string::StringSliceAdditionalSpecFns;
use vstd::utf8::{encode_scalar, encode_utf8, has_width_1_encoding, leading_byte_width_1};
use crate::text::{chars_of, string_from_chars};

verus! {

/// The view of an optional string.
pub open spec fn opt_view(s: Option<String>) -> Option<Seq<char>> {
    match s {
        Some(t) => Some(t@),
        None => None,
    }
}

/// `base` joined with `path` as `Path::join` does on Unix: an absolute `path`
/// (one that starts with `/`) replaces `base`; otherwise `path` is appended,
/// with a `/` in between unless `base` is empty or already ends in `/`.
pub open spec fn join_spec(base: Seq<char>, path: Seq<char>) -> Seq<char> {
    if path.len() > 0 && path[0] == '/' {
        path
    } else if base.len() > 0 && base.last() != '/' {
        base + seq!['/'] + path
    } else {
        base + path
    }
}

/// `base` joined with `path` (`Path::join`).
pub fn join(base: &str, path: &str) -> (res: String)
    ensures
        res@ == join_spec(base@, path@),
{
    let b = chars_of(base);
    let p = chars_of(path);
    if p.len() > 0 && p[0] == '/' {
        return string_from_chars(&p);
    }
    let mut out = b.clone();
    if b.len() > 0 && b[b.len() - 1] != '/' {
        out.push('/');
    }
    let ghost prefix = out@;
    let mut i: usize = 0;
    while i < p.len()
        invariant
            i <= p.len(),
            out@ == prefix + p@.take(i as int),
        decreases p.len() - i,
    {
        out.push(p[i]);
        assert(out@ =~= prefix + p@.take(i + 1));
        i = i + 1;
    }
    assert(p@.take(p.len() as int) =~= p@);
    assert(out@ =~= join_spec(base@, path@));
    string_from_chars(&out)
}

// ---------------------------------------------------------------------------
// Paths under the home directory, which need not be valid UTF-8: held as
// `PathBuf`, whose bytes the contracts speak of.

#[verifier::external_type_specification]
#[verifier::external_body]
pub struct ExPathBuf(std::path::PathBuf);

/// The bytes of a path (its `OsStr` bytes on Unix).
pub uninterp spec fn path_bytes(path: PathBuf) -> Seq<u8>;

/// The bytes of an optional path.
pub open spec fn opt_bytes(path: Option<PathBuf>) -> Option<Seq<u8>> {
    match path {
        Some(p) => Some(path_bytes(p)),
        None => None,
    }
}

/// The separator byte `/`.
pub open spec fn separator() -> u8 {
    47u8
}

/// `base` joined with `path`, as bytes, as `Path::join` does on Unix: an
/// absolute `path` replaces `base`; otherwise `path` is appended, with a `/`
/// in between unless `base` is empty or already ends in `/`.
pub open spec fn join_bytes(base: Seq<u8>, path: Seq<u8>) -> Seq<u8> {
    if path.len() > 0 && path[0] == separator() {
        path
    } else if base.len() > 0 && base.last() != separator() {
        base + seq![separator()] + path
    } else {
        base + path
    }
}

/// `name` is a plain path component: not empty, without `/`, and neither
/// `.` nor `..`.
pub open spec fn is_plain_component(name: Seq<u8>) -> bool {
    &&& name.len() > 0
    &&& forall|i: int| 0 <= i < name.len() ==> name[i] != separator()
    &&& name != seq![46u8]
    &&& name != seq![46u8, 46u8]
}

/// `dir` is a directory path whose text ends in a plain way: not empty and
/// not ending in `/` or `.` (so no trailing separator or `.` component is
/// trimmed from it).
pub open spec fn is_plain_dir(dir: Seq<u8>) -> bool {
    dir.len() > 0 && dir.last() != separator() && dir.last() != 46u8
}

/// What `Path::parent` gives for a path with the bytes `path`: the path
/// without its final component, or `None` when it ends in a root or is
/// empty.
pub uninterp spec fn path_parent_bytes(path: Seq<u8>) -> Option<Seq<u8>>;

/// `name` is a plain file name: not empty, without `/`, and neither `.` nor
/// `..`.
pub open spec fn is_plain_name(name: Seq<char>) -> bool {
    &&& name.len() > 0
    &&& forall|i: int| 0 <= i < name.len() ==> name[i] != '/'
    &&& name != seq!['.']
    &&& name != seq!['.', '.']
}

/// `path` ends in the plain file name `name`: it is `name` itself, or some
/// text, a `/` and `name`.
pub open spec fn ends_in_plain_name(path: Seq<char>, name: Seq<char>) -> bool {
    &&& is_plain_name(name)
    &&& (path == name || exists|dir: Seq<char>| path == dir + seq!['/'] + name)
}

/// What `Path::file_name` gives for a path with the bytes `path`, turned
/// into text with `to_string_lossy`: the final component, unless the path
/// ends in `..`, is a root, or is empty.
pub uninterp spec fn path_file_name(path: Seq<u8>) -> Option<Seq<char>>;

/// `Path::file_name` on `path`, turned into text with `to_string_lossy`
/// (bytes that are not UTF-8 become U+FFFD). The result is named, not
/// described in general: it is what std's component parsing makes of the
/// bytes. Of a path that is the UTF-8 encoding of a plain file name, or ends
/// in `/` and such an encoding, it is that name, as std documents ("the
/// final component of the Path, if there is one"); a valid UTF-8 name
/// converts unchanged.
#[verifier::external_body]
pub(crate) fn file_name(path: &PathBuf) -> (res: Option<String>)
    ensures
        opt_view(res) == path_file_name(path_bytes(*path)),
        forall|name: Seq<char>|
            #![trigger encode_utf8(name)]
            path_bytes(*path) == encode_utf8(name) && is_plain_name(name) ==> opt_view(res) == Some(
                name,
            ),
        forall|dir: Seq<u8>, name: Seq<char>|
            #![trigger dir + seq![separator()] + encode_utf8(name)]
            path_bytes(*path) == dir + seq![separator()] + encode_utf8(name) && is_plain_name(name)
                ==> opt_view(res) == Some(name),
{
    match path.file_name() {
        Some(name) => Some(name.to_string_lossy().into_owned()),
        None => None,
    }
}

/// `PathBuf::from` on text: the path whose bytes are the text's UTF-8 bytes.
#[verifier::external_body]
pub(crate) fn path_from(text: &str) -> (res: PathBuf)
    ensures
        path_bytes(res) == text.spec_bytes(),
{
    PathBuf::from(text)
}

/// `PathBuf::new`: the empty path.
#[verifier::external_body]
pub(crate) fn empty_path() -> (res: PathBuf)
    ensures
        path_bytes(res) == Seq::<u8>::empty(),
{
    PathBuf::new()
}

/// The UTF-8 encoding of joined text is the joined encodings.
pub proof fn lemma_encode_utf8_concat(a: Seq<char>, b: Seq<char>)
    ensures
        encode_utf8(a + b) == encode_utf8(a) + encode_utf8(b),
    decreases a.len(),
{
    if a.len() == 0 {
        assert(a + b =~= b);
    } else {
        lemma_encode_utf8_concat(a.drop_first(), b);
        assert((a + b).drop_first() =~= a.drop_first() + b);
    }
}

/// The UTF-8 encoding of `/` is the separator byte.
pub proof fn lemma_encode_separator()
    ensures
        encode_utf8(seq!['/']) == seq![separator()],
{
    let slash = seq!['/'];
    assert(slash.drop_first() =~= Seq::<char>::empty());
    assert(slash[0] as u32 == 47u32);
    assert(has_width_1_encoding(47u32) && leading_byte_width_1(47u32) == 47u8) by (bit_vector);
    assert(encode_scalar(47u32) == seq![47u8]);
    assert(encode_utf8(slash) == encode_scalar(47u32) + encode_utf8(Seq::<char>::empty()));
    assert(encode_utf8(slash) =~= seq![separator()]);
}

/// `PathBuf::join`: `base` joined with the relative or absolute `path`, as
/// std documents it for Unix (an absolute path replaces the base; a
/// relative one is appended after a separator, added only if needed).
#[verifier::external_body]
pub(crate) fn path_join(base: &PathBuf, path: &str) -> (res: PathBuf)
    ensures
        path_bytes(res) == join_bytes(path_bytes(*base), path.spec_bytes()),
{
    base.join(path)
}

/// `PathBuf::clone`: the same path.
#[verifier::external_body]
pub(crate) fn path_clone(path: &PathBuf) -> (res: PathBuf)
    ensures
        path_bytes(res) == path_bytes(*path),
{
    path.clone()
}

/// `Path::parent`: the path without its final component. The result is
/// named, not described in general; of a path `dir/name`, where `name` is a
/// plain component and `dir` a directory that ends plainly, it is `dir`, as
/// std documents ("the Path without its final component").
#[verifier::external_body]
pub(crate) fn parent(path: &PathBuf) -> (res: Option<PathBuf>)
    ensures
        opt_bytes(res) == path_parent_bytes(path_bytes(*path)),
        forall|dir: Seq<u8>, name: Seq<u8>|
            #![trigger dir + seq![separator()] + name]
            path_bytes(*path) == dir + seq![separator()] + name && is_plain_dir(dir)
                && is_plain_component(name) ==> opt_bytes(res) == Some(dir),
{
    match path.parent() {
        Some(dir) => Some(dir.to_path_buf()),
        None => None,
    }
}

/// `home::home_dir`: the current user's home directory, when one can be
/// found. It comes from the environment (`HOME`, else the user database), so
/// nothing is promised of it.
#[verifier::external_body]
fn home_dir() -> (res: Option<PathBuf>) {
    home::home_dir()
}

/// The game directory's name under the home directory when the
/// `MC_GAME_FOLDER` variable does not give one.
pub const DEFAULT_GAME_FOLDER: &'static str = ".minecraft";

/// The launcher's settings file, in the game directory.
pub const LAUNCHER_PROFILES_FILE: &'static str = "launcher_profiles.json";

/// The backup of the launcher's settings file, beside it.
pub const LAUNCHER_PROFILES_BACKUP_FILE: &'static str = "launcher_profiles.json.mllbackup";

/// The game directory's name, as bytes: the value of `MC_GAME_FOLDER` when
/// it is set (`game_folder`), else `.minecraft`.
pub open spec fn game_folder_bytes(game_folder: Option<&str>) -> Seq<u8> {
    match game_folder {
        Some(folder) => folder.spec_bytes(),
        None => DEFAULT_GAME_FOLDER.spec_bytes(),
    }
}

/// The game directory for the home directory with the bytes `home`.
pub open spec fn minecraft_dir_spec(home: Seq<u8>, game_folder: Option<&str>) -> Seq<u8> {
    join_bytes(home, game_folder_bytes(game_folder))
}

/// The game directory under `home_path`: the home directory joined with the
/// game directory's name (`game_folder`, the value of `MC_GAME_FOLDER` when it
/// is set, else `.minecraft`).
pub fn get_minecraft_dir_from_home_path(home_path: &PathBuf, game_folder: Option<&str>) -> (res:
    PathBuf)
    ensures
        path_bytes(res) == minecraft_dir_spec(path_bytes(*home_path), game_folder),
{
    match game_folder {
        Some(folder) => path_join(home_path, folder),
        None => path_join(home_path, DEFAULT_GAME_FOLDER),
    }
}

/// The game directory for the home directory `home`, when one was found.
pub open spec fn minecraft_dir_for_home_spec(home: Option<Seq<u8>>, game_folder: Option<&str>) -> Option<Seq<u8>> {
    match home {
        Some(h) => Some(minecraft_dir_spec(h, game_folder)),
        None => None,
    }
}

/// The game directory for the home directory `home`: `None` when no home
/// directory was found, else the game directory under it.
pub fn minecraft_dir_for_home(home: Option<PathBuf>, game_folder: Option<&str>) -> (res: Option<PathBuf>)
    ensures
        opt_bytes(res) == minecraft_dir_for_home_spec(opt_bytes(home), game_folder),
{
    match home {
        Some(h) => Some(get_minecraft_dir_from_home_path(&h, game_folder)),
        None => None,
    }
}

/// The game directory under the current user's home directory, as
/// [`minecraft_dir_for_home`] gives it for the home directory that
/// `home::home_dir` finds (`None` when it finds none).
pub fn get_minecraft_dir(game_folder: Option<&str>) -> (res: Option<PathBuf>)
    ensures
        exists|home: Option<Seq<u8>>|
            opt_bytes(res) == #[trigger] minecraft_dir_for_home_spec(home, game_folder),
{
    let home = home_dir();
    let res = minecraft_dir_for_home(home, game_folder);
    assert(opt_bytes(res) == minecraft_dir_for_home_spec(opt_bytes(home), game_folder));
    res
}

/// The launcher's settings file in the game directory `minecraft_dir`.
pub open spec fn profiles_path_spec(minecraft_dir: Seq<u8>) -> Seq<u8> {
    join_bytes(minecraft_dir, LAUNCHER_PROFILES_FILE.spec_bytes())
}

/// The launcher's settings file in the game directory `minecraft_dir`.
pub fn launcher_profiles_path_in(minecraft_dir: &PathBuf) -> (res: PathBuf)
    ensures
        path_bytes(res) == profiles_path_spec(path_bytes(*minecraft_dir)),
{
    path_join(minecraft_dir, LAUNCHER_PROFILES_FILE)
}

/// The settings file for the home directory `home`, when one was found.
pub open spec fn profiles_path_for_home_spec(home: Option<Seq<u8>>, game_folder: Option<&str>) -> Option<Seq<u8>> {
    match home {
        Some(h) => Some(profiles_path_spec(minecraft_dir_spec(h, game_folder))),
        None => None,
    }
}

/// The settings file for the home directory `home`: `None` when no home
/// directory was found, else the settings file in the game directory under
/// it.
pub fn launcher_profiles_path_for_home(home: Option<PathBuf>, game_folder: Option<&str>) -> (res:
    Option<PathBuf>)
    ensures
        opt_bytes(res) == profiles_path_for_home_spec(opt_bytes(home), game_folder),
{
    match minecraft_dir_for_home(home, game_folder) {
        Some(dir) => Some(launcher_profiles_path_in(&dir)),
        None => None,
    }
}

/// The launcher's settings file in the current user's game directory, as
/// [`launcher_profiles_path_for_home`] gives it for the home directory that
/// `home::home_dir` finds (`None` when it finds none).
pub fn get_launcher_profiles_path(game_folder: Option<&str>) -> (res: Option<PathBuf>)
    ensures
        exists|home: Option<Seq<u8>>|
            opt_bytes(res) == #[trigger] profiles_path_for_home_spec(home, game_folder),
{
    let home = home_dir();
    let res = launcher_profiles_path_for_home(home, game_folder);
    assert(opt_bytes(res) == profiles_path_for_home_spec(opt_bytes(home), game_folder));
    res
}

/// The backup of the settings file at `profiles_path`: the backup file's name
/// joined to the settings file's parent directory.
pub open spec fn backup_path_spec(profiles_path: Seq<u8>) -> Option<Seq<u8>> {
    match path_parent_bytes(profiles_path) {
        Some(dir) => Some(join_bytes(dir, LAUNCHER_PROFILES_BACKUP_FILE.spec_bytes())),
        None => None,
    }
}

/// The backup of the settings file kept in the directory `dir`.
pub fn backup_path_in(dir: &PathBuf) -> (res: PathBuf)
    ensures
        path_bytes(res) == join_bytes(path_bytes(*dir), LAUNCHER_PROFILES_BACKUP_FILE.spec_bytes()),
{
    path_join(dir, LAUNCHER_PROFILES_BACKUP_FILE)
}

/// The settings file's name is a plain component, and so is the backup's.
proof fn lemma_file_names_plain()
    ensures
        is_plain_component(LAUNCHER_PROFILES_FILE.spec_bytes()),
        is_plain_component(LAUNCHER_PROFILES_BACKUP_FILE.spec_bytes()),
{
    broadcast use vstd::string::group_string_axioms;

    reveal_strlit("launcher_profiles.json");
    reveal_strlit("launcher_profiles.json.mllbackup");
    assert(vstd::string::is_ascii(LAUNCHER_PROFILES_FILE));
    assert(vstd::string::is_ascii(LAUNCHER_PROFILES_BACKUP_FILE));
    let b = LAUNCHER_PROFILES_FILE.spec_bytes();
    assert(b.len() == 22);
    assert(forall|i: int| 0 <= i < b.len() ==> b[i] != separator());
    let c = LAUNCHER_PROFILES_BACKUP_FILE.spec_bytes();
    assert(c.len() == 32);
    assert(forall|i: int| 0 <= i < c.len() ==> c[i] != separator());
}

/// The settings file lies directly in the game directory, and its backup
/// beside it: for a game directory `dir` that ends plainly, the settings
/// file's path is `dir`, a separator and `launcher_profiles.json`, a plain
/// component, so that its final component (its file name) is
/// `launcher_profiles.json` and the rest (its parent) is `dir`; the backup's
/// path is `dir`, a separator and `launcher_profiles.json.mllbackup`, also a
/// plain component.
pub proof fn lemma_settings_file_in_game_dir(dir: Seq<u8>)
    requires
        is_plain_dir(dir),
    ensures
        profiles_path_spec(dir) == dir + seq![separator()] + LAUNCHER_PROFILES_FILE.spec_bytes(),
        is_plain_component(LAUNCHER_PROFILES_FILE.spec_bytes()),
        join_bytes(dir, LAUNCHER_PROFILES_BACKUP_FILE.spec_bytes()) == dir + seq![separator()]
            + LAUNCHER_PROFILES_BACKUP_FILE.spec_bytes(),
        is_plain_component(LAUNCHER_PROFILES_BACKUP_FILE.spec_bytes()),
{
    lemma_file_names_plain();
}

/// The default game directory, `.minecraft` under any home directory, ends
/// plainly.
pub proof fn lemma_default_game_dir_ends_plainly(home: Seq<u8>)
    ensures
        is_plain_dir(minecraft_dir_spec(home, None)),
{
    broadcast use vstd::string::group_string_axioms;

    reveal_strlit(".minecraft");
    assert(vstd::string::is_ascii(DEFAULT_GAME_FOLDER));
    let f = DEFAULT_GAME_FOLDER.spec_bytes();
    assert(f.len() == 10);
    assert(f[0] == 46u8);
    assert(f.last() == 116u8);
    let d = minecraft_dir_spec(home, None);
    if home.len() > 0 && home.last() != separator() {
        assert(d == home + seq![separator()] + f);
    } else {
        assert(d == home + f);
    }
    assert(d.last() == f.last());
}

/// The backup of the settings file at `profiles_path`, beside it in the
/// directory that `Path::parent` gives; `None` when that path has no parent
/// directory. For the settings file of a game directory `dir` that ends
/// plainly, that parent is `dir` itself: the backup is
/// `dir/launcher_profiles.json.mllbackup`.
pub fn backup_path_for(profiles_path: &PathBuf) -> (res: Option<PathBuf>)
    ensures
        opt_bytes(res) == backup_path_spec(path_bytes(*profiles_path)),
        forall|dir: Seq<u8>|
            is_plain_dir(dir) && path_bytes(*profiles_path) == #[trigger] profiles_path_spec(dir)
                ==> opt_bytes(res) == Some(
                join_bytes(dir, LAUNCHER_PROFILES_BACKUP_FILE.spec_bytes()),
            ),
{
    let dir = parent(profiles_path);
    proof {
        lemma_file_names_plain();
        assert forall|d: Seq<u8>|
            is_plain_dir(d) && path_bytes(*profiles_path) == #[trigger] profiles_path_spec(
                d,
            ) implies opt_bytes(dir) == Some(d) by {
            assert(profiles_path_spec(d) == d + seq![separator()]
                + LAUNCHER_PROFILES_FILE.spec_bytes());
        }
    }
    match dir {
        Some(dir) => Some(backup_path_in(&dir)),
        None => None,
    }
}

/// The Java check that the launcher runs, in the game directory
/// `minecraft_dir`: `launcher/JavaCheck.jar`.
pub open spec fn javacheck_path_spec(minecraft_dir: Seq<u8>) -> Seq<u8> {
    join_bytes(join_bytes(minecraft_dir, "launcher".spec_bytes()), "JavaCheck.jar".spec_bytes())
}

/// The Java check that the launcher runs, in the game directory
/// `minecraft_dir`.
pub fn javacheck_path_in(minecraft_dir: &PathBuf) -> (res: PathBuf)
    ensures
        path_bytes(res) == javacheck_path_spec(path_bytes(*minecraft_dir)),
{
    let launcher_dir = path_join(minecraft_dir, "launcher");
    path_join(&launcher_dir, "JavaCheck.jar")
}

/// The Java check for the home directory `home`, when one was found.
pub open spec fn javacheck_path_for_home_spec(home: Option<Seq<u8>>, game_folder: Option<&str>) -> Option<Seq<u8>> {
    match home {
        Some(h) => Some(javacheck_path_spec(minecraft_dir_spec(h, game_folder))),
        None => None,
    }
}

/// The Java check for the home directory `home`: `None` when no home
/// directory was found, else the Java check in the game directory under it.
pub fn javacheck_path_for_home(home: Option<PathBuf>, game_folder: Option<&str>) -> (res: Option<PathBuf>)
    ensures
        opt_bytes(res) == javacheck_path_for_home_spec(opt_bytes(home), game_folder),
{
    match minecraft_dir_for_home(home, game_folder) {
        Some(dir) => Some(javacheck_path_in(&dir)),
        None => None,
    }
}

/// The Java check in the current user's game directory, as
/// [`javacheck_path_for_home`] gives it for the home directory that
/// `home::home_dir` finds (`None` when it finds none).
pub fn javacheck_path(game_folder: Option<&str>) -> (res: Option<PathBuf>)
    ensures
        exists|home: Option<Seq<u8>>|
            opt_bytes(res) == #[trigger] javacheck_path_for_home_spec(home, game_folder),
{
    let home = home_dir();
    let res = javacheck_path_for_home(home, game_folder);
    assert(opt_bytes(res) == javacheck_path_for_home_spec(opt_bytes(home), game_folder));
    res
}

} // verus!
