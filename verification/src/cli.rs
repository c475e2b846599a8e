//! What the program does with its command line.

use vstd::prelude::*;
use crate::paths::{
    ends_in_plain_name, file_name, lemma_encode_separator, lemma_encode_utf8_concat, opt_view,
    path_bytes, path_file_name, path_from, separator,
};
use vstd::utf8::encode_utf8;
use crate::text::str_eq;

verus! {

/// The name under which the program launches the launcher: the name of the
/// launcher it is installed in place of.
pub const LAUNCHER_BINARY_NAME: &'static str = "minecraft-launcher";

/// The argument that installs the program.
pub const INSTALL_ARGUMENT: &'static str = "--install";

/// What the program does.
pub enum Command {
    /// Install the program, which runs under the file name
    /// `binary_file_name`.
    Install { binary_file_name: String },
    /// Refuse this unknown argument and exit with failure.
    InvalidArgument(String),
    /// Launch the launcher.
    Launch,
    /// Explain how to use the program and exit with failure.
    Usage,
}

/// A warning printed before the command is carried out.
#[derive(Debug, Clone, Copy, PartialEq, Eq, Structural)]
pub enum StartupWarning {
    /// The command line is empty, so the program's name is unknown.
    NoProgramPath,
    /// The program's path has no file name.
    NoFileName,
}

/// The decision for a command line.
pub struct Dispatch {
    /// A warning to print first, if any.
    pub warning: Option<StartupWarning>,
    /// What to do.
    pub command: Command,
}

/// The decision for the command line `args` (program path first), given
/// the file name of the program path (`None` when it has none): with an
/// argument, `--install` installs and anything else is refused; without one,
/// the program launches when it runs under the launcher's name. A program
/// path that is missing or has no file name gives a warning, then the usage.
pub open spec fn decision_ok(args: Seq<String>, file_name: Option<Seq<char>>, res: Dispatch) -> bool {
    if args.len() == 0 {
        res.warning == Some(StartupWarning::NoProgramPath) && res.command is Usage
    } else {
        match file_name {
            None => res.warning == Some(StartupWarning::NoFileName) && res.command is Usage,
            Some(name) => {
                &&& res.warning is None
                &&& if args.len() >= 2 {
                    if args[1]@ == INSTALL_ARGUMENT@ {
                        res.command matches Command::Install { binary_file_name }
                            && binary_file_name@ == name
                    } else {
                        res.command matches Command::InvalidArgument(argument) && argument@
                            == args[1]@
                    }
                } else if name == LAUNCHER_BINARY_NAME@ {
                    res.command is Launch
                } else {
                    res.command is Usage
                }
            },
        }
    }
}

/// Decides what to do with the command line `args` (program path first),
/// given the file name of its program path.
pub fn decide(args: &Vec<String>, file_name: Option<String>) -> (res: Dispatch)
    ensures
        decision_ok(args@, opt_view(file_name), res),
{
    if args.len() == 0 {
        return Dispatch { warning: Some(StartupWarning::NoProgramPath), command: Command::Usage };
    }
    match file_name {
        None => Dispatch { warning: Some(StartupWarning::NoFileName), command: Command::Usage },
        Some(name) => {
            let command = if args.len() >= 2 {
                if str_eq(args[1].as_str(), INSTALL_ARGUMENT) {
                    Command::Install { binary_file_name: name }
                } else {
                    Command::InvalidArgument(args[1].clone())
                }
            } else if str_eq(name.as_str(), LAUNCHER_BINARY_NAME) {
                Command::Launch
            } else {
                Command::Usage
            };
            Dispatch { warning: None, command }
        },
    }
}

/// Decides what to do with the command line `args` (program path first); the
/// program path's file name is what `Path::file_name` makes of it.
pub fn dispatch(args: &Vec<String>) -> (res: Dispatch)
    ensures
        args@.len() == 0 ==> decision_ok(args@, None, res),
        args@.len() > 0 ==> decision_ok(args@, path_file_name(encode_utf8(args@[0]@)), res),
        forall|name: Seq<char>|
            args@.len() > 0 && #[trigger] ends_in_plain_name(args@[0]@, name) ==> decision_ok(
                args@,
                Some(name),
                res,
            ),
{
    if args.len() == 0 {
        return decide(args, None);
    }
    let path = path_from(args[0].as_str());
    let name = file_name(&path);
    proof {
        let text = args@[0]@;
        assert forall|n: Seq<char>| #[trigger] ends_in_plain_name(text, n) implies opt_view(name)
            == Some(n) by {
            if text != n {
                let dir = choose|dir: Seq<char>| text == dir + seq!['/'] + n;
                lemma_encode_utf8_concat(dir + seq!['/'], n);
                lemma_encode_utf8_concat(dir, seq!['/']);
                lemma_encode_separator();
                assert(path_bytes(path) == encode_utf8(dir) + seq![separator()] + encode_utf8(n));
            }
        }
    }
    decide(args, name)
}

/// What the command line asks for, whatever else it holds: with a program
/// path that has a file name, `--install` as the first argument installs
/// the program under that file name, whatever arguments follow (such as
/// `--upgrade`); any other first argument is refused as itself; with no
/// argument, the program launches exactly when its file name is
/// `minecraft-launcher`, and otherwise shows the usage. No program path, or
/// one without a file name, shows the usage after a warning.
pub proof fn lemma_command_line_meaning(args: Seq<String>, file_name: Option<Seq<char>>, res: Dispatch)
    requires
        decision_ok(args, file_name, res),
    ensures
        args.len() >= 2 && file_name is Some && args[1]@ == "--install"@ ==> res.warning is None
            && (res.command matches Command::Install { binary_file_name } && binary_file_name@
            == file_name->0),
        args.len() >= 2 && file_name is Some && args[1]@ != "--install"@ ==> res.warning is None
            && (res.command matches Command::InvalidArgument(argument) && argument@ == args[1]@),
        args.len() == 1 && file_name == Some("minecraft-launcher"@) ==> res.warning is None
            && res.command is Launch,
        args.len() == 1 && file_name is Some && file_name != Some("minecraft-launcher"@)
            ==> res.warning is None && res.command is Usage,
        args.len() == 0 || file_name is None ==> res.warning is Some && res.command is Usage,
{
    reveal_strlit("--install");
    reveal_strlit("minecraft-launcher");
}

} // verus!
