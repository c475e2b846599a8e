//! Decision logic of a wrapper that starts the Minecraft launcher with tuned
//! settings, watches for the game to start, and then closes the launcher.
//!
//! Everything that touches the system (files, processes, signals, privilege
//! escalation) is performed by the caller; this crate decides what to do and
//! computes every value that goes into those operations.

pub mod cli;
pub mod compare;
pub mod install;
pub mod launch;
pub mod launcher_setup;
pub mod number;
pub mod paths;
pub mod pid_file;
pub mod processes;
pub mod profiles;
pub mod text;
pub mod watch;

pub use paths::get_launcher_profiles_path;
