//! The file through which the unprivileged run hands the launcher's process
//! id to the privileged run: what is written to it and how it is read back.

use vstd::prelude::*;
use crate::number::{
    decimal, decimal_string, is_digit, lemma_decimal_digits,
    lemma_parse_decimal, parse_u32_chars, parse_u32_spec,
};
use crate::text::{
    chars_of, is_whitespace, trim_chars, trim_end_spec, trim_spec,
    trim_start_spec,
};

verus! {

/// Where the launcher's process id is kept between the two runs (a directory
/// that is emptied on reboot).
pub const LAUNCHER_PID_FILE: &'static str = "/tmp/minecraft-launcher.pid";

/// The text written to the process-id file for `pid`: its decimal digits and
/// nothing else.
pub fn pid_file_contents(pid: u32) -> (res: String)
    ensures
        res@ == decimal(pid as nat),
{
    decimal_string(pid)
}

/// The process id held by the text of the process-id file: the text without
/// surrounding whitespace, read as a `u32`.
pub open spec fn pid_in_file(contents: Seq<char>) -> Option<u32> {
    parse_u32_spec(trim_spec(contents))
}

/// Reads the process id out of the text of the process-id file; `None` when
/// the text, once trimmed, is not a `u32`.
pub fn parse_pid_file(contents: &str) -> (res: Option<u32>)
    ensures
        res == pid_in_file(contents@),
{
    let chars = chars_of(contents);
    let trimmed = trim_chars(&chars);
    parse_u32_chars(&trimmed)
}

/// What to do after one attempt to read the process-id file.
#[derive(Debug, Clone, Copy, PartialEq, Eq, Structural)]
pub enum PidFileStep {
    /// The file held this process id: stop waiting.
    Found(u32),
    /// The file exists but does not hold a process id: report it and read
    /// again at once.
    Malformed,
    /// The file could not be read (it is not written yet): wait a moment and
    /// read again.
    NotReady,
}

/// How long to wait, in milliseconds, before reading the process-id file
/// again after it could not be read.
pub const PID_FILE_RETRY_MILLIS: u64 = 50;

/// Decides what follows one attempt to read the process-id file: `read` is
/// the file's text, or `None` when reading it failed.
pub fn pid_file_step(read: Option<&str>) -> (res: PidFileStep)
    ensures
        read is None ==> res == PidFileStep::NotReady,
        read matches Some(text) ==> res == (match pid_in_file(text@) {
            Some(pid) => PidFileStep::Found(pid),
            None => PidFileStep::Malformed,
        }),
{
    match read {
        None => PidFileStep::NotReady,
        Some(text) => match parse_pid_file(text) {
            Some(pid) => PidFileStep::Found(pid),
            None => PidFileStep::Malformed,
        },
    }
}

/// Text without whitespace at either end is left as it is by trimming.
proof fn lemma_trim_untouched(s: Seq<char>)
    requires
        s.len() > 0,
        !is_whitespace(s[0]),
        !is_whitespace(s.last()),
    ensures
        trim_spec(s) == s,
{
    assert(trim_start_spec(s) == s);
    assert(trim_end_spec(s) == s);
}

/// Reading the process-id file gives back the process id that was written
/// to it: the text written for `pid` is read as `pid`.
pub proof fn lemma_pid_file_round_trip(pid: u32)
    ensures
        pid_in_file(decimal(pid as nat)) == Some(pid),
{
    let s = decimal(pid as nat);
    lemma_decimal_digits(pid as nat);
    assert(is_digit(s[0]));
    assert(is_digit(s[s.len() - 1]));
    lemma_trim_untouched(s);
    lemma_parse_decimal(pid);
}

} // verus!
