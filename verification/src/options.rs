//! The resolved session configuration and the launch-time decisions made
//! from it: log-sink exclusivity, the anti-clobber guard on the transcript
//! target, the subordinate-terminal echo setting, the child's command line,
//! and the operator notices.

use vstd::prelude::*;

verus! {

/// Layout of the timing log: `Classic` lines carry elapsed seconds and a byte
/// count; `Advanced` lines prefix them with a direction tag.
#[derive(Debug, Clone, Copy, PartialEq, Eq, Structural)]
pub enum LogFormat {
    Classic,
    Advanced,
}

/// Echo policy for the pseudo-terminal's subordinate side.
#[derive(Debug, Clone, Copy, PartialEq, Eq, Structural)]
pub enum EchoMode {
    Always,
    Never,
    Auto,
}

/// The session configuration, created once from validated input and read-only
/// thereafter.  Paths are carried as plain strings; the platform layer turns
/// them into whatever its file interface needs.
pub struct ScriptOptions {
    pub typescript_file: String,
    pub append: bool,
    pub command: Option<String>,
    pub echo_mode: EchoMode,
    pub return_exit_status: bool,
    pub flush: bool,
    pub force: bool,
    pub log_io_file: Option<String>,
    pub log_in_file: Option<String>,
    pub log_out_file: Option<String>,
    pub log_timing_file: Option<String>,
    pub logging_format: LogFormat,
    pub output_limit: Option<u64>,
    pub quiet: bool,
}

/// A combined input/output log excludes the separate input and output logs.
pub open spec fn spec_logs_conflict(opts: ScriptOptions) -> bool {
    opts.log_io_file is Some && (opts.log_in_file is Some || opts.log_out_file is Some)
}

/// Reject a configuration that names both the combined log and one of the
/// separate input/output logs.  This check runs before any sink is opened.
pub fn logs_conflict(opts: &ScriptOptions) -> (r: bool)
    ensures
        r == spec_logs_conflict(*opts),
{
    opts.log_io_file.is_some() && (opts.log_in_file.is_some() || opts.log_out_file.is_some())
}

/// Anti-clobber guard: opening the transcript is refused when it is neither
/// being appended to nor force-opened and the target already exists as a
/// multiply-linked file.  `nlink` is the target's hard-link count, or `None`
/// when the target could not be inspected (in particular, does not exist).
pub fn transcript_open_refused(append: bool, force: bool, nlink: Option<u64>) -> (r: bool)
    ensures
        r == (!force && !append && (nlink matches Some(n) && n > 1)),
{
    match nlink {
        Some(n) => !force && !append && n > 1,
        None => false,
    }
}

/// Echo setting for the subordinate terminal: `Always` turns echo on, `Never`
/// off, and `Auto` turns it off exactly when the caller's input is a real
/// terminal (which already echoes locally).
pub fn echo_enabled(mode: EchoMode, stdin_is_tty: bool) -> (r: bool)
    ensures
        mode == EchoMode::Always ==> r,
        mode == EchoMode::Never ==> !r,
        mode == EchoMode::Auto ==> r == !stdin_is_tty,
{
    match mode {
        EchoMode::Always => true,
        EchoMode::Never => false,
        EchoMode::Auto => !stdin_is_tty,
    }
}

/// The shell the child runs: the caller's environment value when one is set,
/// otherwise the conventional default.
pub fn resolve_shell(env_shell: Option<String>) -> (r: String)
    ensures
        env_shell matches Some(s) ==> r@ == s@,
        env_shell is None ==> r@ == "/bin/sh"@,
{
    match env_shell {
        Some(s) => s,
        None => String::from_str("/bin/sh"),
    }
}

/// The child's argument vector: with a configured command the shell runs it
/// as a single command; without one the shell is started interactively.
pub fn child_argv(shell: String, command: Option<String>) -> (r: Vec<String>)
    ensures
        command matches Some(c) ==> r@.len() == 3 && r@[0]@ == shell@ && r@[1]@ == "-c"@
            && r@[2]@ == c@,
        command is None ==> r@.len() == 1 && r@[0]@ == shell@,
{
    let mut argv: Vec<String> = Vec::new();
    argv.push(shell);
    match command {
        Some(c) => {
            argv.push(String::from_str("-c"));
            argv.push(c);
        }
        None => {}
    }
    argv
}

/// Start notice naming the transcript, suppressed when quiet.
pub fn start_notice(quiet: bool, typescript_file: &String) -> (r: Option<String>)
    ensures
        quiet ==> r is None,
        !quiet ==> (r matches Some(m) && m@ == "Script started, file is "@ + typescript_file@),
{
    if quiet {
        None
    } else {
        Some(String::from_str("Script started, file is ").concat(typescript_file.as_str()))
    }
}

/// Completion notice naming the transcript, suppressed when quiet.
pub fn done_notice(quiet: bool, typescript_file: &String) -> (r: Option<String>)
    ensures
        quiet ==> r is None,
        !quiet ==> (r matches Some(m) && m@ == "Script done, file is "@ + typescript_file@),
{
    if quiet {
        None
    } else {
        Some(String::from_str("Script done, file is ").concat(typescript_file.as_str()))
    }
}

/// Exit code of the recorder's own process: the child's status when its
/// propagation was requested, success otherwise.
pub open spec fn spec_process_exit_code(return_exit_status: bool, child_status: i32) -> int {
    if return_exit_status {
        child_status as int
    } else {
        0
    }
}

pub fn process_exit_code(return_exit_status: bool, child_status: i32) -> (r: i32)
    ensures
        r == spec_process_exit_code(return_exit_status, child_status),
{
    if return_exit_status {
        child_status
    } else {
        0
    }
}

/// Exit-status propagation: when requested, the child's recorded status
/// becomes the process exit code unchanged, so a child that exited 0 yields
/// process exit 0 and a failing child keeps a non-zero exit; without the
/// request the process reports success regardless.
pub proof fn lemma_exit_status_propagation(child_status: i32)
    ensures
        spec_process_exit_code(true, child_status) == child_status,
        child_status != 0 ==> spec_process_exit_code(true, child_status) != 0,
        spec_process_exit_code(false, child_status) == 0,
{
}

/// Diagnostic for the backend that has no pseudo-terminal support: it fails
/// fast with this message instead of starting a session.
pub fn unsupported_platform_notice() -> (r: &'static str)
    ensures
        r@ == "`script` is unavailable on non-UNIX-like platforms."@,
{
    "`script` is unavailable on non-UNIX-like platforms."
}

} // verus!
