use script::options::{
    EchoMode, LogFormat, ScriptOptions, child_argv, done_notice, echo_enabled, logs_conflict,
    process_exit_code, resolve_shell, start_notice, transcript_open_refused,
    unsupported_platform_notice,
};

fn base_opts(file: &str) -> ScriptOptions {
    ScriptOptions {
        typescript_file: String::from(file),
        append: false,
        command: None,
        echo_mode: EchoMode::Auto,
        return_exit_status: false,
        flush: false,
        force: false,
        log_io_file: None,
        log_in_file: None,
        log_out_file: None,
        log_timing_file: None,
        logging_format: LogFormat::Classic,
        output_limit: None,
        quiet: false,
    }
}

#[test]
fn test_mutually_exclusive_args() {
    let mut opts = base_opts("typescript");
    opts.log_io_file = Some(String::from("io.log"));
    opts.log_out_file = Some(String::from("out.log"));
    assert!(logs_conflict(&opts));

    let mut opts = base_opts("typescript");
    opts.log_io_file = Some(String::from("io.log"));
    opts.log_in_file = Some(String::from("in.log"));
    assert!(logs_conflict(&opts));

    let mut opts = base_opts("typescript");
    opts.log_io_file = Some(String::from("io.log"));
    assert!(!logs_conflict(&opts));

    let mut opts = base_opts("typescript");
    opts.log_in_file = Some(String::from("in.log"));
    opts.log_out_file = Some(String::from("out.log"));
    assert!(!logs_conflict(&opts));
}

#[test]
fn test_fails_on_unsupported_platforms() {
    let msg = unsupported_platform_notice();
    assert_eq!(
        format!("script: {}\n", msg),
        "script: `script` is unavailable on non-UNIX-like platforms.\n"
    );
}

#[test]
fn test_echo_enabled() {
    assert!(echo_enabled(EchoMode::Always, true));
    assert!(echo_enabled(EchoMode::Always, false));
    assert!(!echo_enabled(EchoMode::Never, true));
    assert!(!echo_enabled(EchoMode::Never, false));
    assert!(!echo_enabled(EchoMode::Auto, true));
    assert!(echo_enabled(EchoMode::Auto, false));
}

#[test]
fn test_transcript_open_refused() {
    // multiply linked target without append or force: refused
    assert!(transcript_open_refused(false, false, Some(2)));
    assert!(!transcript_open_refused(false, false, Some(1)));
    assert!(!transcript_open_refused(true, false, Some(2)));
    assert!(!transcript_open_refused(false, true, Some(2)));
    // no metadata (target absent): never refused
    assert!(!transcript_open_refused(false, false, None));
}

#[test]
fn test_resolve_shell() {
    assert_eq!(resolve_shell(Some(String::from("/bin/bash"))), "/bin/bash");
    assert_eq!(resolve_shell(None), "/bin/sh");
}

#[test]
fn test_child_argv() {
    let argv = child_argv(String::from("/bin/sh"), Some(String::from("echo hi")));
    assert_eq!(argv, vec!["/bin/sh", "-c", "echo hi"]);
    let argv = child_argv(String::from("/bin/zsh"), None);
    assert_eq!(argv, vec!["/bin/zsh"]);
}

#[test]
fn test_notices() {
    let file = String::from("typescript");
    assert_eq!(
        start_notice(false, &file).as_deref(),
        Some("Script started, file is typescript")
    );
    assert_eq!(
        done_notice(false, &file).as_deref(),
        Some("Script done, file is typescript")
    );
    assert_eq!(start_notice(true, &file), None);
    assert_eq!(done_notice(true, &file), None);
}

#[test]
fn test_process_exit_code() {
    assert_eq!(process_exit_code(true, 0), 0);
    assert_eq!(process_exit_code(true, 1), 1);
    assert_eq!(process_exit_code(true, 130), 130);
    assert_eq!(process_exit_code(false, 7), 0);
}
