use script::options::{EchoMode, LogFormat, ScriptOptions, process_exit_code};
use script::session::{ChildStatus, Session};

fn opts(file: &str, format: LogFormat) -> ScriptOptions {
    ScriptOptions {
        typescript_file: String::from(file),
        append: false,
        command: None,
        echo_mode: EchoMode::Auto,
        return_exit_status: false,
        flush: false,
        force: false,
        log_io_file: None,
        log_in_file: None,
        log_out_file: None,
        log_timing_file: None,
        logging_format: format,
        output_limit: None,
        quiet: true,
    }
}

fn text(bytes: &[u8]) -> String {
    String::from_utf8(bytes.to_vec()).unwrap()
}

#[test]
fn test_basic_script() {
    // a session running `echo hello world`: whatever the child writes lands
    // verbatim in the transcript
    let mut o = opts("typescript_test", LogFormat::Classic);
    o.command = Some(String::from("echo hello world"));
    o.log_out_file = Some(String::from("out.log"));
    let mut s = Session::start(&o, Vec::new(), Vec::new());
    assert!(s.should_continue());
    s.on_output(&b"hello world\r\n"[..], 1200);
    s.on_output_eof();
    s.on_child_status(ChildStatus::Exited(0));
    assert!(!s.should_continue());
    assert!(text(&s.sinks.transcript.data).contains("hello world"));
    // the relay is faithful: the transcript holds the child's bytes verbatim,
    // and the output log mirrors it
    assert_eq!(&s.sinks.transcript.data[..], &b"hello world\r\n"[..]);
    assert_eq!(&s.sinks.output_log.data[..], &b"hello world\r\n"[..]);
    assert_eq!(s.session_result(), 0);
}

#[test]
fn test_append_mode() {
    // first session, truncating
    let mut o1 = opts("typescript_append", LogFormat::Classic);
    o1.command = Some(String::from("echo first run"));
    let mut s1 = Session::start(&o1, Vec::new(), Vec::new());
    s1.on_output(&b"first run\r\n"[..], 900);
    s1.on_output_eof();
    let first = s1.sinks.transcript.data.clone();

    // second session over the same transcript, appending
    let mut o2 = opts("typescript_append", LogFormat::Classic);
    o2.append = true;
    o2.command = Some(String::from("echo second run"));
    let mut s2 = Session::start(&o2, first.clone(), Vec::new());
    s2.on_output(&b"second run\r\n"[..], 800);
    s2.on_output_eof();

    let all = text(&s2.sinks.transcript.data);
    assert!(all.contains("first run"));
    assert!(all.contains("second run"));
    // nothing of the first session was overwritten
    assert_eq!(&s2.sinks.transcript.data[..first.len()], &first[..]);
    assert!(all.find("first run").unwrap() < all.find("second run").unwrap());
}

#[test]
fn test_return_exit_status() {
    // a command that exits 0, like `true`
    let mut o = opts("typescript", LogFormat::Classic);
    o.command = Some(String::from("true"));
    o.return_exit_status = true;
    let mut s = Session::start(&o, Vec::new(), Vec::new());
    s.on_child_status(ChildStatus::Exited(0));
    assert!(!s.should_continue());
    assert_eq!(process_exit_code(o.return_exit_status, s.session_result()), 0);

    // a command guaranteed to fail, like `false`
    let mut o = opts("typescript", LogFormat::Classic);
    o.command = Some(String::from("false"));
    o.return_exit_status = true;
    let mut s = Session::start(&o, Vec::new(), Vec::new());
    s.on_child_status(ChildStatus::Exited(1));
    assert_eq!(process_exit_code(o.return_exit_status, s.session_result()), 1);
}

#[test]
fn test_signal_termination_status() {
    let o = opts("typescript", LogFormat::Classic);
    let mut s = Session::start(&o, Vec::new(), Vec::new());
    s.on_child_status(ChildStatus::Signaled(15));
    assert!(s.child_exited);
    assert_eq!(s.session_result(), 143);
}

fn classic_line_ok(line: &str) -> bool {
    // <digits>.<digits> <digits>
    let mut parts = line.split(' ');
    let (Some(elapsed), Some(count), None) = (parts.next(), parts.next(), parts.next()) else {
        return false;
    };
    let mut halves = elapsed.split('.');
    let (Some(secs), Some(frac), None) = (halves.next(), halves.next(), halves.next()) else {
        return false;
    };
    let all_digits = |s: &str| !s.is_empty() && s.bytes().all(|b| b.is_ascii_digit());
    all_digits(secs) && all_digits(frac) && all_digits(count)
}

fn advanced_line_ok(line: &str) -> bool {
    // [IO] <digits>.<digits> <digits>
    let Some(rest) = line.strip_prefix("I ").or_else(|| line.strip_prefix("O ")) else {
        return false;
    };
    classic_line_ok(rest)
}

#[test]
fn test_timing_file() {
    // `echo timing test` recorded to typescript_timing with timing.log
    let mut o = opts("typescript_timing", LogFormat::Classic);
    o.command = Some(String::from("echo timing test"));
    o.log_timing_file = Some(String::from("timing.log"));
    let mut s = Session::start(&o, Vec::new(), Vec::new());
    s.on_output(&b"timing test\r\n"[..], 2500);
    s.on_output(&b"more\r\n"[..], 1_700_000);
    s.on_output_eof();

    let timing = text(&s.sinks.timing_log.data);
    assert!(!timing.is_empty());
    for line in timing.lines().filter(|l| !l.is_empty()) {
        assert!(classic_line_ok(line), "bad classic timing line: {line:?}");
    }
}

#[test]
fn test_advanced_logging_format() {
    // `echo advanced test` with --log-io io.log and the advanced format
    let mut o = opts("typescript_advanced", LogFormat::Advanced);
    o.command = Some(String::from("echo advanced test"));
    o.log_timing_file = Some(String::from("timing_advanced.log"));
    o.log_io_file = Some(String::from("io.log"));
    let mut s = Session::start(&o, Vec::new(), Vec::new());
    s.on_input(&b"ad"[..], 100);
    s.on_output(&b"advanced test\r\n"[..], 351);
    s.on_output_eof();

    let timing = text(&s.sinks.timing_log.data);
    assert!(!timing.is_empty());
    for line in timing.lines().filter(|l| !l.is_empty()) {
        assert!(advanced_line_ok(line), "bad advanced timing line: {line:?}");
    }
    // the combined log saw both directions
    assert_eq!(&s.sinks.combined_log.data[..], &b"adadvanced test\r\n"[..]);
}

#[test]
fn test_timing_line_values() {
    let mut o = opts("typescript", LogFormat::Classic);
    o.log_timing_file = Some(String::from("timing.log"));
    let mut s = Session::start(&o, Vec::new(), Vec::new());
    // first transfer 1.5 s in, five bytes
    s.on_output(&b"12345"[..], 1_500_000);
    assert_eq!(text(&s.sinks.timing_log.data), "1.500000 5\n");
    // 123 us later, two bytes
    s.on_output(&b"ab"[..], 1_500_123);
    assert_eq!(text(&s.sinks.timing_log.data), "1.500000 5\n0.000123 2\n");

    let mut o = opts("typescript", LogFormat::Advanced);
    o.log_timing_file = Some(String::from("timing.log"));
    let mut s = Session::start(&o, Vec::new(), Vec::new());
    s.on_input(&b"x"[..], 42);
    s.on_output(&b"yz"[..], 50);
    assert_eq!(text(&s.sinks.timing_log.data), "I 0.000042 1\nO 0.000008 2\n");
}

#[test]
fn test_output_limit() {
    // a limit of 1024 bytes against a command that would produce far more,
    // like `yes | head -n 1000`
    let mut o = opts("typescript_limit", LogFormat::Classic);
    o.command = Some(String::from("yes | head -n 1000"));
    o.output_limit = Some(script::size::parse_size("1024").unwrap());
    let mut s = Session::start(&o, Vec::new(), Vec::new());
    let chunk = [b'y', b'\n'].repeat(50);  // 100 bytes per read
    let mut fed = 0u64;
    while s.should_continue() && fed < 2000 {
        let limit_reached = s.on_output(&chunk[..], fed);
        fed += 1;
        if limit_reached {
            break;
        }
    }
    // the session ended early rather than running to completion
    assert!(s.limit_hit);
    assert!(s.ended);
    assert!(fed < 2000);
    // bounded by the limit plus one in-flight chunk
    let len = s.sinks.transcript.data.len();
    assert!(len >= 100);
    assert!(len <= 1024 + chunk.len());
}

#[test]
fn test_flush_on_signal() {
    // without flush-every-write, written bytes sit pending until the
    // reserved signal's flush request is consumed
    let mut o = opts("typescript", LogFormat::Classic);
    o.log_in_file = Some(String::from("in.log"));
    o.log_timing_file = Some(String::from("timing.log"));
    let mut s = Session::start(&o, Vec::new(), Vec::new());
    s.on_output(&b"partial output"[..], 10);
    s.on_input(&b"keys"[..], 20);
    assert_eq!(s.sinks.transcript.flushed, 0);
    assert_eq!(s.sinks.input_log.flushed, 0);
    assert_eq!(s.sinks.timing_log.flushed, 0);

    s.on_flush_request();

    // everything pending at signal time is now durable, nothing was lost
    assert_eq!(s.sinks.transcript.flushed, s.sinks.transcript.data.len());
    assert_eq!(s.sinks.input_log.flushed, s.sinks.input_log.data.len());
    assert_eq!(s.sinks.timing_log.flushed, s.sinks.timing_log.data.len());
    assert_eq!(&s.sinks.transcript.data[..], &b"partial output"[..]);
    assert_eq!(&s.sinks.input_log.data[..], &b"keys"[..]);
}

#[test]
fn test_flush_every_write() {
    let mut o = opts("typescript", LogFormat::Classic);
    o.flush = true;
    let mut s = Session::start(&o, Vec::new(), Vec::new());
    s.on_output(&b"abc"[..], 5);
    assert_eq!(s.sinks.transcript.flushed, 3);
}

#[test]
fn test_input_is_not_counted_against_limit() {
    let mut o = opts("typescript", LogFormat::Classic);
    o.output_limit = Some(8);
    o.log_in_file = Some(String::from("in.log"));
    let mut s = Session::start(&o, Vec::new(), Vec::new());
    s.on_input(&b"0123456789abcdef"[..], 10);
    assert!(s.should_continue());
    assert_eq!(s.total_output_bytes, 0);
    // input does not touch the transcript either
    assert!(s.sinks.transcript.data.is_empty());
    assert_eq!(&s.sinks.input_log.data[..], &b"0123456789abcdef"[..]);
}

#[test]
fn test_output_eof_and_read_errors() {
    let o = opts("typescript", LogFormat::Classic);
    let mut s = Session::start(&o, Vec::new(), Vec::new());
    s.on_output_read_error(true);  // would-block: transient
    assert!(s.should_continue());
    s.on_output_read_error(false);  // fatal
    assert!(!s.should_continue());
    assert_eq!(s.session_result(), 0);
}
