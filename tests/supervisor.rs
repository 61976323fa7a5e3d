use openmail_supervisor::{
    bridge_result, build_home_path, call_command, close_log_entry, close_log_entry_now,
    decimal_text, default_server_url, delete_result, encode_state, format_timestamp, kill_command,
    launch_command, padded_decimal, read_pid, read_url, resolve_path, split_first_line,
    termination_result, Action, BridgeError, EnvironmentError, Event, HostCommand, ManagedFile,
    Phase, Platform, ReadError, RemoveOutcome, StateFile, Supervisor, TerminateError, Timestamp,
};

fn text(s: &str) -> StateFile {
    StateFile::Text(s.to_string())
}

fn stamp() -> Timestamp {
    Timestamp {
        year: 2024,
        month: 3,
        day: 7,
        hour: 9,
        minute: 5,
        second: 4,
        nanosecond: 26_490_000,
    }
}

#[test]
fn decimal_text_writes_numbers() {
    assert_eq!(decimal_text(0), "0");
    assert_eq!(decimal_text(7), "7");
    assert_eq!(decimal_text(1234), "1234");
    assert_eq!(decimal_text(u32::MAX as u64), "4294967295");
    assert_eq!(decimal_text(u64::MAX), "18446744073709551615");
}

#[test]
fn padded_decimal_fills_with_zeros() {
    assert_eq!(padded_decimal(5, 2), "05");
    assert_eq!(padded_decimal(26, 3), "026");
    assert_eq!(padded_decimal(12345, 4), "12345");
    assert_eq!(padded_decimal(0, 0), "0");
}

#[test]
fn home_path_joins_with_slash() {
    assert_eq!(build_home_path("/home/ann", "notes.txt"), "/home/ann/notes.txt");
    assert_eq!(
        build_home_path("/home/ann", "/.openmail/server/uvicorn.info"),
        "/home/ann//.openmail/server/uvicorn.info"
    );
}

#[test]
fn resolve_path_of_each_file() {
    assert_eq!(
        resolve_path(Some("/home/ann"), ManagedFile::ServerLog),
        Ok("/home/ann//.openmail/server/logs/uvicorn.log".to_string())
    );
    assert_eq!(
        resolve_path(Some("/root"), ManagedFile::ServerState),
        Ok("/root//.openmail/server/uvicorn.info".to_string())
    );
}

#[test]
fn resolve_path_without_home_fails() {
    assert_eq!(
        resolve_path(None, ManagedFile::ServerLog),
        Err(EnvironmentError::HomeUnknown)
    );
    assert_eq!(
        resolve_path(Some(""), ManagedFile::ServerState),
        Err(EnvironmentError::HomeUnknown)
    );
}

#[test]
fn launch_command_per_platform() {
    let w = launch_command(Platform::Windows);
    assert_eq!(w.program, "cmd");
    assert_eq!(w.args, vec!["/C", "./windows/start_uvicorn.bat"]);
    assert_eq!(w.working_dir, Some("src/shell".to_string()));
    let u = launch_command(Platform::Unix);
    assert_eq!(u.program, "sh");
    assert_eq!(u.args, vec!["-c", "./linux/start_uvicorn.sh"]);
    assert_eq!(u.working_dir, Some("src/shell".to_string()));
}

#[test]
fn kill_command_per_platform() {
    let w = kill_command(Platform::Windows, 1234);
    assert_eq!(w.program, "taskkill");
    assert_eq!(w.args, vec!["/PID", "1234", "/F"]);
    assert_eq!(w.working_dir, None);
    let u = kill_command(Platform::Unix, 1234);
    assert_eq!(u.program, "kill");
    assert_eq!(u.args, vec!["-TERM", "1234"]);
}

#[test]
fn call_command_passes_arguments_in_order() {
    let args = vec!["a b".to_string(), "".to_string(), "c".to_string()];
    let u = call_command(Platform::Unix, "get_emails", &args);
    assert_eq!(u.program, "sh");
    assert_eq!(u.args, vec!["./linux/call_backend.sh", "get_emails", "a b", "", "c"]);
    let w = call_command(Platform::Windows, "get_folders", &Vec::new());
    assert_eq!(w.program, "cmd");
    assert_eq!(w.args, vec!["/C", "./windows/call_backend.bat", "get_folders"]);
    assert_eq!(w.working_dir, Some("src/shell".to_string()));
}

#[test]
fn host_commands_map_to_operations() {
    let c = HostCommand::GetEmails {
        folder: "INBOX".to_string(),
        search: "invoice".to_string(),
        offset: 40,
    };
    assert_eq!(c.operation(), "get_emails");
    assert_eq!(c.arguments(), vec!["INBOX", "invoice", "40"]);
    let m = HostCommand::MoveEmail {
        id: "17".to_string(),
        source: "INBOX".to_string(),
        destination: "Archive".to_string(),
    };
    assert_eq!(
        m.command_line(Platform::Unix).args,
        vec!["./linux/call_backend.sh", "move_email", "17", "INBOX", "Archive"]
    );
    let l = HostCommand::Login { email: "a@b.c".to_string(), password: "pw".to_string() };
    assert_eq!(l.operation(), "login");
    assert_eq!(l.arguments(), vec!["a@b.c", "pw"]);
    assert_eq!(HostCommand::GetFolders.arguments(), Vec::<String>::new());
    assert_eq!(HostCommand::GetEmailContent { id: "9".to_string() }.operation(), "get_email_content");
    let mark = HostCommand::MarkEmail {
        id: "3".to_string(),
        mark: "read".to_string(),
        folder: "INBOX".to_string(),
    };
    assert_eq!(mark.operation(), "mark_email");
    assert_eq!(mark.arguments(), vec!["3", "read", "INBOX"]);
    let del = HostCommand::DeleteEmail { id: "3".to_string(), folder: "Trash".to_string() };
    assert_eq!(del.operation(), "delete_email");
    assert_eq!(del.arguments(), vec!["3", "Trash"]);
}

#[test]
fn split_first_line_at_line_feed() {
    assert_eq!(split_first_line("12\nhttp://x\n"), ("12", "http://x\n"));
    assert_eq!(split_first_line("12"), ("12", ""));
    assert_eq!(split_first_line("\n"), ("", ""));
    assert_eq!(split_first_line(""), ("", ""));
}

#[test]
fn encode_state_layout() {
    assert_eq!(encode_state(1234, "http://127.0.0.1:9000"), "1234\nhttp://127.0.0.1:9000\n");
}

#[test]
fn write_then_read_gives_pid_and_url() {
    let f = text(&encode_state(1234, "http://127.0.0.1:9000"));
    assert_eq!(read_pid(&f), Ok(1234));
    assert_eq!(read_url(&f), "http://127.0.0.1:9000");
}

#[test]
fn second_write_replaces_first() {
    let mut file = text(&encode_state(1, "http://127.0.0.1:8001"));
    assert_eq!(read_pid(&file), Ok(1));
    file = text(&encode_state(2, "http://127.0.0.1:8002"));
    let f = file;
    assert_eq!(read_pid(&f), Ok(2));
    assert_eq!(read_url(&f), "http://127.0.0.1:8002");
}

#[test]
fn read_url_of_missing_file_is_default() {
    assert_eq!(read_url(&StateFile::Missing), "http://127.0.0.1:8000");
    assert_eq!(read_url(&StateFile::Unreadable), "http://127.0.0.1:8000");
    assert_eq!(default_server_url(), "http://127.0.0.1:8000");
}

#[test]
fn read_url_of_pid_only_file_is_default() {
    assert_eq!(read_url(&text("4321\n")), "http://127.0.0.1:8000");
    assert_eq!(read_url(&text("4321\n   \n")), "http://127.0.0.1:8000");
    assert_eq!(read_url(&text("4321\n http://h:1 \r\n")), "http://h:1");
}

#[test]
fn read_pid_trims_and_parses() {
    assert_eq!(read_pid(&text("  42 \r\nhttp://h\n")), Ok(42));
    assert_eq!(read_pid(&text("+42")), Ok(42));
    assert_eq!(read_pid(&text("4294967295")), Ok(4294967295));
}

#[test]
fn read_pid_errors() {
    assert_eq!(read_pid(&StateFile::Missing), Err(ReadError::NotFound));
    assert_eq!(read_pid(&StateFile::Unreadable), Err(ReadError::Io));
    assert_eq!(read_pid(&text("")), Err(ReadError::Parse));
    assert_eq!(read_pid(&text("abc\n")), Err(ReadError::Parse));
    assert_eq!(read_pid(&text("-5")), Err(ReadError::Parse));
    assert_eq!(read_pid(&text("4294967296")), Err(ReadError::Parse));
    assert_eq!(read_pid(&text("\n1234")), Err(ReadError::Parse));
}

#[test]
fn delete_twice_never_errors() {
    assert_eq!(delete_result(RemoveOutcome::Removed), Ok(()));
    assert_eq!(delete_result(RemoveOutcome::AlreadyAbsent), Ok(()));
    assert_eq!(delete_result(RemoveOutcome::AlreadyAbsent), Ok(()));
    assert_eq!(delete_result(RemoveOutcome::Failed), Err(ReadError::Io));
}

#[test]
fn termination_status_meanings() {
    let gone = "kill: (1234): No such process\n";
    assert_eq!(termination_result(Platform::Unix, Some(0), ""), Ok(()));
    assert_eq!(
        termination_result(Platform::Unix, Some(1), gone),
        Err(TerminateError::NoSuchProcess)
    );
    assert_eq!(termination_result(Platform::Unix, Some(2), gone), Err(TerminateError::Failed));
    assert_eq!(termination_result(Platform::Unix, None, ""), Err(TerminateError::Failed));
    assert_eq!(termination_result(Platform::Windows, Some(0), ""), Ok(()));
    assert_eq!(
        termination_result(Platform::Windows, Some(128), "ERROR: The process \"1234\" not found.\r\n"),
        Err(TerminateError::NoSuchProcess)
    );
    assert_eq!(
        termination_result(Platform::Windows, Some(1), "ERROR: Access is denied."),
        Err(TerminateError::Failed)
    );
}

#[test]
fn termination_refused_is_not_gone() {
    assert_eq!(
        termination_result(Platform::Unix, Some(1), "kill: (1): Operation not permitted\n"),
        Err(TerminateError::Failed)
    );
    assert_eq!(termination_result(Platform::Unix, Some(1), ""), Err(TerminateError::Failed));
    assert_eq!(
        termination_result(Platform::Windows, Some(128), "ERROR: something else"),
        Err(TerminateError::Failed)
    );
}

#[test]
fn failing_operation_returns_stderr() {
    let r = bridge_result(Some(1), b"partial output".to_vec(), b"login failed".to_vec());
    match r {
        Err(BridgeError::Backend(e)) => assert_eq!(e, "login failed"),
        other => panic!("unexpected {:?}", other),
    }
}

#[test]
fn successful_operation_returns_stdout() {
    let r = bridge_result(Some(0), "[\"INBOX\",\"Sent\"] é".as_bytes().to_vec(), b"warn".to_vec());
    match r {
        Ok(s) => assert_eq!(s, "[\"INBOX\",\"Sent\"] é"),
        other => panic!("unexpected {:?}", other),
    }
}

#[test]
fn signal_ended_operation_returns_stderr() {
    match bridge_result(None, Vec::new(), b"killed".to_vec()) {
        Err(BridgeError::Backend(e)) => assert_eq!(e, "killed"),
        other => panic!("unexpected {:?}", other),
    }
}

#[test]
fn invalid_output_is_reported() {
    assert!(matches!(
        bridge_result(Some(0), vec![0x66, 0xff, 0x6f], Vec::new()),
        Err(BridgeError::InvalidText)
    ));
    assert!(matches!(
        bridge_result(Some(1), Vec::new(), vec![0xed, 0xa0, 0x80]),
        Err(BridgeError::InvalidText)
    ));
    assert_eq!(BridgeError::InvalidText.message(), "backend output is not valid UTF-8");
    assert_eq!(BridgeError::Backend("boom".to_string()).message(), "boom");
    assert_eq!(BridgeError::SpawnFailed("no sh".to_string()).message(), "no sh");
}

#[test]
fn timestamp_format() {
    assert_eq!(format_timestamp(&stamp()), "2024-03-07 09:05:04,026");
    let leap = Timestamp { hour: 23, minute: 59, second: 59, nanosecond: 1_999_000_000, ..stamp() };
    assert_eq!(format_timestamp(&leap), "2024-03-07 23:59:60,999");
    let early = Timestamp { year: 33, ..stamp() };
    assert_eq!(format_timestamp(&early), "0033-03-07 09:05:04,026");
    let far = Timestamp { year: 12345, ..stamp() };
    assert_eq!(format_timestamp(&far), "+12345-03-07 09:05:04,026");
    let before = Timestamp { year: -7, ..stamp() };
    assert_eq!(format_timestamp(&before), "-0007-03-07 09:05:04,026");
}

#[test]
fn close_log_entry_line() {
    assert_eq!(
        close_log_entry(&stamp(), 1234),
        "2024-03-07 09:05:04,026 - INFO - Server stopped by closing the application | PID: 1234\n"
    );
}

fn is_log_stamp(s: &str) -> bool {
    let b = s.as_bytes();
    b.len() == 23
        && b.iter().enumerate().all(|(i, c)| match i {
            4 | 7 => *c == b'-',
            10 => *c == b' ',
            13 | 16 => *c == b':',
            19 => *c == b',',
            _ => c.is_ascii_digit(),
        })
}

#[test]
fn close_log_entry_now_has_log_format() {
    let line = close_log_entry_now(1234);
    assert!(line.ends_with(" - INFO - Server stopped by closing the application | PID: 1234\n"));
    assert!(is_log_stamp(&line[..23]));
}

#[test]
fn supervisor_starts_and_aborts() {
    let mut s = Supervisor::new();
    assert_eq!(s.phase, Phase::NotStarted);
    assert_eq!(s.step(Event::Ready), Action::Launch);
    assert_eq!(s.step(Event::Launched { started: false }), Action::AbortStartup);
    assert_eq!(s.phase, Phase::Stopped);
    assert_eq!(s.step(Event::ExitRequested), Action::Wait);
}

#[test]
fn supervisor_stale_pid_still_deletes() {
    let mut s = Supervisor { phase: Phase::Running };
    assert_eq!(s.step(Event::ExitRequested), Action::ReadState);
    assert_eq!(s.step(Event::StateRead { pid: Ok(77) }), Action::Kill { pid: 77 });
    assert_eq!(
        s.step(Event::Killed { outcome: Err(TerminateError::NoSuchProcess) }),
        Action::DeleteState
    );
    assert_eq!(s.step(Event::StateDeleted), Action::Exit);
}

#[test]
fn supervisor_exits_when_nothing_to_clean() {
    let mut s = Supervisor { phase: Phase::Running };
    assert_eq!(s.step(Event::ExitRequested), Action::ReadState);
    assert_eq!(s.step(Event::StateRead { pid: Err(ReadError::Parse) }), Action::Exit);
    let mut t = Supervisor { phase: Phase::Running };
    t.step(Event::ExitRequested);
    t.step(Event::StateRead { pid: Ok(5) });
    assert_eq!(t.step(Event::Killed { outcome: Err(TerminateError::Failed) }), Action::Exit);
    assert_eq!(t.phase, Phase::Stopped);
}

#[test]
fn supervisor_ignores_unexpected_events() {
    let mut s = Supervisor { phase: Phase::Running };
    assert_eq!(s.step(Event::AuditWritten), Action::Wait);
    assert_eq!(s.step(Event::Ready), Action::Wait);
    assert_eq!(s.phase, Phase::Running);
}

#[test]
fn end_to_end_lifecycle() {
    let mut s = Supervisor::new();
    assert_eq!(s.step(Event::Ready), Action::Launch);
    let launch = launch_command(Platform::Unix);
    assert_eq!(launch.program, "sh");
    assert_eq!(s.step(Event::Launched { started: true }), Action::Wait);

    let mut state_file = text(&encode_state(1234, "http://127.0.0.1:9000"));
    assert_eq!(read_url(&state_file), "http://127.0.0.1:9000");

    assert_eq!(s.step(Event::ExitRequested), Action::ReadState);
    let pid = read_pid(&state_file);
    assert_eq!(pid, Ok(1234));
    assert_eq!(s.step(Event::StateRead { pid }), Action::Kill { pid: 1234 });
    assert_eq!(kill_command(Platform::Unix, 1234).args, vec!["-TERM", "1234"]);
    let outcome = termination_result(Platform::Unix, Some(0), "");
    assert_eq!(s.step(Event::Killed { outcome }), Action::AppendAudit { pid: 1234 });

    let mut log = String::from("2024-03-07 09:00:00,000 - INFO - Server started\n");
    let before = log.lines().count();
    log.push_str(&close_log_entry_now(1234));
    let lines: Vec<&str> = log.lines().collect();
    assert_eq!(lines.len(), before + 1);
    let new_line = lines[before];
    assert!(is_log_stamp(&new_line[..23]));
    assert!(new_line[23..].starts_with(" - INFO - "));
    assert!(new_line.contains("1234"));

    assert_eq!(s.step(Event::AuditWritten), Action::DeleteState);
    assert_eq!(delete_result(RemoveOutcome::Removed), Ok(()));
    state_file = StateFile::Missing;
    assert_eq!(s.step(Event::StateDeleted), Action::Exit);
    assert_eq!(s.phase, Phase::Stopped);
    assert_eq!(read_pid(&state_file), Err(ReadError::NotFound));
}
