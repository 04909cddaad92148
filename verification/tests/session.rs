use rctf::Context;
use rctf::editor::Key;
use rctf::errors::RctfError;
use rctf::rctf::SessionSelection;
use rctf::rctf::auth_result;
use rctf::rctf::ssh_settings_from_args;
use rctf::session::BACKSPACE;
use rctf::session::EOT;
use rctf::session::ETX;
use rctf::session::ExitReason;
use rctf::session::ReadEvent;
use rctf::session::ReadStep;
use rctf::session::SshSession;
use rctf::session::command_payload;
use rctf::session::reset_prompt_bytes;

fn connected_session(name_of_host: &str) -> SshSession {
    let settings = ssh_settings_from_args(
        "root".to_string(),
        name_of_host.to_string(),
        Some("pw".to_string()),
        22,
    );
    let mut session = SshSession::new(settings);
    assert!(!session.is_connected());
    session.mark_connected();
    session
}

#[test]
fn settings_from_args_default_password_is_empty() {
    let settings = ssh_settings_from_args("u".to_string(), "h".to_string(), None, 2222);
    assert_eq!(settings.username, "u");
    assert_eq!(settings.hostname, "h");
    assert_eq!(settings.password, "");
    assert_eq!(settings.port, 2222);
}

#[test]
fn rejected_authentication_is_fatal_to_the_attempt() {
    assert!(auth_result(true).is_ok());
    assert_eq!(auth_result(false).unwrap_err(), RctfError::AuthenticationFailure);
    assert_eq!(auth_result(false).unwrap_err().message(), "Failed to authenticate.");
}

#[test]
fn escape_enters_control_mode_and_stays_connected() {
    let session = connected_session("host");
    let step = session.read_loop_step(ReadEvent::Key(Key::Esc));
    assert_eq!(step, ReadStep::ControlMode);
    assert!(session.is_connected());
}

#[test]
fn keys_forward_their_transport_bytes() {
    let session = connected_session("host");
    let cases: Vec<(Key, Vec<u8>)> = vec![
        (Key::Enter, vec![b'\n']),
        (Key::Backspace, vec![BACKSPACE]),
        (Key::Tab, vec![b'\t']),
        (Key::Up, b"\x1b[A".to_vec()),
        (Key::Down, b"\x1b[B".to_vec()),
        (Key::Right, b"\x1b[C".to_vec()),
        (Key::Left, b"\x1b[D".to_vec()),
        (Key::CtrlC, vec![ETX]),
        (Key::CtrlD, vec![EOT]),
        (Key::Char('q'), vec![b'q']),
    ];
    for (key, bytes) in cases {
        assert_eq!(session.read_loop_step(ReadEvent::Key(key)), ReadStep::Forward(bytes));
    }
    assert_eq!(session.read_loop_step(ReadEvent::Key(Key::Other)), ReadStep::Ignore);
}

#[test]
fn read_loop_needs_a_connection() {
    let settings = ssh_settings_from_args("u".to_string(), "h".to_string(), None, 22);
    let session = SshSession::new(settings);
    let step = session.read_loop_step(ReadEvent::Key(Key::Enter));
    assert_eq!(step, ReadStep::Failed(RctfError::NotConnected));
    assert!(session.check_connected().is_err());
}

#[test]
fn exit_status_zero_is_a_clean_exit() {
    let session = connected_session("host");
    let step = session.read_loop_step(ReadEvent::RemoteExit(ExitReason::Status(0)));
    assert_eq!(step, ReadStep::Exited);
}

#[test]
fn nonzero_and_signal_exits_are_errors() {
    let session = connected_session("host");
    let step = session.read_loop_step(ReadEvent::RemoteExit(ExitReason::Status(3)));
    assert_eq!(step, ReadStep::Failed(RctfError::RemoteNonZeroExit(3)));
    assert_eq!(
        RctfError::RemoteNonZeroExit(3).message(),
        "Process exited with code 3."
    );

    let step = session.read_loop_step(ReadEvent::RemoteExit(ExitReason::Signal(
        "KILL".to_string(),
        "killed".to_string(),
    )));
    assert_eq!(
        step,
        ReadStep::Failed(RctfError::RemoteSignalExit("KILL".to_string(), "killed".to_string()))
    );
    assert_eq!(
        RctfError::RemoteSignalExit("KILL".to_string(), "killed".to_string()).message(),
        "Process exited with signal SIGKILL: killed"
    );
}

#[test]
fn session_lifecycle_frees_the_slot() {
    let mut ctx = Context::new(false, None, None);
    assert_eq!(ctx.next_session_index(), 0);
    let session = connected_session("host");
    let index = ctx.register_session(session);
    assert_eq!(index, 0);
    assert!(ctx.check_session(index).is_ok());

    // escape hands over to control mode with the session still connected
    let step = ctx.session_at(index).unwrap().read_loop_step(ReadEvent::Key(Key::Esc));
    assert_eq!(step, ReadStep::ControlMode);
    assert!(ctx.session_at(index).unwrap().is_connected());

    // a clean remote exit ends the session and frees its slot
    let step = ctx.session_at(index).unwrap().read_loop_step(ReadEvent::RemoteExit(
        ExitReason::Status(0),
    ));
    assert_eq!(step, ReadStep::Exited);
    let was_connected = ctx.end_session(index).unwrap();
    assert!(was_connected);

    // a later resume of that index reports the stale reference
    assert_eq!(ctx.resolve_selection(&SessionSelection::Index(index)).unwrap(), index);
    assert_eq!(ctx.check_session(index).unwrap_err(), RctfError::IndexNotFound(index));
    assert_eq!(
        RctfError::IndexNotFound(index).message(),
        "No session found with index 0."
    );
    assert_eq!(ctx.end_session(index).unwrap_err(), RctfError::IndexNotFound(index));
}

#[test]
fn injected_commands_and_prompt_reset_bytes() {
    assert_eq!(command_payload("ls -la"), b"ls -la\n".to_vec());
    assert_eq!(reset_prompt_bytes(), vec![ETX]);
}
