use terminal_core::pty::process::signals;
use terminal_core::pty::{
    after_read, after_timed_read, child_env, exit_code_from, signal_byte, ProcessConfig, PtySize, ReadOutcome,
    SessionCore, TimedRead,
};
use terminal_core::session_state::SessionState;
use terminal_core::utils::error::PtyError;

#[test]
fn test_process_config_builder() {
    let config = ProcessConfig::new()
        .program("/bin/bash")
        .arg("-l")
        .env("MY_VAR", "my_value")
        .cwd("/home")
        .size(120, 40);

    assert_eq!(config.program, "/bin/bash");
    assert_eq!(config.args, vec!["-l"]);
    assert_eq!(config.env_var("MY_VAR"), Some("my_value"));
    assert_eq!(config.cwd, "/home");
    assert_eq!(config.size, (120, 40));
}

#[test]
fn test_process_config_defaults_and_env_replace() {
    let config = ProcessConfig::new();
    assert_eq!(config.program, "/system/bin/sh");
    assert_eq!(config.cwd, "/");
    assert_eq!(config.size, (80, 24));
    assert_eq!(config.env_var("TERM"), Some("xterm-256color"));
    assert_eq!(config.env_var("COLORTERM"), Some("truecolor"));
    assert_eq!(config.env_var("HOME"), None);

    let config = config.env("TERM", "dumb").args(vec!["-c".to_string(), "true".to_string()]);
    assert_eq!(config.env_var("TERM"), Some("dumb"));
    assert_eq!(config.env.len(), 2);
    assert_eq!(config.args, vec!["-c", "true"]);
}

#[test]
fn test_validation_result_names_missing_program() {
    let config = ProcessConfig::new().program("/no/such/shell");
    assert!(config.validation_result(true).is_ok());
    match config.validation_result(false) {
        Err(PtyError::SpawnFailed(m)) => assert_eq!(m, "Program not found: /no/such/shell"),
        other => panic!("expected SpawnFailed, got {other:?}"),
    }
    assert!(config.validate().is_err());
}

#[test]
fn test_pty_session_creation() {
    let session = SessionCore::new("test");
    assert!(!session.is_running());
    assert_eq!(session.session_id(), "test");
    assert_eq!(session.exit_code(), None);
    assert_eq!(session.session_state(), SessionState::Active);
}

#[test]
fn test_pty_size() {
    let mut session = SessionCore::new("test");
    session.resize(120, 40);

    let state = session.terminal_state();
    assert_eq!(state.dimensions, (120, 40));
    assert_eq!(session.size(), PtySize { rows: 40, cols: 120, pixel_width: 0, pixel_height: 0 });
}

#[test]
fn test_session_lifecycle() {
    let mut session = SessionCore::new("life");
    assert!(matches!(session.require_running(), Err(PtyError::NotInitialized)));
    assert_eq!(session.spawn_cwd(), None);

    session.mark_spawned();
    assert!(session.is_running());
    assert!(session.require_running().is_ok());
    assert_eq!(session.session_state(), SessionState::Active);

    session.mark_exited(3);
    assert!(!session.is_running());
    assert_eq!(session.exit_code(), Some(3));
    assert_eq!(session.session_state(), SessionState::Checkpointed);

    let mut other = SessionCore::new("x");
    let mut state = terminal_core::TerminalState::new("restored");
    state.cwd = "/data/home".to_string();
    other.set_terminal_state(state);
    assert_eq!(other.session_id(), "restored");
    assert_eq!(other.spawn_cwd(), Some("/data/home".to_string()));
    other.mark_closed();
    assert_eq!(other.session_state(), SessionState::Checkpointed);
}

#[test]
fn test_signal_bytes() {
    assert_eq!(signal_byte(signals::SIGINT), Some(0x03));
    assert_eq!(signal_byte(signals::SIGQUIT), Some(0x1c));
    assert_eq!(signal_byte(signals::SIGTERM), None);
}

#[test]
fn test_read_outcomes() {
    let (r, check) = after_read(ReadOutcome::Bytes(0));
    assert_eq!(r.unwrap(), 0);
    assert!(check);
    let (r, check) = after_read(ReadOutcome::Bytes(7));
    assert_eq!(r.unwrap(), 7);
    assert!(!check);
    let (r, check) = after_read(ReadOutcome::WouldBlock);
    assert_eq!(r.unwrap(), 0);
    assert!(!check);
    let (r, check) = after_read(ReadOutcome::Failed("EIO".to_string()));
    assert!(matches!(r, Err(PtyError::ReadFailed(ref m)) if m == "EIO"));
    assert!(check);

    assert_eq!(after_timed_read(TimedRead::Done(4)).unwrap(), 4);
    assert_eq!(after_timed_read(TimedRead::TimedOut).unwrap(), 0);
    assert!(matches!(after_timed_read(TimedRead::Panicked), Err(PtyError::ReadFailed(ref m)) if m == "Read thread panicked"));
    assert!(matches!(after_timed_read(TimedRead::Failed("x".to_string())), Err(PtyError::ReadFailed(ref m)) if m == "x"));
}

#[test]
fn test_exit_codes() {
    assert_eq!(exit_code_from(Some(0), None), 0);
    assert_eq!(exit_code_from(Some(2), Some(9)), 2);
    assert_eq!(exit_code_from(None, Some(9)), 137);
    assert_eq!(exit_code_from(None, None), 1);
}

#[test]
fn test_child_env() {
    let env = child_env(None, false);
    assert_eq!(
        env,
        vec![
            ("TERM".to_string(), "xterm-256color".to_string()),
            ("COLORTERM".to_string(), "truecolor".to_string()),
            ("LANG".to_string(), "en_US.UTF-8".to_string()),
        ]
    );
    let env = child_env(Some("/data/home"), true);
    assert_eq!(env.len(), 9);
    assert_eq!(env[3], ("HOME".to_string(), "/data/home".to_string()));
    assert_eq!(env[4], ("ENV".to_string(), "/dev/null".to_string()));
    assert_eq!(env[5], ("PS1".to_string(), "\\$ ".to_string()));
    assert_eq!(env[7], ("ANDROID_DATA".to_string(), "/data".to_string()));
    assert_eq!(PtySize::default(), PtySize { rows: 24, cols: 80, pixel_width: 0, pixel_height: 0 });
}
