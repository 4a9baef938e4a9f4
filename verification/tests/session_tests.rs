use terminal_core::session_state::{
    checkpoint_due, checkpoint_session_id, cleanup_targets, deleted_count, generate_session_id, mark_restored, prepare_checkpoint,
    session_id_from_micros, sort_newest_first, CheckpointError, CheckpointInfo, CHECKPOINT_VERSION, CheckpointManager, ScreenLine,
    SessionState, TerminalState,
};

#[test]
fn test_session_state_transitions() {
    let mut state = TerminalState::new("test");
    assert_eq!(state.state, SessionState::Active);

    state.transition_to(SessionState::Checkpointed);
    assert_eq!(state.state, SessionState::Checkpointed);

    state.transition_to(SessionState::Restored);
    assert_eq!(state.state, SessionState::Restored);
}

#[test]
fn test_session_id_generation() {
    let id1 = generate_session_id();
    let start = std::time::Instant::now();
    while start.elapsed() < std::time::Duration::from_micros(10) {}
    let id2 = generate_session_id();

    assert_ne!(id1, id2);
    assert!(id1.starts_with("session_"));
}

#[test]
fn test_session_id_format() {
    assert_eq!(session_id_from_micros(0), "session_0000000000000000");
    assert_eq!(session_id_from_micros(0xabc), "session_0000000000000abc");
    assert_eq!(session_id_from_micros(0x1_0000_0000_0000_0000), "session_10000000000000000");
    let d = TerminalState::default();
    assert!(d.session_id.starts_with("session_"));
    assert_eq!(d.session_id.len(), 24);
}

#[test]
fn test_fresh_state_defaults() {
    let s = TerminalState::new("abc");
    assert_eq!(s.session_id, "abc");
    assert_eq!(s.cwd, "/");
    assert_eq!(s.scrollback_size, 10000);
    assert_eq!(s.dimensions, (80, 24));
    assert_eq!(s.cursor_position, (0, 0));
    assert_eq!(s.version, 1);
    assert_eq!(s.checkpoint_time, 0);
    assert!(s.screen_buffer.is_empty());
    assert!(s.env_vars.is_empty());
}

#[test]
fn test_state_messages() {
    assert_eq!(SessionState::Active.display_message(), "Session active");
    assert_eq!(SessionState::Failed.display_message(), "Session restoration failed");
    assert_eq!(SessionState::Active.indicator_color(), 0xFF4CAF50);
    assert_eq!(SessionState::Checkpointed.indicator_color(), 0xFFFFC107);
    assert!(SessionState::Failed.needs_attention());
    assert!(SessionState::Restored.needs_attention());
    assert!(!SessionState::Active.needs_attention());
    assert!(!SessionState::Checkpointed.needs_attention());
    assert_eq!(SessionState::Restored.code(), 2);
}

#[test]
fn test_checkpoint_state_roundtrip() {
    let mut state = TerminalState::new("test_session");
    state.cwd = "/home/test".into();
    state.screen_buffer.push(ScreenLine { text: "Hello, world!".into(), styles: vec![] });

    let saved = prepare_checkpoint(state, 1234);
    assert_eq!(saved.state, SessionState::Checkpointed);
    assert_eq!(saved.checkpoint_time, 1234);

    let restored = mark_restored(saved).unwrap();
    assert_eq!(restored.session_id, "test_session");
    assert_eq!(restored.cwd, "/home/test");
    assert_eq!(restored.state, SessionState::Restored);
    assert_eq!(restored.screen_buffer.len(), 1);
}

#[test]
fn test_restore_refuses_other_version() {
    let mut state = TerminalState::new("old");
    state.version = 7;
    let saved = prepare_checkpoint(state, 5);
    match mark_restored(saved) {
        Err(CheckpointError::VersionMismatch { expected, found }) => {
            assert_eq!(expected, CHECKPOINT_VERSION);
            assert_eq!(found, 7);
        }
        _ => panic!("a state of another version must be refused"),
    }
}

#[test]
fn test_checkpoint_paths() {
    let m = CheckpointManager::new("/data/cp");
    assert_eq!(m.checkpoint_path("s1"), "/data/cp/s1.checkpoint");
    assert_eq!(m.temp_path("s1"), "/data/cp/s1.checkpoint.tmp");
    assert_eq!(m.temp_path(""), "/data/cp/.checkpoint.checkpoint.tmp");
    let m2 = CheckpointManager::new("/data/cp/");
    assert_eq!(m2.checkpoint_path("s2"), "/data/cp/s2.checkpoint");
    assert_eq!(m.checkpoint_path("/abs"), "/abs.checkpoint");
    assert!(m.should_checkpoint());
    let m3 = m.with_interval(0);
    assert_eq!(m3.checkpoint_dir(), "/data/cp");
}

#[test]
fn test_checkpoint_due() {
    assert!(checkpoint_due(None, 30));
    assert!(checkpoint_due(Some(30), 30));
    assert!(!checkpoint_due(Some(29), 30));
    let mut m = CheckpointManager::new("/tmp/x").with_interval(u128::MAX);
    m.record_checkpoint(std::time::Instant::now());
    assert!(!m.should_checkpoint());
}

#[test]
fn test_checkpoint_file_names() {
    assert_eq!(checkpoint_session_id("abc.checkpoint"), Some("abc".to_string()));
    assert_eq!(checkpoint_session_id("a.b.checkpoint"), Some("a.b".to_string()));
    assert_eq!(checkpoint_session_id(".checkpoint"), None);
    assert_eq!(checkpoint_session_id("abc.checkpoint.tmp"), None);
    assert_eq!(checkpoint_session_id("abc"), None);
}

fn info(id: &str, modified: Option<u128>) -> CheckpointInfo {
    CheckpointInfo { session_id: id.to_string(), path: format!("/cp/{id}.checkpoint"), size: 1, modified }
}

#[test]
fn test_checkpoint_sorting_and_cleanup() {
    let sorted = sort_newest_first(vec![info("old", Some(1)), info("none", None), info("new", Some(9)), info("mid", Some(5))]);
    let ids: Vec<&str> = sorted.iter().map(|c| c.session_id.as_str()).collect();
    assert_eq!(ids, vec!["new", "mid", "old", "none"]);

    let targets = cleanup_targets(&sorted, 2);
    assert_eq!(targets, vec!["old".to_string(), "none".to_string()]);
    assert!(cleanup_targets(&sorted, 10).is_empty());
}

#[test]
fn test_checkpoint_error_messages() {
    assert_eq!(CheckpointError::NotFound("s".into()).message(), "Checkpoint not found: s");
    assert_eq!(CheckpointError::Io("disk".into()).message(), "I/O error: disk");
    assert_eq!(
        CheckpointError::VersionMismatch { expected: 2, found: 10 }.message(),
        "Version mismatch: expected 2, found 10"
    );
}

#[test]
fn test_only_a_successful_write_is_recorded() {
    let mut m = CheckpointManager::new("/data/cp");
    m.after_write(false, std::time::Instant::now());
    assert!(m.should_checkpoint());
    let m = m.with_interval(u128::MAX);
    let mut m = m;
    m.after_write(true, std::time::Instant::now());
    assert!(!m.should_checkpoint());
}

#[test]
fn test_deleted_count_counts_successes() {
    assert_eq!(deleted_count(&vec![]), 0);
    assert_eq!(deleted_count(&vec![true, false, true, true]), 3);
}
