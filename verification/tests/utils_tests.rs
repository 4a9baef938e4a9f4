use terminal_core::jni_safe::JniErrorCode;
use terminal_core::session_state::{CheckpointError, SessionState};
use terminal_core::utils::error::{
    unsupported_operation, JniError, OptionExt, PtyError, SessionError, TerminalError, VfsError,
};
use terminal_core::utils::last_error::{peek_last_error, set_last_error, take_last_error, LastError};
use terminal_core::utils::logger::{is_enabled, level_char, log_line, LogLevel};
use terminal_core::vfs::capabilities::VfsOperation;

#[test]
fn test_error_display() {
    let err = PtyError::ProcessExited(1);
    assert!(err.message().contains("exited"));

    let err = VfsError::NotFound("/some/path".into());
    assert!(err.message().contains("/some/path"));
}

#[test]
fn test_error_texts() {
    assert_eq!(PtyError::ProcessExited(-3).message(), "PTY process exited with code -3");
    assert_eq!(
        PtyError::SignalFailed { signal: 9, reason: "gone".into() }.message(),
        "Failed to send signal 9: gone"
    );
    assert_eq!(
        VfsError::OperationNotSupported { operation: VfsOperation::Chmod, reason: "no".into() }.message(),
        "Operation Chmod not supported: no"
    );
    assert_eq!(
        SessionError::InvalidState { current: SessionState::Failed, operation: "write".into() }.message(),
        "Invalid state Failed for operation write"
    );
    assert_eq!(SessionError::LimitReached(8).message(), "Maximum session limit (8) reached");
    assert_eq!(
        SessionError::Checkpoint(CheckpointError::NotFound("x".into())).message(),
        "Checkpoint error: Checkpoint not found: x"
    );
    assert_eq!(JniError::Code(JniErrorCode::InvalidHandle).message(), "JNI error code: InvalidHandle");
    assert_eq!(TerminalError::Pty(PtyError::InvalidHandle).message(), "PTY error: Invalid PTY handle");
    assert_eq!(
        TerminalError::Vfs(VfsError::NotMounted("/x".into())).message(),
        "VFS error: Path not mounted: /x"
    );
    let io = TerminalError::Io(std::io::Error::new(std::io::ErrorKind::Other, "boom"));
    assert!(io.message().starts_with("I/O error: "));
}

#[test]
fn test_error_conversion() {
    let pty_err = PtyError::InvalidHandle;
    let terminal_err: TerminalError = pty_err.into();
    assert!(matches!(terminal_err, TerminalError::Pty(_)));

    let t: TerminalError = JniErrorCode::OutOfMemory.into();
    assert!(matches!(t, TerminalError::Jni(JniError::Code(JniErrorCode::OutOfMemory))));
    let s: SessionError = CheckpointError::Io("x".into()).into();
    assert!(matches!(s, SessionError::Checkpoint(CheckpointError::Io(_))));
}

#[test]
fn test_option_ext() {
    let none: Option<i32> = None;
    let result = none.ok_or_pty("test error");
    assert!(matches!(result, Err(PtyError::SpawnFailed(_))));

    let some = Some(42);
    let result = some.ok_or_pty("should not error");
    assert_eq!(result.unwrap(), 42);

    let none: Option<u8> = None;
    assert!(matches!(none.ok_or_vfs_not_found("/p"), Err(VfsError::NotFound(ref p)) if p == "/p"));
}

#[test]
fn test_unsupported_operation_text() {
    match unsupported_operation(VfsOperation::Symlink, "/mnt/x") {
        VfsError::OperationNotSupported { operation, reason } => {
            assert_eq!(operation, VfsOperation::Symlink);
            assert_eq!(
                reason,
                "Operation Symlink is not supported on path: /mnt/x. This is likely a SAF limitation."
            );
        }
        other => panic!("unexpected {other:?}"),
    }
}

#[test]
fn test_last_error_roundtrip() {
    let mut slot = LastError::new();
    set_last_error(&mut slot, "posix_openpt failed: Permission denied");
    assert!(peek_last_error(&slot).contains("posix_openpt"));
    let taken = take_last_error(&mut slot);
    assert!(taken.contains("Permission denied"));
    assert!(take_last_error(&mut slot).is_empty());
}

#[test]
fn test_log_line_format() {
    assert_eq!(level_char(LogLevel::Warn), 'W');
    assert_eq!(log_line(LogLevel::Info, "core", "ready"), "[I] TerminalCore core: ready");
    assert!(is_enabled(LogLevel::Error, LogLevel::Debug));
    assert!(is_enabled(LogLevel::Debug, LogLevel::Debug));
    assert!(!is_enabled(LogLevel::Trace, LogLevel::Debug));
}
