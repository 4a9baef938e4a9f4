//! Error types of the terminal core, and the text each one shows.

use vstd::prelude::*;

use crate::jni_safe::{jni_code_name, JniErrorCode};
use crate::session_state::{checkpoint_error_text, state_name, CheckpointError, SessionState};
use crate::text::{concat2, concat3, concat4, decimal, i64_to_decimal, owned, signed_decimal, starts_with, u64_to_decimal};
use crate::vfs::capabilities::{op_name, VfsOperation};

verus! {

/// `std::io::Error`, carried opaquely inside [`TerminalError::Io`].
#[verifier::external_type_specification]
#[verifier::external_body]
pub struct ExIoError(std::io::Error);

/// Top-level error type for the terminal core.
#[derive(Debug)]
pub enum TerminalError {
    /// PTY-related errors.
    Pty(PtyError),
    /// VFS/filesystem errors.
    Vfs(VfsError),
    /// Session/state errors.
    Session(SessionError),
    /// JNI bridge errors.
    Jni(JniError),
    /// Generic I/O errors.
    Io(std::io::Error),
}

/// PTY-specific errors.
#[derive(Debug)]
pub enum PtyError {
    /// Failed to spawn the PTY process.
    SpawnFailed(String),
    /// The PTY process has exited.
    ProcessExited(i32),
    /// Failed to read from the PTY.
    ReadFailed(String),
    /// Failed to write to the PTY.
    WriteFailed(String),
    /// Failed to resize the PTY.
    ResizeFailed(String),
    /// The PTY handle is invalid.
    InvalidHandle,
    /// The PTY is not initialized.
    NotInitialized,
    /// Sending a signal failed.
    SignalFailed { signal: i32, reason: String },
}

/// VFS/filesystem-specific errors.
#[derive(Debug)]
pub enum VfsError {
    /// Path not found.
    NotFound(String),
    /// Permission denied.
    PermissionDenied(String),
    /// Operation not supported on this filesystem.
    OperationNotSupported { operation: VfsOperation, reason: String },
    /// Path is not mounted.
    NotMounted(String),
    /// Mount failed.
    MountFailed { path: String, reason: String },
    /// SAF URI is invalid.
    InvalidUri(String),
    /// SAF permission lost.
    PermissionLost(String),
    /// Cache error.
    CacheError(String),
    /// File already exists.
    AlreadyExists(String),
    /// Not a directory.
    NotADirectory(String),
    /// Not a file.
    NotAFile(String),
    /// Directory not empty.
    DirectoryNotEmpty(String),
}

/// Session/state-specific errors.
#[derive(Debug)]
pub enum SessionError {
    /// Session not found.
    NotFound(String),
    /// Session already exists.
    AlreadyExists(String),
    /// Invalid session state for an operation.
    InvalidState { current: SessionState, operation: String },
    /// Checkpoint failed.
    Checkpoint(CheckpointError),
    /// Restore failed.
    RestoreFailed(String),
    /// Session limit reached.
    LimitReached(usize),
}

/// JNI bridge errors.
#[derive(Debug)]
pub enum JniError {
    /// Error code from the JNI layer.
    Code(JniErrorCode),
    /// A Java exception was thrown.
    JavaException(String),
    /// Invalid string encoding.
    InvalidEncoding,
    /// The Java object was garbage collected.
    ObjectCollected,
    /// Attaching to the JVM thread failed.
    ThreadAttachFailed,
}

/// Result type for terminal operations.
pub type TerminalResult<T> = core::result::Result<T, TerminalError>;

/// Result type for PTY operations.
pub type PtyResult<T> = core::result::Result<T, PtyError>;

/// Result type for VFS operations.
pub type VfsResult<T> = core::result::Result<T, VfsError>;

/// Result type for session operations.
pub type SessionResult<T> = core::result::Result<T, SessionError>;

pub open spec fn pty_error_text(e: PtyError) -> Seq<char> {
    match e {
        PtyError::SpawnFailed(m) => "Failed to spawn PTY: "@ + m@,
        PtyError::ProcessExited(c) => "PTY process exited with code "@ + signed_decimal(c as int),
        PtyError::ReadFailed(m) => "Failed to read from PTY: "@ + m@,
        PtyError::WriteFailed(m) => "Failed to write to PTY: "@ + m@,
        PtyError::ResizeFailed(m) => "Failed to resize PTY: "@ + m@,
        PtyError::InvalidHandle => "Invalid PTY handle"@,
        PtyError::NotInitialized => "PTY not initialized"@,
        PtyError::SignalFailed { signal, reason } => "Failed to send signal "@ + signed_decimal(
            signal as int,
        ) + ": "@ + reason@,
    }
}

pub open spec fn vfs_error_text(e: VfsError) -> Seq<char> {
    match e {
        VfsError::NotFound(m) => "Path not found: "@ + m@,
        VfsError::PermissionDenied(m) => "Permission denied: "@ + m@,
        VfsError::OperationNotSupported { operation, reason } => "Operation "@ + op_name(operation)
            + " not supported: "@ + reason@,
        VfsError::NotMounted(m) => "Path not mounted: "@ + m@,
        VfsError::MountFailed { path, reason } => "Failed to mount "@ + path@ + ": "@ + reason@,
        VfsError::InvalidUri(m) => "Invalid SAF URI: "@ + m@,
        VfsError::PermissionLost(m) => "SAF permission lost for: "@ + m@,
        VfsError::CacheError(m) => "Cache error: "@ + m@,
        VfsError::AlreadyExists(m) => "File already exists: "@ + m@,
        VfsError::NotADirectory(m) => "Not a directory: "@ + m@,
        VfsError::NotAFile(m) => "Not a file: "@ + m@,
        VfsError::DirectoryNotEmpty(m) => "Directory not empty: "@ + m@,
    }
}

pub open spec fn session_error_text(e: SessionError) -> Seq<char> {
    match e {
        SessionError::NotFound(m) => "Session not found: "@ + m@,
        SessionError::AlreadyExists(m) => "Session already exists: "@ + m@,
        SessionError::InvalidState { current, operation } => "Invalid state "@ + state_name(current)
            + " for operation "@ + operation@,
        SessionError::Checkpoint(c) => "Checkpoint error: "@ + checkpoint_error_text(c),
        SessionError::RestoreFailed(m) => "Failed to restore session: "@ + m@,
        SessionError::LimitReached(n) => "Maximum session limit ("@ + decimal(n as nat) + ") reached"@,
    }
}

pub open spec fn jni_error_text(e: JniError) -> Seq<char> {
    match e {
        JniError::Code(c) => "JNI error code: "@ + jni_code_name(c),
        JniError::JavaException(m) => "Java exception: "@ + m@,
        JniError::InvalidEncoding => "Invalid string encoding"@,
        JniError::ObjectCollected => "Java object was garbage collected"@,
        JniError::ThreadAttachFailed => "Failed to attach to JVM thread"@,
    }
}

/// The text of a top-level error: the layer's prefix and the inner error's text.
/// For an I/O error the operating system's description follows the prefix.
pub open spec fn terminal_error_text_ok(e: TerminalError, s: Seq<char>) -> bool {
    match e {
        TerminalError::Pty(p) => s == "PTY error: "@ + pty_error_text(p),
        TerminalError::Vfs(v) => s == "VFS error: "@ + vfs_error_text(v),
        TerminalError::Session(x) => s == "Session error: "@ + session_error_text(x),
        TerminalError::Jni(j) => s == "JNI error: "@ + jni_error_text(j),
        TerminalError::Io(_) => starts_with(s, "I/O error: "@),
    }
}

/// The `Display` text of an `std::io::Error` (the operating system's description of
/// the failure); nothing is stated of it.
#[verifier::external_body]
fn io_error_text(e: &std::io::Error) -> String {
    e.to_string()
}

impl PtyError {
    /// The error text shown to the user.
    pub fn message(&self) -> (s: String)
        ensures
            s@ == pty_error_text(*self),
    {
        match self {
            PtyError::SpawnFailed(m) => concat2("Failed to spawn PTY: ", m.as_str()),
            PtyError::ProcessExited(c) => {
                let d = i64_to_decimal(*c as i64);
                concat2("PTY process exited with code ", d.as_str())
            },
            PtyError::ReadFailed(m) => concat2("Failed to read from PTY: ", m.as_str()),
            PtyError::WriteFailed(m) => concat2("Failed to write to PTY: ", m.as_str()),
            PtyError::ResizeFailed(m) => concat2("Failed to resize PTY: ", m.as_str()),
            PtyError::InvalidHandle => owned("Invalid PTY handle"),
            PtyError::NotInitialized => owned("PTY not initialized"),
            PtyError::SignalFailed { signal, reason } => {
                let d = i64_to_decimal(*signal as i64);
                concat4("Failed to send signal ", d.as_str(), ": ", reason.as_str())
            },
        }
    }
}

impl VfsError {
    /// The error text shown to the user.
    pub fn message(&self) -> (s: String)
        ensures
            s@ == vfs_error_text(*self),
    {
        match self {
            VfsError::NotFound(m) => concat2("Path not found: ", m.as_str()),
            VfsError::PermissionDenied(m) => concat2("Permission denied: ", m.as_str()),
            VfsError::OperationNotSupported { operation, reason } => concat4(
                "Operation ",
                operation.name(),
                " not supported: ",
                reason.as_str(),
            ),
            VfsError::NotMounted(m) => concat2("Path not mounted: ", m.as_str()),
            VfsError::MountFailed { path, reason } => concat4(
                "Failed to mount ",
                path.as_str(),
                ": ",
                reason.as_str(),
            ),
            VfsError::InvalidUri(m) => concat2("Invalid SAF URI: ", m.as_str()),
            VfsError::PermissionLost(m) => concat2("SAF permission lost for: ", m.as_str()),
            VfsError::CacheError(m) => concat2("Cache error: ", m.as_str()),
            VfsError::AlreadyExists(m) => concat2("File already exists: ", m.as_str()),
            VfsError::NotADirectory(m) => concat2("Not a directory: ", m.as_str()),
            VfsError::NotAFile(m) => concat2("Not a file: ", m.as_str()),
            VfsError::DirectoryNotEmpty(m) => concat2("Directory not empty: ", m.as_str()),
        }
    }
}

impl SessionError {
    /// The error text shown to the user.
    pub fn message(&self) -> (s: String)
        ensures
            s@ == session_error_text(*self),
    {
        match self {
            SessionError::NotFound(m) => concat2("Session not found: ", m.as_str()),
            SessionError::AlreadyExists(m) => concat2("Session already exists: ", m.as_str()),
            SessionError::InvalidState { current, operation } => concat4(
                "Invalid state ",
                current.name(),
                " for operation ",
                operation.as_str(),
            ),
            SessionError::Checkpoint(c) => {
                let t = c.message();
                concat2("Checkpoint error: ", t.as_str())
            },
            SessionError::RestoreFailed(m) => concat2("Failed to restore session: ", m.as_str()),
            SessionError::LimitReached(n) => {
                let d = u64_to_decimal(*n as u64);
                concat3("Maximum session limit (", d.as_str(), ") reached")
            },
        }
    }
}

impl JniError {
    /// The error text shown to the user.
    pub fn message(&self) -> (s: String)
        ensures
            s@ == jni_error_text(*self),
    {
        match self {
            JniError::Code(c) => concat2("JNI error code: ", c.name()),
            JniError::JavaException(m) => concat2("Java exception: ", m.as_str()),
            JniError::InvalidEncoding => owned("Invalid string encoding"),
            JniError::ObjectCollected => owned("Java object was garbage collected"),
            JniError::ThreadAttachFailed => owned("Failed to attach to JVM thread"),
        }
    }
}

impl TerminalError {
    /// The error text shown to the user.
    pub fn message(&self) -> (s: String)
        ensures
            terminal_error_text_ok(*self, s@),
    {
        match self {
            TerminalError::Pty(p) => {
                let t = p.message();
                concat2("PTY error: ", t.as_str())
            },
            TerminalError::Vfs(v) => {
                let t = v.message();
                concat2("VFS error: ", t.as_str())
            },
            TerminalError::Session(x) => {
                let t = x.message();
                concat2("Session error: ", t.as_str())
            },
            TerminalError::Jni(j) => {
                let t = j.message();
                concat2("JNI error: ", t.as_str())
            },
            TerminalError::Io(e) => {
                let t = io_error_text(e);
                let s = concat2("I/O error: ", t.as_str());
                proof {
                    assert(s@.subrange(0, "I/O error: "@.len() as int) =~= "I/O error: "@);
                }
                s
            },
        }
    }
}

impl From<PtyError> for TerminalError {
    fn from(e: PtyError) -> (t: TerminalError) {
        TerminalError::Pty(e)
    }
}

impl vstd::std_specs::convert::FromSpecImpl<PtyError> for TerminalError {
    open spec fn obeys_from_spec() -> bool {
        true
    }

    open spec fn from_spec(e: PtyError) -> TerminalError {
        TerminalError::Pty(e)
    }
}

impl From<VfsError> for TerminalError {
    fn from(e: VfsError) -> (t: TerminalError) {
        TerminalError::Vfs(e)
    }
}

impl vstd::std_specs::convert::FromSpecImpl<VfsError> for TerminalError {
    open spec fn obeys_from_spec() -> bool {
        true
    }

    open spec fn from_spec(e: VfsError) -> TerminalError {
        TerminalError::Vfs(e)
    }
}

impl From<SessionError> for TerminalError {
    fn from(e: SessionError) -> (t: TerminalError) {
        TerminalError::Session(e)
    }
}

impl vstd::std_specs::convert::FromSpecImpl<SessionError> for TerminalError {
    open spec fn obeys_from_spec() -> bool {
        true
    }

    open spec fn from_spec(e: SessionError) -> TerminalError {
        TerminalError::Session(e)
    }
}

impl From<JniError> for TerminalError {
    fn from(e: JniError) -> (t: TerminalError) {
        TerminalError::Jni(e)
    }
}

impl vstd::std_specs::convert::FromSpecImpl<JniError> for TerminalError {
    open spec fn obeys_from_spec() -> bool {
        true
    }

    open spec fn from_spec(e: JniError) -> TerminalError {
        TerminalError::Jni(e)
    }
}

impl From<std::io::Error> for TerminalError {
    fn from(e: std::io::Error) -> (t: TerminalError) {
        TerminalError::Io(e)
    }
}

impl vstd::std_specs::convert::FromSpecImpl<std::io::Error> for TerminalError {
    open spec fn obeys_from_spec() -> bool {
        true
    }

    open spec fn from_spec(e: std::io::Error) -> TerminalError {
        TerminalError::Io(e)
    }
}

impl From<CheckpointError> for SessionError {
    fn from(e: CheckpointError) -> (t: SessionError) {
        SessionError::Checkpoint(e)
    }
}

impl vstd::std_specs::convert::FromSpecImpl<CheckpointError> for SessionError {
    open spec fn obeys_from_spec() -> bool {
        true
    }

    open spec fn from_spec(e: CheckpointError) -> SessionError {
        SessionError::Checkpoint(e)
    }
}

impl From<JniErrorCode> for JniError {
    fn from(code: JniErrorCode) -> (t: JniError) {
        JniError::Code(code)
    }
}

impl vstd::std_specs::convert::FromSpecImpl<JniErrorCode> for JniError {
    open spec fn obeys_from_spec() -> bool {
        true
    }

    open spec fn from_spec(code: JniErrorCode) -> JniError {
        JniError::Code(code)
    }
}

impl From<JniErrorCode> for TerminalError {
    fn from(code: JniErrorCode) -> (t: TerminalError) {
        TerminalError::Jni(JniError::Code(code))
    }
}

impl vstd::std_specs::convert::FromSpecImpl<JniErrorCode> for TerminalError {
    open spec fn obeys_from_spec() -> bool {
        true
    }

    open spec fn from_spec(code: JniErrorCode) -> TerminalError {
        TerminalError::Jni(JniError::Code(code))
    }
}

/// Converting an `Option` into a `Result` with a meaningful error.
pub trait OptionExt<T>: Sized {
    /// The value, or a PTY spawn failure carrying `msg`.
    fn ok_or_pty(self, msg: &str) -> PtyResult<T>;

    /// The value, or a VFS "not found" error for `path`.
    fn ok_or_vfs_not_found(self, path: &str) -> VfsResult<T>;
}

impl<T> OptionExt<T> for Option<T> {
    fn ok_or_pty(self, msg: &str) -> (r: PtyResult<T>)
        ensures
            match self {
                Some(v) => r == Ok::<T, PtyError>(v),
                None => r matches Err(PtyError::SpawnFailed(m)) && m@ == msg@,
            },
    {
        match self {
            Some(v) => Ok(v),
            None => Err(PtyError::SpawnFailed(owned(msg))),
        }
    }

    fn ok_or_vfs_not_found(self, path: &str) -> (r: VfsResult<T>)
        ensures
            match self {
                Some(v) => r == Ok::<T, VfsError>(v),
                None => r matches Err(VfsError::NotFound(m)) && m@ == path@,
            },
    {
        match self {
            Some(v) => Ok(v),
            None => Err(VfsError::NotFound(owned(path))),
        }
    }
}

/// The reason given when an operation is refused on `path`.
pub open spec fn unsupported_text(op: VfsOperation, path: Seq<char>) -> Seq<char> {
    "Operation "@ + op_name(op) + " is not supported on path: "@ + path
        + ". This is likely a SAF limitation."@
}

/// An "operation not supported" error for `op` on `path`.
pub fn unsupported_operation(op: VfsOperation, path: &str) -> (e: VfsError)
    ensures
        e matches VfsError::OperationNotSupported { operation, reason } && operation == op
            && reason@ == unsupported_text(op, path@),
{
    let head = concat4("Operation ", op.name(), " is not supported on path: ", path);
    let reason = concat2(head.as_str(), ". This is likely a SAF limitation.");
    VfsError::OperationNotSupported { operation: op, reason }
}

} // verus!
