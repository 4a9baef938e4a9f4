//! Utilities shared by the rest of the crate: error types, the last-error slot read
//! over JNI, and the log line format.

pub mod error;
pub mod last_error;
pub mod logger;

pub use error::{
    unsupported_operation, JniError, OptionExt, PtyError, PtyResult, SessionError, SessionResult,
    TerminalError, TerminalResult, VfsError, VfsResult,
};
pub use last_error::{peek_last_error, set_last_error, take_last_error, LastError};
