//! Terminal core: the verified logic of an Android terminal emulator.
//!
//! - [`terminal`]: cells, the screen buffer, the ANSI parser and the render model;
//! - [`vfs`]: the capability system, mount table, provider interface, the service
//!   that enforces capabilities, permission health checks and the metadata cache;
//! - [`pty`]: process configuration and the rules of a PTY session;
//! - [`session_state`]: session lifecycle and the checkpoint policy;
//! - [`jni_safe`]: the checks made at the JNI boundary;
//! - [`utils`]: error types, the last-error slot and the log line format.
//!
//! The host application performs the I/O (files, the PTY, JNI) and calls into
//! this crate for every decision.

use vstd::prelude::*;

pub mod clock;
pub mod jni_safe;
pub mod package;
pub mod pty;
pub mod session_state;
pub mod terminal;
pub mod text;
pub mod utils;
pub mod vfs;

pub use jni_safe::JniErrorCode;
pub use session_state::{CheckpointManager, SessionState, TerminalState};
pub use utils::error::{TerminalError, TerminalResult};
pub use vfs::capabilities::{VfsCapabilities, VfsOperation};

verus! {

/// Library version.
pub const VERSION: &'static str = "0.1.0";

} // verus!
