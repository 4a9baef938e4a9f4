//! PTY sessions: process configuration, the rules of a session's lifecycle, and the
//! parts of the POSIX PTY setup that are plain values (window size, child
//! environment, exit codes). The system calls themselves are made by the host
//! application.

pub mod session;
pub mod process;
pub mod unix;

pub use self::session::{after_read, after_timed_read, signal_byte, ReadOutcome, SessionCore, TimedRead};
pub use self::process::{signals, ProcessConfig};
pub use self::unix::{child_env, exit_code_from, PtySize};
