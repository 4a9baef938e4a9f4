//! The rules of a PTY session's lifecycle.
//!
//! A session holds its checkpointable terminal state, whether a child is running,
//! its exit code and the window size. The host application owns the PTY file
//! handles and the child process; it performs each system call and reports back
//! here, and takes from here what to send or return.

use vstd::prelude::*;

use crate::pty::unix::PtySize;
use crate::session_state::{is_fresh_state, SessionState, TerminalState};
use crate::text::{owned, str_equals};
use crate::utils::error::{PtyError, PtyResult};

verus! {

/// The state a PTY session keeps besides its OS handles.
pub struct SessionCore {
    state: TerminalState,
    running: bool,
    exit_code: Option<i32>,
    size: PtySize,
}

impl SessionCore {
    /// The terminal state (checkpointed with the session).
    pub closed spec fn terminal(&self) -> TerminalState {
        self.state
    }

    /// Whether a child process is running.
    pub closed spec fn running(&self) -> bool {
        self.running
    }

    /// The exit code of the child, once it has exited.
    pub closed spec fn exit(&self) -> Option<i32> {
        self.exit_code
    }

    /// The current window size.
    pub closed spec fn window(&self) -> PtySize {
        self.size
    }

    /// A new session `session_id`: fresh terminal state, nothing running, 80x24.
    pub fn new(session_id: &str) -> (s: Self)
        ensures
            is_fresh_state(s.terminal(), session_id@),
            !s.running(),
            s.exit() is None,
            s.window() == (PtySize { rows: 24, cols: 80, pixel_width: 0, pixel_height: 0 }),
    {
        SessionCore {
            state: TerminalState::new(session_id),
            running: false,
            exit_code: None,
            size: PtySize { rows: 24, cols: 80, pixel_width: 0, pixel_height: 0 },
        }
    }

    /// The directory a new shell starts in: the session's working directory, unless
    /// it is empty or `/`.
    pub fn spawn_cwd(&self) -> (r: Option<String>)
        ensures
            (self.terminal().cwd@.len() == 0 || self.terminal().cwd@ == "/"@) ==> r is None,
            !(self.terminal().cwd@.len() == 0 || self.terminal().cwd@ == "/"@) ==> (r matches Some(d) && d@
                == self.terminal().cwd@),
    {
        if self.state.cwd.unicode_len() == 0 || str_equals(self.state.cwd.as_str(), "/") {
            None
        } else {
            Some(owned(self.state.cwd.as_str()))
        }
    }

    /// Records that a shell was spawned: running, no exit code, session active.
    pub fn mark_spawned(&mut self)
        ensures
            final(self).running(),
            final(self).exit() is None,
            final(self).terminal() == (TerminalState { state: SessionState::Active, ..old(self).terminal() }),
            final(self).window() == old(self).window(),
    {
        self.running = true;
        self.exit_code = None;
        self.state.transition_to(SessionState::Active);
    }

    /// Input, output and signals need a running child.
    pub fn require_running(&self) -> (r: PtyResult<()>)
        ensures
            self.running() ==> r is Ok,
            !self.running() ==> r matches Err(PtyError::NotInitialized),
    {
        if !self.running {
            return Err(PtyError::NotInitialized);
        }
        Ok(())
    }

    /// Records a new window size; the terminal state keeps it as (cols, rows).
    pub fn resize(&mut self, cols: u16, rows: u16)
        ensures
            final(self).window() == (PtySize { rows, cols, pixel_width: 0, pixel_height: 0 }),
            final(self).terminal() == (TerminalState { dimensions: (cols, rows), ..old(self).terminal() }),
            final(self).running() == old(self).running(),
            final(self).exit() == old(self).exit(),
    {
        self.size = PtySize { rows, cols, pixel_width: 0, pixel_height: 0 };
        self.state.dimensions = (cols, rows);
    }

    /// Records that the child exited with `code`: not running, session checkpointed.
    pub fn mark_exited(&mut self, code: i32)
        ensures
            !final(self).running(),
            final(self).exit() == Some(code),
            final(self).terminal() == (TerminalState { state: SessionState::Checkpointed, ..old(self).terminal() }),
            final(self).window() == old(self).window(),
    {
        self.exit_code = Some(code);
        self.running = false;
        self.state.transition_to(SessionState::Checkpointed);
    }

    /// Records that the session was closed: not running, session checkpointed.
    pub fn mark_closed(&mut self)
        ensures
            !final(self).running(),
            final(self).exit() == old(self).exit(),
            final(self).terminal() == (TerminalState { state: SessionState::Checkpointed, ..old(self).terminal() }),
            final(self).window() == old(self).window(),
    {
        self.running = false;
        self.state.transition_to(SessionState::Checkpointed);
    }

    /// The session's lifecycle state.
    pub fn session_state(&self) -> (s: SessionState)
        ensures
            s == self.terminal().state,
    {
        self.state.state
    }

    /// The terminal state, for checkpointing.
    pub fn terminal_state(&self) -> (t: &TerminalState)
        ensures
            *t == self.terminal(),
    {
        &self.state
    }

    /// Replaces the terminal state (after a restore).
    pub fn set_terminal_state(&mut self, new_state: TerminalState)
        ensures
            final(self).terminal() == new_state,
            final(self).running() == old(self).running(),
            final(self).exit() == old(self).exit(),
            final(self).window() == old(self).window(),
    {
        self.state = new_state;
    }

    /// Whether a child is running.
    pub fn is_running(&self) -> (r: bool)
        ensures
            r == self.running(),
    {
        self.running
    }

    /// The child's exit code, once it has exited.
    pub fn exit_code(&self) -> (r: Option<i32>)
        ensures
            r == self.exit(),
    {
        self.exit_code
    }

    /// The session id.
    pub fn session_id(&self) -> (r: String)
        ensures
            r@ == self.terminal().session_id@,
    {
        owned(self.state.session_id.as_str())
    }

    /// The window size.
    pub fn size(&self) -> (r: PtySize)
        ensures
            r == self.window(),
    {
        self.size
    }
}

/// The byte written to the terminal for a signal the terminal itself can deliver:
/// SIGINT is Ctrl-C (0x03) and SIGQUIT is Ctrl-\ (0x1c). Other signals have none.
pub fn signal_byte(signal: i32) -> (b: Option<u8>)
    ensures
        signal == 2 ==> b == Some(0x03u8),
        signal == 3 ==> b == Some(0x1cu8),
        signal != 2 && signal != 3 ==> b is None,
{
    match signal {
        2 => Some(0x03),
        3 => Some(0x1c),
        _ => None,
    }
}

/// What a read from the PTY gave.
pub enum ReadOutcome {
    /// This many bytes (0 at end of file).
    Bytes(usize),
    /// No data yet on a non-blocking handle.
    WouldBlock,
    /// Any other error, with its text.
    Failed(String),
}

/// The result of a read and whether the child's status should be checked: end of
/// file and errors may mean the child has exited.
pub fn after_read(o: ReadOutcome) -> (r: (PtyResult<usize>, bool))
    ensures
        match o {
            ReadOutcome::Bytes(n) => r.0 == Ok::<usize, PtyError>(n) && r.1 == (n == 0),
            ReadOutcome::WouldBlock => r.0 == Ok::<usize, PtyError>(0) && !r.1,
            ReadOutcome::Failed(e) => (r.0 matches Err(PtyError::ReadFailed(m)) && m == e) && r.1,
        },
{
    match o {
        ReadOutcome::Bytes(n) => (Ok(n), n == 0),
        ReadOutcome::WouldBlock => (Ok(0), false),
        ReadOutcome::Failed(e) => (Err(PtyError::ReadFailed(e)), true),
    }
}

/// What a read with a timeout gave.
pub enum TimedRead {
    /// The read finished in time with this many bytes.
    Done(usize),
    /// The read failed, with the error's text.
    Failed(String),
    /// Nothing arrived before the timeout.
    TimedOut,
    /// The reading thread panicked.
    Panicked,
}

/// The result of a read with a timeout: the byte count, 0 on timeout, or a read
/// failure (also when the reading thread panicked).
pub fn after_timed_read(o: TimedRead) -> (r: PtyResult<usize>)
    ensures
        match o {
            TimedRead::Done(n) => r == Ok::<usize, PtyError>(n),
            TimedRead::TimedOut => r == Ok::<usize, PtyError>(0),
            TimedRead::Failed(e) => r matches Err(PtyError::ReadFailed(m)) && m == e,
            TimedRead::Panicked => r matches Err(PtyError::ReadFailed(m)) && m@ == "Read thread panicked"@,
        },
{
    match o {
        TimedRead::Done(n) => Ok(n),
        TimedRead::TimedOut => Ok(0),
        TimedRead::Failed(e) => Err(PtyError::ReadFailed(e)),
        TimedRead::Panicked => Err(PtyError::ReadFailed(owned("Read thread panicked"))),
    }
}

} // verus!
