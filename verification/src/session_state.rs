//! Session lifecycle state and the checkpoint policy.
//!
//! The operating system may kill the process at any time, so a session is
//! checkpointed to disk and restored later. This module holds the state that is
//! saved, the lifecycle states, and the rules of the checkpoint manager (file
//! names, the minimum interval, which files are kept); the file I/O and the
//! encoding of a state into bytes are done by the caller.

use vstd::prelude::*;

use crate::clock::nanos_since;
use crate::text::{chars_of, concat2, concat4, decimal, owned, push_char, string_from_chars, u64_to_decimal};
use crate::vfs::provider::{join_path, path_join};

verus! {

/// Session lifecycle states.
#[derive(Debug, Clone, Copy, PartialEq, Eq, Structural)]
pub enum SessionState {
    /// Session is running normally.
    Active,
    /// Session has been checkpointed to disk (app backgrounded).
    Checkpointed,
    /// Session was restored from a checkpoint.
    Restored,
    /// Session failed to restore or hit a fatal error.
    Failed,
}

pub open spec fn state_message(s: SessionState) -> Seq<char> {
    match s {
        SessionState::Active => "Session active"@,
        SessionState::Checkpointed => "Session saved (backgrounded)"@,
        SessionState::Restored => "Session restored from checkpoint"@,
        SessionState::Failed => "Session restoration failed"@,
    }
}

pub open spec fn state_color(s: SessionState) -> u32 {
    match s {
        SessionState::Active => 0xFF4CAF50u32,
        SessionState::Checkpointed => 0xFFFFC107u32,
        SessionState::Restored => 0xFF2196F3u32,
        SessionState::Failed => 0xFFF44336u32,
    }
}

/// The variant name, as `Debug` prints it.
pub open spec fn state_name(s: SessionState) -> Seq<char> {
    match s {
        SessionState::Active => "Active"@,
        SessionState::Checkpointed => "Checkpointed"@,
        SessionState::Restored => "Restored"@,
        SessionState::Failed => "Failed"@,
    }
}

/// The numeric code of a state (its `u8` representation).
pub open spec fn state_code(s: SessionState) -> u8 {
    match s {
        SessionState::Active => 0u8,
        SessionState::Checkpointed => 1u8,
        SessionState::Restored => 2u8,
        SessionState::Failed => 3u8,
    }
}

impl SessionState {
    /// Human-readable description for the UI.
    pub fn display_message(&self) -> (s: &'static str)
        ensures
            s@ == state_message(*self),
    {
        match self {
            SessionState::Active => "Session active",
            SessionState::Checkpointed => "Session saved (backgrounded)",
            SessionState::Restored => "Session restored from checkpoint",
            SessionState::Failed => "Session restoration failed",
        }
    }

    /// UI indicator color (ARGB): green, amber, blue or red.
    pub fn indicator_color(&self) -> (c: u32)
        ensures
            c == state_color(*self),
    {
        match self {
            SessionState::Active => 0xFF4CAF50,
            SessionState::Checkpointed => 0xFFFFC107,
            SessionState::Restored => 0xFF2196F3,
            SessionState::Failed => 0xFFF44336,
        }
    }

    /// Whether the state requires user attention: a failed or a restored session.
    pub fn needs_attention(&self) -> (r: bool)
        ensures
            r <==> (*self == SessionState::Failed || *self == SessionState::Restored),
    {
        match self {
            SessionState::Failed | SessionState::Restored => true,
            _ => false,
        }
    }

    /// The variant name.
    pub fn name(&self) -> (s: &'static str)
        ensures
            s@ == state_name(*self),
    {
        match self {
            SessionState::Active => "Active",
            SessionState::Checkpointed => "Checkpointed",
            SessionState::Restored => "Restored",
            SessionState::Failed => "Failed",
        }
    }

    /// The numeric code handed over the JNI boundary.
    pub fn code(&self) -> (c: u8)
        ensures
            c == state_code(*self),
    {
        match self {
            SessionState::Active => 0,
            SessionState::Checkpointed => 1,
            SessionState::Restored => 2,
            SessionState::Failed => 3,
        }
    }
}

/// Style span for text formatting in a saved screen line.
#[derive(Debug, Clone, Copy)]
pub struct StyleSpan {
    pub start: usize,
    pub end: usize,
    pub foreground: u32,
    pub background: u32,
    pub bold: bool,
    pub italic: bool,
    pub underline: bool,
}

/// Single line in the saved screen buffer.
#[derive(Debug, Clone)]
pub struct ScreenLine {
    /// Text content of the line.
    pub text: String,
    /// Style information.
    pub styles: Vec<StyleSpan>,
}

/// Complete terminal session state, as checkpointed.
#[derive(Debug)]
pub struct TerminalState {
    /// Unique session identifier.
    pub session_id: String,
    /// Current session state.
    pub state: SessionState,
    /// Terminal screen buffer lines.
    pub screen_buffer: Vec<ScreenLine>,
    /// Cursor position (row, column).
    pub cursor_position: (u32, u32),
    /// Current working directory.
    pub cwd: String,
    /// Environment variables.
    pub env_vars: Vec<(String, String)>,
    /// Scrollback buffer size.
    pub scrollback_size: usize,
    /// Terminal dimensions (cols, rows).
    pub dimensions: (u16, u16),
    /// Unix time (seconds) when checkpointed.
    pub checkpoint_time: u64,
    /// Format version, for forward compatibility.
    pub version: u32,
}

/// A fresh state for the session `id`: active, empty buffer, cursor at the origin,
/// working directory `/`, no environment, 10000 lines of scrollback, 80x24, never
/// checkpointed, version 1.
pub open spec fn is_fresh_state(t: TerminalState, id: Seq<char>) -> bool {
    &&& t.session_id@ == id
    &&& t.state == SessionState::Active
    &&& t.screen_buffer@.len() == 0
    &&& t.cursor_position == (0u32, 0u32)
    &&& t.cwd@ == "/"@
    &&& t.env_vars@.len() == 0
    &&& t.scrollback_size == 10000
    &&& t.dimensions == (80u16, 24u16)
    &&& t.checkpoint_time == 0
    &&& t.version == CHECKPOINT_VERSION
}

/// A lowercase hexadecimal digit.
pub open spec fn hex_digit_char(d: nat) -> char {
    if d < 10 {
        (48 + d) as char
    } else {
        (87 + d) as char
    }
}

/// The lowercase hexadecimal digits of `n`.
pub open spec fn hex(n: nat) -> Seq<char>
    decreases n,
{
    if n < 16 {
        seq![hex_digit_char(n)]
    } else {
        hex(n / 16).push(hex_digit_char(n % 16))
    }
}

/// `s` padded on the left with '0' to at least `width` characters.
pub open spec fn zero_padded(s: Seq<char>, width: nat) -> Seq<char> {
    if s.len() < width {
        Seq::new((width - s.len()) as nat, |i: int| '0') + s
    } else {
        s
    }
}

/// The session id made from a timestamp in microseconds: `session_` and at least
/// sixteen hexadecimal digits.
pub open spec fn session_id_text(micros: nat) -> Seq<char> {
    "session_"@ + zero_padded(hex(micros), 16)
}

fn hex_digit(d: u128) -> (c: char)
    requires
        d < 16,
    ensures
        c == hex_digit_char(d as nat),
{
    match d {
        0 => '0',
        1 => '1',
        2 => '2',
        3 => '3',
        4 => '4',
        5 => '5',
        6 => '6',
        7 => '7',
        8 => '8',
        9 => '9',
        10 => 'a',
        11 => 'b',
        12 => 'c',
        13 => 'd',
        14 => 'e',
        _ => 'f',
    }
}

/// The hexadecimal digits of `v`, padded with zeros to sixteen.
fn padded_hex(v: u128) -> (s: Vec<char>)
    ensures
        s@ == zero_padded(hex(v as nat), 16),
{
    let mut n = v;
    let mut stack: Vec<char> = Vec::new();
    while n >= 16
        invariant
            hex(v as nat) == hex(n as nat) + stack@.reverse(),
        decreases n,
    {
        let c = hex_digit(n % 16);
        proof {
            assert(hex(n as nat) == hex((n / 16) as nat).push(hex_digit_char((n % 16) as nat)));
        }
        stack.push(c);
        proof {
            assert(stack@.reverse() =~= seq![c] + stack@.drop_last().reverse());
        }
        n = n / 16;
    }
    let mut digits: Vec<char> = Vec::new();
    digits.push(hex_digit(n));
    let mut k = stack.len();
    while k > 0
        invariant
            k <= stack@.len(),
            hex(v as nat) == digits@ + stack@.subrange(0, k as int).reverse(),
        decreases k,
    {
        let ghost rest = stack@.subrange(0, k as int);
        digits.push(stack[k - 1]);
        assert(rest.reverse() =~= seq![stack@[k - 1]] + stack@.subrange(0, k - 1).reverse());
        k = k - 1;
    }
    assert(stack@.subrange(0, 0).reverse() =~= Seq::<char>::empty());
    assert(digits@ == hex(v as nat));
    if digits.len() >= 16 {
        return digits;
    }
    let pad = 16 - digits.len();
    let mut out: Vec<char> = Vec::new();
    let mut i: usize = 0;
    while i < pad
        invariant
            i <= pad,
            out@ == Seq::new(i as nat, |j: int| '0'),
        decreases pad - i,
    {
        out.push('0');
        i = i + 1;
        assert(out@ =~= Seq::new(i as nat, |j: int| '0'));
    }
    let mut j: usize = 0;
    while j < digits.len()
        invariant
            j <= digits@.len(),
            out@ == Seq::new(pad as nat, |x: int| '0') + digits@.subrange(0, j as int),
        decreases digits@.len() - j,
    {
        out.push(digits[j]);
        j = j + 1;
        assert(out@ =~= Seq::new(pad as nat, |x: int| '0') + digits@.subrange(0, j as int));
    }
    assert(digits@.subrange(0, digits@.len() as int) =~= digits@);
    out
}

/// The session id for a timestamp in microseconds (`session_{:016x}`).
pub fn session_id_from_micros(micros: u128) -> (id: String)
    ensures
        id@ == session_id_text(micros as nat),
{
    let digits = padded_hex(micros);
    let mut id = String::from_str("session_");
    let mut i: usize = 0;
    while i < digits.len()
        invariant
            i <= digits@.len(),
            id@ == "session_"@ + digits@.subrange(0, i as int),
        decreases digits@.len() - i,
    {
        push_char(&mut id, digits[i]);
        i = i + 1;
        assert(id@ =~= "session_"@ + digits@.subrange(0, i as int));
    }
    assert(digits@.subrange(0, digits@.len() as int) =~= digits@);
    id
}

/// The wall-clock time in microseconds since the Unix epoch (0 for a clock set
/// before the epoch), from `SystemTime::now`. Nothing is stated of the value.
#[verifier::external_body]
fn epoch_micros() -> u128 {
    match std::time::SystemTime::now().duration_since(std::time::UNIX_EPOCH) {
        Ok(d) => d.as_micros(),
        Err(_) => 0,
    }
}

/// A new, probably unique, session id made from the current time.
pub fn generate_session_id() -> (id: String)
    ensures
        exists|m: nat| id@ == session_id_text(m),
{
    let m = epoch_micros();
    session_id_from_micros(m)
}

impl TerminalState {
    /// A fresh state for the session `session_id`.
    pub fn new(session_id: &str) -> (t: Self)
        ensures
            is_fresh_state(t, session_id@),
    {
        TerminalState {
            session_id: owned(session_id),
            state: SessionState::Active,
            screen_buffer: Vec::new(),
            cursor_position: (0, 0),
            cwd: String::from_str("/"),
            env_vars: Vec::new(),
            scrollback_size: 10000,
            dimensions: (80, 24),
            checkpoint_time: 0,
            version: CHECKPOINT_VERSION,
        }
    }

    /// Moves the session to `new_state`; nothing else changes.
    pub fn transition_to(&mut self, new_state: SessionState)
        ensures
            *final(self) == (TerminalState { state: new_state, ..*old(self) }),
    {
        self.state = new_state;
    }
}

impl Default for TerminalState {
    /// A fresh state with a session id generated from the current time.
    fn default() -> (t: Self)
        ensures
            exists|m: nat| is_fresh_state(t, session_id_text(m)),
    {
        let id = generate_session_id();
        let t = TerminalState::new(id.as_str());
        t
    }
}

/// The state as it is written to disk: marked checkpointed, stamped with `now_secs`.
pub fn prepare_checkpoint(state: TerminalState, now_secs: u64) -> (t: TerminalState)
    ensures
        t == (TerminalState { state: SessionState::Checkpointed, checkpoint_time: now_secs, ..state }),
{
    let mut t = state;
    t.state = SessionState::Checkpointed;
    t.checkpoint_time = now_secs;
    t
}

/// The checkpoint format version this library writes and reads.
pub const CHECKPOINT_VERSION: u32 = 1;

/// What restoring a state read back from disk gives: the state marked restored when
/// it has the current format version; otherwise a version mismatch, a hard error.
pub open spec fn restore_outcome(state: TerminalState) -> Result<TerminalState, CheckpointError> {
    if state.version == CHECKPOINT_VERSION {
        Ok(TerminalState { state: SessionState::Restored, ..state })
    } else {
        Err(CheckpointError::VersionMismatch { expected: CHECKPOINT_VERSION, found: state.version })
    }
}

/// A state read back from disk: marked restored, or refused when its format version
/// is not the current one.
pub fn mark_restored(state: TerminalState) -> (r: Result<TerminalState, CheckpointError>)
    ensures
        r == restore_outcome(state),
{
    if state.version != CHECKPOINT_VERSION {
        return Err(CheckpointError::VersionMismatch { expected: CHECKPOINT_VERSION, found: state.version });
    }
    let mut t = state;
    t.state = SessionState::Restored;
    Ok(t)
}

/// A session written to a checkpoint and read back is the same session, marked
/// restored and stamped with the checkpoint time: id, screen buffer, cursor, working
/// directory, environment and dimensions are all kept. A state of another format
/// version is refused with the version it has.
pub proof fn lemma_checkpoint_then_restore(s: TerminalState, now_secs: u64)
    ensures
        s.version == CHECKPOINT_VERSION ==> restore_outcome(
            TerminalState { state: SessionState::Checkpointed, checkpoint_time: now_secs, ..s },
        ) == Ok::<TerminalState, CheckpointError>(TerminalState { state: SessionState::Restored, checkpoint_time: now_secs, ..s }),
        s.version != CHECKPOINT_VERSION ==> restore_outcome(
            TerminalState { state: SessionState::Checkpointed, checkpoint_time: now_secs, ..s },
        ) == Err::<TerminalState, CheckpointError>(CheckpointError::VersionMismatch { expected: CHECKPOINT_VERSION, found: s.version }),
{
}

/// Errors that can occur during checkpointing.
#[derive(Debug, Clone)]
pub enum CheckpointError {
    /// Checkpoint file not found.
    NotFound(String),
    /// I/O error.
    Io(String),
    /// Serialization error.
    Serialization(String),
    /// Deserialization error.
    Deserialization(String),
    /// Version mismatch.
    VersionMismatch { expected: u32, found: u32 },
}

/// The text of a checkpoint error, as `Display` prints it.
pub open spec fn checkpoint_error_text(e: CheckpointError) -> Seq<char> {
    match e {
        CheckpointError::NotFound(id) => "Checkpoint not found: "@ + id@,
        CheckpointError::Io(m) => "I/O error: "@ + m@,
        CheckpointError::Serialization(m) => "Serialization error: "@ + m@,
        CheckpointError::Deserialization(m) => "Deserialization error: "@ + m@,
        CheckpointError::VersionMismatch { expected, found } => "Version mismatch: expected "@
            + decimal(expected as nat) + ", found "@ + decimal(found as nat),
    }
}

impl CheckpointError {
    /// The error text shown to the user.
    pub fn message(&self) -> (s: String)
        ensures
            s@ == checkpoint_error_text(*self),
    {
        match self {
            CheckpointError::NotFound(id) => concat2("Checkpoint not found: ", id.as_str()),
            CheckpointError::Io(m) => concat2("I/O error: ", m.as_str()),
            CheckpointError::Serialization(m) => concat2("Serialization error: ", m.as_str()),
            CheckpointError::Deserialization(m) => concat2("Deserialization error: ", m.as_str()),
            CheckpointError::VersionMismatch { expected, found } => {
                let e = u64_to_decimal(*expected as u64);
                let f = u64_to_decimal(*found as u64);
                concat4("Version mismatch: expected ", e.as_str(), ", found ", f.as_str())
            },
        }
    }
}


/// Information about a checkpoint file.
#[derive(Debug, Clone)]
pub struct CheckpointInfo {
    pub session_id: String,
    pub path: String,
    pub size: u64,
    /// Last modification, in nanoseconds since the Unix epoch, when known.
    pub modified: Option<u128>,
}

/// The file name suffix of a checkpoint.
pub open spec fn checkpoint_suffix() -> Seq<char> {
    ".checkpoint"@
}

/// The part of `p` after its last `/` (all of it when there is none).
pub open spec fn last_piece(p: Seq<char>) -> Seq<char>
    decreases p.len(),
{
    if p.len() == 0 {
        p
    } else if p.last() == '/' {
        Seq::empty()
    } else {
        last_piece(p.drop_last()).push(p.last())
    }
}

/// `Path::with_extension("checkpoint.tmp")` on a checkpoint path: the extension
/// `checkpoint` becomes `checkpoint.tmp`, except that a file named just
/// `.checkpoint` has no extension and gets one added.
pub open spec fn temp_path_of(p: Seq<char>) -> Seq<char> {
    if last_piece(p) == checkpoint_suffix() {
        p + ".checkpoint.tmp"@
    } else {
        p + ".tmp"@
    }
}

/// The session id of a checkpoint file: the file name without its `.checkpoint`
/// extension, when it has that extension and something before it.
pub open spec fn checkpoint_id_of(name: Seq<char>) -> Option<Seq<char>> {
    let n = checkpoint_suffix().len();
    if name.len() > n && name.subrange(name.len() - n, name.len() as int) == checkpoint_suffix() {
        Some(name.subrange(0, name.len() - n))
    } else {
        None
    }
}

/// `a` was modified no earlier than `b` (an unknown time counts as the oldest).
pub open spec fn newer_or_same(a: Option<u128>, b: Option<u128>) -> bool {
    match (a, b) {
        (_, None) => true,
        (None, Some(_)) => false,
        (Some(x), Some(y)) => x >= y,
    }
}

/// The checkpoints are ordered newest first.
pub open spec fn newest_first(s: Seq<CheckpointInfo>) -> bool {
    forall|i: int, j: int| 0 <= i < j < s.len() ==> newer_or_same(#[trigger] s[i].modified, #[trigger] s[j].modified)
}

/// The default minimum interval between checkpoints: thirty seconds.
pub const DEFAULT_CHECKPOINT_INTERVAL_NANOS: u128 = 30_000_000_000;

/// Whether a checkpoint is due: when none was taken yet, or when at least
/// `interval` nanoseconds have passed since the last one.
pub fn checkpoint_due(elapsed_since_last: Option<u128>, interval: u128) -> (r: bool)
    ensures
        r == match elapsed_since_last {
            None => true,
            Some(e) => e >= interval,
        },
{
    match elapsed_since_last {
        None => true,
        Some(e) => e >= interval,
    }
}

/// The checkpoint policy: where checkpoint files go and how often they are written.
/// Writing, reading and listing the files is done by the caller.
pub struct CheckpointManager {
    checkpoint_dir: String,
    last_checkpoint: Option<std::time::Instant>,
    min_interval_nanos: u128,
}

impl CheckpointManager {
    /// The directory holding the checkpoints.
    pub closed spec fn dir(&self) -> Seq<char> {
        self.checkpoint_dir@
    }

    /// The minimum interval between checkpoints, in nanoseconds.
    pub closed spec fn interval(&self) -> u128 {
        self.min_interval_nanos
    }

    /// Whether a checkpoint was recorded.
    pub closed spec fn has_checkpointed(&self) -> bool {
        self.last_checkpoint is Some
    }

    /// When the last checkpoint was recorded, if one was.
    pub closed spec fn last_at(&self) -> Option<std::time::Instant> {
        self.last_checkpoint
    }

    /// A manager for `checkpoint_dir` with a thirty-second interval and no
    /// checkpoint taken yet.
    pub fn new(checkpoint_dir: &str) -> (m: Self)
        ensures
            m.dir() == checkpoint_dir@,
            m.interval() == DEFAULT_CHECKPOINT_INTERVAL_NANOS,
            !m.has_checkpointed(),
    {
        CheckpointManager {
            checkpoint_dir: owned(checkpoint_dir),
            last_checkpoint: None,
            min_interval_nanos: DEFAULT_CHECKPOINT_INTERVAL_NANOS,
        }
    }

    /// The same manager with another minimum interval (nanoseconds).
    pub fn with_interval(self, interval_nanos: u128) -> (m: Self)
        ensures
            m.dir() == self.dir(),
            m.interval() == interval_nanos,
            m.has_checkpointed() == self.has_checkpointed(),
    {
        let mut m = self;
        m.min_interval_nanos = interval_nanos;
        m
    }

    /// The directory holding the checkpoints.
    pub fn checkpoint_dir(&self) -> (s: &str)
        ensures
            s@ == self.dir(),
    {
        self.checkpoint_dir.as_str()
    }

    /// The checkpoint file of a session: `<session_id>.checkpoint` in the directory.
    pub fn checkpoint_path(&self, session_id: &str) -> (p: String)
        ensures
            p@ == path_join(self.dir(), session_id@ + checkpoint_suffix()),
    {
        let name = concat2(session_id, ".checkpoint");
        join_path(self.checkpoint_dir.as_str(), name.as_str())
    }

    /// The file a checkpoint is first written to, before it is renamed into place.
    pub fn temp_path(&self, session_id: &str) -> (p: String)
        ensures
            p@ == temp_path_of(path_join(self.dir(), session_id@ + checkpoint_suffix())),
    {
        let path = self.checkpoint_path(session_id);
        let chars = chars_of(path.as_str());
        let tail = last_piece_of(&chars);
        let bare = chars_of(".checkpoint");
        proof {
            reveal_strlit(".checkpoint");
        }
        if crate::vfs::path::chars_equal(&tail, &bare) {
            concat2(path.as_str(), ".checkpoint.tmp")
        } else {
            concat2(path.as_str(), ".tmp")
        }
    }

    /// Whether a checkpoint is due now: always before the first one, afterwards
    /// once the interval has passed (as the monotonic clock says).
    pub fn should_checkpoint(&self) -> (r: bool)
        ensures
            !self.has_checkpointed() ==> r,
            self.interval() == 0 ==> r,
    {
        match &self.last_checkpoint {
            Some(last) => {
                let elapsed = nanos_since(last);
                checkpoint_due(Some(elapsed), self.min_interval_nanos)
            },
            None => checkpoint_due(None, self.min_interval_nanos),
        }
    }

    /// Records that a checkpoint was written at `at`.
    pub fn record_checkpoint(&mut self, at: std::time::Instant)
        ensures
            final(self).has_checkpointed(),
            final(self).last_at() == Some(at),
            final(self).dir() == old(self).dir(),
            final(self).interval() == old(self).interval(),
    {
        self.last_checkpoint = Some(at);
    }

    /// The outcome of a checkpoint write finished at `at`: only a write that
    /// succeeded is recorded; a failed one leaves the manager as it was, so the
    /// next checkpoint stays due.
    pub fn after_write(&mut self, written: bool, at: std::time::Instant)
        ensures
            written ==> final(self).last_at() == Some(at) && final(self).has_checkpointed(),
            !written ==> final(self).last_at() == old(self).last_at() && final(self).has_checkpointed()
                == old(self).has_checkpointed(),
            final(self).dir() == old(self).dir(),
            final(self).interval() == old(self).interval(),
    {
        if written {
            self.record_checkpoint(at);
        }
    }
}

fn last_piece_of(chars: &Vec<char>) -> (piece: Vec<char>)
    ensures
        piece@ == last_piece(chars@),
{
    let n = chars.len();
    let mut start: usize = n;
    while start > 0 && chars[start - 1] != '/'
        invariant
            start <= n,
            n == chars@.len(),
            forall|j: int| start <= j < n ==> chars@[j] != '/',
        decreases start,
    {
        start = start - 1;
    }
    proof {
        lemma_last_piece(chars@, start as int);
    }
    let mut piece: Vec<char> = Vec::new();
    let mut i = start;
    while i < n
        invariant
            start <= i <= n,
            n == chars@.len(),
            piece@ == chars@.subrange(start as int, i as int),
        decreases n - i,
    {
        piece.push(chars[i]);
        i = i + 1;
        assert(piece@ =~= chars@.subrange(start as int, i as int));
    }
    piece
}

proof fn lemma_last_piece(p: Seq<char>, start: int)
    requires
        0 <= start <= p.len(),
        start == 0 || p[start - 1] == '/',
        forall|j: int| start <= j < p.len() ==> p[j] != '/',
    ensures
        last_piece(p) == p.subrange(start, p.len() as int),
    decreases p.len(),
{
    if p.len() == start {
        if p.len() > 0 {
            assert(p.last() == '/');
        }
        assert(p.subrange(start, p.len() as int) =~= Seq::<char>::empty());
    } else {
        lemma_last_piece(p.drop_last(), start);
        assert(p.subrange(start, p.len() as int) =~= p.drop_last().subrange(start, p.len() - 1).push(p.last()));
    }
}

/// The session id of a checkpoint file name, if it is one.
pub fn checkpoint_session_id(file_name: &str) -> (r: Option<String>)
    ensures
        match checkpoint_id_of(file_name@) {
            Some(id) => r matches Some(s) && s@ == id,
            None => r is None,
        },
{
    let chars = chars_of(file_name);
    let suffix = chars_of(".checkpoint");
    proof {
        reveal_strlit(".checkpoint");
    }
    let n = chars.len();
    let k = suffix.len();
    if n <= k {
        return None;
    }
    let mut j: usize = 0;
    while j < k
        invariant
            chars@ == file_name@,
            suffix@ == checkpoint_suffix(),
            n == chars@.len(),
            k == suffix@.len(),
            k < n,
            j <= k,
            forall|x: int| 0 <= x < j ==> chars@[n - k + x] == suffix@[x],
        decreases k - j,
    {
        if chars[n - k + j] != suffix[j] {
            assert(chars@.subrange(n - k, n as int)[j as int] != suffix@[j as int]);
            return None;
        }
        j = j + 1;
    }
    assert(chars@.subrange(n - k, n as int) =~= suffix@);
    let mut id: Vec<char> = Vec::new();
    let mut i: usize = 0;
    while i < n - k
        invariant
            chars@ == file_name@,
            n == chars@.len(),
            k < n,
            i <= n - k,
            id@ == chars@.subrange(0, i as int),
        decreases n - k - i,
    {
        id.push(chars[i]);
        i = i + 1;
        assert(id@ =~= chars@.subrange(0, i as int));
    }
    Some(string_from_chars(&id))
}

fn newer_or_same_exec(a: Option<u128>, b: Option<u128>) -> (r: bool)
    ensures
        r == newer_or_same(a, b),
{
    match (a, b) {
        (_, None) => true,
        (None, Some(_)) => false,
        (Some(x), Some(y)) => x >= y,
    }
}

/// The checkpoints ordered newest first, as listed for the user and for cleanup.
pub fn sort_newest_first(v: Vec<CheckpointInfo>) -> (r: Vec<CheckpointInfo>)
    ensures
        r@.to_multiset() == v@.to_multiset(),
        newest_first(r@),
{
    broadcast use vstd::seq_lib::group_to_multiset_ensures, vstd::multiset::group_multiset_axioms;

    let ghost orig = v@;
    let mut src = v;
    let mut out: Vec<CheckpointInfo> = Vec::new();
    proof {
        assert(out@.to_multiset() =~= vstd::multiset::Multiset::<CheckpointInfo>::empty());
    }
    while src.len() > 0
        invariant
            out@.to_multiset().add(src@.to_multiset()) == orig.to_multiset(),
            newest_first(out@),
        decreases src@.len(),
    {
        let ghost s0 = src@;
        let x = src.remove(0);
        proof {
            vstd::seq_lib::to_multiset_remove(s0, 0);
            vstd::seq_lib::to_multiset_contains(s0, x);
            assert(s0.contains(x)) by {
                assert(s0[0] == x);
            }
        }
        let mut j: usize = 0;
        while j < out.len() && newer_or_same_exec(out[j].modified, x.modified)
            invariant
                j <= out@.len(),
                forall|k: int| 0 <= k < j ==> newer_or_same(#[trigger] out@[k].modified, x.modified),
            decreases out@.len() - j,
        {
            j = j + 1;
        }
        let ghost o0 = out@;
        out.insert(j, x);
        proof {
            vstd::seq_lib::to_multiset_insert(o0, j as int, x);
            assert(out@.to_multiset().add(src@.to_multiset()) =~= orig.to_multiset());
            assert forall|a: int, b: int| 0 <= a < b < out@.len() implies newer_or_same(
                #[trigger] out@[a].modified,
                #[trigger] out@[b].modified,
            ) by {
                let ja = j as int;
                if a < ja && b < ja {
                    assert(out@[a] == o0[a] && out@[b] == o0[b]);
                } else if a < ja && b == ja {
                    assert(out@[a] == o0[a]);
                } else if a < ja {
                    assert(out@[a] == o0[a] && out@[b] == o0[b - 1]);
                } else if a == ja {
                    assert(out@[b] == o0[b - 1]);
                    assert(!newer_or_same(o0[ja].modified, x.modified));
                    assert(newer_or_same(o0[ja].modified, o0[b - 1].modified));
                } else {
                    assert(out@[a] == o0[a - 1] && out@[b] == o0[b - 1]);
                }
            }
        }
    }
    proof {
        assert(src@.to_multiset() =~= vstd::multiset::Multiset::<CheckpointInfo>::empty());
        assert(out@.to_multiset().add(vstd::multiset::Multiset::<CheckpointInfo>::empty()) =~= out@.to_multiset());
    }
    out
}

/// How many of `outcomes` are `true`.
pub open spec fn count_true(outcomes: Seq<bool>) -> nat
    decreases outcomes.len(),
{
    if outcomes.len() == 0 {
        0
    } else {
        count_true(outcomes.drop_last()) + if outcomes.last() {
            1nat
        } else {
            0nat
        }
    }
}

/// The number a cleanup reports: how many of its deletions succeeded (`outcomes`
/// holds one entry per checkpoint it tried to delete).
pub fn deleted_count(outcomes: &Vec<bool>) -> (n: usize)
    ensures
        n == count_true(outcomes@),
{
    let mut n: usize = 0;
    let mut i: usize = 0;
    while i < outcomes.len()
        invariant
            i <= outcomes@.len(),
            n == count_true(outcomes@.subrange(0, i as int)),
            n <= i,
        decreases outcomes@.len() - i,
    {
        assert(outcomes@.subrange(0, i + 1).drop_last() =~= outcomes@.subrange(0, i as int));
        if outcomes[i] {
            n = n + 1;
        }
        i = i + 1;
    }
    assert(outcomes@.subrange(0, outcomes@.len() as int) =~= outcomes@);
    n
}

/// The session ids of the checkpoints to delete so that the first `keep_count`
/// (the newest, in a list ordered newest first) remain.
pub fn cleanup_targets(sorted: &Vec<CheckpointInfo>, keep_count: usize) -> (r: Vec<String>)
    ensures
        r@.len() == if sorted@.len() > keep_count { sorted@.len() - keep_count } else { 0 },
        forall|i: int| 0 <= i < r@.len() ==> (#[trigger] r@[i])@ == sorted@[keep_count + i].session_id@,
{
    let mut r: Vec<String> = Vec::new();
    let mut i: usize = keep_count;
    if i >= sorted.len() {
        return r;
    }
    while i < sorted.len()
        invariant
            keep_count <= i <= sorted@.len(),
            r@.len() == i - keep_count,
            forall|x: int| 0 <= x < r@.len() ==> (#[trigger] r@[x])@ == sorted@[keep_count + x].session_id@,
        decreases sorted@.len() - i,
    {
        r.push(owned(sorted[i].session_id.as_str()));
        i = i + 1;
    }
    r
}

/// A checkpoint file is found again under its session: for a non-empty session id
/// without `/`, the file name of the path a checkpoint is written to (in any
/// directory) is recognised as a checkpoint of exactly that session, and its
/// temporary file is not recognised as a checkpoint at all.
pub proof fn lemma_checkpoint_name_roundtrip(dir: Seq<char>, id: Seq<char>)
    requires
        id.len() > 0,
        forall|j: int| 0 <= j < id.len() ==> id[j] != '/',
    ensures
        checkpoint_id_of(last_piece(path_join(dir, id + checkpoint_suffix()))) == Some(id),
        checkpoint_id_of(last_piece(temp_path_of(path_join(dir, id + checkpoint_suffix())))) is None,
{
    reveal_strlit(".checkpoint");
    reveal_strlit(".tmp");
    reveal_strlit(".checkpoint.tmp");
    reveal_strlit("/");
    let x = id + checkpoint_suffix();
    assert(forall|j: int| 0 <= j < x.len() ==> x[j] != '/') by {
        assert forall|j: int| 0 <= j < x.len() implies x[j] != '/' by {
            if j >= id.len() {
                assert(x[j] == checkpoint_suffix()[j - id.len()]);
            }
        }
    }
    assert(x.len() > 0 && x[0] != '/');
    let p = path_join(dir, x);
    let start: int = (p.len() - x.len()) as int;
    assert(p.subrange(start, p.len() as int) =~= x);
    assert(start == 0 || p[start - 1] == '/');
    assert forall|j: int| start <= j < p.len() implies p[j] != '/' by {
        assert(p[j] == x[j - start]);
    }
    lemma_last_piece(p, start);
    let n = checkpoint_suffix().len();
    assert(x.subrange(x.len() - n, x.len() as int) =~= checkpoint_suffix());
    assert(x.subrange(0, x.len() - n) =~= id);
    let tp = temp_path_of(p);
    if last_piece(p) == checkpoint_suffix() {
        assert(false);
    }
    assert(tp == p + ".tmp"@);
    let y = x + ".tmp"@;
    assert(tp.subrange(start, tp.len() as int) =~= y);
    assert forall|j: int| start <= j < tp.len() implies tp[j] != '/' by {
        if j < p.len() {
            assert(tp[j] == p[j]);
        } else {
            assert(tp[j] == ".tmp"@[j - p.len()]);
        }
    }
    assert(start == 0 || tp[start - 1] == '/') by {
        if start > 0 {
            assert(tp[start - 1] == p[start - 1]);
        }
    }
    lemma_last_piece(tp, start);
    assert(y.subrange(y.len() - n, y.len() as int)[n - 1] == 'p');
    assert(checkpoint_suffix()[n - 1] == 't');
}

} // verus!
