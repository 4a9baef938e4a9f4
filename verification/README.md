# terminal_core

The core of an Android terminal emulator, written in Verus: every decision the
terminal makes is an executable function with a contract that Verus proves.

- `src/terminal`: cells and attributes, the screen buffer (cursor, wrapping,
  scrollback, clearing, resizing), the escape-sequence interpreter on top of the
  `vte` state machine, and the render model (text plus maximal style spans).
- `src/vfs`: Unix path components, the capability model of internal, SAF and FAT
  storage, the mount table (longest component-prefix match, permanent root), the
  provider interface, the service (its plan for each request: refused with a
  reason and hint, or the provider and mount-relative path it goes to; and the
  outcome for each provider result), permission health reports and the metadata
  cache.
- `src/pty`: process configuration and the lifecycle rules of a PTY session.
- `src/session_state.rs`: lifecycle states, the checkpointed state and the
  checkpoint policy (file names, interval, ordering, cleanup).
- `src/jni_safe.rs`, `src/utils`: the JNI boundary checks, error types and their
  texts, the last-error slot and the log line format.

`app/` is the host side that Verus does not see: the POSIX PTY system calls, the
host filesystem, checkpoint files (bincode), logging and the JNI entry points.
