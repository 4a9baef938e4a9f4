//! The plain-value side of the POSIX PTY setup.

use vstd::prelude::*;

use crate::text::owned;

verus! {

/// PTY window size, matching the classic `winsize` layout.
#[derive(Debug, Clone, Copy, PartialEq, Eq, Structural)]
pub struct PtySize {
    pub rows: u16,
    pub cols: u16,
    pub pixel_width: u16,
    pub pixel_height: u16,
}

impl Default for PtySize {
    /// 80 columns by 24 rows, no pixel size.
    fn default() -> (s: Self)
        ensures
            s == (PtySize { rows: 24, cols: 80, pixel_width: 0, pixel_height: 0 }),
    {
        PtySize { rows: 24, cols: 80, pixel_width: 0, pixel_height: 0 }
    }
}

/// The exit code reported for a child: its exit status, or 128 plus the signal
/// that killed it, or 1 when neither is known.
pub open spec fn exit_code_spec(code: Option<i32>, signal: Option<i32>) -> int {
    match code {
        Some(c) => c as int,
        None => match signal {
            Some(s) => 128 + s,
            None => 1,
        },
    }
}

/// The exit code for a child that exited with `code` or was killed by `signal`.
pub fn exit_code_from(code: Option<i32>, signal: Option<i32>) -> (r: i32)
    requires
        signal matches Some(s) ==> s <= i32::MAX - 128,
    ensures
        r == exit_code_spec(code, signal),
{
    match code {
        Some(c) => c,
        None => match signal {
            Some(s) => 128 + s,
            None => 1,
        },
    }
}

/// The environment a shell is started with, in order: the terminal type, colour
/// support and locale; with a working directory, `HOME` set to it, no `ENV` file
/// and a plain prompt; on Android, the system `PATH` and Android's data and root
/// directories.
pub open spec fn child_env_spec(cwd: Option<Seq<char>>, android: bool) -> Seq<(Seq<char>, Seq<char>)> {
    let base = seq![("TERM"@, "xterm-256color"@), ("COLORTERM"@, "truecolor"@), ("LANG"@, "en_US.UTF-8"@)];
    let dir = match cwd {
        Some(d) => seq![("HOME"@, d), ("ENV"@, "/dev/null"@), ("PS1"@, "\\$ "@)],
        None => Seq::empty(),
    };
    let sys = if android {
        seq![
            ("PATH"@, "/product/bin:/apex/com.android.runtime/bin:/system_ext/bin:/system/bin:/system/xbin:/vendor/bin"@),
            ("ANDROID_DATA"@, "/data"@),
            ("ANDROID_ROOT"@, "/system"@),
        ]
    } else {
        Seq::empty()
    };
    base + dir + sys
}

pub open spec fn pairs_view(v: Seq<(String, String)>) -> Seq<(Seq<char>, Seq<char>)> {
    Seq::new(v.len(), |i: int| (v[i].0@, v[i].1@))
}

fn push_pair(v: &mut Vec<(String, String)>, k: &str, val: &str)
    ensures
        pairs_view(final(v)@) == pairs_view(old(v)@).push((k@, val@)),
{
    v.push((owned(k), owned(val)));
    assert(pairs_view(v@) =~= pairs_view(old(v)@).push((k@, val@)));
}

/// The environment variables set for a shell started in `cwd`.
pub fn child_env(cwd: Option<&str>, android: bool) -> (v: Vec<(String, String)>)
    ensures
        pairs_view(v@) == child_env_spec(
            match cwd {
                Some(d) => Some(d@),
                None => None,
            },
            android,
        ),
{
    let mut v: Vec<(String, String)> = Vec::new();
    push_pair(&mut v, "TERM", "xterm-256color");
    push_pair(&mut v, "COLORTERM", "truecolor");
    push_pair(&mut v, "LANG", "en_US.UTF-8");
    match cwd {
        Some(dir) => {
            push_pair(&mut v, "HOME", dir);
            push_pair(&mut v, "ENV", "/dev/null");
            push_pair(&mut v, "PS1", "\\$ ");
        },
        None => {},
    }
    if android {
        push_pair(
            &mut v,
            "PATH",
            "/product/bin:/apex/com.android.runtime/bin:/system_ext/bin:/system/bin:/system/xbin:/vendor/bin",
        );
        push_pair(&mut v, "ANDROID_DATA", "/data");
        push_pair(&mut v, "ANDROID_ROOT", "/system");
    }
    proof {
        let c = match cwd {
            Some(d) => Some(d@),
            None => None,
        };
        assert(pairs_view(v@) =~= child_env_spec(c, android));
    }
    v
}

} // verus!
