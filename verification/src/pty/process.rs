//! Configuration of the process started on a PTY.

use vstd::prelude::*;

use crate::text::{concat2, owned, str_equals};
use crate::utils::error::{PtyError, PtyResult};

verus! {

/// Configuration for spawning a PTY process.
#[derive(Debug)]
pub struct ProcessConfig {
    /// Path to the shell or program to run.
    pub program: String,
    /// Arguments to pass to the program.
    pub args: Vec<String>,
    /// Environment variables, each name at most once.
    pub env: Vec<(String, String)>,
    /// Working directory.
    pub cwd: String,
    /// Terminal dimensions (cols, rows).
    pub size: (u16, u16),
}

/// No variable name occurs twice.
pub open spec fn env_unique(env: Seq<(String, String)>) -> bool {
    forall|i: int, j: int| 0 <= i < j < env.len() ==> (#[trigger] env[i]).0@ != (#[trigger] env[j]).0@
}

/// The environment as a map from names to values.
pub open spec fn env_map(env: Seq<(String, String)>) -> Map<Seq<char>, Seq<char>> {
    Map::new(
        |k: Seq<char>| exists|i: int| 0 <= i < env.len() && (#[trigger] env[i]).0@ == k,
        |k: Seq<char>| env[choose|i: int| 0 <= i < env.len() && (#[trigger] env[i]).0@ == k].1@,
    )
}

impl ProcessConfig {
    /// The configuration's invariant: no environment variable is set twice.
    pub open spec fn wf(&self) -> bool {
        env_unique(self.env@)
    }

    /// The environment as a map.
    pub open spec fn env_view(&self) -> Map<Seq<char>, Seq<char>> {
        env_map(self.env@)
    }

    /// The default shell `/system/bin/sh` in `/`, no arguments, 80x24, with
    /// `TERM=xterm-256color` and `COLORTERM=truecolor`.
    pub fn new() -> (c: Self)
        ensures
            c.wf(),
            c.program@ == "/system/bin/sh"@,
            c.args@.len() == 0,
            c.env_view() == map!["TERM"@ => "xterm-256color"@, "COLORTERM"@ => "truecolor"@],
            c.cwd@ == "/"@,
            c.size == (80u16, 24u16),
    {
        let mut env: Vec<(String, String)> = Vec::new();
        env.push((owned("TERM"), owned("xterm-256color")));
        env.push((owned("COLORTERM"), owned("truecolor")));
        let c = ProcessConfig {
            program: owned("/system/bin/sh"),
            args: Vec::new(),
            env,
            cwd: owned("/"),
            size: (80, 24),
        };
        proof {
            reveal_strlit("TERM");
            reveal_strlit("COLORTERM");
            assert("TERM"@ != "COLORTERM"@) by {
                assert("TERM"@.len() != "COLORTERM"@.len());
            }
            let m = map!["TERM"@ => "xterm-256color"@, "COLORTERM"@ => "truecolor"@];
            assert(c.env@[0].0@ == "TERM"@);
            assert(c.env@[1].0@ == "COLORTERM"@);
            assert forall|k: Seq<char>| #[trigger] c.env_view().dom().contains(k) <==> m.dom().contains(k) by {
                if k == "TERM"@ {
                    assert(c.env@[0].0@ == k);
                }
                if k == "COLORTERM"@ {
                    assert(c.env@[1].0@ == k);
                }
            }
            assert forall|k: Seq<char>| #[trigger] c.env_view().dom().contains(k) implies c.env_view()[k] == m[k] by {
                let i = choose|i: int| 0 <= i < c.env@.len() && (#[trigger] c.env@[i]).0@ == k;
                assert(i == 0 || i == 1);
            }
            assert(c.env_view() =~= m);
        }
        c
    }

    /// Sets the program to run.
    pub fn program(self, program: &str) -> (c: Self)
        ensures
            c.program@ == program@,
            c.args == self.args,
            c.env == self.env,
            c.cwd == self.cwd,
            c.size == self.size,
    {
        let mut c = self;
        c.program = owned(program);
        c
    }

    /// Adds an argument.
    pub fn arg(self, arg: &str) -> (c: Self)
        ensures
            c.program == self.program,
            c.args@.len() == self.args@.len() + 1,
            forall|i: int| 0 <= i < self.args@.len() ==> c.args@[i] == self.args@[i],
            c.args@.last()@ == arg@,
            c.env == self.env,
            c.cwd == self.cwd,
            c.size == self.size,
    {
        let mut c = self;
        c.args.push(owned(arg));
        c
    }

    /// Adds several arguments, in order.
    pub fn args(self, args: Vec<String>) -> (c: Self)
        ensures
            c.program == self.program,
            c.args@ == self.args@ + args@,
            c.env == self.env,
            c.cwd == self.cwd,
            c.size == self.size,
    {
        let mut c = self;
        let mut more = args;
        c.args.append(&mut more);
        c
    }

    /// Sets an environment variable, replacing an earlier value.
    pub fn env(self, key: &str, value: &str) -> (c: Self)
        requires
            self.wf(),
        ensures
            c.wf(),
            c.env_view() == self.env_view().insert(key@, value@),
            c.program == self.program,
            c.args == self.args,
            c.cwd == self.cwd,
            c.size == self.size,
    {
        let mut c = self;
        let ghost e0 = c.env@;
        let mut i: usize = 0;
        while i < c.env.len()
            invariant
                c.env@ == e0,
                e0 == self.env@,
                env_unique(e0),
                c.program == self.program,
                c.args == self.args,
                c.cwd == self.cwd,
                c.size == self.size,
                i <= e0.len(),
                forall|j: int| 0 <= j < i ==> (#[trigger] e0[j]).0@ != key@,
            decreases e0.len() - i,
        {
            if str_equals(c.env[i].0.as_str(), key) {
                c.env.set(i, (owned(key), owned(value)));
                proof {
                    let e1 = c.env@;
                    assert(e1 == e0.update(i as int, e1[i as int]));
                    assert(env_unique(e1)) by {
                        assert forall|a: int, b: int| 0 <= a < b < e1.len() implies (#[trigger] e1[a]).0@ != (#[trigger] e1[b]).0@ by {
                            if a != i && b != i {
                                assert(e1[a] == e0[a] && e1[b] == e0[b]);
                            } else if a == i {
                                assert(e1[b] == e0[b]);
                                assert(e0[i as int].0@ != e0[b].0@);
                            } else {
                                assert(e1[a] == e0[a]);
                                assert(e0[a].0@ != e0[i as int].0@);
                            }
                        }
                    }
                    lemma_env_map_update(e0, i as int, e1, key@, value@);
                }
                return c;
            }
            i = i + 1;
        }
        c.env.push((owned(key), owned(value)));
        proof {
            let e1 = c.env@;
            assert(e1.drop_last() =~= e0);
            assert(env_unique(e1)) by {
                assert forall|a: int, b: int| 0 <= a < b < e1.len() implies (#[trigger] e1[a]).0@ != (#[trigger] e1[b]).0@ by {
                    assert(e1[a] == e0[a]);
                    if b < e0.len() {
                        assert(e1[b] == e0[b]);
                    }
                }
            }
            lemma_env_map_push(e0, e1, key@, value@);
        }
        c
    }

    /// Sets the working directory.
    pub fn cwd(self, cwd: &str) -> (c: Self)
        ensures
            c.cwd@ == cwd@,
            c.program == self.program,
            c.args == self.args,
            c.env == self.env,
            c.size == self.size,
    {
        let mut c = self;
        c.cwd = owned(cwd);
        c
    }

    /// Sets the terminal size.
    pub fn size(self, cols: u16, rows: u16) -> (c: Self)
        ensures
            c.size == (cols, rows),
            c.program == self.program,
            c.args == self.args,
            c.env == self.env,
            c.cwd == self.cwd,
    {
        let mut c = self;
        c.size = (cols, rows);
        c
    }

    /// The value of an environment variable.
    pub fn env_var(&self, key: &str) -> (r: Option<&str>)
        requires
            self.wf(),
        ensures
            self.env_view().dom().contains(key@) ==> (r matches Some(v) && v@ == self.env_view()[key@]),
            !self.env_view().dom().contains(key@) ==> r is None,
    {
        let mut i: usize = 0;
        while i < self.env.len()
            invariant
                self.wf(),
                i <= self.env@.len(),
                forall|j: int| 0 <= j < i ==> (#[trigger] self.env@[j]).0@ != key@,
            decreases self.env@.len() - i,
        {
            if str_equals(self.env[i].0.as_str(), key) {
                proof {
                    assert(self.env@[i as int].0@ == key@);
                    let c = choose|c: int| 0 <= c < self.env@.len() && (#[trigger] self.env@[c]).0@ == key@;
                    assert(c == i);
                }
                return Some(self.env[i].1.as_str());
            }
            i = i + 1;
        }
        None
    }

    /// The result of validating the configuration given whether the program exists:
    /// a missing program is a spawn failure naming it.
    pub fn validation_result(&self, program_exists: bool) -> (r: PtyResult<()>)
        ensures
            program_exists ==> r is Ok,
            !program_exists ==> (r matches Err(PtyError::SpawnFailed(m)) && m@ == "Program not found: "@
                + self.program@),
    {
        if !program_exists {
            return Err(PtyError::SpawnFailed(concat2("Program not found: ", self.program.as_str())));
        }
        Ok(())
    }

    /// Validates the configuration: the program must exist.
    pub fn validate(&self) -> (r: PtyResult<()>)
        ensures
            r is Ok || (r matches Err(PtyError::SpawnFailed(m)) && m@ == "Program not found: "@ + self.program@),
    {
        let found = path_exists(self.program.as_str());
        self.validation_result(found)
    }
}

/// `Path::exists`: whether something is at `path` on the filesystem. It depends on
/// the disk, so nothing is stated of it.
#[verifier::external_body]
fn path_exists(path: &str) -> bool {
    std::path::Path::new(path).exists()
}

proof fn lemma_env_map_update(e0: Seq<(String, String)>, i: int, e1: Seq<(String, String)>, k: Seq<char>, v: Seq<char>)
    requires
        env_unique(e0),
        env_unique(e1),
        0 <= i < e0.len(),
        e0[i].0@ == k,
        e1.len() == e0.len(),
        e1[i].0@ == k,
        e1[i].1@ == v,
        forall|j: int| 0 <= j < e0.len() && j != i ==> e1[j] == e0[j],
    ensures
        env_map(e1) == env_map(e0).insert(k, v),
{
    let m = env_map(e0).insert(k, v);
    assert forall|x: Seq<char>| #[trigger] env_map(e1).dom().contains(x) <==> m.dom().contains(x) by {
        if env_map(e1).dom().contains(x) {
            let j = choose|j: int| 0 <= j < e1.len() && (#[trigger] e1[j]).0@ == x;
            if j != i {
                assert(e0[j].0@ == x);
            }
        }
        if m.dom().contains(x) {
            if x == k {
                assert(e1[i].0@ == x);
            } else {
                let j = choose|j: int| 0 <= j < e0.len() && (#[trigger] e0[j]).0@ == x;
                assert(e1[j] == e0[j]);
            }
        }
    }
    assert forall|x: Seq<char>| #[trigger] env_map(e1).dom().contains(x) implies env_map(e1)[x] == m[x] by {
        let j = choose|j: int| 0 <= j < e1.len() && (#[trigger] e1[j]).0@ == x;
        if x == k {
            assert(j == i);
        } else {
            assert(e1[j] == e0[j]);
            let j0 = choose|j0: int| 0 <= j0 < e0.len() && (#[trigger] e0[j0]).0@ == x;
            assert(j0 == j);
        }
    }
    assert(env_map(e1) =~= m);
}

proof fn lemma_env_map_push(e0: Seq<(String, String)>, e1: Seq<(String, String)>, k: Seq<char>, v: Seq<char>)
    requires
        env_unique(e0),
        env_unique(e1),
        e1.len() == e0.len() + 1,
        forall|j: int| 0 <= j < e0.len() ==> e1[j] == e0[j] && (#[trigger] e0[j]).0@ != k,
        e1[e0.len() as int].0@ == k,
        e1[e0.len() as int].1@ == v,
    ensures
        env_map(e1) == env_map(e0).insert(k, v),
{
    let n = e0.len() as int;
    let m = env_map(e0).insert(k, v);
    assert forall|x: Seq<char>| #[trigger] env_map(e1).dom().contains(x) <==> m.dom().contains(x) by {
        if env_map(e1).dom().contains(x) {
            let j = choose|j: int| 0 <= j < e1.len() && (#[trigger] e1[j]).0@ == x;
            if j < n {
                assert(e0[j].0@ == x);
            }
        }
        if m.dom().contains(x) {
            if x == k {
                assert(e1[n].0@ == x);
            } else {
                let j = choose|j: int| 0 <= j < e0.len() && (#[trigger] e0[j]).0@ == x;
                assert(e1[j] == e0[j]);
            }
        }
    }
    assert forall|x: Seq<char>| #[trigger] env_map(e1).dom().contains(x) implies env_map(e1)[x] == m[x] by {
        let j = choose|j: int| 0 <= j < e1.len() && (#[trigger] e1[j]).0@ == x;
        if x == k {
            if j < n {
                assert(e0[j].0@ != k);
            }
            assert(j == n);
        } else {
            assert(j < n);
            assert(e1[j] == e0[j]);
            let j0 = choose|j0: int| 0 <= j0 < e0.len() && (#[trigger] e0[j0]).0@ == x;
            assert(e1[j0] == e0[j0]);
            assert(j0 == j);
        }
    }
    assert(env_map(e1) =~= m);
}

} // verus!

/// Unix signal numbers.
pub mod signals;
