use vstd::prelude::*;
use crate::expression::Redirect;

verus! {

/// Where one standard stream of a child goes, before anything is opened.
/// Pipe and input slots are numbers that the runner hands out.
#[derive(Debug)]
pub enum Endpoint {
    Inherit,
    Null,
    Path(String),
    CaptureStdout,
    CaptureStderr,
    Input(usize),
    PipeRead(usize),
    PipeWrite(usize),
}

impl Endpoint {
    pub fn duplicate(&self) -> (r: Endpoint)
        ensures
            r == *self,
    {
        match self {
            Endpoint::Inherit => Endpoint::Inherit,
            Endpoint::Null => Endpoint::Null,
            Endpoint::Path(p) => Endpoint::Path(p.clone()),
            Endpoint::CaptureStdout => Endpoint::CaptureStdout,
            Endpoint::CaptureStderr => Endpoint::CaptureStderr,
            Endpoint::Input(k) => Endpoint::Input(*k),
            Endpoint::PipeRead(k) => Endpoint::PipeRead(*k),
            Endpoint::PipeWrite(k) => Endpoint::PipeWrite(*k),
        }
    }
}

/// What a command inherits from the nodes above it: its three streams, the
/// environment changes to make, and the working directory.
#[derive(Debug)]
pub struct Context {
    pub stdin: Endpoint,
    pub stdout: Endpoint,
    pub stderr: Endpoint,
    /// Start from an empty environment rather than the parent's.
    pub env_cleared: bool,
    /// Variables set in order on top of the starting environment.
    pub env: Vec<(String, String)>,
    pub dir: Option<String>,
}

/// What a context says, as a mathematical value.
pub struct Scope {
    pub stdin: Endpoint,
    pub stdout: Endpoint,
    pub stderr: Endpoint,
    pub env_cleared: bool,
    pub env: Seq<(String, String)>,
    pub dir: Option<String>,
}

pub open spec fn scope_of(c: Context) -> Scope {
    Scope { stdin: c.stdin, stdout: c.stdout, stderr: c.stderr, env_cleared: c.env_cleared, env: c.env@, dir: c.dir }
}

pub open spec fn scope_streams(s: Scope, stdin: Endpoint, stdout: Endpoint, stderr: Endpoint) -> Scope {
    Scope { stdin, stdout, stderr, env_cleared: s.env_cleared, env: s.env, dir: s.dir }
}

/// The scope inside a redirection; `input_slot` carries `StdinBytes`.
pub open spec fn redirect_scope(s: Scope, how: Redirect, input_slot: usize) -> Scope {
    match how {
        Redirect::StdinPath(p) => scope_streams(s, Endpoint::Path(p), s.stdout, s.stderr),
        Redirect::StdinNull => scope_streams(s, Endpoint::Null, s.stdout, s.stderr),
        Redirect::StdinBytes(_) => scope_streams(s, Endpoint::Input(input_slot), s.stdout, s.stderr),
        Redirect::StdoutPath(p) => scope_streams(s, s.stdin, Endpoint::Path(p), s.stderr),
        Redirect::StdoutNull => scope_streams(s, s.stdin, Endpoint::Null, s.stderr),
        Redirect::StdoutCapture => scope_streams(s, s.stdin, Endpoint::CaptureStdout, s.stderr),
        Redirect::StdoutToStderr => scope_streams(s, s.stdin, s.stderr, s.stderr),
        Redirect::StderrPath(p) => scope_streams(s, s.stdin, s.stdout, Endpoint::Path(p)),
        Redirect::StderrNull => scope_streams(s, s.stdin, s.stdout, Endpoint::Null),
        Redirect::StderrCapture => scope_streams(s, s.stdin, s.stdout, Endpoint::CaptureStderr),
        Redirect::StderrToStdout => scope_streams(s, s.stdin, s.stdout, s.stdout),
    }
}

/// The scope inside `env(name, val)`.
pub open spec fn env_scope(s: Scope, name: String, val: String) -> Scope {
    Scope { env: s.env.push((name, val)), ..s }
}

/// The scope inside `full_env(vars)`.
pub open spec fn full_env_scope(s: Scope, vars: Seq<(String, String)>) -> Scope {
    Scope { env_cleared: true, env: vars, ..s }
}

/// The scope inside `dir(path)`.
pub open spec fn dir_scope(s: Scope, path: String) -> Scope {
    Scope { dir: Some(path), ..s }
}

/// The environment after setting each pair of `vars`, in order, on `base`.
pub open spec fn apply_vars(base: Map<Seq<char>, Seq<char>>, vars: Seq<(String, String)>) -> Map<Seq<char>, Seq<char>>
    decreases vars.len(),
{
    if vars.len() == 0 {
        base
    } else {
        let last = vars.last();
        apply_vars(base, vars.drop_last()).insert(last.0@, last.1@)
    }
}

/// The environment a child started in `c` sees, given the parent's.
pub open spec fn child_env(c: Context, ambient: Map<Seq<char>, Seq<char>>) -> Map<Seq<char>, Seq<char>> {
    apply_vars(if c.env_cleared { Map::empty() } else { ambient }, c.env@)
}

/// `after` is `before` with one more variable set.
pub open spec fn env_added(before: Context, name: Seq<char>, val: Seq<char>, after: Context) -> bool {
    &&& after.env_cleared == before.env_cleared
    &&& after.env@.len() == before.env@.len() + 1
    &&& after.env@.drop_last() == before.env@
    &&& after.env@.last().0@ == name
    &&& after.env@.last().1@ == val
}

/// `after` starts from an empty environment and sets exactly `vars`.
pub open spec fn env_replaced(vars: Seq<(String, String)>, after: Context) -> bool {
    after.env_cleared && after.env@ == vars
}

/// The streams and directory of `after` are those of `before`.
pub open spec fn same_place(before: Context, after: Context) -> bool {
    after.stdin == before.stdin && after.stdout == before.stdout && after.stderr == before.stderr
        && after.dir == before.dir
}

pub open spec fn same_env(before: Context, after: Context) -> bool {
    after.env_cleared == before.env_cleared && after.env@ == before.env@
}

fn copy_env(v: &Vec<(String, String)>) -> (r: Vec<(String, String)>)
    ensures
        r@ == v@,
{
    let mut r: Vec<(String, String)> = Vec::new();
    let mut i: usize = 0;
    while i < v.len()
        invariant
            0 <= i <= v@.len(),
            r@ == v@.subrange(0, i as int),
        decreases v@.len() - i,
    {
        let (a, b) = &v[i];
        r.push((a.clone(), b.clone()));
        assert(r@ =~= v@.subrange(0, i + 1));
        i = i + 1;
    }
    assert(v@.subrange(0, v@.len() as int) =~= v@);
    r
}

fn copy_dir(d: &Option<String>) -> (r: Option<String>)
    ensures
        r == *d,
{
    match d {
        Some(p) => Some(p.clone()),
        None => None,
    }
}

impl Context {
    /// A copy of this context.
    pub fn duplicate(&self) -> (r: Context)
        ensures
            scope_of(r) == scope_of(*self),
    {
        self.with_streams(self.stdin.duplicate(), self.stdout.duplicate(), self.stderr.duplicate())
    }

    /// The context of a root expression: the parent's streams, environment
    /// and working directory.
    pub fn root() -> (r: Context)
        ensures
            r.stdin == Endpoint::Inherit,
            r.stdout == Endpoint::Inherit,
            r.stderr == Endpoint::Inherit,
            !r.env_cleared,
            r.env@.len() == 0,
            r.dir is None,
    {
        Context {
            stdin: Endpoint::Inherit,
            stdout: Endpoint::Inherit,
            stderr: Endpoint::Inherit,
            env_cleared: false,
            env: Vec::new(),
            dir: None,
        }
    }

    fn with_streams(&self, stdin: Endpoint, stdout: Endpoint, stderr: Endpoint) -> (r: Context)
        ensures
            r.stdin == stdin,
            r.stdout == stdout,
            r.stderr == stderr,
            same_env(*self, r),
            r.dir == self.dir,
    {
        Context { stdin, stdout, stderr, env_cleared: self.env_cleared, env: copy_env(&self.env), dir: copy_dir(&self.dir) }
    }

    /// Standard input rebound to `e`.
    pub fn with_stdin(&self, e: Endpoint) -> (r: Context)
        ensures
            scope_of(r) == scope_streams(scope_of(*self), e, self.stdout, self.stderr),
            r.stdin == e,
            r.stdout == self.stdout,
            r.stderr == self.stderr,
            same_env(*self, r),
            r.dir == self.dir,
    {
        self.with_streams(e, self.stdout.duplicate(), self.stderr.duplicate())
    }

    /// Standard output rebound to `e`.
    pub fn with_stdout(&self, e: Endpoint) -> (r: Context)
        ensures
            scope_of(r) == scope_streams(scope_of(*self), self.stdin, e, self.stderr),
            r.stdin == self.stdin,
            r.stdout == e,
            r.stderr == self.stderr,
            same_env(*self, r),
            r.dir == self.dir,
    {
        self.with_streams(self.stdin.duplicate(), e, self.stderr.duplicate())
    }

    /// The context inside a redirection. `input_slot` names the pipe that
    /// carries the bytes of a `StdinBytes` redirection; other kinds ignore it.
    /// A swap takes the other stream's binding as it stands here.
    pub fn redirected(&self, how: &Redirect, input_slot: usize) -> (r: Context)
        ensures
            scope_of(r) == redirect_scope(scope_of(*self), *how, input_slot),
            same_env(*self, r),
            r.dir == self.dir,
            r.stdin == match *how {
                Redirect::StdinPath(p) => Endpoint::Path(p),
                Redirect::StdinNull => Endpoint::Null,
                Redirect::StdinBytes(_) => Endpoint::Input(input_slot),
                _ => self.stdin,
            },
            r.stdout == match *how {
                Redirect::StdoutPath(p) => Endpoint::Path(p),
                Redirect::StdoutNull => Endpoint::Null,
                Redirect::StdoutCapture => Endpoint::CaptureStdout,
                Redirect::StdoutToStderr => self.stderr,
                _ => self.stdout,
            },
            r.stderr == match *how {
                Redirect::StderrPath(p) => Endpoint::Path(p),
                Redirect::StderrNull => Endpoint::Null,
                Redirect::StderrCapture => Endpoint::CaptureStderr,
                Redirect::StderrToStdout => self.stdout,
                _ => self.stderr,
            },
    {
        match how {
            Redirect::StdinPath(p) => self.with_stdin(Endpoint::Path(p.clone())),
            Redirect::StdinNull => self.with_stdin(Endpoint::Null),
            Redirect::StdinBytes(_) => self.with_stdin(Endpoint::Input(input_slot)),
            Redirect::StdoutPath(p) => self.with_stdout(Endpoint::Path(p.clone())),
            Redirect::StdoutNull => self.with_stdout(Endpoint::Null),
            Redirect::StdoutCapture => self.with_stdout(Endpoint::CaptureStdout),
            Redirect::StdoutToStderr => self.with_stdout(self.stderr.duplicate()),
            Redirect::StderrPath(p) => self.with_streams(
                self.stdin.duplicate(),
                self.stdout.duplicate(),
                Endpoint::Path(p.clone()),
            ),
            Redirect::StderrNull => self.with_streams(
                self.stdin.duplicate(),
                self.stdout.duplicate(),
                Endpoint::Null,
            ),
            Redirect::StderrCapture => self.with_streams(
                self.stdin.duplicate(),
                self.stdout.duplicate(),
                Endpoint::CaptureStderr,
            ),
            Redirect::StderrToStdout => self.with_streams(
                self.stdin.duplicate(),
                self.stdout.duplicate(),
                self.stdout.duplicate(),
            ),
        }
    }

    /// The context inside `env(name, val)`.
    pub fn with_env(&self, name: &String, val: &String) -> (r: Context)
        ensures
            env_added(*self, name@, val@, r),
            same_place(*self, r),
            scope_of(r) == env_scope(scope_of(*self), *name, *val),
    {
        let mut env = copy_env(&self.env);
        env.push((name.clone(), val.clone()));
        proof {
            assert(env@.drop_last() =~= self.env@);
            assert(env@ =~= self.env@.push((*name, *val)));
        }
        Context {
            stdin: self.stdin.duplicate(),
            stdout: self.stdout.duplicate(),
            stderr: self.stderr.duplicate(),
            env_cleared: self.env_cleared,
            env,
            dir: copy_dir(&self.dir),
        }
    }

    /// The context inside `full_env(vars)`: what was set above is dropped.
    pub fn with_full_env(&self, vars: &Vec<(String, String)>) -> (r: Context)
        ensures
            env_replaced(vars@, r),
            same_place(*self, r),
            scope_of(r) == full_env_scope(scope_of(*self), vars@),
    {
        Context {
            stdin: self.stdin.duplicate(),
            stdout: self.stdout.duplicate(),
            stderr: self.stderr.duplicate(),
            env_cleared: true,
            env: copy_env(vars),
            dir: copy_dir(&self.dir),
        }
    }

    /// The context inside `dir(path)`: the innermost directory wins.
    pub fn with_dir(&self, path: &String) -> (r: Context)
        ensures
            r.dir == Some(*path),
            scope_of(r) == dir_scope(scope_of(*self), *path),
            r.stdin == self.stdin,
            r.stdout == self.stdout,
            r.stderr == self.stderr,
            same_env(*self, r),
    {
        Context {
            stdin: self.stdin.duplicate(),
            stdout: self.stdout.duplicate(),
            stderr: self.stderr.duplicate(),
            env_cleared: self.env_cleared,
            env: copy_env(&self.env),
            dir: Some(path.clone()),
        }
    }
}

/// Under `full_env`, a child's environment is exactly the given variables:
/// neither the parent's environment nor an `env` layered outside reaches it.
pub proof fn full_env_isolates(
    outer: Context,
    name: Seq<char>,
    val: Seq<char>,
    mid: Context,
    vars: Seq<(String, String)>,
    inner: Context,
    ambient: Map<Seq<char>, Seq<char>>,
)
    requires
        env_added(outer, name, val, mid),
        env_replaced(vars, inner),
    ensures
        child_env(inner, ambient) == apply_vars(Map::empty(), vars),
{
}

/// `env` alone sets the named variable and leaves the rest of the
/// environment as it was.
pub proof fn env_sets_only_named(
    before: Context,
    name: Seq<char>,
    val: Seq<char>,
    after: Context,
    ambient: Map<Seq<char>, Seq<char>>,
)
    requires
        env_added(before, name, val, after),
    ensures
        child_env(after, ambient) == child_env(before, ambient).insert(name, val),
{
}

} // verus!
