use vstd::prelude::*;

verus! {

/// One redirection of a standard stream, as written in an expression.
#[derive(Clone, Debug)]
pub enum Redirect {
    StdinPath(String),
    StdinNull,
    StdinBytes(Vec<u8>),
    StdoutPath(String),
    StdoutNull,
    StdoutCapture,
    StdoutToStderr,
    StderrPath(String),
    StderrNull,
    StderrCapture,
    StderrToStdout,
}

/// An immutable description of a process pipeline. Builders consume an
/// expression and wrap it in a new node, so an outer call only affects its
/// own subtree; clone an expression to reuse it.
#[derive(Debug)]
pub enum Expression {
    Cmd(Vec<String>),
    Pipe(Box<Expression>, Box<Expression>),
    Then(Box<Expression>, Box<Expression>),
    Io(Redirect, Box<Expression>),
    Env(String, String, Box<Expression>),
    FullEnv(Vec<(String, String)>, Box<Expression>),
    Dir(String, Box<Expression>),
    Unchecked(Box<Expression>),
}

/// Every command leaf names a program.
pub open spec fn well_formed(e: Expression) -> bool
    decreases e,
{
    match e {
        Expression::Cmd(argv) => argv@.len() > 0,
        Expression::Pipe(l, r) => well_formed(*l) && well_formed(*r),
        Expression::Then(l, r) => well_formed(*l) && well_formed(*r),
        Expression::Io(_, inner) => well_formed(*inner),
        Expression::Env(_, _, inner) => well_formed(*inner),
        Expression::FullEnv(_, inner) => well_formed(*inner),
        Expression::Dir(_, inner) => well_formed(*inner),
        Expression::Unchecked(inner) => well_formed(*inner),
    }
}

/// The number of processes an expression starts, counted depth first.
pub open spec fn leaf_count(e: Expression) -> nat
    decreases e,
{
    match e {
        Expression::Cmd(_) => 1,
        Expression::Pipe(l, r) => leaf_count(*l) + leaf_count(*r),
        Expression::Then(l, r) => leaf_count(*l) + leaf_count(*r),
        Expression::Io(_, inner) => leaf_count(*inner),
        Expression::Env(_, _, inner) => leaf_count(*inner),
        Expression::FullEnv(_, inner) => leaf_count(*inner),
        Expression::Dir(_, inner) => leaf_count(*inner),
        Expression::Unchecked(inner) => leaf_count(*inner),
    }
}

/// A command running `program` with `args`.
pub fn cmd(program: &str, args: Vec<String>) -> (r: Expression)
    ensures
        r matches Expression::Cmd(argv) && argv@.len() == args@.len() + 1 && argv@[0]@ == program@
            && argv@.subrange(1, argv@.len() as int) == args@,
        well_formed(r),
{
    let mut argv: Vec<String> = Vec::new();
    argv.push(program.to_string());
    let mut i: usize = 0;
    while i < args.len()
        invariant
            0 <= i <= args@.len(),
            argv@.len() == i + 1,
            argv@[0]@ == program@,
            argv@.subrange(1, argv@.len() as int) == args@.subrange(0, i as int),
        decreases args@.len() - i,
    {
        argv.push(args[i].clone());
        assert(argv@.subrange(1, argv@.len() as int) =~= args@.subrange(0, i + 1));
        i = i + 1;
    }
    assert(args@.subrange(0, args@.len() as int) =~= args@);
    Expression::Cmd(argv)
}

/// A command line handed to the platform shell, which splits it.
pub fn sh(command: &str) -> (r: Expression)
    ensures
        r matches Expression::Cmd(argv) && argv@.len() == 3 && argv@[0]@ == "/bin/sh"@
            && argv@[1]@ == "-c"@ && argv@[2]@ == command@,
        well_formed(r),
{
    let mut argv: Vec<String> = Vec::new();
    argv.push("/bin/sh".to_string());
    argv.push("-c".to_string());
    argv.push(command.to_string());
    Expression::Cmd(argv)
}

pub(crate) fn copy_strings(v: &Vec<String>) -> (r: Vec<String>)
    ensures
        r@ == v@,
{
    let mut r: Vec<String> = Vec::new();
    let mut i: usize = 0;
    while i < v.len()
        invariant
            0 <= i <= v@.len(),
            r@ == v@.subrange(0, i as int),
        decreases v@.len() - i,
    {
        r.push(v[i].clone());
        assert(r@ =~= v@.subrange(0, i + 1));
        i = i + 1;
    }
    assert(v@.subrange(0, v@.len() as int) =~= v@);
    r
}

fn copy_pairs(v: &Vec<(String, String)>) -> (r: Vec<(String, String)>)
    ensures
        r@ == v@,
{
    let mut r: Vec<(String, String)> = Vec::new();
    let mut i: usize = 0;
    while i < v.len()
        invariant
            0 <= i <= v@.len(),
            r@ == v@.subrange(0, i as int),
        decreases v@.len() - i,
    {
        let (a, b) = &v[i];
        r.push((a.clone(), b.clone()));
        assert(r@ =~= v@.subrange(0, i + 1));
        i = i + 1;
    }
    assert(v@.subrange(0, v@.len() as int) =~= v@);
    r
}

pub(crate) fn copy_bytes(v: &Vec<u8>) -> (r: Vec<u8>)
    ensures
        r@ == v@,
{
    let mut r: Vec<u8> = Vec::new();
    let mut i: usize = 0;
    while i < v.len()
        invariant
            0 <= i <= v@.len(),
            r@ == v@.subrange(0, i as int),
        decreases v@.len() - i,
    {
        r.push(v[i]);
        assert(r@ =~= v@.subrange(0, i + 1));
        i = i + 1;
    }
    assert(v@.subrange(0, v@.len() as int) =~= v@);
    r
}

/// `b` holds what `a` holds: vectors are compared by their contents.
pub open spec fn same_redirect(a: Redirect, b: Redirect) -> bool {
    match a {
        Redirect::StdinBytes(x) => b matches Redirect::StdinBytes(y) && y@ == x@,
        _ => b == a,
    }
}

/// `b` holds what `a` holds: vectors are compared by their contents.
pub open spec fn same_expr(a: Expression, b: Expression) -> bool
    decreases a,
{
    match a {
        Expression::Cmd(x) => b matches Expression::Cmd(y) && y@ == x@,
        Expression::Pipe(l, r) => b matches Expression::Pipe(l2, r2) && same_expr(*l, *l2) && same_expr(*r, *r2),
        Expression::Then(l, r) => b matches Expression::Then(l2, r2) && same_expr(*l, *l2) && same_expr(*r, *r2),
        Expression::Io(how, i) => b matches Expression::Io(how2, i2) && same_redirect(how, how2) && same_expr(*i, *i2),
        Expression::Env(n, v, i) => b matches Expression::Env(n2, v2, i2) && n2 == n && v2 == v && same_expr(*i, *i2),
        Expression::FullEnv(vars, i) => b matches Expression::FullEnv(vars2, i2) && vars2@ == vars@ && same_expr(*i, *i2),
        Expression::Dir(p, i) => b matches Expression::Dir(p2, i2) && p2 == p && same_expr(*i, *i2),
        Expression::Unchecked(i) => b matches Expression::Unchecked(i2) && same_expr(*i, *i2),
    }
}

impl Redirect {
    pub fn duplicate(&self) -> (r: Redirect)
        ensures
            same_redirect(*self, r),
    {
        match self {
            Redirect::StdinPath(p) => Redirect::StdinPath(p.clone()),
            Redirect::StdinNull => Redirect::StdinNull,
            Redirect::StdinBytes(b) => Redirect::StdinBytes(copy_bytes(b)),
            Redirect::StdoutPath(p) => Redirect::StdoutPath(p.clone()),
            Redirect::StdoutNull => Redirect::StdoutNull,
            Redirect::StdoutCapture => Redirect::StdoutCapture,
            Redirect::StdoutToStderr => Redirect::StdoutToStderr,
            Redirect::StderrPath(p) => Redirect::StderrPath(p.clone()),
            Redirect::StderrNull => Redirect::StderrNull,
            Redirect::StderrCapture => Redirect::StderrCapture,
            Redirect::StderrToStdout => Redirect::StderrToStdout,
        }
    }
}

impl Clone for Expression {
    fn clone(&self) -> Self {
        self.duplicate()
    }
}

impl Expression {
    /// A deep copy of this expression, sharing nothing with it.
    pub fn duplicate(&self) -> (r: Expression)
        ensures
            same_expr(*self, r),
        decreases self,
    {
        match self {
            Expression::Cmd(argv) => Expression::Cmd(copy_strings(argv)),
            Expression::Pipe(l, r) => Expression::Pipe(
                Box::new((**l).duplicate()),
                Box::new((**r).duplicate()),
            ),
            Expression::Then(l, r) => Expression::Then(
                Box::new((**l).duplicate()),
                Box::new((**r).duplicate()),
            ),
            Expression::Io(how, inner) => Expression::Io(
                how.duplicate(),
                Box::new((**inner).duplicate()),
            ),
            Expression::Env(n, v, inner) => Expression::Env(
                n.clone(),
                v.clone(),
                Box::new((**inner).duplicate()),
            ),
            Expression::FullEnv(vars, inner) => Expression::FullEnv(
                copy_pairs(vars),
                Box::new((**inner).duplicate()),
            ),
            Expression::Dir(p, inner) => Expression::Dir(
                p.clone(),
                Box::new((**inner).duplicate()),
            ),
            Expression::Unchecked(inner) => Expression::Unchecked(
                Box::new((**inner).duplicate()),
            ),
        }
    }

    /// Feeds this expression's standard output into `right`'s standard input.
    pub fn pipe(self, right: Expression) -> (r: Expression)
        ensures
            r == Expression::Pipe(Box::new(self), Box::new(right)),
    {
        Expression::Pipe(Box::new(self), Box::new(right))
    }

    /// Runs this expression to completion, then `right`.
    pub fn then(self, right: Expression) -> (r: Expression)
        ensures
            r == Expression::Then(Box::new(self), Box::new(right)),
    {
        Expression::Then(Box::new(self), Box::new(right))
    }

    /// Makes a failing exit status of this expression non-fatal to its parent.
    pub fn unchecked(self) -> (r: Expression)
        ensures
            r == Expression::Unchecked(Box::new(self)),
    {
        Expression::Unchecked(Box::new(self))
    }

    /// Sets one environment variable for everything inside.
    pub fn env(self, name: &str, val: &str) -> (r: Expression)
        ensures
            r matches Expression::Env(n, v, inner) && n@ == name@ && v@ == val@ && *inner == self,
    {
        Expression::Env(name.to_string(), val.to_string(), Box::new(self))
    }

    /// Replaces the whole environment for everything inside with `vars`.
    pub fn full_env(self, vars: Vec<(String, String)>) -> (r: Expression)
        ensures
            r == Expression::FullEnv(vars, Box::new(self)),
    {
        Expression::FullEnv(vars, Box::new(self))
    }

    /// Sets the working directory for everything inside.
    pub fn dir(self, path: &str) -> (r: Expression)
        ensures
            r matches Expression::Dir(p, inner) && p@ == path@ && *inner == self,
    {
        Expression::Dir(path.to_string(), Box::new(self))
    }

    fn redirect(self, how: Redirect) -> (r: Expression)
        ensures
            r == Expression::Io(how, Box::new(self)),
    {
        Expression::Io(how, Box::new(self))
    }

    /// Reads standard input from the file at `path`.
    pub fn stdin(self, path: &str) -> (r: Expression)
        ensures
            r matches Expression::Io(Redirect::StdinPath(p), inner) && p@ == path@ && *inner == self,
    {
        self.redirect(Redirect::StdinPath(path.to_string()))
    }

    /// Supplies `bytes` as standard input.
    pub fn input(self, bytes: Vec<u8>) -> (r: Expression)
        ensures
            r == Expression::Io(Redirect::StdinBytes(bytes), Box::new(self)),
    {
        self.redirect(Redirect::StdinBytes(bytes))
    }

    pub fn stdin_null(self) -> (r: Expression)
        ensures
            r == Expression::Io(Redirect::StdinNull, Box::new(self)),
    {
        self.redirect(Redirect::StdinNull)
    }

    /// Writes standard output to the file at `path`, created or truncated.
    pub fn stdout(self, path: &str) -> (r: Expression)
        ensures
            r matches Expression::Io(Redirect::StdoutPath(p), inner) && p@ == path@ && *inner == self,
    {
        self.redirect(Redirect::StdoutPath(path.to_string()))
    }

    pub fn stdout_null(self) -> (r: Expression)
        ensures
            r == Expression::Io(Redirect::StdoutNull, Box::new(self)),
    {
        self.redirect(Redirect::StdoutNull)
    }

    pub fn stdout_capture(self) -> (r: Expression)
        ensures
            r == Expression::Io(Redirect::StdoutCapture, Box::new(self)),
    {
        self.redirect(Redirect::StdoutCapture)
    }

    /// Sends standard output wherever standard error goes at this point.
    pub fn stdout_to_stderr(self) -> (r: Expression)
        ensures
            r == Expression::Io(Redirect::StdoutToStderr, Box::new(self)),
    {
        self.redirect(Redirect::StdoutToStderr)
    }

    /// Writes standard error to the file at `path`, created or truncated.
    pub fn stderr(self, path: &str) -> (r: Expression)
        ensures
            r matches Expression::Io(Redirect::StderrPath(p), inner) && p@ == path@ && *inner == self,
    {
        self.redirect(Redirect::StderrPath(path.to_string()))
    }

    pub fn stderr_null(self) -> (r: Expression)
        ensures
            r == Expression::Io(Redirect::StderrNull, Box::new(self)),
    {
        self.redirect(Redirect::StderrNull)
    }

    pub fn stderr_capture(self) -> (r: Expression)
        ensures
            r == Expression::Io(Redirect::StderrCapture, Box::new(self)),
    {
        self.redirect(Redirect::StderrCapture)
    }

    /// Sends standard error wherever standard output goes at this point.
    pub fn stderr_to_stdout(self) -> (r: Expression)
        ensures
            r == Expression::Io(Redirect::StderrToStdout, Box::new(self)),
    {
        self.redirect(Redirect::StderrToStdout)
    }
}

} // verus!
