use vstd::prelude::*;
use crate::expression::{leaf_count, Expression};
use crate::io::{decode_utf8, utf8_text};
use crate::status::{
    is_fatal, exited_zero, pipe_outcome, resolve_pipe, resolve_then, then_outcome, ExitStatus, Outcome,
};

verus! {

/// What a finished expression produced: the status it resolved to, and the
/// bytes captured from standard output and standard error (empty unless
/// captured).
#[derive(Debug)]
pub struct Output {
    pub status: ExitStatus,
    pub stdout: Vec<u8>,
    pub stderr: Vec<u8>,
}

#[derive(Debug)]
pub enum Error {
    /// A child could not be started.
    Spawn(std::io::Error),
    /// A checked child failed; the output gathered so far comes with it.
    Status(Output),
    /// Reading from or writing to a child's stream failed.
    Io(std::io::Error),
    /// `read` captured bytes that are not UTF-8 text.
    InvalidUtf8,
}

/// The outcome of `e` when its commands, taken depth first and left before
/// right, exited with `st`.
pub open spec fn outcome_of(e: Expression, st: Seq<ExitStatus>) -> Outcome
    decreases e,
{
    match e {
        Expression::Cmd(_) => Outcome { status: st[0], checked: true },
        Expression::Pipe(l, r) => pipe_outcome(
            outcome_of(*l, st.take(leaf_count(*l) as int)),
            outcome_of(*r, st.skip(leaf_count(*l) as int)),
        ),
        Expression::Then(l, r) => then_outcome(
            outcome_of(*l, st.take(leaf_count(*l) as int)),
            outcome_of(*r, st.skip(leaf_count(*l) as int)),
        ),
        Expression::Io(_, inner) => outcome_of(*inner, st),
        Expression::Env(_, _, inner) => outcome_of(*inner, st),
        Expression::FullEnv(_, inner) => outcome_of(*inner, st),
        Expression::Dir(_, inner) => outcome_of(*inner, st),
        Expression::Unchecked(inner) => Outcome { status: outcome_of(*inner, st).status, checked: false },
    }
}

fn resolve_from(e: &Expression, st: &Vec<ExitStatus>, start: usize) -> (r: (Outcome, usize))
    requires
        start + leaf_count(*e) <= st@.len(),
    ensures
        r.1 == start + leaf_count(*e),
        r.0 == outcome_of(*e, st@.subrange(start as int, r.1 as int)),
    decreases e,
{
    match e {
        Expression::Cmd(_) => {
            assert(leaf_count(*e) == 1);
            assert(start < st.len());
            (Outcome::new(st[start], true), start + 1)
        },
        Expression::Pipe(l, r) => {
            let (lo, mid) = resolve_from(l, st, start);
            let (ro, end) = resolve_from(r, st, mid);
            let ghost s = st@.subrange(start as int, end as int);
            assert(s.take(leaf_count(**l) as int) =~= st@.subrange(start as int, mid as int));
            assert(s.skip(leaf_count(**l) as int) =~= st@.subrange(mid as int, end as int));
            (resolve_pipe(lo, ro), end)
        },
        Expression::Then(l, r) => {
            let (lo, mid) = resolve_from(l, st, start);
            let (ro, end) = resolve_from(r, st, mid);
            let ghost s = st@.subrange(start as int, end as int);
            assert(s.take(leaf_count(**l) as int) =~= st@.subrange(start as int, mid as int));
            assert(s.skip(leaf_count(**l) as int) =~= st@.subrange(mid as int, end as int));
            (resolve_then(lo, ro), end)
        },
        Expression::Io(_, inner) => resolve_from(inner, st, start),
        Expression::Env(_, _, inner) => resolve_from(inner, st, start),
        Expression::FullEnv(_, inner) => resolve_from(inner, st, start),
        Expression::Dir(_, inner) => resolve_from(inner, st, start),
        Expression::Unchecked(inner) => {
            let (o, next) = resolve_from(inner, st, start);
            (o.unchecked(), next)
        },
    }
}

impl Expression {
    /// The outcome of this expression given the exit status of each of its
    /// commands, depth first and left before right.
    pub fn resolve(&self, statuses: &Vec<ExitStatus>) -> (r: Outcome)
        requires
            statuses@.len() == leaf_count(*self),
        ensures
            r == outcome_of(*self, statuses@),
    {
        let (o, end) = resolve_from(self, statuses, 0);
        assert(statuses@.subrange(0, end as int) =~= statuses@);
        o
    }
}

/// Whether `rs` holds an error before index `n`.
pub open spec fn has_err_before(rs: Seq<Result<(), std::io::Error>>, n: int) -> bool {
    exists|i: int| 0 <= i < n && rs[i] is Err
}

/// Ends a run: a failed spawn is reported first, then the first failed stream
/// (in the order given), then a fatal status with the output gathered;
/// otherwise the output.
pub fn finish(
    e: &Expression,
    spawn_error: Option<std::io::Error>,
    statuses: &Vec<ExitStatus>,
    stream_results: Vec<Result<(), std::io::Error>>,
    stdout: Vec<u8>,
    stderr: Vec<u8>,
) -> (r: Result<Output, Error>)
    requires
        statuses@.len() == leaf_count(*e),
    ensures
        spawn_error matches Some(x) ==> r == Err::<Output, Error>(Error::Spawn(x)),
        spawn_error is None && has_err_before(stream_results@, stream_results@.len() as int) ==> exists|i: int|
            0 <= i < stream_results@.len() && !has_err_before(stream_results@, i)
                && (stream_results@[i] matches Err(x) && r == Err::<Output, Error>(Error::Io(x))),
        spawn_error is None && !has_err_before(stream_results@, stream_results@.len() as int) ==> {
            let o = outcome_of(*e, statuses@);
            let out = Output { status: o.status, stdout, stderr };
            r == if is_fatal(o) { Err::<Output, Error>(Error::Status(out)) } else { Ok(out) }
        },
{
    if let Some(x) = spawn_error {
        return Err(Error::Spawn(x));
    }
    let mut results = stream_results;
    let mut i: usize = 0;
    while i < results.len()
        invariant
            results@ == stream_results@,
            spawn_error is None,
            0 <= i <= results@.len(),
            !has_err_before(results@, i as int),
        decreases results@.len() - i,
    {
        if results[i].is_err() {
            let failed = results.remove(i);
            assert(failed == stream_results@[i as int]);
            match failed {
                Err(x) => {
                    assert(stream_results@[i as int] matches Err(y) && y == x);
                    return Err(Error::Io(x));
                },
                Ok(()) => {},
            }
        }
        i = i + 1;
    }
    let o = e.resolve(statuses);
    let out = Output { status: o.status, stdout, stderr };
    if o.is_checked_error() {
        Err(Error::Status(out))
    } else {
        Ok(out)
    }
}

/// `b` without one trailing `\r\n` or `\n`.
pub open spec fn without_newline(b: Seq<u8>) -> Seq<u8> {
    if b.len() >= 2 && b[b.len() - 2] == 13u8 && b[b.len() - 1] == 10u8 {
        b.take(b.len() - 2)
    } else if b.len() >= 1 && b[b.len() - 1] == 10u8 {
        b.take(b.len() - 1)
    } else {
        b
    }
}

/// Drops exactly one trailing newline sequence, `\r\n` or `\n`, if there is one.
pub fn trim_newline(b: Vec<u8>) -> (r: Vec<u8>)
    ensures
        r@ == without_newline(b@),
{
    let mut b = b;
    let n = b.len();
    if n >= 2 && b[n - 2] == 13u8 && b[n - 1] == 10u8 {
        b.truncate(n - 2);
    } else if n >= 1 && b[n - 1] == 10u8 {
        b.truncate(n - 1);
    }
    b
}

/// The captured standard output of `read` as text: one trailing newline
/// sequence removed, and `InvalidUtf8` when the rest is not UTF-8.
pub fn read_text(stdout: Vec<u8>) -> (r: Result<String, Error>)
    ensures
        r matches Ok(s) ==> utf8_text(without_newline(stdout@)) == Some(s@),
        r is Err <==> utf8_text(without_newline(stdout@)) is None,
        r is Err ==> r matches Err(Error::InvalidUtf8),
        without_newline(stdout@).len() == 0 ==> r is Ok,
{
    match decode_utf8(trim_newline(stdout)) {
        Some(s) => Ok(s),
        None => Err(Error::InvalidUtf8),
    }
}

/// When every command of `a` and of `b` succeeds, `then(a, b)` and
/// `pipe(a, b)` both report the status of `b`.
pub proof fn successes_report_right(a: Expression, b: Expression, st: Seq<ExitStatus>)
    requires
        st.len() == leaf_count(a) + leaf_count(b),
        exited_zero(outcome_of(a, st.take(leaf_count(a) as int)).status),
        exited_zero(outcome_of(b, st.skip(leaf_count(a) as int)).status),
    ensures
        outcome_of(Expression::Then(Box::new(a), Box::new(b)), st).status == outcome_of(b, st.skip(leaf_count(a) as int)).status,
        outcome_of(Expression::Pipe(Box::new(a), Box::new(b)), st).status == outcome_of(b, st.skip(leaf_count(a) as int)).status,
{
}

} // verus!
