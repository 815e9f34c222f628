use vstd::prelude::*;

verus! {

/// How a child process ended: its exit code, or `None` when a signal ended it.
#[derive(Clone, Copy, Debug, PartialEq, Eq, Structural)]
pub struct ExitStatus {
    pub code: Option<i32>,
}

pub open spec fn exited_zero(s: ExitStatus) -> bool {
    s.code == Some(0i32)
}

impl ExitStatus {
    pub fn from_code(code: i32) -> (r: ExitStatus)
        ensures
            r.code == Some(code),
    {
        ExitStatus { code: Some(code) }
    }

    pub fn code(&self) -> (r: Option<i32>)
        ensures
            r == self.code,
    {
        self.code
    }

    pub fn success(&self) -> (r: bool)
        ensures
            r == exited_zero(*self),
    {
        match self.code {
            Some(c) => c == 0,
            None => false,
        }
    }
}

/// What a finished subtree resolves to: the status it reports, and whether a
/// failure of it is fatal to its parent.
#[derive(Clone, Copy, Debug, PartialEq, Eq, Structural)]
pub struct Outcome {
    pub status: ExitStatus,
    pub checked: bool,
}

/// A checked failure: a non-zero or abnormal exit that the parent must report.
pub open spec fn is_fatal(o: Outcome) -> bool {
    o.checked && !exited_zero(o.status)
}

/// `then`: the right side's outcome, unless only the left side failed fatally.
pub open spec fn then_outcome(left: Outcome, right: Outcome) -> Outcome {
    if is_fatal(right) {
        right
    } else if is_fatal(left) {
        left
    } else {
        right
    }
}

/// `pipe`: a fatal right side wins, then a fatal left side; among non-fatal
/// sides a failure is not hidden by the other side's success.
pub open spec fn pipe_outcome(left: Outcome, right: Outcome) -> Outcome {
    if is_fatal(right) {
        right
    } else if is_fatal(left) {
        left
    } else if exited_zero(right.status) && !exited_zero(left.status) {
        left
    } else {
        right
    }
}

impl Outcome {
    /// A leaf's outcome: its raw status, fatal when nonzero unless unchecked.
    pub fn new(status: ExitStatus, checked: bool) -> (r: Outcome)
        ensures
            r.status == status,
            r.checked == checked,
    {
        Outcome { status, checked }
    }

    pub fn is_checked_error(&self) -> (r: bool)
        ensures
            r == is_fatal(*self),
    {
        self.checked && !self.status.success()
    }

    /// The same status, no longer fatal to the parent.
    pub fn unchecked(self) -> (r: Outcome)
        ensures
            r.status == self.status,
            !r.checked,
    {
        Outcome { status: self.status, checked: false }
    }
}

/// Grouping a sequence of three either way reports the same outcome.
pub proof fn then_is_associative(a: Outcome, b: Outcome, c: Outcome)
    ensures
        then_outcome(then_outcome(a, b), c) == then_outcome(a, then_outcome(b, c)),
{
}

pub fn resolve_then(left: Outcome, right: Outcome) -> (r: Outcome)
    ensures
        r == then_outcome(left, right),
{
    if right.is_checked_error() {
        right
    } else if left.is_checked_error() {
        left
    } else {
        right
    }
}

pub fn resolve_pipe(left: Outcome, right: Outcome) -> (r: Outcome)
    ensures
        r == pipe_outcome(left, right),
{
    if right.is_checked_error() {
        right
    } else if left.is_checked_error() {
        left
    } else if right.status.success() && !left.status.success() {
        left
    } else {
        right
    }
}

} // verus!
