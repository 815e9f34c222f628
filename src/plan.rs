use vstd::prelude::*;
use crate::context::{
    dir_scope, env_scope, full_env_scope, redirect_scope, scope_of, scope_streams, Context, Endpoint, Scope,
};
use crate::expression::{copy_bytes, copy_strings, Expression, Redirect};

verus! {

/// One child to spawn: its argument vector and everything it inherits.
#[derive(Debug)]
pub struct SpawnRequest {
    pub argv: Vec<String>,
    pub context: Context,
}

/// What a runner does to start an expression. Every context is resolved; the
/// runner opens what the endpoints name and spawns.
#[derive(Debug)]
pub enum Plan {
    Spawn(SpawnRequest),
    /// Open pipe `slot`, start both sides before waiting on either, and close
    /// the parent's copies of its ends once both are started.
    Pipe(usize, Box<Plan>, Box<Plan>),
    /// Start and wait for the left side, then start the right side.
    Then(Box<Plan>, Box<Plan>),
    /// Open pipe `slot` and write the bytes into it from a thread of their own,
    /// closing it when done; the inner plan reads it as `Input(slot)`.
    Feed(usize, Vec<u8>, Box<Plan>),
}

/// How many pipe slots the plan of `e` uses.
pub open spec fn slot_count(e: Expression) -> nat
    decreases e,
{
    match e {
        Expression::Cmd(_) => 0,
        Expression::Pipe(l, r) => 1 + slot_count(*l) + slot_count(*r),
        Expression::Then(l, r) => slot_count(*l) + slot_count(*r),
        Expression::Io(how, inner) => match how {
            Redirect::StdinBytes(_) => 1 + slot_count(*inner),
            _ => slot_count(*inner),
        },
        Expression::Env(_, _, inner) => slot_count(*inner),
        Expression::FullEnv(_, inner) => slot_count(*inner),
        Expression::Dir(_, inner) => slot_count(*inner),
        Expression::Unchecked(inner) => slot_count(*inner),
    }
}

/// `p` starts the commands of `e` in scope `s`, numbering pipes from `slot`:
/// one spawn per command with its argument vector and the scope that the
/// nodes above it make, a pipe per pipe (its left side writing the pipe, its
/// right side reading it), a sequence per `then`, a feed per `input`.
pub open spec fn mirrors(p: Plan, e: Expression, s: Scope, slot: nat) -> bool
    decreases e,
{
    match e {
        Expression::Cmd(argv) => p matches Plan::Spawn(req) && req.argv@ == argv@ && scope_of(req.context) == s,
        Expression::Pipe(l, r) => p matches Plan::Pipe(k, pl, pr) && k == slot
            && mirrors(*pl, *l, scope_streams(s, s.stdin, Endpoint::PipeWrite(slot as usize), s.stderr), slot + 1)
            && mirrors(*pr, *r, scope_streams(s, Endpoint::PipeRead(slot as usize), s.stdout, s.stderr), slot + 1 + slot_count(*l)),
        Expression::Then(l, r) => p matches Plan::Then(pl, pr) && mirrors(*pl, *l, s, slot)
            && mirrors(*pr, *r, s, slot + slot_count(*l)),
        Expression::Io(how, inner) => match how {
            Redirect::StdinBytes(b) => p matches Plan::Feed(k, bytes, pi) && k == slot && bytes@ == b@
                && mirrors(*pi, *inner, redirect_scope(s, how, slot as usize), slot + 1),
            _ => mirrors(p, *inner, redirect_scope(s, how, slot as usize), slot),
        },
        Expression::Env(n, v, inner) => mirrors(p, *inner, env_scope(s, n, v), slot),
        Expression::FullEnv(vars, inner) => mirrors(p, *inner, full_env_scope(s, vars@), slot),
        Expression::Dir(path, inner) => mirrors(p, *inner, dir_scope(s, path), slot),
        Expression::Unchecked(inner) => mirrors(p, *inner, s, slot),
    }
}

/// Plans `e` in `ctx`, numbering its pipes from `slot` on, depth first.
fn plan_from(e: &Expression, ctx: &Context, slot: usize) -> (r: (Plan, usize))
    requires
        slot + slot_count(*e) <= usize::MAX,
    ensures
        r.1 == slot + slot_count(*e),
        mirrors(r.0, *e, scope_of(*ctx), slot as nat),
    decreases e,
{
    match e {
        Expression::Cmd(argv) => {
            let req = SpawnRequest { argv: copy_strings(argv), context: ctx.duplicate() };
            (Plan::Spawn(req), slot)
        },
        Expression::Pipe(l, r) => {
            let left_ctx = ctx.with_stdout(Endpoint::PipeWrite(slot));
            let right_ctx = ctx.with_stdin(Endpoint::PipeRead(slot));
            let (pl, mid) = plan_from(l, &left_ctx, slot + 1);
            let (pr, end) = plan_from(r, &right_ctx, mid);
            (Plan::Pipe(slot, Box::new(pl), Box::new(pr)), end)
        },
        Expression::Then(l, r) => {
            let (pl, mid) = plan_from(l, ctx, slot);
            let (pr, end) = plan_from(r, ctx, mid);
            (Plan::Then(Box::new(pl), Box::new(pr)), end)
        },
        Expression::Io(how, inner) => match how {
            Redirect::StdinBytes(b) => {
                let inner_ctx = ctx.redirected(how, slot);
                let (pi, end) = plan_from(inner, &inner_ctx, slot + 1);
                (Plan::Feed(slot, copy_bytes(b), Box::new(pi)), end)
            },
            _ => {
                let inner_ctx = ctx.redirected(how, slot);
                plan_from(inner, &inner_ctx, slot)
            },
        },
        Expression::Env(n, v, inner) => plan_from(inner, &ctx.with_env(n, v), slot),
        Expression::FullEnv(vars, inner) => plan_from(inner, &ctx.with_full_env(vars), slot),
        Expression::Dir(p, inner) => plan_from(inner, &ctx.with_dir(p), slot),
        Expression::Unchecked(inner) => plan_from(inner, ctx, slot),
    }
}

impl Expression {
    /// The plan that starts this expression in `ctx`, with pipes numbered
    /// from 0, depth first; the count of pipe slots it uses comes with it.
    pub fn plan(&self, ctx: &Context) -> (r: (Plan, usize))
        requires
            slot_count(*self) <= usize::MAX,
        ensures
            r.1 == slot_count(*self),
            mirrors(r.0, *self, scope_of(*ctx), 0),
    {
        plan_from(self, ctx, 0)
    }
}

} // verus!
