//! Flag-gated invocation of actions.
//!
//! A flag is a single boolean cell owned by the caller. Each operation looks
//! at the flag's current value, may force the flag to a target value, and runs
//! a caller-supplied action only when the flag's prior value allows it. The
//! outcome is an `Option`: `Some` carries the action's result when it ran,
//! `None` says the action stayed unrun.

use vstd::prelude::*;

verus! {

/// The four flag-gated operations.
///
/// The flag after a call, and whether the action ran, are a pure function of
/// the flag before the call and the operation chosen; `step` and `runs` below
/// spell that function out, and every operation's contract is stated over
/// them.
pub enum Op {
    /// Force the flag true; run the action only on the transition from false.
    ToTrue,
    /// Force the flag false; run the action only on the transition from true.
    ToFalse,
    /// Force the flag true; run the action only if it already was true.
    InTrue,
    /// Force the flag false; run the action only if it already was false.
    InFalse,
}

/// The flag's value after applying `op` to a flag holding `v`.
pub open spec fn step(op: Op, v: bool) -> bool {
    match op {
        Op::ToTrue => true,
        Op::ToFalse => false,
        Op::InTrue => true,
        Op::InFalse => false,
    }
}

/// Whether applying `op` to a flag holding `v` runs the gated action.
pub open spec fn runs(op: Op, v: bool) -> bool {
    match op {
        Op::ToTrue => !v,
        Op::ToFalse => v,
        Op::InTrue => v,
        Op::InFalse => !v,
    }
}

/// Edge-triggered gates: the action runs exactly when the flag transitions
/// into the target value.
pub trait ToTrue: Sized {
    /// The flag's current value.
    spec fn flag(&self) -> bool;

    /// Set the flag true; run `f` only if the flag was false.
    fn to_true<F, R>(&mut self, f: F) -> (r: Option<R>) where F: FnOnce() -> R
        requires
            runs(Op::ToTrue, old(self).flag()) ==> call_requires(f, ()),
        ensures
            final(self).flag() == step(Op::ToTrue, old(self).flag()),
            r is Some <==> runs(Op::ToTrue, old(self).flag()),
            r matches Some(out) ==> call_ensures(f, (), out),
    ;

    /// Set the flag false; run `f` only if the flag was true.
    fn to_false<F, R>(&mut self, f: F) -> (r: Option<R>) where F: FnOnce() -> R
        requires
            runs(Op::ToFalse, old(self).flag()) ==> call_requires(f, ()),
        ensures
            final(self).flag() == step(Op::ToFalse, old(self).flag()),
            r is Some <==> runs(Op::ToFalse, old(self).flag()),
            r matches Some(out) ==> call_ensures(f, (), out),
    ;
}

impl ToTrue for bool {
    open spec fn flag(&self) -> bool {
        *self
    }

    fn to_true<F, R>(&mut self, f: F) -> (r: Option<R>) where F: FnOnce() -> R {
        if *self {
            None
        } else {
            *self = true;
            Some(f())
        }
    }

    fn to_false<F, R>(&mut self, f: F) -> (r: Option<R>) where F: FnOnce() -> R {
        if *self {
            *self = false;
            Some(f())
        } else {
            None
        }
    }
}

/// Level-triggered gates: the flag is always forced to the target value, and
/// the action runs exactly when the flag already held a particular value
/// before the call.
pub trait InTrue: Sized {
    /// The flag's current value.
    spec fn flag(&self) -> bool;

    /// Set the flag true; run `f` only if the flag already was true.
    fn in_true<F, R>(&mut self, f: F) -> (r: Option<R>) where F: FnOnce() -> R
        requires
            runs(Op::InTrue, old(self).flag()) ==> call_requires(f, ()),
        ensures
            final(self).flag() == step(Op::InTrue, old(self).flag()),
            r is Some <==> runs(Op::InTrue, old(self).flag()),
            r matches Some(out) ==> call_ensures(f, (), out),
    ;

    /// Set the flag false; run `f` only if the flag already was false.
    fn in_false<F, R>(&mut self, f: F) -> (r: Option<R>) where F: FnOnce() -> R
        requires
            runs(Op::InFalse, old(self).flag()) ==> call_requires(f, ()),
        ensures
            final(self).flag() == step(Op::InFalse, old(self).flag()),
            r is Some <==> runs(Op::InFalse, old(self).flag()),
            r matches Some(out) ==> call_ensures(f, (), out),
    ;
}

impl InTrue for bool {
    open spec fn flag(&self) -> bool {
        *self
    }

    fn in_true<F, R>(&mut self, f: F) -> (r: Option<R>) where F: FnOnce() -> R {
        let was = *self;
        *self = true;
        if was {
            Some(f())
        } else {
            None
        }
    }

    fn in_false<F, R>(&mut self, f: F) -> (r: Option<R>) where F: FnOnce() -> R {
        let was = *self;
        *self = false;
        if was {
            None
        } else {
            Some(f())
        }
    }
}

/// Applying `to_true` twice to a flag that starts false: the first
/// application runs the action and leaves the flag true; the second finds the
/// flag already true, does not run the action, and the flag stays true.
pub proof fn lemma_to_true_twice(v: bool)
    requires
        !v,
    ensures
        runs(Op::ToTrue, v),
        step(Op::ToTrue, v),
        !runs(Op::ToTrue, step(Op::ToTrue, v)),
        step(Op::ToTrue, step(Op::ToTrue, v)),
{
}

/// A wrapped action that sits out its first invocation.
pub struct Skip<F> {
    state: bool,
    f: F,
}

impl<R, F: FnMut() -> R> Skip<F> {
    /// Whether the first invocation is already behind this wrapper.
    pub closed spec fn primed(self) -> bool {
        self.state
    }

    /// The wrapped action.
    pub closed spec fn action(self) -> F {
        self.f
    }

    /// Apply `in_true` semantics to the internal flag: the first invocation
    /// only primes the wrapper, every later one runs the wrapped action.
    pub fn call(&mut self) -> (r: Option<R>)
        requires
            runs(Op::InTrue, old(self).primed()) ==> call_requires(old(self).action(), ()),
        ensures
            final(self).primed() == step(Op::InTrue, old(self).primed()),
            final(self).action() == old(self).action(),
            r is Some <==> runs(Op::InTrue, old(self).primed()),
            r matches Some(out) ==> call_ensures(old(self).action(), (), out),
    {
        let was = self.state;
        self.state = true;
        if was {
            Some((self.f)())
        } else {
            None
        }
    }
}

/// Wrap an action so that its first invocation is skipped: the wrapper
/// returns `None` once, then runs the action on every later invocation.
pub fn skip<R, F: FnMut() -> R>(f: F) -> (w: Skip<F>)
    ensures
        !w.primed(),
        w.action() == f,
{
    Skip { state: false, f }
}

/// A wrapped single-use action behind a repeatable invoker.
pub struct Once<F> {
    f: Option<F>,
}

impl<R, F: FnOnce() -> R> Once<F> {
    /// The action still waiting to run, if any.
    pub closed spec fn pending(self) -> Option<F> {
        self.f
    }

    /// Consume and run the wrapped action if it is still pending, leaving the
    /// slot empty for good; report `None` on every later invocation.
    pub fn call(&mut self) -> (r: Option<R>)
        requires
            old(self).pending() matches Some(f) ==> call_requires(f, ()),
        ensures
            final(self).pending() is None,
            r is Some <==> old(self).pending() is Some,
            old(self).pending() matches Some(f) ==> (r matches Some(out) ==> call_ensures(
                f,
                (),
                out,
            )),
    {
        match self.f.take() {
            Some(f) => Some(f()),
            None => None,
        }
    }
}

/// Wrap a single-use action so it can be invoked through a repeatable
/// wrapper: the first invocation runs and consumes it, every later one
/// returns `None`.
pub fn once<R, F: FnOnce() -> R>(f: F) -> (w: Once<F>)
    ensures
        w.pending() == Some(f),
{
    Once { f: Some(f) }
}

} // verus!
