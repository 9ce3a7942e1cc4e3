//! An escape-hatch wrapper around `Result` that inverts the usual meaning of
//! early-return propagation: a success causes the enclosing function to return
//! at once, while a failure payload is handed back as a plain value for the
//! enclosing code to keep working with.
//!
//! The wrapper's propagation steps are verified here as plain functions:
//! `branch` decides whether to short-circuit, `result_from_residual` turns a
//! short-circuit residual back into a `Result`, and `from_output` /
//! `from_residual` rebuild a wrapper from the continue payload or a residual.
use vstd::prelude::*;

use core::ops::ControlFlow;

verus! {

/// A wrapper holding a two-armed outcome. Under the inverted propagation
/// semantics, the `Ok` arm short-circuits the enclosing function and the
/// `Err` arm continues normal execution with the error payload.
#[derive(Copy, PartialEq, Eq, PartialOrd, Ord, Debug, Hash)]
pub struct HatchResult<T, E>(pub Result<T, E>);

impl<T: Clone, E: Clone> Clone for HatchResult<T, E> {
    /// Clones the wrapper arm by arm, keeping the arm.
    fn clone(&self) -> (r: Self)
        ensures
            self.0 matches Ok(value) ==> (r.0 matches Ok(c) && cloned(value, c)),
            self.0 matches Err(err) ==> (r.0 matches Err(c) && cloned(err, c)),
    {
        match &self.0 {
            Ok(value) => HatchResult(Ok(value.clone())),
            Err(err) => HatchResult(Err(err.clone())),
        }
    }
}

/// What wrapping an outcome yields: the outcome, carried unchanged.
pub open spec fn wrap_spec<T, E>(r: Result<T, E>) -> HatchResult<T, E> {
    HatchResult(r)
}

/// What the propagation step decides for a wrapper: a success short-circuits,
/// carrying the success as the residual; a failure continues with its payload.
pub open spec fn branch_spec<T, E>(h: HatchResult<T, E>) -> ControlFlow<
    HatchResult<T, E>,
    E,
> {
    match h.0 {
        Ok(value) => ControlFlow::Break(HatchResult(Ok(value))),
        Err(err_msg) => ControlFlow::Continue(err_msg),
    }
}

/// What rebuilding a wrapper from the continue payload yields: a failure arm
/// carrying the payload.
pub open spec fn from_output_spec<T, E>(output: E) -> HatchResult<T, E> {
    HatchResult(Err(output))
}

impl<T, E> HatchResult<T, E> {
    /// Rebuilds a wrapper from a short-circuit residual: the residual passes
    /// through unchanged.
    pub fn from_residual(residual: HatchResult<T, E>) -> (r: HatchResult<T, E>)
        ensures
            r == residual,
    {
        residual
    }

    /// Rebuilds a wrapper from the continue payload, which is the failure arm.
    pub fn from_output(output: E) -> (r: HatchResult<T, E>)
        ensures
            r == from_output_spec::<T, E>(output),
            r.0 == Result::<T, E>::Err(output),
    {
        HatchResult(Err(output))
    }

    /// The propagation decision: a success arm short-circuits (`Break`) with
    /// the success as the residual; a failure arm continues (`Continue`) with
    /// the error payload as a plain value.
    pub fn branch(self) -> (cf: ControlFlow<HatchResult<T, E>, E>)
        ensures
            cf == branch_spec(self),
    {
        match self.0 {
            Ok(value) => ControlFlow::Break(HatchResult(Ok(value))),
            Err(err_msg) => ControlFlow::Continue(err_msg),
        }
    }

    /// Transforms the success arm with the given function and passes a
    /// failure arm through unchanged, keeping the arm either way.
    pub fn map<P, F: Fn(T) -> P>(self, construction_function: F) -> (r: HatchResult<P, E>)
        requires
            self.0 matches Ok(value) ==> call_requires(construction_function, (value,)),
        ensures
            self.0 matches Ok(value) ==> r.0 matches Ok(p) && call_ensures(
                construction_function,
                (value,),
                p,
            ),
            self.0 matches Err(err) ==> r.0 == Result::<P, E>::Err(err),
    {
        match self.0 {
            Ok(result) => HatchResult(Ok(construction_function(result))),
            Err(err) => HatchResult::<P, E>(Err(err)),
        }
    }
}

/// Turns a short-circuit residual into the enclosing function's `Result`.
/// A residual only ever carries the success arm, so a failure arm is ruled
/// out here; reaching it would be a logic-invariant violation, not an error.
pub fn result_from_residual<T, E>(residual: HatchResult<T, E>) -> (r: Result<T, E>)
    requires
        residual.0 is Ok,
    ensures
        r == residual.0,
{
    match residual.0 {
        Ok(value) => Ok(value),
        Err(_) => vstd::pervasive::unreached(),
    }
}

/// Conversion of a two-armed outcome into the escape-hatch wrapper.
pub trait EscapeHatch<T, E> {
    /// Wraps the outcome, carrying it unchanged.
    fn hatch(self) -> HatchResult<T, E>;
}

impl<T, E> EscapeHatch<T, E> for Result<T, E> {
    fn hatch(self) -> (r: HatchResult<T, E>)
        ensures
            r == wrap_spec(self),
    {
        HatchResult(self)
    }
}

/// Law: for every success value, wrapping it and taking the propagation steps
/// (the branch decision, then converting the residual) returns the original
/// success outcome unchanged — the round-trip identity of the escape path.
pub proof fn lemma_escape_round_trip_on_ok<T, E>(v: T)
    ensures
        branch_spec(wrap_spec(Result::<T, E>::Ok(v))) matches ControlFlow::Break(residual)
            && residual.0 == Result::<T, E>::Ok(v),
{
}

/// Law: for every failure value, wrapping it and taking the propagation step
/// does not short-circuit: the branch decision continues with the payload as
/// a plain value, and rebuilding a wrapper from that payload gives back a
/// failure arm carrying it.
pub proof fn lemma_escape_continues_on_err<T, E>(e: E)
    ensures
        branch_spec(wrap_spec(Result::<T, E>::Err(e))) == ControlFlow::<
            HatchResult<T, E>,
            E,
        >::Continue(e),
        from_output_spec::<T, E>(e).0 == Result::<T, E>::Err(e),
{
}

} // verus!
