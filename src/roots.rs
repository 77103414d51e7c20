use vstd::prelude::*;

use crate::error::SimError;

verus! {

/// What a bisection does at the top of an iteration.
#[derive(Debug, Clone, Copy, PartialEq, Eq, Structural)]
pub enum BisectStep {
    /// Stop and return the midpoint.
    Accept,
    /// Evaluate the function at the midpoint and shrink the interval.
    Bisect,
    /// The iteration budget is spent: no root.
    Exhausted,
}

/// Which end of the interval the midpoint replaces.
#[derive(Debug, Clone, Copy, PartialEq, Eq, Structural)]
pub enum Replace {
    Lower,
    Upper,
    /// The midpoint value agrees in sign with neither end (it is zero, or the
    /// ends straddle it exactly): the interval stays as it is.
    Neither,
}

/// The step of iteration `iter` out of `max_iter`, given whether the
/// relative width `|hi - lo| / |mid|` is below the position tolerance and
/// whether the spread `|f(hi) - f(lo)|` is below the value tolerance. Both
/// must hold to accept.
pub fn bisect_step(iter: usize, max_iter: usize, width_within_tol: bool, spread_within_tol: bool) -> (r:
    BisectStep)
    ensures
        iter >= max_iter ==> r == BisectStep::Exhausted,
        iter < max_iter && width_within_tol && spread_within_tol ==> r == BisectStep::Accept,
        iter < max_iter && !(width_within_tol && spread_within_tol) ==> r == BisectStep::Bisect,
{
    if iter >= max_iter {
        BisectStep::Exhausted
    } else if width_within_tol && spread_within_tol {
        BisectStep::Accept
    } else {
        BisectStep::Bisect
    }
}

/// The end that the midpoint replaces, given whether `f(mid)·f(lo) > 0` and
/// whether `f(mid)·f(hi) > 0`. The lower end is tested first.
pub fn bisect_replace(mid_agrees_lower: bool, mid_agrees_upper: bool) -> (r: Replace)
    ensures
        mid_agrees_lower ==> r == Replace::Lower,
        !mid_agrees_lower && mid_agrees_upper ==> r == Replace::Upper,
        !mid_agrees_lower && !mid_agrees_upper ==> r == Replace::Neither,
{
    if mid_agrees_lower {
        Replace::Lower
    } else if mid_agrees_upper {
        Replace::Upper
    } else {
        Replace::Neither
    }
}

/// Whether a bisection may start on an interval whose end values agree in
/// sign (`f(lo)·f(hi) > 0`): it may not, since such an interval need not hold
/// a root, and bisecting it would return a spurious midpoint.
pub fn check_bracket(ends_agree: bool) -> (r: Result<(), SimError>)
    ensures
        r is Err <==> ends_agree,
        r is Err ==> r == Err::<(), SimError>(SimError::RootNotFound),
{
    if ends_agree {
        Err(SimError::RootNotFound)
    } else {
        Ok(())
    }
}

} // verus!
