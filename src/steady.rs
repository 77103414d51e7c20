use vstd::prelude::*;

use crate::error::SimError;

verus! {

/// How the Newton–Poisson loop goes on after an update.
#[derive(Debug, Clone, Copy, PartialEq, Eq, Structural)]
pub enum NewtonStep {
    Converged,
    Continue,
}

/// The decision after update number `iter` (counted from zero) out of
/// `max_iter`. `charge_settled`: the largest change of the charge vector is
/// below the charge tolerance. `potential_settled`: the largest potential
/// correction, relative to the largest potential, is below the relative
/// tolerance. Both must hold, and not before the third update; an
/// unconverged last update is a divergence.
pub fn newton_step(iter: usize, max_iter: usize, charge_settled: bool, potential_settled: bool) -> (r:
    Result<NewtonStep, SimError>)
    requires
        iter < max_iter,
    ensures
        charge_settled && potential_settled && iter > 1 ==> r == Ok::<NewtonStep, SimError>(
            NewtonStep::Converged,
        ),
        !(charge_settled && potential_settled && iter > 1) && iter + 1 == max_iter ==> r == Err::<
            NewtonStep,
            SimError,
        >(SimError::Diverged),
        !(charge_settled && potential_settled && iter > 1) && iter + 1 < max_iter ==> r == Ok::<
            NewtonStep,
            SimError,
        >(NewtonStep::Continue),
{
    if charge_settled && potential_settled && iter > 1 {
        Ok(NewtonStep::Converged)
    } else if iter + 1 == max_iter {
        Err(SimError::Diverged)
    } else {
        Ok(NewtonStep::Continue)
    }
}

/// Whether a Newton–Poisson loop with an iteration cap of `max_iter` can
/// converge at all: with no iteration allowed it cannot, which is a
/// divergence.
pub fn check_newton_budget(max_iter: usize) -> (r: Result<(), SimError>)
    ensures
        r is Err <==> max_iter == 0,
        r is Err ==> r == Err::<(), SimError>(SimError::Diverged),
{
    if max_iter == 0 {
        Err(SimError::Diverged)
    } else {
        Ok(())
    }
}

} // verus!
