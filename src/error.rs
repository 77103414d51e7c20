use vstd::prelude::*;

verus! {

/// The failure kinds of the solver.
#[derive(Debug, Clone, Copy, PartialEq, Eq, Structural)]
pub enum SimError {
    /// The tridiagonal primitive received vectors of inconsistent length.
    DimensionMismatch,
    /// Interpolation was asked for on an empty sample set.
    EmptyInput,
    /// Bisection exhausted its iteration budget.
    RootNotFound,
    /// The Newton–Poisson loop reached its iteration cap without converging.
    Diverged,
    /// A parameter lies outside its admissible range.
    InvalidParameter,
}

} // verus!
