use vstd::prelude::*;

use crate::error::SimError;

verus! {

/// Whether a tridiagonal operator `(sub, diag, super)` with vectors of these
/// lengths can be applied to a vector of length `n`: every length equals `n`,
/// and `n >= 2`, since the first and last rows reach one neighbour each.
pub open spec fn apply_dims_ok(n_sub: nat, n_diag: nat, n_super: nat, n: nat) -> bool {
    n_sub == n && n_diag == n && n_super == n && n >= 2
}

/// Checks the lengths for `y = A·x` (see `apply_dims_ok`).
pub fn check_apply_dims(n_sub: usize, n_diag: usize, n_super: usize, n: usize) -> (r: Result<
    (),
    SimError,
>)
    ensures
        r is Ok <==> apply_dims_ok(n_sub as nat, n_diag as nat, n_super as nat, n as nat),
        r is Err ==> r == Err::<(), SimError>(SimError::DimensionMismatch),
{
    if n_sub != n || n_diag != n || n_super != n || n < 2 {
        Err(SimError::DimensionMismatch)
    } else {
        Ok(())
    }
}

/// Checks the lengths for solving `A·x = b` by the Thomas algorithm: those of
/// `check_apply_dims`, and a scratch buffer of length `n` as well.
pub fn check_solve_dims(
    n_sub: usize,
    n_diag: usize,
    n_super: usize,
    n_scratch: usize,
    n: usize,
) -> (r: Result<(), SimError>)
    ensures
        r is Ok <==> apply_dims_ok(n_sub as nat, n_diag as nat, n_super as nat, n as nat)
            && n_scratch == n,
        r is Err ==> r == Err::<(), SimError>(SimError::DimensionMismatch),
{
    if n_scratch != n {
        Err(SimError::DimensionMismatch)
    } else {
        check_apply_dims(n_sub, n_diag, n_super, n)
    }
}

} // verus!
