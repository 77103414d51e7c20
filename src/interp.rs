use vstd::prelude::*;

use crate::error::SimError;

verus! {

/// How a sampled profile is read between its samples.
#[derive(Debug, Clone, Copy, PartialEq, Eq, Structural)]
pub enum Types {
    Nearest,
    Linear,
}

/// `i` is the first position at which `keys` takes its least value.
pub open spec fn is_first_min(keys: Seq<u64>, i: int) -> bool {
    &&& 0 <= i < keys.len()
    &&& forall|j: int| 0 <= j < keys.len() ==> keys[i] <= #[trigger] keys[j]
    &&& forall|j: int| 0 <= j < i ==> keys[i] < #[trigger] keys[j]
}

/// Index of the nearest sample. `keys[i]` orders the distance from the query
/// point to sample `i` (for a non-negative IEEE-754 double, its bit pattern
/// orders as its value does). The least key wins; among equal keys, the
/// lowest index.
pub fn nearest_index(keys: &Vec<u64>) -> (r: Result<usize, SimError>)
    ensures
        keys@.len() == 0 <==> r == Err::<usize, SimError>(SimError::EmptyInput),
        keys@.len() > 0 ==> (r matches Ok(i) && is_first_min(keys@, i as int)),
{
    if keys.len() == 0 {
        return Err(SimError::EmptyInput);
    }
    let mut best: usize = 0;
    let mut i: usize = 1;
    while i < keys.len()
        invariant
            1 <= i <= keys@.len(),
            best < i,
            forall|j: int| 0 <= j < i ==> keys@[best as int] <= #[trigger] keys@[j],
            forall|j: int| 0 <= j < best ==> keys@[best as int] < #[trigger] keys@[j],
        decreases keys@.len() - i,
    {
        if keys[i] < keys[best] {
            best = i;
        }
        i = i + 1;
    }
    Ok(best)
}

/// Where a linear interpolant is read.
#[derive(Debug, Clone, Copy, PartialEq, Eq, Structural)]
pub enum Bracket {
    /// The value of the sample at this index, unchanged.
    Clamp(usize),
    /// The straight line through samples `i - 1` and `i`, for `i >= 1`.
    Between(usize),
}

/// `i` is the first position at which `above` holds.
pub open spec fn is_first_above(above: Seq<bool>, i: int) -> bool {
    &&& 0 <= i < above.len()
    &&& above[i]
    &&& forall|j: int| 0 <= j < i ==> !#[trigger] above[j]
}

/// The bracket that linear interpolation reads, from `above[i]`, which tells
/// whether sample position `i` lies strictly above the query point. The first
/// such sample closes the bracket; a query at or below the first sample reads
/// the first value, and one at or above every sample reads the last.
pub open spec fn linear_bracket_spec(above: Seq<bool>) -> Bracket
    recommends
        above.len() > 0,
{
    if exists|i: int| is_first_above(above, i) {
        let i = choose|i: int| is_first_above(above, i);
        if i == 0 {
            Bracket::Clamp(0)
        } else {
            Bracket::Between(i as usize)
        }
    } else {
        Bracket::Clamp((above.len() - 1) as usize)
    }
}

/// Chooses the samples that linear interpolation reads (see
/// `linear_bracket_spec`).
pub fn linear_bracket(above: &Vec<bool>) -> (r: Result<Bracket, SimError>)
    ensures
        above@.len() == 0 <==> r == Err::<Bracket, SimError>(SimError::EmptyInput),
        above@.len() > 0 ==> r == Ok::<Bracket, SimError>(linear_bracket_spec(above@)),
{
    if above.len() == 0 {
        return Err(SimError::EmptyInput);
    }
    let mut i: usize = 0;
    while i < above.len()
        invariant
            i <= above@.len(),
            forall|j: int| 0 <= j < i ==> !#[trigger] above@[j],
        decreases above@.len() - i,
    {
        if above[i] {
            proof {
                assert(is_first_above(above@, i as int));
                let k = choose|k: int| is_first_above(above@, k);
                assert(k == i as int) by {
                    if k < i as int {
                        assert(!above@[k]);
                    } else if k > i as int {
                        assert(!above@[i as int]);
                    }
                }
            }
            if i == 0 {
                return Ok(Bracket::Clamp(0));
            } else {
                return Ok(Bracket::Between(i));
            }
        }
        i = i + 1;
    }
    assert(!exists|k: int| is_first_above(above@, k));
    Ok(Bracket::Clamp(above.len() - 1))
}

} // verus!
