//! Contracts for the bound accessors of inclusive ranges.
use vstd::prelude::*;

verus! {

/// `RangeInclusive::start`: std documents it as returning the lower bound of the range
/// (inclusive). The contract states that it returns the range's `start` field.
pub assume_specification<Idx>[ core::ops::RangeInclusive::<Idx>::start ](
    r: &core::ops::RangeInclusive<Idx>,
) -> (ret: &Idx)
    ensures
        *ret == r@.start,
;

/// `RangeInclusive::end`: std documents it as returning the upper bound of the range
/// (inclusive). The contract states that it returns the range's `end` field.
pub assume_specification<Idx>[ core::ops::RangeInclusive::<Idx>::end ](
    r: &core::ops::RangeInclusive<Idx>,
) -> (ret: &Idx)
    ensures
        *ret == r@.end,
;

} // verus!
