use vstd::prelude::*;
use std::ops::Range;

verus! {

/// Strategy deciding which newly allocated positions of the bag, those
/// between the bag's length and its new capacity, are to be filled before
/// they are written. The strategy only chooses the positions; it writes
/// nothing itself.
pub trait FillStrategy: crate::sealed::FillStrategy {
    /// The positions that the strategy chooses to fill when the bag's capacity grows
    /// to `new_capacity` while positions from `begin_idx` on are not yet
    /// written. Only positions in `begin_idx..new_capacity` are ever chosen.
    fn positions_to_fill(begin_idx: usize, new_capacity: usize) -> (positions: Range<usize>)
        ensures
            positions.start < positions.end ==> begin_idx <= positions.start && positions.end
                <= new_capacity,
    ;
}

/// Lazy strategy chooses no position: the positions between the length and
/// the capacity are left unfilled. This is perfectly safe for the bag itself;
/// only its unsafe read methods could observe the unfilled memory.
pub struct Lazy;

impl crate::sealed::FillStrategy for Lazy {
}

impl FillStrategy for Lazy {
    fn positions_to_fill(begin_idx: usize, new_capacity: usize) -> (positions: Range<usize>)
        ensures
            positions.start == begin_idx,
            positions.end == begin_idx,
    {
        begin_idx..begin_idx
    }
}

/// EagerWithDefault strategy chooses every position between the length and
/// the new capacity, those to be filled with the default value of the element
/// type, so that even the unsafe read methods never observe uninitialized
/// memory.
pub struct EagerWithDefault;

impl crate::sealed::FillStrategy for EagerWithDefault {
}

impl FillStrategy for EagerWithDefault {
    fn positions_to_fill(begin_idx: usize, new_capacity: usize) -> (positions: Range<usize>)
        ensures
            positions.start == begin_idx,
            positions.end == new_capacity,
    {
        begin_idx..new_capacity
    }
}

} // verus!
