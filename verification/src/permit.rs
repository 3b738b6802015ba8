use vstd::prelude::*;

verus! {

/// What a writer must do before writing to a position, or to a run of
/// consecutive positions, of a collection that grows while it is written.
#[derive(Debug, Clone, Copy, PartialEq, Eq, Structural)]
pub enum WritePermit {
    /// Every target position is already allocated: write at once.
    JustWrite,
    /// The first unallocated position is among the targets: this writer
    /// grows the collection, then writes.
    GrowThenWrite,
    /// All targets lie beyond the first unallocated position: another
    /// writer is responsible for the growth, so re-evaluate later.
    Spin,
}

/// The permit for writing to position `idx` of a collection whose allocated
/// capacity is `capacity`.
pub open spec fn permit_for_index(idx: int, capacity: int) -> WritePermit {
    if idx < capacity {
        WritePermit::JustWrite
    } else if idx == capacity {
        WritePermit::GrowThenWrite
    } else {
        WritePermit::Spin
    }
}

/// The permit for writing `num_items` values to positions `begin_idx`,
/// `begin_idx + 1`, ..., `begin_idx + num_items - 1` of a collection whose
/// allocated capacity is `capacity`.
pub open spec fn permit_for_range(begin_idx: int, num_items: int, capacity: int) -> WritePermit {
    let last_idx = begin_idx + num_items - 1;
    if last_idx < capacity {
        WritePermit::JustWrite
    } else if begin_idx > capacity {
        WritePermit::Spin
    } else {
        WritePermit::GrowThenWrite
    }
}

/// Writing one value at `idx` is decided exactly as writing a run of one
/// value starting at `idx`.
pub proof fn lemma_single_item_is_batch_of_one(idx: int, capacity: int)
    ensures
        permit_for_range(idx, 1, capacity) == permit_for_index(idx, capacity),
{
}

/// A run may be written at once exactly when it ends within the allocated
/// positions, that is, when every one of its positions is allocated.
pub proof fn lemma_just_write_iff_allocated(begin_idx: int, num_items: int, capacity: int)
    requires
        num_items >= 1,
    ensures
        (permit_for_range(begin_idx, num_items, capacity) == WritePermit::JustWrite) <==> (
        begin_idx + num_items <= capacity),
{
}

/// A writer is asked to wait exactly when its whole run lies past the first
/// unallocated position; it is asked to grow exactly when its run holds that
/// position.
pub proof fn lemma_spin_iff_beyond_capacity(begin_idx: int, num_items: int, capacity: int)
    requires
        num_items >= 1,
    ensures
        (permit_for_range(begin_idx, num_items, capacity) == WritePermit::Spin) <==> begin_idx
            > capacity,
        (permit_for_range(begin_idx, num_items, capacity) == WritePermit::GrowThenWrite) <==> (
        begin_idx <= capacity < begin_idx + num_items),
{
}

/// Only one growth happens at a time: of two writers holding disjoint runs
/// of positions, at most one is asked to grow a collection of a given
/// capacity.
pub proof fn lemma_at_most_one_grower(
    begin_a: int,
    num_a: int,
    begin_b: int,
    num_b: int,
    capacity: int,
)
    requires
        num_a >= 1,
        num_b >= 1,
        begin_a + num_a <= begin_b || begin_b + num_b <= begin_a,
    ensures
        !(permit_for_range(begin_a, num_a, capacity) == WritePermit::GrowThenWrite
            && permit_for_range(begin_b, num_b, capacity) == WritePermit::GrowThenWrite),
{
}

/// Once the collection has grown to cover a run (as the grower does before
/// writing), writing that run needs neither growth nor waiting.
pub proof fn lemma_growth_covers_own_range(begin_idx: int, num_items: int, capacity: int)
    requires
        num_items >= 1,
        capacity >= begin_idx + num_items,
    ensures
        permit_for_range(begin_idx, num_items, capacity) == WritePermit::JustWrite,
{
}

} // verus!
