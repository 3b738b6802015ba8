//! Verified core of a grow-only concurrent bag.
//!
//! The bag reserves positions with an atomic counter and asks, before each
//! write, whether the target positions are already allocated, must be grown
//! by the writer, or must wait for another writer's growth.
mod mem_fill;
mod outside;
mod permit;
mod sealed;
mod state;

pub use orx_fixed_vec::FixedVec;
pub use orx_pinned_vec::{
    ConcurrentPinnedVec, IntoConcurrentPinnedVec, PinnedVec, PinnedVecGrowthError,
};
pub use orx_split_vec::{Doubling, Linear, SplitVec};
pub use permit::{
    lemma_growth_covers_own_range, lemma_just_write_iff_allocated, lemma_single_item_is_batch_of_one,
    lemma_spin_iff_beyond_capacity, lemma_at_most_one_grower, permit_for_index, permit_for_range,
    WritePermit,
};
pub use mem_fill::{EagerWithDefault, FillStrategy, Lazy};
pub use state::ConcurrentBagState;
