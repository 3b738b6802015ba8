use vstd::prelude::*;
use std::sync::atomic::AtomicUsize;
use std::sync::atomic::Ordering;
use orx_pinned_vec::PinnedVec;
use crate::outside::pinned_vec_len;
use crate::permit::{permit_for_index, permit_for_range, WritePermit};

verus! {

/// Concurrent state of the bag: the number of positions handed out to
/// writers (`len`) and the end of the last completed write (`written_len`).
#[derive(Debug)]
pub struct ConcurrentBagState {
    len: AtomicUsize,
    written_len: AtomicUsize,
}

impl ConcurrentBagState {
    /// State for a bag that wraps `pinned_vec`: its elements count as both
    /// handed out and written. The counters are std atomics, whose values no
    /// contract here can speak of, so the starting counts are not stated.
    pub fn new_for_pinned_vec<T, P: PinnedVec<T>>(pinned_vec: &P) -> Self {
        let len = pinned_vec_len(pinned_vec);
        ConcurrentBagState { len: AtomicUsize::new(len), written_len: AtomicUsize::new(len) }
    }

    /// State for a bag whose concurrent storage already holds `len` written
    /// elements. The counters are std atomics, whose values no contract here
    /// can speak of, so the starting counts are not stated.
    pub fn new_for_con_pinned_vec(len: usize) -> Self {
        ConcurrentBagState { len: AtomicUsize::new(len), written_len: AtomicUsize::new(len) }
    }

    /// The permit for writing to position `idx` while `capacity` positions
    /// are allocated.
    pub fn write_permit(&self, capacity: usize, idx: usize) -> (permit: WritePermit)
        ensures
            permit == permit_for_index(idx as int, capacity as int),
    {
        if idx < capacity {
            WritePermit::JustWrite
        } else if idx == capacity {
            WritePermit::GrowThenWrite
        } else {
            WritePermit::Spin
        }
    }

    /// The permit for writing `num_items` values to consecutive positions
    /// starting at `begin_idx` while `capacity` positions are allocated.
    pub fn write_permit_n_items(
        &self,
        capacity: usize,
        begin_idx: usize,
        num_items: usize,
    ) -> (permit: WritePermit)
        requires
            1 <= begin_idx + num_items <= usize::MAX,
        ensures
            permit == permit_for_range(begin_idx as int, num_items as int, capacity as int),
    {
        let last_idx = begin_idx + num_items - 1;
        if last_idx < capacity {
            WritePermit::JustWrite
        } else if begin_idx > capacity {
            WritePermit::Spin
        } else {
            WritePermit::GrowThenWrite
        }
    }

    /// Records that the positions up to `end_idx` have been written.
    pub fn update_after_write(&self, begin_idx: usize, end_idx: usize) {
        self.written_len.store(end_idx, Ordering::Release);
    }

    /// The length up to which the bag is free of gaps: always known, namely
    /// the number of positions handed out. That number is read from an atomic
    /// that other threads change, so only that it is known is stated.
    pub fn try_get_no_gap_len(&self) -> (no_gap_len: Option<usize>)
        ensures
            no_gap_len is Some,
    {
        Some(self.len())
    }

    /// Hands out `increment_by` consecutive positions and returns the first
    /// of them (the number of positions handed out before this call). The
    /// counter is shared with other threads, so the number is not stated.
    pub fn fetch_increment_len(&self, increment_by: usize) -> usize {
        self.len.fetch_add(increment_by, Ordering::SeqCst)
    }

    /// The number of positions handed out to writers so far, read from an
    /// atomic that other threads change; the number is not stated.
    pub fn len(&self) -> usize {
        self.len.load(Ordering::Acquire)
    }

    /// The end of the most recently completed write, read from an atomic
    /// that other threads change; the number is not stated.
    pub fn written_len(&self) -> usize {
        self.written_len.load(Ordering::Acquire)
    }
}

} // verus!
