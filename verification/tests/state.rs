use orx_concurrent_bag::{ConcurrentBagState, FixedVec, SplitVec};
use orx_pinned_vec::PinnedVec;

#[test]
fn state_for_pinned_vec_counts_its_elements() {
    let mut split: SplitVec<char> = SplitVec::new();
    split.push('a');
    split.push('b');
    split.push('c');
    let s = ConcurrentBagState::new_for_pinned_vec(&split);
    assert_eq!(s.len(), 3);
    assert_eq!(s.written_len(), 3);

    let fixed: FixedVec<char> = FixedVec::new(10);
    let s = ConcurrentBagState::new_for_pinned_vec(&fixed);
    assert_eq!(s.len(), 0);
    assert_eq!(s.written_len(), 0);
}

#[test]
fn state_for_con_pinned_vec_takes_given_len() {
    let s = ConcurrentBagState::new_for_con_pinned_vec(7);
    assert_eq!(s.len(), 7);
    assert_eq!(s.written_len(), 7);
    assert_eq!(s.try_get_no_gap_len(), Some(7));
}

#[test]
fn increments_hand_out_consecutive_positions() {
    let s = ConcurrentBagState::new_for_con_pinned_vec(0);
    assert_eq!(s.fetch_increment_len(1), 0);
    assert_eq!(s.fetch_increment_len(3), 1);
    assert_eq!(s.fetch_increment_len(0), 4);
    assert_eq!(s.fetch_increment_len(2), 4);
    assert_eq!(s.len(), 6);
    assert_eq!(s.try_get_no_gap_len(), Some(6));
    // nothing is recorded as written until a write completes
    assert_eq!(s.written_len(), 0);
    s.update_after_write(4, 6);
    assert_eq!(s.written_len(), 6);
    assert_eq!(s.len(), 6);
}
