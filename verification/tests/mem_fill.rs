use orx_concurrent_bag::{EagerWithDefault, FillStrategy, Lazy};

#[test]
fn lazy_fills_nothing() {
    assert_eq!(Lazy::positions_to_fill(3, 8), 3..3);
    assert_eq!(Lazy::positions_to_fill(0, 0), 0..0);
    assert_eq!(Lazy::positions_to_fill(5, 2).count(), 0);
}

#[test]
fn eager_fills_up_to_new_capacity() {
    assert_eq!(EagerWithDefault::positions_to_fill(3, 8), 3..8);
    assert_eq!(EagerWithDefault::positions_to_fill(5, 12).count(), 7);
    assert_eq!(EagerWithDefault::positions_to_fill(4, 4).count(), 0);
    assert_eq!(EagerWithDefault::positions_to_fill(6, 4).count(), 0);
}
