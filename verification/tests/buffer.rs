//! The bounded reply buffer: arrival order, eviction, and the two
//! take operations the coordinator's flush policy depends on.

use natural_syntax_ls::two::Two;

#[test]
fn push_fills_in_arrival_order() {
    let mut t: Two<u32> = Two::default();
    assert_eq!(t.push(1), None);
    assert_eq!(t.push(2), None);
    // Oldest first: take_older returns 1 and leaves 2.
    assert_eq!(t.take_older(), Some(1));
    assert_eq!(t.take_older(), None);
    assert_eq!(t.take_newer_n_clear(), Some(2));
    assert_eq!(t.take_newer_n_clear(), None);
}

#[test]
fn third_push_evicts_oldest_and_keeps_two_newest_in_order() {
    let mut t: Two<u32> = Two::new();
    assert_eq!(t.push(1), None);
    assert_eq!(t.push(2), None);
    // Buffer full: the third push evicts the oldest without a value.
    assert_eq!(t.push(3), Some(1));
    // The two newest are retained in order.
    assert_eq!(t.take_older(), Some(2));
    assert_eq!(t.take_newer_n_clear(), Some(3));
}

#[test]
fn take_older_needs_two_entries() {
    let mut t: Two<u32> = Two::new();
    assert_eq!(t.take_older(), None);
    t.push(7);
    // A lone entry keeps waiting.
    assert_eq!(t.take_older(), None);
    assert_eq!(t.take_newer_n_clear(), Some(7));
}

#[test]
fn take_newer_n_clear_prefers_newest_and_empties() {
    let mut t: Two<u32> = Two::new();
    t.push(4);
    t.push(5);
    // The newest is returned; the older is dropped without a value.
    assert_eq!(t.take_newer_n_clear(), Some(5));
    assert_eq!(t.take_older(), None);
    assert_eq!(t.take_newer_n_clear(), None);
}
