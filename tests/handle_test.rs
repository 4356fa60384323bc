use aardvark_jsi::{RefLedger, Release};

#[test]
fn clone_then_drop_either_copy() {
    let mut l = RefLedger::new();
    assert!(l.acquire(7));
    // clone
    assert!(l.acquire(7));
    assert_eq!(l.held(7), 2);
    // drop the clone: the original still holds its reference
    assert_eq!(l.release(7, false), Release::Free);
    assert_eq!(l.held(7), 1);
    // dropping the original releases the last one
    assert_eq!(l.release(7, false), Release::Free);
    assert_eq!(l.held(7), 0);
}

#[test]
fn release_without_reference_is_refused() {
    let mut l = RefLedger::new();
    assert_eq!(l.release(3, false), Release::Untracked);
    assert_eq!(l.held(3), 0);
}

#[test]
fn finalizing_handle_releases_nothing() {
    let mut l = RefLedger::new();
    assert!(l.acquire(5));
    assert_eq!(l.release(5, true), Release::Suppressed);
    assert_eq!(l.held(5), 1);
    assert_eq!(l.release(9, true), Release::Suppressed);
    assert_eq!(l.held(9), 0);
}

#[test]
fn values_are_counted_apart() {
    let mut l = RefLedger::new();
    assert!(l.acquire(1));
    assert!(l.acquire(2));
    assert!(l.acquire(2));
    assert_eq!(l.release(1, false), Release::Free);
    assert_eq!(l.held(1), 0);
    assert_eq!(l.held(2), 2);
}
