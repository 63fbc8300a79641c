use mediadup::tolerance::within_tolerance;

#[test]
fn equal_values_match() {
    assert!(within_tolerance(1, 1));
    assert!(within_tolerance(1_000_000, 1_000_000));
    assert!(within_tolerance(u64::MAX, u64::MAX));
}

#[test]
fn equal_zero_is_outside_the_strict_bound() {
    assert!(!within_tolerance(0, 0));
}

#[test]
fn two_percent_larger_does_not_match() {
    assert!(!within_tolerance(1_000_000, 1_020_000));
    assert!(!within_tolerance(1_020_000, 1_000_000));
}

#[test]
fn half_percent_larger_matches() {
    assert!(within_tolerance(1_000_000, 1_005_000));
    assert!(within_tolerance(1_005_000, 1_000_000));
}

#[test]
fn exactly_one_percent_does_not_match() {
    // 1000 - 990 == 10 == 1% of 1000: the bound is strict.
    assert!(!within_tolerance(1000, 990));
    // One byte less of drift is back inside.
    assert!(within_tolerance(1000, 991));
}
