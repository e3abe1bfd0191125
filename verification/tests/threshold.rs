use skyline_bridge::calculate_threshold;

#[test]
fn threshold_of_every_admissible_committee() {
    assert_eq!(calculate_threshold(4), 3);
    assert_eq!(calculate_threshold(5), 4);
    assert_eq!(calculate_threshold(6), 4);
    assert_eq!(calculate_threshold(7), 5);
    assert_eq!(calculate_threshold(8), 6);
    assert_eq!(calculate_threshold(9), 6);
    assert_eq!(calculate_threshold(10), 7);
}

#[test]
fn threshold_is_the_least_count_reaching_two_thirds() {
    for n in 1usize..=1000 {
        let t = calculate_threshold(n);
        assert!(3 * t >= 2 * n, "n = {}", n);
        assert!(3 * (t - 1) < 2 * n, "n = {}", n);
        assert!(1 <= t && t <= n, "n = {}", n);
        assert_eq!(t, (2 * n + 2) / 3);
    }
}

#[test]
fn threshold_of_small_counts() {
    assert_eq!(calculate_threshold(0), 0);
    assert_eq!(calculate_threshold(1), 1);
    assert_eq!(calculate_threshold(2), 2);
    assert_eq!(calculate_threshold(3), 2);
}

#[test]
fn threshold_of_the_largest_count_does_not_overflow() {
    let n = usize::MAX;
    assert_eq!(calculate_threshold(n), n - n / 3);
}

#[test]
fn threshold_never_shrinks_as_the_committee_grows() {
    let mut last = 0usize;
    for n in 0usize..=200 {
        let t = calculate_threshold(n);
        assert!(t >= last);
        last = t;
    }
}
