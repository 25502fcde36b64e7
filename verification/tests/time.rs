use beth_idle::time::{Duration, Instant};

#[test]
fn durations_count_as_those_of_std() {
    for (secs, nanos) in [(0, 0), (0, 1), (7, 999_999_999), (u64::MAX, 0), (u64::MAX, 999_999_999)] {
        let ours = Duration::new(secs, nanos);
        let theirs = std::time::Duration::new(secs, nanos);
        assert_eq!(ours.as_secs(), theirs.as_secs());
        assert_eq!(ours.subsec_nanos(), theirs.subsec_nanos());
        assert_eq!(ours.is_zero(), theirs.is_zero());
        for factor in [0, 1, 2, 1000, u32::MAX] {
            let product = theirs.saturating_mul(factor);
            assert_eq!(
                ours.saturating_mul(factor),
                Duration::new(product.as_secs(), product.subsec_nanos())
            );
        }
    }
}

#[test]
fn excess_nanoseconds_carry_over() {
    assert_eq!(Duration::new(1, 2_500_000_000), Duration::new(3, 500_000_000));
    assert_eq!(Duration::from_millis(1_250), Duration::new(1, 250_000_000));
    assert_eq!(Duration::from_secs(2), Duration::from_millis(2_000));
}

#[test]
fn instants_move_and_measure() {
    let start = Instant::at(Duration::from_secs(5));
    let later = start + Duration::from_millis(1_500);
    assert_eq!(later.duration_since(start), Duration::from_millis(1_500));
    assert_eq!(start.duration_since(later), Duration::from_secs(0));
    assert!(later.has_reached(start));
    assert!(later.has_reached(later));
    assert!(!start.has_reached(later));
}
