use tunnel_lifecycle::backoff::Backoff;

const SECOND: u128 = 1_000_000_000;

#[test]
fn delays_grow_by_the_base_up_to_the_cap() {
    let mut b = Backoff::new(5 * SECOND, 120 * SECOND);
    let mut seen = Vec::new();
    for _ in 0..26 {
        seen.push(b.next());
    }
    for (i, d) in seen.iter().enumerate() {
        let expected = std::cmp::min(120 * SECOND, 5 * SECOND * (i as u128 + 1));
        assert_eq!(*d, expected);
    }
    assert_eq!(seen[0], 5 * SECOND);
    assert_eq!(seen[23], 120 * SECOND);
    assert_eq!(seen[25], 120 * SECOND);
}

#[test]
fn delays_never_shrink_between_resets() {
    let mut b = Backoff::new(7, 100);
    let mut last = 0;
    for _ in 0..40 {
        let d = b.next();
        assert!(d >= last);
        assert!(d <= 100);
        last = d;
    }
}

#[test]
fn a_reset_starts_over_at_the_base() {
    let mut b = Backoff::new(5 * SECOND, 120 * SECOND);
    assert_eq!(b.next(), 5 * SECOND);
    assert_eq!(b.next(), 10 * SECOND);
    assert_eq!(b.next(), 15 * SECOND);
    b.reset();
    assert_eq!(b.next(), 5 * SECOND);
    assert_eq!(b.next(), 10 * SECOND);
}

#[test]
fn a_base_above_the_cap_gives_the_cap_at_once() {
    let mut b = Backoff::new(10 * SECOND, 5 * SECOND);
    assert_eq!(b.next(), 5 * SECOND);
    assert_eq!(b.next(), 5 * SECOND);
}

#[test]
fn a_product_too_large_for_the_machine_gives_the_cap() {
    let mut b = Backoff::new(u128::MAX / 2 + 1, u128::MAX);
    assert_eq!(b.next(), u128::MAX / 2 + 1);
    assert_eq!(b.next(), u128::MAX);
    assert_eq!(b.next(), u128::MAX);
}

#[test]
fn a_base_of_nothing_gives_no_delay() {
    let mut b = Backoff::new(0, 120 * SECOND);
    assert_eq!(b.next(), 0);
    assert_eq!(b.next(), 0);
}
