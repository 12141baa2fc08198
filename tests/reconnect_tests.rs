use trade_gateway::reconnect::Backoff;

#[test]
fn backoff_doubles_up_to_cap() {
    let mut b = Backoff::new(100, 1_000, 6);
    assert_eq!(b.next_delay(), Some(100));
    assert_eq!(b.next_delay(), Some(200));
    assert_eq!(b.next_delay(), Some(400));
    assert_eq!(b.next_delay(), Some(800));
    assert_eq!(b.next_delay(), Some(1_000));
    assert_eq!(b.next_delay(), Some(1_000));
    assert_eq!(b.next_delay(), None);
    assert_eq!(b.attempts, 6);
}

#[test]
fn backoff_reset_starts_over() {
    let mut b = Backoff::new(50, 10_000, 3);
    b.next_delay();
    b.next_delay();
    b.reset();
    assert_eq!(b.attempts, 0);
    assert_eq!(b.next_delay(), Some(50));
}

#[test]
fn backoff_base_above_cap_and_huge_counts() {
    let mut b = Backoff::new(5_000, 1_000, 2);
    assert_eq!(b.next_delay(), Some(1_000));
    let mut c = Backoff::new(u64::MAX / 2, u64::MAX, 100);
    for _ in 0..10 {
        c.next_delay();
    }
    assert_eq!(c.next_delay(), Some(u64::MAX));
    let mut z = Backoff::new(10, 100, 0);
    assert_eq!(z.next_delay(), None);
}
