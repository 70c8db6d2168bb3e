use weverse_dl::pool::Pool;

#[test]
fn pool_hands_out_work_in_order_up_to_its_limit() {
    let mut pool = Pool::new(2, vec!["a", "b", "c"]);
    assert_eq!(pool.in_flight(), 0);
    assert_eq!(pool.waiting(), 3);
    assert_eq!(pool.next(), Some("a"));
    assert_eq!(pool.next(), Some("b"));
    assert_eq!(pool.next(), None);
    assert_eq!(pool.in_flight(), 2);
    assert_eq!(pool.waiting(), 1);
    pool.finished();
    assert_eq!(pool.in_flight(), 1);
    assert_eq!(pool.next(), Some("c"));
    assert_eq!(pool.next(), None);
    assert!(!pool.is_idle());
    pool.finished();
    pool.finished();
    assert!(pool.is_idle());
}

#[test]
fn pool_never_has_more_in_flight_than_its_limit() {
    for limit in 1..5usize {
        let mut pool = Pool::new(limit, (0..20).collect::<Vec<u32>>());
        let mut handed_back = Vec::new();
        let mut done = Vec::new();
        while !pool.is_idle() {
            while let Some(item) = pool.next() {
                assert!(pool.in_flight() <= limit);
                if item % 7 == 3 && !handed_back.contains(&item) {
                    handed_back.push(item);
                    pool.finished();
                    pool.resubmit(item);
                } else {
                    done.push(item);
                }
            }
            assert_eq!(pool.in_flight(), limit.min(20 - (done.len() - pool.in_flight())));
            pool.finished();
        }
        assert_eq!(handed_back, vec![3, 10, 17]);
        assert_eq!(done, (0..20).collect::<Vec<u32>>());
    }
}

#[test]
fn pool_with_limit_zero_starts_nothing() {
    let mut pool = Pool::new(0, vec![1, 2]);
    assert_eq!(pool.next(), None);
    pool.finished();
    pool.resubmit(0);
    assert_eq!(pool.next(), None);
    assert_eq!(pool.in_flight(), 0);
    assert_eq!(pool.waiting(), 3);
    assert!(!pool.is_idle());
}

#[test]
fn work_handed_back_comes_before_all_that_waits() {
    let mut pool = Pool::new(1, vec![1, 2, 3]);
    assert_eq!(pool.next(), Some(1));
    pool.finished();
    pool.resubmit(1);
    assert_eq!(pool.waiting(), 3);
    assert_eq!(pool.next(), Some(1));
    pool.finished();
    assert_eq!(pool.next(), Some(2));
    pool.resubmit(9);
    pool.resubmit(8);
    pool.finished();
    assert_eq!(pool.next(), Some(8));
    pool.finished();
    assert_eq!(pool.next(), Some(9));
    pool.finished();
    assert_eq!(pool.next(), Some(3));
}

#[test]
fn ending_work_that_was_never_started_changes_nothing() {
    let mut pool = Pool::new(3, vec!['x']);
    pool.finished();
    assert_eq!(pool.in_flight(), 0);
    assert_eq!(pool.waiting(), 1);
    assert_eq!(pool.next(), Some('x'));
    assert_eq!(pool.in_flight(), 1);
}

#[test]
fn empty_pool_is_idle() {
    let mut pool: Pool<u8> = Pool::new(20, Vec::new());
    assert!(pool.is_idle());
    assert_eq!(pool.next(), None);
    assert!(pool.is_idle());
}
