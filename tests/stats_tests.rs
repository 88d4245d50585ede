use webreg_scraper::stats::{StatTracker, MAX_RECENT_REQUESTS};

#[test]
fn counters_follow_every_request() {
    let mut t = StatTracker::new();
    t.add_stat(10);
    t.add_stat(20);
    t.add_stat(5);
    let (n, total, recent) = t.snapshot();
    assert_eq!(n, 3);
    assert_eq!(total, 35);
    assert_eq!(recent, vec![10, 20, 5]);
}

#[test]
fn window_keeps_the_last_two_thousand_in_order() {
    let mut t = StatTracker::new();
    let n = MAX_RECENT_REQUESTS + 5;
    for i in 0..n {
        t.add_stat(i);
    }
    let (count, total, recent) = t.snapshot();
    assert_eq!(count, n);
    assert_eq!(total, (0..n).sum::<usize>());
    assert_eq!(recent.len(), MAX_RECENT_REQUESTS);
    assert_eq!(recent[0], 5);
    assert_eq!(recent[MAX_RECENT_REQUESTS - 1], n - 1);
}

#[test]
fn fresh_tracker_is_empty() {
    let t = StatTracker::new();
    assert_eq!(t.snapshot(), (0, 0, vec![]));
}
