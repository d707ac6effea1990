use rimuru_bot::window::{ActionKind, ActionTracker, ActionWindow, WINDOW_MS};

#[test]
fn window_starts_empty() {
    let w = ActionWindow::new(WINDOW_MS);
    assert_eq!(w.len(), 0);
    assert_eq!(w.window_ms(), 10_000);
    assert_eq!(w.latest(), 0);
    assert_eq!(w.timestamps(), Vec::<u64>::new());
}

#[test]
fn record_keeps_what_is_inside_the_window() {
    let mut w = ActionWindow::new(10_000);
    w.record(0);
    w.record(2_000);
    w.record(9_000);
    assert_eq!(w.timestamps(), vec![0, 2_000, 9_000]);
    assert_eq!(w.latest(), 9_000);
}

#[test]
fn record_prunes_from_the_front() {
    let mut w = ActionWindow::new(10_000);
    w.record(0);
    w.record(2_000);
    w.record(9_000);
    w.record(11_999);
    assert_eq!(w.timestamps(), vec![2_000, 9_000, 11_999]);
    w.record(12_000);
    assert_eq!(w.timestamps(), vec![9_000, 11_999, 12_000]);
}

#[test]
fn a_timestamp_exactly_one_window_old_is_dropped() {
    let mut w = ActionWindow::new(10_000);
    w.record(5);
    w.record(10_004);
    assert_eq!(w.timestamps(), vec![5, 10_004]);
    w.record(10_005);
    assert_eq!(w.timestamps(), vec![10_004, 10_005]);
}

#[test]
fn retained_timestamps_are_recent_and_ascending() {
    let mut w = ActionWindow::new(10_000);
    let times: [u64; 9] = [3, 3, 700, 9_000, 10_002, 10_003, 19_999, 40_000, 40_001];
    for now in times {
        w.record(now);
        let kept = w.timestamps();
        assert!(!kept.is_empty());
        for pair in kept.windows(2) {
            assert!(pair[0] <= pair[1]);
        }
        for t in &kept {
            assert!(*t <= now);
            assert!(now - *t < 10_000);
        }
        assert_eq!(*kept.last().unwrap(), now);
    }
}

#[test]
fn a_window_of_length_zero_retains_nothing() {
    let mut w = ActionWindow::new(0);
    w.record(7);
    assert_eq!(w.len(), 0);
    w.record(8);
    assert_eq!(w.timestamps(), Vec::<u64>::new());
}

#[test]
fn equal_timestamps_are_all_kept() {
    let mut w = ActionWindow::new(10);
    w.record(4);
    w.record(4);
    w.record(4);
    assert_eq!(w.timestamps(), vec![4, 4, 4]);
}

#[test]
fn duplicate_holds_the_same() {
    let mut w = ActionWindow::new(50);
    w.record(10);
    w.record(20);
    let copy = w.duplicate();
    assert_eq!(copy.timestamps(), vec![10, 20]);
    assert_eq!(copy.window_ms(), 50);
    assert_eq!(copy.latest(), 20);
    w.record(100);
    assert_eq!(copy.timestamps(), vec![10, 20]);
    assert_eq!(w.timestamps(), vec![100]);
}

#[test]
fn tracker_counts_three_bans_then_starts_over() {
    let mut t = ActionTracker::new(10_000);
    assert_eq!(t.observe(ActionKind::Ban, "g", 0), 1);
    assert_eq!(t.observe(ActionKind::Ban, "g", 2_000), 2);
    assert_eq!(t.observe(ActionKind::Ban, "g", 9_000), 3);
    assert_eq!(t.observe(ActionKind::Ban, "g", 25_000), 1);
    assert_eq!(t.count(ActionKind::Ban, "g"), 1);
    assert_eq!(t.latest(), 25_000);
}

#[test]
fn tracker_keeps_communities_and_kinds_apart() {
    let mut t = ActionTracker::new(10_000);
    assert_eq!(t.observe(ActionKind::Ban, "a", 1), 1);
    assert_eq!(t.observe(ActionKind::Ban, "b", 2), 1);
    assert_eq!(t.observe(ActionKind::Kick, "a", 3), 1);
    assert_eq!(t.observe(ActionKind::ChannelDelete, "a", 4), 1);
    assert_eq!(t.observe(ActionKind::Ban, "a", 5), 2);
    assert_eq!(t.count(ActionKind::Ban, "a"), 2);
    assert_eq!(t.count(ActionKind::Ban, "b"), 1);
    assert_eq!(t.count(ActionKind::Kick, "a"), 1);
    assert_eq!(t.count(ActionKind::Kick, "b"), 0);
    assert_eq!(t.count(ActionKind::ChannelDelete, "a"), 1);
    assert_eq!(t.window_ms(), 10_000);
}

#[test]
fn tracker_of_unknown_community_counts_nothing() {
    let t = ActionTracker::new(10_000);
    assert_eq!(t.count(ActionKind::Ban, "nobody"), 0);
    assert_eq!(t.latest(), 0);
}
