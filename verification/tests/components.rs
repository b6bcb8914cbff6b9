use thumbflow::gate::Gate;
use thumbflow::progress::ProgressTracker;

#[test]
fn gate_counts_permits() {
    let mut g = Gate::new(2);
    assert_eq!(g.capacity, 2);
    assert_eq!(g.in_use, 0);
    assert!(g.slot_free());
    g.acquire();
    assert!(g.slot_free());
    g.acquire();
    assert!(!g.slot_free());
    assert_eq!(g.in_use, 2);
    g.release();
    assert!(g.slot_free());
    assert_eq!(g.in_use, 1);
}

#[test]
fn tracker_increments_once_per_completion() {
    let mut t = ProgressTracker::new(2);
    assert_eq!(t.completed, 0);
    let ev = t.record_completion("a.mp4");
    assert_eq!(ev.completed, 1);
    assert_eq!(ev.total, 2);
    assert_eq!(ev.current_item.as_str(), "a.mp4");
    let ev = t.record_completion("b.mp4");
    assert_eq!(ev.completed, 2);
    assert_eq!(t.completed, 2);
    assert_eq!(t.current_item.as_str(), "b.mp4");
}
