use thumbflow::pipeline::{aggregate, BatchPipeline, CompletionRecord, Outcome, Phase};

fn names(list: &[&str]) -> Vec<String> {
    list.iter().map(|s| s.to_string()).collect()
}

fn pipeline(list: &[&str], capacity: usize, fan_out: usize) -> BatchPipeline {
    BatchPipeline::new(
        names(list),
        String::from("movies"),
        String::from("thumbs"),
        capacity,
        fan_out,
    )
}

#[test]
fn empty_batch_completes_immediately() {
    let mut p = pipeline(&[], 4, 10);
    assert!(p.is_finished());
    let (ce, result) = p.finish();
    assert_eq!(ce.total, 0);
    let locs = result.unwrap();
    assert!(locs.is_empty());
    assert!(p.completion_emitted);
}

#[test]
fn skip_and_generate_pair() {
    // `a`'s artifact pre-exists, `b`'s does not: the generator runs exactly
    // once, and each item contributes one progress event.
    let mut p = pipeline(&["a.mp4", "b.mp4"], 4, 10);
    let loc_a = p.start_item(0);
    assert_eq!(loc_a.as_str(), "thumbs/a.mp4.jpg");
    let ev_a = p.on_store_checked(0, true).unwrap();
    assert_eq!(ev_a.total, 2);
    assert_eq!(ev_a.completed, 1);
    assert_eq!(ev_a.current_item.as_str(), "a.mp4");

    let loc_b = p.start_item(1);
    assert_eq!(loc_b.as_str(), "thumbs/b.mp4.jpg");
    assert!(p.on_store_checked(1, false).is_none());
    let req = p.on_permit_granted(1);
    assert_eq!(req.source.as_str(), "movies/b.mp4");
    assert_eq!(req.output.as_str(), "thumbs/b.mp4.jpg");
    let ev_b = p.on_generation_done(1, true, String::new());
    assert_eq!(ev_b.completed, 2);
    assert_eq!(ev_b.current_item.as_str(), "b.mp4");

    assert!(!p.items[0].generated);
    assert!(p.items[1].generated);

    let (ce, result) = p.finish();
    assert_eq!(ce.total, 2);
    let locs = result.unwrap();
    assert_eq!(locs.len(), 2);
    assert_eq!(locs[0].as_str(), "thumbs/a.mp4.jpg");
    assert_eq!(locs[1].as_str(), "thumbs/b.mp4.jpg");
}

#[test]
fn progress_events_once_per_item() {
    let mut p = pipeline(&["a", "b", "c"], 4, 10);
    let mut events = Vec::new();
    for i in 0..3 {
        p.start_item(i);
        match p.on_store_checked(i, i == 1) {
            Some(ev) => events.push(ev),
            None => {
                p.on_permit_granted(i);
                events.push(p.on_generation_done(i, true, String::new()));
            },
        }
    }
    assert_eq!(events.len(), 3);
    assert_eq!(events[2].completed, 3);
    assert_eq!(events[2].total, 3);
    for (k, ev) in events.iter().enumerate() {
        assert_eq!(ev.completed, k + 1);
    }
}

#[test]
fn gate_capacity_never_exceeded() {
    // Capacity 1, three items that all need generation: a second permit is
    // never grantable while one generation runs.
    let mut p = pipeline(&["a", "b", "c"], 1, 10);
    for i in 0..3 {
        p.start_item(i);
        assert!(p.on_store_checked(i, false).is_none());
    }
    assert!(p.gate.slot_free());
    p.on_permit_granted(0);
    assert_eq!(p.gate.in_use, 1);
    assert!(!p.gate.slot_free());
    assert!(p.gate.in_use <= p.gate.capacity);
    p.on_generation_done(0, true, String::new());
    assert_eq!(p.gate.in_use, 0);
    p.on_permit_granted(1);
    assert_eq!(p.gate.in_use, 1);
    assert!(p.gate.in_use <= p.gate.capacity);
    p.on_generation_done(1, true, String::new());
    p.on_permit_granted(2);
    p.on_generation_done(2, true, String::new());
    assert!(p.is_finished());
}

#[test]
fn single_failure_fails_the_batch() {
    // One failing item makes the aggregate a failure naming its reason,
    // even though the other items succeeded.
    let mut p = pipeline(&["a", "b", "c"], 4, 10);
    for i in 0..3 {
        p.start_item(i);
        p.on_store_checked(i, false);
        p.on_permit_granted(i);
        if i == 1 {
            p.on_generation_done(i, false, String::from("generator exited with 1"));
        } else {
            p.on_generation_done(i, true, String::new());
        }
    }
    let (ce, result) = p.finish();
    assert_eq!(ce.total, 3);
    assert_eq!(result.unwrap_err().as_str(), "generator exited with 1");
}

#[test]
fn rerun_with_all_artifacts_present_generates_nothing() {
    // A re-run over a finished batch: every store check answers yes, so
    // generation is never invoked and every item still completes.
    let mut p = pipeline(&["a", "b", "c"], 4, 10);
    for i in 0..3 {
        p.start_item(i);
        let ev = p.on_store_checked(i, true);
        assert!(ev.is_some());
    }
    for it in &p.items {
        assert!(!it.generated);
        assert!(matches!(it.phase, Phase::Done));
    }
    assert!(p.is_finished());
    let (ce, result) = p.finish();
    assert_eq!(ce.total, 3);
    assert_eq!(result.unwrap().len(), 3);
}

#[test]
fn results_come_in_completion_order() {
    // Items may complete out of submission order; the aggregate keeps
    // completion order.
    let mut p = pipeline(&["a", "b"], 4, 10);
    p.start_item(0);
    p.start_item(1);
    p.on_store_checked(0, false);
    p.on_store_checked(1, false);
    p.on_permit_granted(0);
    p.on_permit_granted(1);
    p.on_generation_done(1, true, String::new());
    p.on_generation_done(0, true, String::new());
    let (_, result) = p.finish();
    let locs = result.unwrap();
    assert_eq!(locs[0].as_str(), "thumbs/b.jpg");
    assert_eq!(locs[1].as_str(), "thumbs/a.jpg");
}

#[test]
fn fan_out_bounds_active_tasks() {
    let mut p = pipeline(&["a", "b", "c"], 4, 2);
    p.start_item(0);
    p.start_item(1);
    assert_eq!(p.active, 2);
    assert_eq!(p.fan_out, 2);
    // The third item may start only after one task completes.
    p.on_store_checked(0, true);
    assert_eq!(p.active, 1);
    p.start_item(2);
    assert_eq!(p.active, 2);
}

#[test]
fn aggregate_empty_log_is_success() {
    let log: Vec<CompletionRecord> = Vec::new();
    let locs = aggregate(&log).unwrap();
    assert!(locs.is_empty());
}

#[test]
fn aggregate_reports_first_failure_in_completion_order() {
    let log = vec![
        CompletionRecord {
            index: 2,
            outcome: Outcome::Success { location: String::from("t/c.jpg") },
        },
        CompletionRecord {
            index: 0,
            outcome: Outcome::Failure { reason: String::from("first") },
        },
        CompletionRecord {
            index: 1,
            outcome: Outcome::Failure { reason: String::from("second") },
        },
    ];
    assert_eq!(aggregate(&log).unwrap_err().as_str(), "first");
}

#[test]
fn aggregate_collects_locations_in_order() {
    let log = vec![
        CompletionRecord {
            index: 1,
            outcome: Outcome::Success { location: String::from("t/b.jpg") },
        },
        CompletionRecord {
            index: 0,
            outcome: Outcome::Success { location: String::from("t/a.jpg") },
        },
    ];
    let locs = aggregate(&log).unwrap();
    assert_eq!(locs.len(), 2);
    assert_eq!(locs[0].as_str(), "t/b.jpg");
    assert_eq!(locs[1].as_str(), "t/a.jpg");
}
