use mailflow_api::aggregate::{Aggregator, PeekedMessage};

fn msg(id: &str, body: &str) -> PeekedMessage {
    PeekedMessage {
        message_id: id.to_string(),
        receipt_handle: format!("rh-{}", id),
        body: body.to_string(),
        attributes: Vec::new(),
    }
}

fn batch(ids: &[&str]) -> Vec<PeekedMessage> {
    ids.iter().map(|id| msg(id, "b")).collect()
}

#[test]
fn test_aggregator_deduplicates_across_batches() {
    // Total above the per-call cap: several batches are permitted.
    let mut agg = Aggregator::new(100);
    assert!(agg.wants_more());
    agg.push_batch(batch(&["a", "b", "c", "d", "e", "f", "g", "h", "i", "j"]));
    assert!(agg.wants_more());
    // Repeats of earlier ids must not appear twice.
    agg.push_batch(batch(&["a", "b", "k", "c", "l", "m", "n", "o", "p", "q"]));
    let ids: Vec<&str> = agg.messages.iter().map(|m| m.message_id.as_str()).collect();
    assert_eq!(
        ids,
        vec!["a", "b", "c", "d", "e", "f", "g", "h", "i", "j", "k", "l", "m", "n", "o", "p", "q"]
    );
    for (i, a) in ids.iter().enumerate() {
        for b in ids.iter().skip(i + 1) {
            assert_ne!(a, b);
        }
    }
}

#[test]
fn test_aggregator_short_batch_stops() {
    let mut agg = Aggregator::new(100);
    assert!(agg.wants_more());
    // A batch below the per-call cap signals an exhausted queue.
    agg.push_batch(batch(&["a", "b", "c"]));
    assert!(!agg.wants_more());
    assert_eq!(agg.messages.len(), 3);
}

#[test]
fn test_aggregator_small_queue_single_batch() {
    // Total at or below the per-call cap: exactly one call is permitted.
    let mut agg = Aggregator::new(7);
    assert!(agg.wants_more());
    agg.push_batch(batch(&["a", "b", "c", "d", "e", "f", "g", "h", "i", "j"]));
    assert!(!agg.wants_more());
}

#[test]
fn test_aggregator_budget_bound() {
    let mut agg = Aggregator::new(1000);
    let mut n = 0;
    while agg.wants_more() {
        let ids: Vec<String> = (0..10).map(|i| format!("m{}-{}", n, i)).collect();
        let ids_ref: Vec<&str> = ids.iter().map(|s| s.as_str()).collect();
        agg.push_batch(batch(&ids_ref));
        n += 1;
    }
    // Five full batches of ten distinct messages reach the dashboard budget.
    assert_eq!(n, 5);
    assert_eq!(agg.messages.len(), 50);
}

#[test]
fn test_aggregator_keeps_first_delivery() {
    let mut agg = Aggregator::new(100);
    let mut b = batch(&["a", "b", "a", "c", "d", "e", "f", "g", "h", "i"]);
    b[0].body = "first".to_string();
    b[2].body = "second".to_string();
    agg.push_batch(b);
    assert_eq!(agg.messages.len(), 9);
    assert_eq!(agg.messages[0].message_id, "a");
    assert_eq!(agg.messages[0].body, "first");
}
