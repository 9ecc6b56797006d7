use http_gateway::correlation::InFlightRequests;
use http_gateway::errors::CorrelationError;

#[test]
fn register_then_finish_resolves_once() {
    let mut store: InFlightRequests<u32> = InFlightRequests::new();
    store.save_request("cd-1", 10).unwrap();
    assert_eq!(store.len(), 1);
    assert_eq!(store.finish_request("cd-1"), Some(10));
    assert!(store.is_empty());
    // the entry is claimed: a second completion and an abandonment are no-ops
    assert_eq!(store.finish_request("cd-1"), None);
    assert!(!store.abandon_request("cd-1"));
}

#[test]
fn duplicate_registration_is_rejected() {
    let mut store: InFlightRequests<u32> = InFlightRequests::new();
    store.save_request("cd-1", 10).unwrap();
    assert_eq!(store.save_request("cd-1", 11), Err(CorrelationError::DuplicateId));
    // the original entry is untouched
    assert_eq!(store.finish_request("cd-1"), Some(10));
}

#[test]
fn unmatched_response_is_dropped_without_side_effects() {
    let mut store: InFlightRequests<u32> = InFlightRequests::new();
    store.save_request("cd-live", 1).unwrap();
    // unknown id: no error, nothing removed
    assert_eq!(store.finish_request("cd-unknown"), None);
    assert_eq!(store.len(), 1);
    // abandoned id: a late response is a no-op
    store.save_request("cd-gone", 2).unwrap();
    assert!(store.abandon_request("cd-gone"));
    assert_eq!(store.finish_request("cd-gone"), None);
    // the unrelated live entry is still resolvable
    assert_eq!(store.finish_request("cd-live"), Some(1));
}

#[test]
fn interleaved_completions_match_their_own_handles() {
    let mut store: InFlightRequests<u64> = InFlightRequests::new();
    let ids = ["cd-a", "cd-b", "cd-c", "cd-d", "cd-e"];
    for (i, id) in ids.iter().enumerate() {
        store.save_request(id, 100 + i as u64).unwrap();
    }
    assert_eq!(store.len(), 5);
    // completions arrive in an arbitrary order; each resolves its own caller
    assert_eq!(store.finish_request("cd-c"), Some(102));
    assert_eq!(store.finish_request("cd-a"), Some(100));
    assert_eq!(store.finish_request("cd-e"), Some(104));
    assert_eq!(store.finish_request("cd-b"), Some(101));
    assert_eq!(store.finish_request("cd-d"), Some(103));
    assert!(store.is_empty());
}
