use noema::approval::{ApprovalDecision, ApprovalError, ApprovalId, ApprovalPolicy, ApprovalRequest, ApprovalStatus};
use noema::approval_store::{resolve_wait, ApprovalStore};
use noema::config::{approval_policy_from_config, NoemaConfig};
use noema::json::JsonValue;
use noema::risk::RiskLevel;

fn request(tool: &str, counter: u64) -> ApprovalRequest {
    ApprovalRequest::new("session-1", tool, &format!("{tool} tool"), JsonValue::Object(vec![]), "high", Some(60_000_000_000), counter)
}

#[test]
fn approval_errors_display_their_category() {
    assert!(ApprovalError::NotFound("x".into()).message().contains("no such"));
    assert!(ApprovalError::AlreadyDecided("x".into()).message().contains("already decided"));
    assert!(ApprovalError::Expired("x".into()).message().contains("expired"));
}

#[test]
fn threshold_gates_approval() {
    let policy = ApprovalPolicy { require_approval_above: Some(RiskLevel::High), timeout_nanos: None };
    assert!(!policy.requires_approval(RiskLevel::NoRisk));
    assert!(!policy.requires_approval(RiskLevel::Low));
    assert!(!policy.requires_approval(RiskLevel::Medium));
    assert!(policy.requires_approval(RiskLevel::High));
    // Critical always requires approval, even below the threshold.
    assert!(policy.requires_approval(RiskLevel::Critical));
}

#[test]
fn no_threshold_disables_approval_except_critical() {
    let policy = ApprovalPolicy { require_approval_above: None, timeout_nanos: None };
    assert!(!policy.requires_approval(RiskLevel::High));
    assert!(policy.requires_approval(RiskLevel::Critical));
}

#[test]
fn approval_disabled_requires_nothing() {
    let policy = ApprovalPolicy { require_approval_above: Some(RiskLevel::NoRisk), timeout_nanos: None };
    // Every level >= None, so everything would require approval; that is
    // the "always ask" configuration. The disabled configuration is
    // `require_approval_above: None` (see `no_threshold_...`).
    assert!(policy.requires_approval(RiskLevel::NoRisk));
}

#[test]
fn default_policy_asks_at_high_and_expires_after_five_minutes() {
    let policy = ApprovalPolicy::default();
    assert_eq!(policy.require_approval_above, Some(RiskLevel::High));
    assert_eq!(policy.timeout_nanos, Some(300_000_000_000));
}

#[test]
fn approval_policy_follows_the_configuration() {
    let config = NoemaConfig::default();
    let policy = approval_policy_from_config(&config);
    assert_eq!(policy.require_approval_above, Some(RiskLevel::High));
    assert_eq!(policy.timeout_nanos, Some(300_000_000_000));

    let mut disabled = NoemaConfig::default();
    disabled.approval.enabled = false;
    let policy = approval_policy_from_config(&disabled);
    assert_eq!(policy.require_approval_above, None);
    assert_eq!(policy.timeout_nanos, None);
    assert!(!policy.requires_approval(RiskLevel::High));
}

#[test]
fn approval_ids_are_unique() {
    let a = ApprovalId::generate(1);
    let b = ApprovalId::generate(2);
    assert_ne!(a, b);
    assert!(!a.as_str().is_empty());
}

#[test]
fn approval_ids_spell_time_and_counter_in_hex() {
    let id = ApprovalId::from_parts(0x1f, 0xab);
    assert_eq!(id.as_str(), "0000000000000000001f00000000000000ab");
    assert_eq!(id.as_str().len(), 36);
    assert_eq!(ApprovalId::from_text("abc").to_text(), "abc");
}

#[test]
fn generated_ids_are_36_hex_digits() {
    let id = ApprovalId::generate(9);
    assert_eq!(id.as_str().len(), 36);
    assert!(id.as_str().chars().all(|c| c.is_ascii_digit() || ('a'..='f').contains(&c)));
    assert!(id.as_str().ends_with("0000000000000009"));
}

#[test]
fn statuses_are_distinct() {
    let states = [ApprovalStatus::Pending, ApprovalStatus::Approved, ApprovalStatus::Rejected, ApprovalStatus::Expired];
    for (i, a) in states.iter().enumerate() {
        for b in states.iter().skip(i + 1) {
            assert_ne!(a, b);
        }
    }
}

#[test]
fn requests_carry_the_full_proposal() {
    let request = ApprovalRequest::new(
        "session-1",
        "delete_file",
        "Delete a file",
        JsonValue::Object(vec![("path".to_string(), JsonValue::Str("/tmp/x".into()))]),
        "high",
        Some(60_000_000_000),
        7,
    );
    assert_eq!(request.tool, "delete_file");
    assert_eq!(request.arguments.get("path").map(|v| v.to_json_text()), Some("\"/tmp/x\"".to_string()));
    assert!(request.expires_at_nanos.is_some());
    assert!(!request.is_expired());
}

#[test]
fn requests_expire_exactly_at_their_deadline() {
    let request = ApprovalRequest::at(1_000, 1, "s", "t", "d", JsonValue::Null, "low", Some(2_000_000_000));
    assert_eq!(request.expires_at_nanos, Some(2_000_001_000));
    assert!(!request.is_expired_at(2_000_000_999));
    assert!(request.is_expired_at(2_000_001_000));
    let forever = ApprovalRequest::at(1_000, 2, "s", "t", "d", JsonValue::Null, "low", None);
    assert!(!forever.is_expired_at(u128::MAX));
    // A sub-second timeout keeps its fraction.
    let brief = ApprovalRequest::at(1_000, 3, "s", "t", "d", JsonValue::Null, "low", Some(500_000_000));
    assert_eq!(brief.expires_at_nanos, Some(500_001_000));
    assert!(!brief.is_expired_at(500_000_999));
    assert!(brief.is_expired_at(500_001_000));
}

#[test]
fn deciding_resolves_and_removes_the_request() {
    let mut store = ApprovalStore::new();
    let handle = store.create(request("delete_file", 1));
    assert_eq!(store.len(), 1);
    let id = handle.request().id.to_text();
    assert!(store.is_pending(&id));
    assert_eq!(store.get(&id).map(|r| r.tool), Some("delete_file".to_string()));

    store.decide(&id, ApprovalDecision::Approved).expect("decide");
    assert_eq!(store.len(), 0);
    let (_, mut rx) = handle.into_parts();
    assert_eq!(rx.try_recv().ok(), Some(ApprovalDecision::Approved));
}

#[test]
fn deciding_twice_is_not_found() {
    let mut store = ApprovalStore::new();
    let handle = store.create(request("delete_file", 1));
    let id = handle.request().id.to_text();
    store.decide(&id, ApprovalDecision::Rejected).expect("first");
    let err = store.decide(&id, ApprovalDecision::Approved).expect_err("already decided");
    assert!(matches!(err, ApprovalError::NotFound(_)));
    assert!(store.is_empty());
}

#[test]
fn an_unknown_decision_is_not_found() {
    let mut store = ApprovalStore::new();
    let err = store.decide("nope", ApprovalDecision::Approved).expect_err("unknown");
    assert!(matches!(err, ApprovalError::NotFound(_)));
}

#[test]
fn a_decision_without_a_waiter_is_dropped() {
    let mut store = ApprovalStore::new();
    let handle = store.create(request("delete_file", 1));
    let id = handle.request().id.to_text();
    drop(handle);
    let err = store.decide(&id, ApprovalDecision::Approved).expect_err("waiter gone");
    assert!(matches!(err, ApprovalError::Dropped(_)));
    assert!(store.is_empty());
}

#[test]
fn expiring_removes_the_request() {
    let mut store = ApprovalStore::new();
    let handle = store.create(request("delete_file", 1));
    let id = handle.request().id.to_text();
    assert!(matches!(handle.resolve(None), Err(ApprovalError::Expired(_))));
    store.expire(&id).expect("expire");
    assert!(store.is_empty());
    assert!(matches!(store.expire(&id), Err(ApprovalError::NotFound(_))));
}

#[test]
fn waiting_outcomes_are_resolved() {
    let mut store = ApprovalStore::new();
    let handle = store.create(request("delete_file", 1));
    assert_eq!(handle.resolve(Some(Some(ApprovalDecision::Rejected))).ok(), Some(ApprovalDecision::Rejected));
    assert!(matches!(handle.resolve(Some(None)), Err(ApprovalError::Dropped(_))));
}

#[test]
fn pending_lists_all_requests() {
    let mut store = ApprovalStore::new();
    let _a = store.create(request("a", 1));
    let _b = store.create(request("b", 2));
    let mut tools: Vec<String> = store.pending().into_iter().map(|r| r.tool).collect();
    tools.sort();
    assert_eq!(tools, vec!["a".to_string(), "b".to_string()]);
}

#[test]
fn waiting_resolves_to_decision_dropped_or_expired() {
    let request = ApprovalRequest::at(16, 2, "s", "t", "d", JsonValue::Null, "high", Some(5_000_000_000));
    let id = request.id.to_text();
    assert_eq!(id, "00000000000000000010".to_string() + "0000000000000002");
    assert_eq!(resolve_wait(&request, Some(Some(ApprovalDecision::Rejected))).unwrap(), ApprovalDecision::Rejected);
    assert!(matches!(resolve_wait(&request, Some(None)), Err(ApprovalError::Dropped(s)) if s == id));
    assert!(matches!(resolve_wait(&request, None), Err(ApprovalError::Expired(s)) if s == id));
}
