use mdap::harness::{mk_app, AppPlan, LayerTraceResponseEnd};
use mdap::upstream::{AuthFlow, AuthState};

#[test]
fn digest_challenge_costs_exactly_two_attempts() {
    let mut flow = AuthFlow::new();
    assert_eq!(flow.sent_attempts(), 1);
    // First response: 401 with a digest challenge -> one authenticated retry.
    assert!(flow.on_response(401, true));
    assert_eq!(flow.sent_attempts(), 2);
    // The retry succeeds; no further attempt goes out.
    assert!(!flow.on_response(200, false));
    assert_eq!(flow.sent_attempts(), 2);
    assert!(flow.settled());
}

#[test]
fn unauthenticated_upstream_costs_one_attempt() {
    let mut flow = AuthFlow::new();
    assert!(!flow.on_response(200, false));
    assert_eq!(flow.sent_attempts(), 1);
    assert!(flow.settled());
}

#[test]
fn failed_retry_is_not_retried_again() {
    let mut flow = AuthFlow::new();
    assert!(flow.on_response(401, true));
    // Wrong credentials: the retry comes back 401 again, still challenged.
    assert!(!flow.on_response(401, true));
    assert_eq!(flow.sent_attempts(), 2);
    assert!(flow.settled());
}

#[test]
fn plain_401_without_digest_challenge_is_final() {
    let mut flow = AuthFlow::new();
    assert!(!flow.on_response(401, false));
    assert_eq!(flow.sent_attempts(), 1);
    assert!(flow.settled());
}

#[test]
fn app_plan_applies_every_layer() {
    let p = mk_app();
    assert!(p.trace_response_end);
    assert!(p.trace_layer);
    assert!(p.request_ids);
    let bare = AppPlan::new();
    assert!(!bare.trace_response_end);
    let layered = bare.layer_trace_response_end();
    assert!(layered.trace_response_end);
}

#[test]
fn auth_states_are_distinct() {
    assert_ne!(AuthState::Unauthenticated, AuthState::Challenged);
    assert_ne!(AuthState::Challenged, AuthState::Authenticated);
}
