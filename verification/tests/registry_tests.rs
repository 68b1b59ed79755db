use oslc_auth::FlowPhase;
use oslc_auth::FlowRegistry;

fn fresh_registry() -> FlowRegistry {
    FlowRegistry::new("http://idp.example/auth".to_string(), "client-7".to_string())
}

#[test]
fn unseen_session_is_unauthenticated() {
    let r = fresh_registry();
    assert_eq!(r.phase(1), FlowPhase::Unauthenticated);
}

#[test]
fn sessions_do_not_share_a_slot() {
    let mut r = fresh_registry();
    r.submit_code(1, "code-one".to_string());
    r.submit_code(2, "code-two".to_string());
    assert!(r.store_exchanged_token(1, &"code-one".to_string(), "token-one".to_string()));
    assert_eq!(r.phase(1), FlowPhase::Authenticated);
    assert_eq!(r.phase(2), FlowPhase::CodeReceived);
    assert_eq!(r.phase(3), FlowPhase::Unauthenticated);
}

#[test]
fn exchange_for_unknown_session_is_discarded() {
    let mut r = fresh_registry();
    let stored = r.store_exchanged_token(9, &"abc123".to_string(), "token".to_string());
    assert!(!stored);
    assert_eq!(r.phase(9), FlowPhase::Unauthenticated);
}

#[test]
fn overtaken_exchange_is_discarded_per_session() {
    let mut r = fresh_registry();
    r.submit_code(1, "old-code".to_string());
    r.submit_code(1, "new-code".to_string());
    let stored = r.store_exchanged_token(1, &"old-code".to_string(), "stale".to_string());
    assert!(!stored);
    assert_eq!(r.phase(1), FlowPhase::CodeReceived);
}

#[test]
fn fresh_code_restarts_a_session() {
    let mut r = fresh_registry();
    r.submit_code(1, "abc123".to_string());
    assert!(r.store_exchanged_token(1, &"abc123".to_string(), "user-42".to_string()));
    assert_eq!(r.phase(1), FlowPhase::Authenticated);
    r.submit_code(1, "next".to_string());
    assert_eq!(r.phase(1), FlowPhase::CodeReceived);
}

#[test]
fn registry_authorization_url_matches_the_documented_form() {
    let r = fresh_registry();
    assert_eq!(
        r.current_authorization_url(),
        "http://idp.example/auth?response_type=code&client_id=client-7&scope=email+profile&redirect_uri=http://localhost:8888/openid/callback"
    );
}
