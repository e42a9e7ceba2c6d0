use api_key_auth::authenticator::{select_backend, ApiKeyAuthenticator, NonceBackend, Step};
use api_key_auth::memory_store::MemoryNonceStore;
use api_key_auth::nonce::{NonceOutcome, StoreUnavailable};
use api_key_auth::outcome::{Rejection, Verdict};
use api_key_auth::registry::ValidatorType;
use api_key_auth::request::RequestParts;
use api_key_auth::routes::RouteProtection;
use api_key_auth::signature::sign;
use api_key_auth::validator::{conclude, ReplayPolicy};

const MOMENT: u64 = 1_700_000_000;

fn guarded() -> ApiKeyAuthenticator<MemoryNonceStore> {
    let mut authenticator = ApiKeyAuthenticator::new(MemoryNonceStore::new());
    authenticator.add_key(ValidatorType::Simple, "token-1", None);
    authenticator.add_key(ValidatorType::Complex, "AK1", Some("S1"));
    authenticator.protect_route("/simple", ValidatorType::Simple);
    authenticator.protect_route("/complex", ValidatorType::Complex);
    authenticator
}

fn complex_request(nonce: &str) -> RequestParts {
    let mut request = RequestParts::new();
    request.push_header("AccessKeyId", "AK1");
    request.push_header("t", "1700000000");
    request.push_header("n", nonce);
    request.push_header("sign", &sign("S1", "AK1", "1700000000", nonce));
    request
}

#[test]
fn unprotected_path_lets_every_request_pass() {
    let mut authenticator = guarded();
    assert_eq!(authenticator.authorize("/open", &RequestParts::new(), MOMENT), Verdict::Allowed);
    assert_eq!(authenticator.authorize("/simple/", &RequestParts::new(), MOMENT), Verdict::Allowed);
    assert_eq!(authenticator.authorize("/Simple", &RequestParts::new(), MOMENT), Verdict::Allowed);
    assert_eq!(authenticator.authorize("", &RequestParts::new(), MOMENT), Verdict::Allowed);
    assert_eq!(authenticator.store.len(), 0);
}

#[test]
fn protected_path_asks_the_scheme_that_guards_it() {
    let mut authenticator = guarded();
    let mut with_token = RequestParts::new();
    with_token.push_header("x-api-key", "token-1");
    assert_eq!(authenticator.authorize("/simple", &with_token, MOMENT), Verdict::Allowed);
    assert_eq!(
        authenticator.authorize("/complex", &with_token, MOMENT),
        Verdict::Rejected(Rejection::MissingCredential)
    );
    let signed = complex_request("n-1");
    assert_eq!(authenticator.authorize("/complex", &signed, MOMENT), Verdict::Allowed);
    assert_eq!(
        authenticator.authorize("/complex", &signed, MOMENT + 1),
        Verdict::Rejected(Rejection::ReplayDetected)
    );
    assert_eq!(
        authenticator.authorize("/simple", &signed, MOMENT),
        Verdict::Rejected(Rejection::MissingCredential)
    );
    assert_eq!(authenticator.store.len(), 1);
}

#[test]
fn keys_and_routes_added_later_count_at_once() {
    let mut authenticator = ApiKeyAuthenticator::new(MemoryNonceStore::new());
    let mut with_token = RequestParts::new();
    with_token.push_header("x-api-key", "late");
    assert_eq!(authenticator.authorize("/late", &with_token, MOMENT), Verdict::Allowed);
    authenticator.protect_route("/late", ValidatorType::Simple);
    assert_eq!(
        authenticator.authorize("/late", &with_token, MOMENT),
        Verdict::Rejected(Rejection::UnknownKey)
    );
    authenticator.add_key(ValidatorType::Simple, "late", None);
    assert_eq!(authenticator.authorize("/late", &with_token, MOMENT), Verdict::Allowed);
    authenticator.protect_route("/late", ValidatorType::Complex);
    assert_eq!(
        authenticator.authorize("/late", &with_token, MOMENT),
        Verdict::Rejected(Rejection::MissingCredential)
    );
}

#[test]
fn begin_decides_what_needs_no_store() {
    let authenticator = guarded();
    match authenticator.begin("/open", &RequestParts::new(), MOMENT) {
        Step::Decided(verdict) => assert_eq!(verdict, Verdict::Allowed),
        Step::Spend(_) => panic!("an unprotected path spends no nonce"),
    }
    match authenticator.begin("/complex", &RequestParts::new(), MOMENT) {
        Step::Decided(verdict) => assert_eq!(verdict, Verdict::Rejected(Rejection::MissingCredential)),
        Step::Spend(_) => panic!("a request without fields spends no nonce"),
    }
    match authenticator.begin("/complex", &complex_request("n-9"), MOMENT) {
        Step::Decided(_) => panic!("an authentic request has a nonce to spend"),
        Step::Spend(found) => {
            assert_eq!(found.namespace, "AK1");
            assert_eq!(found.nonce, "n-9");
            assert_eq!(found.ttl_secs, 300);
        },
    }
    assert_eq!(authenticator.store.len(), 0);
}

#[test]
fn begin_and_conclude_give_the_verdict_of_authorize() {
    let authenticator = guarded();
    let request = complex_request("n-2");
    let step = authenticator.begin("/complex", &request, MOMENT);
    assert!(matches!(step, Step::Spend(_)));
    assert_eq!(conclude(Ok(NonceOutcome::Fresh)), Verdict::Allowed);
    assert_eq!(conclude(Ok(NonceOutcome::Replay)), Verdict::Rejected(Rejection::ReplayDetected));
    assert_eq!(conclude(Err(StoreUnavailable)), Verdict::Rejected(Rejection::StoreUnavailable));
}

#[test]
fn authenticator_can_be_given_another_policy() {
    let mut authenticator = guarded();
    authenticator.policy = ReplayPolicy::new(10, 20).unwrap();
    let request = complex_request("n-3");
    assert_eq!(
        authenticator.authorize("/complex", &request, MOMENT + 11),
        Verdict::Rejected(Rejection::ClockSkewExceeded)
    );
    assert_eq!(authenticator.authorize("/complex", &request, MOMENT + 10), Verdict::Allowed);
    assert_eq!(authenticator.store.record("AK1", "n-3").unwrap().expires_at, MOMENT + 30);
}

#[test]
fn backend_follows_the_configuration() {
    assert_eq!(select_backend(true), NonceBackend::SharedCache);
    assert_eq!(select_backend(false), NonceBackend::Memory);
}

#[test]
fn route_protection_only_grows() {
    let mut routes = RouteProtection::new();
    assert!(!routes.is_protected("/a"));
    assert_eq!(routes.binding("/a"), None);
    routes.protect_route("/a", ValidatorType::Simple);
    routes.protect_route("/b", ValidatorType::Complex);
    assert!(routes.is_protected("/a"));
    assert_eq!(routes.binding("/a"), Some(ValidatorType::Simple));
    assert_eq!(routes.binding("/b"), Some(ValidatorType::Complex));
    routes.protect_route("/a", ValidatorType::Complex);
    assert_eq!(routes.binding("/a"), Some(ValidatorType::Complex));
    assert_eq!(routes.binding("/b"), Some(ValidatorType::Complex));
    assert_eq!(routes.binding("/a/"), None);
    assert_eq!(routes.binding("/A"), None);
}
