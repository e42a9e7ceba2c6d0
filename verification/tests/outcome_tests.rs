use api_key_auth::outcome::{Rejection, Verdict};

const ALL: [Rejection; 6] = [
    Rejection::MissingCredential,
    Rejection::UnknownKey,
    Rejection::ClockSkewExceeded,
    Rejection::SignatureMismatch,
    Rejection::ReplayDetected,
    Rejection::StoreUnavailable,
];

#[test]
fn each_rejection_has_its_status() {
    assert_eq!(Rejection::MissingCredential.status(), 401);
    assert_eq!(Rejection::UnknownKey.status(), 401);
    assert_eq!(Rejection::ClockSkewExceeded.status(), 401);
    assert_eq!(Rejection::SignatureMismatch.status(), 401);
    assert_eq!(Rejection::ReplayDetected.status(), 403);
    assert_eq!(Rejection::StoreUnavailable.status(), 503);
}

#[test]
fn each_rejection_has_its_name() {
    let names: Vec<&str> = ALL.iter().map(|r| r.kind()).collect();
    assert_eq!(
        names,
        vec![
            "MissingCredential",
            "UnknownKey",
            "ClockSkewExceeded",
            "SignatureMismatch",
            "ReplayDetected",
            "StoreUnavailable"
        ]
    );
}

#[test]
fn response_carries_status_kind_and_message() {
    for reason in ALL {
        let answer = reason.response();
        assert_eq!(answer.status, reason.status());
        assert_eq!(answer.error_kind, reason.kind());
        assert_eq!(answer.message, reason.message());
        assert!(!answer.message.is_empty());
    }
    let replay = Rejection::ReplayDetected.response();
    assert_eq!(replay.status, 403);
    assert_eq!(replay.error_kind, "ReplayDetected");
    assert_eq!(replay.message, "the request was already received");
}

#[test]
fn allowed_request_has_no_rejection_response() {
    assert!(Verdict::Allowed.is_allowed());
    assert!(Verdict::Allowed.response().is_none());
    for reason in ALL {
        let verdict = Verdict::Rejected(reason);
        assert!(!verdict.is_allowed());
        let answer = verdict.response().unwrap();
        assert_eq!(answer.status, reason.status());
        assert_eq!(answer.error_kind, reason.kind());
    }
}
