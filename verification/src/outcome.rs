//! What request authentication answers: a request is allowed, or it is rejected for one
//! of six reasons, each with its HTTP status and a structured body.

use vstd::prelude::*;
use vstd::string::*;

verus! {

/// Why a request was turned away. Every reason is final for the request:
/// nothing is retried, and the caller has to send a new request.
#[derive(Clone, Copy, Debug, PartialEq, Eq, Structural)]
pub enum Rejection {
    /// A field that the scheme needs is not in the request.
    MissingCredential,
    /// The identifier is not registered under the scheme, or has no secret.
    UnknownKey,
    /// The timestamp is no moment within the skew window around now.
    ClockSkewExceeded,
    /// The signature is not the one that the secret gives.
    SignatureMismatch,
    /// The nonce was already accepted and has not yet expired.
    ReplayDetected,
    /// The nonce store did not answer; the request is refused rather than
    /// let through unchecked.
    StoreUnavailable,
}

/// The answer to one request.
#[derive(Clone, Copy, Debug, PartialEq, Eq, Structural)]
pub enum Verdict {
    /// The request goes on to its handler.
    Allowed,
    /// The request is answered at once, and its handler is not run.
    Rejected(Rejection),
}

/// The body and status that a rejected request is answered with.
#[derive(Debug)]
pub struct RejectionResponse {
    pub status: u16,
    pub error_kind: String,
    pub message: String,
}

/// The HTTP status of each rejection: 403 for a replay, 503 while the nonce
/// store is out of reach, 401 for everything else.
pub open spec fn status_of(rejection: Rejection) -> u16 {
    match rejection {
        Rejection::ReplayDetected => 403,
        Rejection::StoreUnavailable => 503,
        _ => 401,
    }
}

/// The name of each rejection, as it stands in the response body.
pub open spec fn kind_of(rejection: Rejection) -> Seq<char> {
    match rejection {
        Rejection::MissingCredential => "MissingCredential"@,
        Rejection::UnknownKey => "UnknownKey"@,
        Rejection::ClockSkewExceeded => "ClockSkewExceeded"@,
        Rejection::SignatureMismatch => "SignatureMismatch"@,
        Rejection::ReplayDetected => "ReplayDetected"@,
        Rejection::StoreUnavailable => "StoreUnavailable"@,
    }
}

/// The sentence that explains each rejection to the caller.
pub open spec fn message_of(rejection: Rejection) -> Seq<char> {
    match rejection {
        Rejection::MissingCredential => "a required credential field is missing"@,
        Rejection::UnknownKey => "the API key is not known"@,
        Rejection::ClockSkewExceeded => "the request timestamp is outside the allowed window"@,
        Rejection::SignatureMismatch => "the request signature does not match"@,
        Rejection::ReplayDetected => "the request was already received"@,
        Rejection::StoreUnavailable => "the replay check is unavailable"@,
    }
}

impl Rejection {
    /// The HTTP status that answers this rejection.
    pub fn status(&self) -> (code: u16)
        ensures
            code == status_of(*self),
    {
        match self {
            Rejection::ReplayDetected => 403,
            Rejection::StoreUnavailable => 503,
            _ => 401,
        }
    }

    /// The name of this rejection.
    pub fn kind(&self) -> (name: &'static str)
        ensures
            name@ == kind_of(*self),
    {
        match self {
            Rejection::MissingCredential => "MissingCredential",
            Rejection::UnknownKey => "UnknownKey",
            Rejection::ClockSkewExceeded => "ClockSkewExceeded",
            Rejection::SignatureMismatch => "SignatureMismatch",
            Rejection::ReplayDetected => "ReplayDetected",
            Rejection::StoreUnavailable => "StoreUnavailable",
        }
    }

    /// The sentence that explains this rejection.
    pub fn message(&self) -> (sentence: &'static str)
        ensures
            sentence@ == message_of(*self),
    {
        match self {
            Rejection::MissingCredential => "a required credential field is missing",
            Rejection::UnknownKey => "the API key is not known",
            Rejection::ClockSkewExceeded => "the request timestamp is outside the allowed window",
            Rejection::SignatureMismatch => "the request signature does not match",
            Rejection::ReplayDetected => "the request was already received",
            Rejection::StoreUnavailable => "the replay check is unavailable",
        }
    }

    /// The structured answer to a request rejected for this reason.
    pub fn response(&self) -> (answer: RejectionResponse)
        ensures
            answer.status == status_of(*self),
            answer.error_kind@ == kind_of(*self),
            answer.message@ == message_of(*self),
    {
        RejectionResponse {
            status: self.status(),
            error_kind: String::from_str(self.kind()),
            message: String::from_str(self.message()),
        }
    }
}

impl Verdict {
    /// Whether the request may go on to its handler.
    pub fn is_allowed(&self) -> (allowed: bool)
        ensures
            allowed == (*self == Verdict::Allowed),
    {
        match self {
            Verdict::Allowed => true,
            Verdict::Rejected(_) => false,
        }
    }

    /// The answer to send in place of the handler's, if the request was
    /// rejected.
    pub fn response(&self) -> (answer: Option<RejectionResponse>)
        ensures
            match *self {
                Verdict::Allowed => answer is None,
                Verdict::Rejected(reason) => answer matches Some(body) && body.status
                    == status_of(reason) && body.error_kind@ == kind_of(reason) && body.message@
                    == message_of(reason),
            },
    {
        match self {
            Verdict::Allowed => None,
            Verdict::Rejected(reason) => Some(reason.response()),
        }
    }
}

} // verus!
