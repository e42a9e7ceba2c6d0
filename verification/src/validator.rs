//! The two schemes by which a request proves who sent it.
//!
//! The simple scheme accepts a request whose token is registered. The
//! complex scheme runs four stages in a fixed order, and the first stage
//! that fails decides the rejection: the fields are there; the identifier
//! has a secret; the timestamp is in the window; the signature is right.
//! Only then is the nonce spent. The cheap stages come first, so that a
//! sender without a key costs no signature, and a nonce is never spent on
//! a request that was not proved authentic.

use vstd::prelude::*;
use vstd::string::*;

use crate::clock::{in_window, parse_timestamp, timestamp_in_window, DEFAULT_SKEW_SECS};
use crate::nonce::{claim, NonceOutcome, NonceRecords, NonceStore, StoreUnavailable};
use crate::outcome::{Rejection, Verdict};
use crate::registry::{KeyRegistry, ValidatorType};
use crate::request::{field_value, ApiKeySource, RequestParts};
use crate::signature::{expected_signature, signature_is_valid};
use crate::text::utf8;

verus! {

/// What the registry holds, as the schemes see it.
pub type Keys = Map<(ValidatorType, Seq<char>), Option<Seq<char>>>;

/// Where the simple scheme finds the token.
#[derive(Debug)]
pub struct SimpleApiKeyConfig {
    pub source: ApiKeySource,
    pub key_name: String,
}

/// Where the complex scheme finds its four fields.
#[derive(Debug)]
pub struct ComplexApiKeyConfig {
    pub source: ApiKeySource,
    pub key_name: String,
    pub timestamp_name: String,
    pub nonce_name: String,
    pub signature_name: String,
}

impl SimpleApiKeyConfig {
    /// The configuration that `default` gives: the token is the header
    /// `x-api-key`.
    pub open spec fn is_default(self) -> bool {
        &&& self.source == ApiKeySource::Header
        &&& self.key_name@ == "x-api-key"@
    }
}

impl ComplexApiKeyConfig {
    /// The configuration that `default` gives: the fields are the headers
    /// `AccessKeyId`, `t`, `n` and `sign`.
    pub open spec fn is_default(self) -> bool {
        &&& self.source == ApiKeySource::Header
        &&& self.key_name@ == "AccessKeyId"@
        &&& self.timestamp_name@ == "t"@
        &&& self.nonce_name@ == "n"@
        &&& self.signature_name@ == "sign"@
    }
}

impl Default for SimpleApiKeyConfig {
    /// The token is the header `x-api-key`.
    fn default() -> (config: SimpleApiKeyConfig)
        ensures
            config.is_default(),
    {
        SimpleApiKeyConfig { source: ApiKeySource::Header, key_name: String::from_str("x-api-key") }
    }
}

impl Default for ComplexApiKeyConfig {
    /// The fields are the headers `AccessKeyId`, `t`, `n` and `sign`.
    fn default() -> (config: ComplexApiKeyConfig)
        ensures
            config.is_default(),
    {
        ComplexApiKeyConfig {
            source: ApiKeySource::Header,
            key_name: String::from_str("AccessKeyId"),
            timestamp_name: String::from_str("t"),
            nonce_name: String::from_str("n"),
            signature_name: String::from_str("sign"),
        }
    }
}

/// How far a timestamp may lie from the present, and how long an accepted
/// nonce stays on record. A nonce is kept at least as long as the window.
#[derive(Clone, Copy, Debug)]
pub struct ReplayPolicy {
    skew_secs: u64,
    ttl_secs: u64,
}

impl ReplayPolicy {
    #[verifier::type_invariant]
    spec fn ttl_covers_window(self) -> bool {
        self.skew_secs <= self.ttl_secs
    }

    /// The width of the window to either side of the present.
    pub closed spec fn skew(self) -> u64 {
        self.skew_secs
    }

    /// The time for which an accepted nonce stays on record.
    pub closed spec fn ttl(self) -> u64 {
        self.ttl_secs
    }

    /// A policy with this window and this time to live, unless the nonce
    /// would be forgotten while its request could still be sent again.
    pub fn new(skew_secs: u64, ttl_secs: u64) -> (policy: Option<ReplayPolicy>)
        ensures
            policy is Some <==> skew_secs <= ttl_secs,
            policy matches Some(made) ==> made.skew() == skew_secs && made.ttl() == ttl_secs,
    {
        if skew_secs <= ttl_secs {
            Some(ReplayPolicy { skew_secs, ttl_secs })
        } else {
            None
        }
    }

    /// A policy whose nonces live exactly as long as its window is wide.
    pub fn with_window(skew_secs: u64) -> (policy: ReplayPolicy)
        ensures
            policy.skew() == skew_secs,
            policy.ttl() == skew_secs,
    {
        ReplayPolicy { skew_secs, ttl_secs: skew_secs }
    }

    /// The width of the window, in seconds.
    pub fn skew_secs(&self) -> (secs: u64)
        ensures
            secs == self.skew(),
            secs <= self.ttl(),
    {
        proof {
            use_type_invariant(self);
        }
        self.skew_secs
    }

    /// The time to live of a nonce, in seconds.
    pub fn ttl_secs(&self) -> (secs: u64)
        ensures
            secs == self.ttl(),
            secs >= self.skew(),
    {
        proof {
            use_type_invariant(self);
        }
        self.ttl_secs
    }
}

impl Default for ReplayPolicy {
    /// Five minutes for both.
    fn default() -> (policy: ReplayPolicy)
        ensures
            policy.skew() == DEFAULT_SKEW_SECS,
            policy.ttl() == DEFAULT_SKEW_SECS,
    {
        ReplayPolicy::with_window(DEFAULT_SKEW_SECS)
    }
}

/// A nonce that a request has earned the right to spend: the request was
/// proved authentic, and what is left is to ask the store.
#[derive(Debug)]
pub struct NonceClaim {
    /// The identifier of the key; each key has its own nonces.
    pub namespace: String,
    pub nonce: String,
    pub ttl_secs: u64,
}

/// The verdict of the simple scheme: the token has to be there and has to
/// be registered under the simple scheme.
pub open spec fn simple_verdict(config: SimpleApiKeyConfig, keys: Keys, request: RequestParts)
    -> Verdict {
    match field_value(request, config.source, config.key_name@) {
        None => Verdict::Rejected(Rejection::MissingCredential),
        Some(token) => if keys.contains_key((ValidatorType::Simple, token)) {
            Verdict::Allowed
        } else {
            Verdict::Rejected(Rejection::UnknownKey)
        },
    }
}

/// Whether the complex scheme holds a secret for the identifier.
pub open spec fn has_secret(keys: Keys, identifier: Seq<char>) -> bool {
    keys.contains_key((ValidatorType::Complex, identifier)) && keys[(
        ValidatorType::Complex,
        identifier,
    )] is Some
}

/// The four stages of the complex scheme that come before the nonce. The
/// result is the namespace and the nonce to spend, or the rejection of the
/// first stage that failed.
pub open spec fn authenticated(
    config: ComplexApiKeyConfig,
    skew: u64,
    keys: Keys,
    request: RequestParts,
    now: u64,
) -> Result<(Seq<char>, Seq<char>), Rejection> {
    let identifier = field_value(request, config.source, config.key_name@);
    let timestamp = field_value(request, config.source, config.timestamp_name@);
    let nonce = field_value(request, config.source, config.nonce_name@);
    let signature = field_value(request, config.source, config.signature_name@);
    if identifier is None || timestamp is None || nonce is None || signature is None {
        Err(Rejection::MissingCredential)
    } else if !has_secret(keys, identifier->0) {
        Err(Rejection::UnknownKey)
    } else if !timestamp_in_window(utf8(timestamp->0), now, skew) {
        Err(Rejection::ClockSkewExceeded)
    } else if signature->0 != expected_signature(
        keys[(ValidatorType::Complex, identifier->0)]->0,
        identifier->0,
        timestamp->0,
        nonce->0,
    ) {
        Err(Rejection::SignatureMismatch)
    } else {
        Ok((identifier->0, nonce->0))
    }
}

/// What the answer of the store means for the request. A store that did
/// not answer rejects the request: to let it pass would be to serve
/// without replay protection.
pub open spec fn verdict_of_reply(reply: Result<NonceOutcome, StoreUnavailable>) -> Verdict {
    match reply {
        Ok(NonceOutcome::Fresh) => Verdict::Allowed,
        Ok(NonceOutcome::Replay) => Verdict::Rejected(Rejection::ReplayDetected),
        Err(_) => Verdict::Rejected(Rejection::StoreUnavailable),
    }
}

/// The whole complex scheme against a store that answers: the verdict, and
/// what the store has on record afterwards. Only a request that passed all
/// four stages changes the records.
pub open spec fn complex_step(
    config: ComplexApiKeyConfig,
    policy: ReplayPolicy,
    keys: Keys,
    records: NonceRecords,
    request: RequestParts,
    now: u64,
) -> (Verdict, NonceRecords) {
    match authenticated(config, policy.skew(), keys, request, now) {
        Err(reason) => (Verdict::Rejected(reason), records),
        Ok((namespace, nonce)) => {
            let (outcome, after) = claim(records, namespace, nonce, policy.ttl(), now);
            (verdict_of_reply(Ok(outcome)), after)
        },
    }
}

/// Turns the answer of the store into the verdict on the request.
pub fn conclude(reply: Result<NonceOutcome, StoreUnavailable>) -> (verdict: Verdict)
    ensures
        verdict == verdict_of_reply(reply),
{
    match reply {
        Ok(NonceOutcome::Fresh) => Verdict::Allowed,
        Ok(NonceOutcome::Replay) => Verdict::Rejected(Rejection::ReplayDetected),
        Err(_) => Verdict::Rejected(Rejection::StoreUnavailable),
    }
}

impl SimpleApiKeyConfig {
    /// Judges a request by the simple scheme. Nothing is changed.
    pub fn validate(&self, registry: &KeyRegistry, request: &RequestParts) -> (verdict: Verdict)
        ensures
            verdict == simple_verdict(*self, registry@, *request),
    {
        match request.field(self.source, self.key_name.as_str()) {
            None => Verdict::Rejected(Rejection::MissingCredential),
            Some(token) => {
                if registry.contains(ValidatorType::Simple, token) {
                    Verdict::Allowed
                } else {
                    Verdict::Rejected(Rejection::UnknownKey)
                }
            },
        }
    }
}

impl ComplexApiKeyConfig {
    /// Runs the stages that come before the nonce, at the moment `now`.
    /// The store is not touched: the claim that comes back is for the
    /// caller to put to it.
    pub fn authenticate(
        &self,
        policy: &ReplayPolicy,
        registry: &KeyRegistry,
        request: &RequestParts,
        now: u64,
    ) -> (result: Result<NonceClaim, Rejection>)
        ensures
            match result {
                Ok(found) => authenticated(*self, policy.skew(), registry@, *request, now) == Ok::<
                    (Seq<char>, Seq<char>),
                    Rejection,
                >((found.namespace@, found.nonce@)) && found.ttl_secs == policy.ttl(),
                Err(reason) => authenticated(*self, policy.skew(), registry@, *request, now) == Err::<
                    (Seq<char>, Seq<char>),
                    Rejection,
                >(reason),
            },
    {
        let identifier = request.field(self.source, self.key_name.as_str());
        let timestamp = request.field(self.source, self.timestamp_name.as_str());
        let nonce = request.field(self.source, self.nonce_name.as_str());
        let signature = request.field(self.source, self.signature_name.as_str());
        match (identifier, timestamp, nonce, signature) {
            (Some(identifier), Some(timestamp), Some(nonce), Some(signature)) => {
                let secret = match registry.secret_of(ValidatorType::Complex, identifier) {
                    Some(secret) => secret,
                    None => {
                        return Err(Rejection::UnknownKey);
                    },
                };
                let timely = match parse_timestamp(timestamp.as_bytes()) {
                    Some(moment) => in_window(moment, now, policy.skew_secs()),
                    None => false,
                };
                if !timely {
                    return Err(Rejection::ClockSkewExceeded);
                }
                if !signature_is_valid(secret.as_str(), identifier, timestamp, nonce, signature) {
                    return Err(Rejection::SignatureMismatch);
                }
                Ok(
                    NonceClaim {
                        namespace: String::from_str(identifier),
                        nonce: String::from_str(nonce),
                        ttl_secs: policy.ttl_secs(),
                    },
                )
            },
            _ => Err(Rejection::MissingCredential),
        }
    }

    /// Judges a request by the complex scheme at the moment `now`, and
    /// spends its nonce in `store` if the request is authentic. A store
    /// that answers gives exactly the verdict of `complex_step`; one that
    /// does not answer rejects the request and records nothing.
    pub fn validate<S: NonceStore>(
        &self,
        policy: &ReplayPolicy,
        registry: &KeyRegistry,
        store: &mut S,
        request: &RequestParts,
        now: u64,
    ) -> (verdict: Verdict)
        ensures
            old(store).well_formed() ==> final(store).well_formed(),
            final(store).dependable() == old(store).dependable(),
            (verdict, final(store).records()) == complex_step(
                *self,
                *policy,
                registry@,
                old(store).records(),
                *request,
                now,
            ) || {
                &&& !old(store).dependable()
                &&& authenticated(*self, policy.skew(), registry@, *request, now) is Ok
                &&& verdict == Verdict::Rejected(Rejection::StoreUnavailable)
                &&& final(store).records() == old(store).records()
            },
    {
        match self.authenticate(policy, registry, request, now) {
            Err(reason) => Verdict::Rejected(reason),
            Ok(found) => {
                let reply = store.check_and_set(
                    found.namespace.as_str(),
                    found.nonce.as_str(),
                    found.ttl_secs,
                    now,
                );
                conclude(reply)
            },
        }
    }
}

} // verus!
