//! What holds of request authentication as a whole, stated over the same
//! models that the contracts of the functions use, and proved.

use vstd::prelude::*;

use crate::clock::timestamp_in_window;
use crate::nonce::{claim, expiry_after, is_seen, live_at, NonceOutcome, NonceRecords};
use crate::outcome::{Rejection, Verdict};
use crate::registry::ValidatorType;
use crate::request::{field_value, RequestParts};
use crate::signature::expected_signature;
use crate::text::utf8;
use crate::validator::{
    complex_step, has_secret, simple_verdict, ComplexApiKeyConfig, Keys,
    ReplayPolicy, SimpleApiKeyConfig,
};

verus! {

/// Whether a request carries all four fields of the complex scheme.
pub open spec fn carries_all_fields(config: ComplexApiKeyConfig, request: RequestParts) -> bool {
    &&& field_value(request, config.source, config.key_name@) is Some
    &&& field_value(request, config.source, config.timestamp_name@) is Some
    &&& field_value(request, config.source, config.nonce_name@) is Some
    &&& field_value(request, config.source, config.signature_name@) is Some
}

/// Whether a request carries all four fields, names a key that has a
/// secret, and is signed with that secret.
pub open spec fn correctly_signed(config: ComplexApiKeyConfig, keys: Keys, request: RequestParts)
    -> bool {
    let identifier = field_value(request, config.source, config.key_name@);
    let timestamp = field_value(request, config.source, config.timestamp_name@);
    let nonce = field_value(request, config.source, config.nonce_name@);
    let signature = field_value(request, config.source, config.signature_name@);
    &&& carries_all_fields(config, request)
    &&& has_secret(keys, identifier->0)
    &&& signature->0 == expected_signature(
        keys[(ValidatorType::Complex, identifier->0)]->0,
        identifier->0,
        timestamp->0,
        nonce->0,
    )
}

/// Whether the timestamp of a request lies in the window around `now`.
pub open spec fn timely(config: ComplexApiKeyConfig, skew: u64, request: RequestParts, now: u64)
    -> bool {
    field_value(request, config.source, config.timestamp_name@) matches Some(text)
        && timestamp_in_window(utf8(text), now, skew)
}

/// A correctly signed request with a current timestamp and a nonce that is
/// not live on record is allowed, and its nonce goes on record. The same
/// request, sent again before the nonce expires and while its timestamp is
/// still in the window, is rejected as a replay, and the records stay as
/// they are. So the request is accepted exactly once.
pub proof fn law_accepted_once_then_replay(
    config: ComplexApiKeyConfig,
    policy: ReplayPolicy,
    keys: Keys,
    records: NonceRecords,
    request: RequestParts,
    now: u64,
    later: u64,
)
    requires
        correctly_signed(config, keys, request),
        timely(config, policy.skew(), request, now),
        !is_seen(
            records,
            field_value(request, config.source, config.key_name@)->0,
            field_value(request, config.source, config.nonce_name@)->0,
            now,
        ),
        now <= later < expiry_after(now, policy.ttl()),
        timely(config, policy.skew(), request, later),
    ensures
        ({
            let first = complex_step(config, policy, keys, records, request, now);
            let second = complex_step(config, policy, keys, first.1, request, later);
            &&& first.0 == Verdict::Allowed
            &&& second.0 == Verdict::Rejected(Rejection::ReplayDetected)
            &&& second.1 == first.1
        }),
{
}

/// A request whose timestamp is no moment in the window is rejected for
/// its timestamp, whatever its signature, and nothing is recorded. The
/// request has to carry its fields and name a key with a secret: a request
/// that does not is turned away by an earlier stage.
pub proof fn law_stale_timestamp_rejected(
    config: ComplexApiKeyConfig,
    policy: ReplayPolicy,
    keys: Keys,
    records: NonceRecords,
    request: RequestParts,
    now: u64,
)
    requires
        carries_all_fields(config, request),
        has_secret(keys, field_value(request, config.source, config.key_name@)->0),
        !timely(config, policy.skew(), request, now),
    ensures
        complex_step(config, policy, keys, records, request, now) == (
            Verdict::Rejected(Rejection::ClockSkewExceeded),
            records,
        ),
{
}

/// A request that names an identifier without a secret is rejected as
/// unknown at the second stage: the verdict depends neither on timestamp
/// nor on signature, and nothing is recorded.
pub proof fn law_unknown_key_rejected(
    config: ComplexApiKeyConfig,
    policy: ReplayPolicy,
    keys: Keys,
    records: NonceRecords,
    request: RequestParts,
    now: u64,
)
    requires
        carries_all_fields(config, request),
        !has_secret(keys, field_value(request, config.source, config.key_name@)->0),
    ensures
        complex_step(config, policy, keys, records, request, now) == (
            Verdict::Rejected(Rejection::UnknownKey),
            records,
        ),
{
}

/// A request that lacks one of its four fields is rejected for that,
/// whatever the fields that it has, and nothing is recorded.
pub proof fn law_missing_field_rejected(
    config: ComplexApiKeyConfig,
    policy: ReplayPolicy,
    keys: Keys,
    records: NonceRecords,
    request: RequestParts,
    now: u64,
)
    requires
        !carries_all_fields(config, request),
    ensures
        complex_step(config, policy, keys, records, request, now) == (
            Verdict::Rejected(Rejection::MissingCredential),
            records,
        ),
{
}

/// A request that passes the first three stages with a signature that is
/// not the one its secret gives is rejected for its signature, and nothing
/// is recorded: a forged request cannot use up the nonce of a true one.
pub proof fn law_forged_signature_rejected(
    config: ComplexApiKeyConfig,
    policy: ReplayPolicy,
    keys: Keys,
    records: NonceRecords,
    request: RequestParts,
    now: u64,
)
    requires
        carries_all_fields(config, request),
        has_secret(keys, field_value(request, config.source, config.key_name@)->0),
        timely(config, policy.skew(), request, now),
        !correctly_signed(config, keys, request),
    ensures
        complex_step(config, policy, keys, records, request, now) == (
            Verdict::Rejected(Rejection::SignatureMismatch),
            records,
        ),
{
}

/// The records change only when a request is allowed, and then by the one
/// record of its nonce, which lasts for the policy's time to live.
pub proof fn law_only_allowed_requests_spend_a_nonce(
    config: ComplexApiKeyConfig,
    policy: ReplayPolicy,
    keys: Keys,
    records: NonceRecords,
    request: RequestParts,
    now: u64,
)
    ensures
        ({
            let step = complex_step(config, policy, keys, records, request, now);
            &&& step.0 != Verdict::Allowed ==> step.1 == records
            &&& step.0 == Verdict::Allowed ==> {
                &&& correctly_signed(config, keys, request)
                &&& timely(config, policy.skew(), request, now)
                &&& step.1 == records.insert(
                    (
                        field_value(request, config.source, config.key_name@)->0,
                        field_value(request, config.source, config.nonce_name@)->0,
                    ),
                    expiry_after(now, policy.ttl()),
                )
            }
        }),
{
}

/// How many of the calls of `check_and_set` for one nonce, made one after
/// the other at the moments `times`, find the nonce fresh.
pub open spec fn fresh_count(
    records: NonceRecords,
    namespace: Seq<char>,
    nonce: Seq<char>,
    ttl: u64,
    times: Seq<u64>,
) -> nat
    decreases times.len(),
{
    if times.len() == 0 {
        0
    } else {
        let step = claim(records, namespace, nonce, ttl, times[0]);
        let rest = fresh_count(step.1, namespace, nonce, ttl, times.drop_first());
        if step.0 == NonceOutcome::Fresh {
            rest + 1
        } else {
            rest
        }
    }
}

/// While the nonce is live on record, no call finds it fresh.
proof fn lemma_no_fresh_while_live(
    records: NonceRecords,
    namespace: Seq<char>,
    nonce: Seq<char>,
    ttl: u64,
    times: Seq<u64>,
)
    requires
        records.contains_key((namespace, nonce)),
        forall|i: int| 0 <= i < times.len() ==> live_at(records[(namespace, nonce)], #[trigger] times[i]),
    ensures
        fresh_count(records, namespace, nonce, ttl, times) == 0,
    decreases times.len(),
{
    if times.len() > 0 {
        assert(live_at(records[(namespace, nonce)], times[0]));
        let rest = times.drop_first();
        assert forall|i: int| 0 <= i < rest.len() implies live_at(
            records[(namespace, nonce)],
            #[trigger] rest[i],
        ) by {
            assert(rest[i] == times[i + 1]);
        }
        lemma_no_fresh_while_live(records, namespace, nonce, ttl, rest);
    }
}

/// Of any number of calls of `check_and_set` for the same namespace and
/// nonce, made in any order while the record of the first is live, exactly
/// one finds the nonce fresh: the first. Calls that arrive at the same
/// time are calls in some order, since each takes the store for itself.
pub proof fn law_exactly_one_fresh(
    records: NonceRecords,
    namespace: Seq<char>,
    nonce: Seq<char>,
    ttl: u64,
    times: Seq<u64>,
)
    requires
        times.len() > 0,
        !is_seen(records, namespace, nonce, times[0]),
        forall|i: int| 0 <= i < times.len() ==> #[trigger] times[i] < expiry_after(times[0], ttl),
    ensures
        fresh_count(records, namespace, nonce, ttl, times) == 1,
{
    let step = claim(records, namespace, nonce, ttl, times[0]);
    let rest = times.drop_first();
    assert forall|i: int| 0 <= i < rest.len() implies live_at(
        step.1[(namespace, nonce)],
        #[trigger] rest[i],
    ) by {
        assert(rest[i] == times[i + 1]);
    }
    lemma_no_fresh_while_live(step.1, namespace, nonce, ttl, rest);
}

/// The simple scheme follows the registry: a request with a token is
/// allowed exactly when the token is registered under the simple scheme.
/// So it is allowed after the token was added, whatever was registered
/// before and with whatever secret, and rejected after it was removed.
pub proof fn law_simple_tracks_registry(
    config: SimpleApiKeyConfig,
    keys: Keys,
    request: RequestParts,
    token: Seq<char>,
    secret: Option<Seq<char>>,
)
    requires
        field_value(request, config.source, config.key_name@) == Some(token),
    ensures
        simple_verdict(config, keys, request) == Verdict::Allowed <==> keys.contains_key(
            (ValidatorType::Simple, token),
        ),
        simple_verdict(config, keys.insert((ValidatorType::Simple, token), secret), request)
            == Verdict::Allowed,
        simple_verdict(config, keys.remove((ValidatorType::Simple, token)), request)
            == Verdict::Rejected(Rejection::UnknownKey),
{
}

} // verus!
