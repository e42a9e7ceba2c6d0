//! Request authentication as one value: the key registry, the protected
//! routes, the configuration of both schemes and the nonce store.
//!
//! The value is made once, at startup, filled by `add_key` and
//! `protect_route` while the routes are put together, and then asked about
//! every request. A store that answers at once is asked by `authorize`
//! itself. A store that has to be waited for is asked by the caller, between
//! `begin` and `conclude`, so that the wait happens outside this crate.

use vstd::prelude::*;
use vstd::string::*;

use crate::clock::DEFAULT_SKEW_SECS;
use crate::nonce::{NonceRecords, NonceStore};
use crate::outcome::{Rejection, Verdict};
use crate::registry::{text_of_str, KeyRegistry, ValidatorType};
use crate::request::RequestParts;
use crate::routes::RouteProtection;
use crate::validator::{
    authenticated, complex_step, conclude, simple_verdict, ComplexApiKeyConfig, Keys, NonceClaim,
    ReplayPolicy, SimpleApiKeyConfig,
};

verus! {

/// Where the nonces are kept.
#[derive(Clone, Copy, Debug, PartialEq, Eq, Structural)]
pub enum NonceBackend {
    /// In this process's memory.
    Memory,
    /// In a cache that cooperating servers share.
    SharedCache,
}

/// Chooses the backend: the shared cache where one is configured, memory
/// where none is. The choice is made once, at startup.
pub fn select_backend(shared_cache_configured: bool) -> (backend: NonceBackend)
    ensures
        backend == if shared_cache_configured {
            NonceBackend::SharedCache
        } else {
            NonceBackend::Memory
        },
{
    if shared_cache_configured {
        NonceBackend::SharedCache
    } else {
        NonceBackend::Memory
    }
}

/// How far `begin` got with a request.
#[derive(Debug)]
pub enum Step {
    /// The verdict is in, and the store is not needed.
    Decided(Verdict),
    /// The request is authentic; its verdict is what `conclude` makes of
    /// the store's answer to this claim.
    Spend(NonceClaim),
}

/// Everything that request authentication consists of.
pub struct ApiKeyAuthenticator<S: NonceStore> {
    pub registry: KeyRegistry,
    pub routes: RouteProtection,
    pub simple: SimpleApiKeyConfig,
    pub complex: ComplexApiKeyConfig,
    pub policy: ReplayPolicy,
    pub store: S,
}

/// The verdict on a request for `path`, and the records of the store
/// afterwards, where the store answers. A path that is not protected lets
/// every request pass; a protected path asks the scheme that guards it.
pub open spec fn authorized(
    routes: Map<Seq<char>, ValidatorType>,
    simple: SimpleApiKeyConfig,
    complex: ComplexApiKeyConfig,
    policy: ReplayPolicy,
    keys: Keys,
    records: NonceRecords,
    path: Seq<char>,
    request: RequestParts,
    now: u64,
) -> (Verdict, NonceRecords) {
    if !routes.contains_key(path) {
        (Verdict::Allowed, records)
    } else {
        match routes[path] {
            ValidatorType::Simple => (simple_verdict(simple, keys, request), records),
            ValidatorType::Complex => complex_step(complex, policy, keys, records, request, now),
        }
    }
}

impl<S: NonceStore> ApiKeyAuthenticator<S> {
    /// Authentication that knows no key and protects no path, with the
    /// default field names and the default policy, over `store`.
    pub fn new(store: S) -> (made: ApiKeyAuthenticator<S>)
        ensures
            made.registry@ == Keys::empty(),
            made.routes@ == Map::<Seq<char>, ValidatorType>::empty(),
            made.simple.is_default(),
            made.complex.is_default(),
            made.policy.skew() == DEFAULT_SKEW_SECS,
            made.policy.ttl() == DEFAULT_SKEW_SECS,
            made.store == store,
    {
        ApiKeyAuthenticator {
            registry: KeyRegistry::new(),
            routes: RouteProtection::new(),
            simple: SimpleApiKeyConfig::default(),
            complex: ComplexApiKeyConfig::default(),
            policy: ReplayPolicy::default(),
            store,
        }
    }

    /// Registers a credential, in place of the one that the scheme may hold
    /// for the identifier.
    pub fn add_key(&mut self, scheme: ValidatorType, identifier: &str, secret: Option<&str>)
        ensures
            final(self).registry@ == old(self).registry@.insert(
                (scheme, identifier@),
                text_of_str(secret),
            ),
            final(self).routes == old(self).routes,
            final(self).simple == old(self).simple,
            final(self).complex == old(self).complex,
            final(self).policy == old(self).policy,
            final(self).store == old(self).store,
    {
        self.registry.add_key(scheme, identifier, secret);
    }

    /// Protects `path` by `scheme`.
    pub fn protect_route(&mut self, path: &str, scheme: ValidatorType)
        ensures
            final(self).routes@ == old(self).routes@.insert(path@, scheme),
            final(self).registry == old(self).registry,
            final(self).simple == old(self).simple,
            final(self).complex == old(self).complex,
            final(self).policy == old(self).policy,
            final(self).store == old(self).store,
    {
        self.routes.protect_route(path, scheme);
    }

    /// Judges a request for `path` as far as that can be done without the
    /// store.
    pub fn begin(&self, path: &str, request: &RequestParts, now: u64) -> (step: Step)
        ensures
            match step {
                Step::Decided(verdict) => {
                    &&& (verdict, self.store.records()) == authorized(
                        self.routes@,
                        self.simple,
                        self.complex,
                        self.policy,
                        self.registry@,
                        self.store.records(),
                        path@,
                        *request,
                        now,
                    )
                    &&& !needs_store(
                        self.routes@,
                        self.complex,
                        self.policy,
                        self.registry@,
                        path@,
                        *request,
                        now,
                    )
                },
                Step::Spend(found) => {
                    &&& needs_store(
                        self.routes@,
                        self.complex,
                        self.policy,
                        self.registry@,
                        path@,
                        *request,
                        now,
                    )
                    &&& authenticated(
                        self.complex,
                        self.policy.skew(),
                        self.registry@,
                        *request,
                        now,
                    ) == Ok::<(Seq<char>, Seq<char>), Rejection>((found.namespace@, found.nonce@))
                    &&& found.ttl_secs == self.policy.ttl()
                },
            },
    {
        match self.routes.binding(path) {
            None => Step::Decided(Verdict::Allowed),
            Some(ValidatorType::Simple) => Step::Decided(
                self.simple.validate(&self.registry, request),
            ),
            Some(ValidatorType::Complex) => {
                match self.complex.authenticate(&self.policy, &self.registry, request, now) {
                    Ok(found) => Step::Spend(found),
                    Err(reason) => Step::Decided(Verdict::Rejected(reason)),
                }
            },
        }
    }

    /// Judges a request for `path` at the moment `now`. Where the store
    /// answers, verdict and records are those of `authorized`. Where it
    /// does not, the request is rejected and nothing is recorded.
    pub fn authorize(&mut self, path: &str, request: &RequestParts, now: u64) -> (verdict: Verdict)
        ensures
            final(self).registry == old(self).registry,
            final(self).routes == old(self).routes,
            final(self).simple == old(self).simple,
            final(self).complex == old(self).complex,
            final(self).policy == old(self).policy,
            old(self).store.well_formed() ==> final(self).store.well_formed(),
            final(self).store.dependable() == old(self).store.dependable(),
            (verdict, final(self).store.records()) == authorized(
                old(self).routes@,
                old(self).simple,
                old(self).complex,
                old(self).policy,
                old(self).registry@,
                old(self).store.records(),
                path@,
                *request,
                now,
            ) || {
                &&& !old(self).store.dependable()
                &&& needs_store(
                    old(self).routes@,
                    old(self).complex,
                    old(self).policy,
                    old(self).registry@,
                    path@,
                    *request,
                    now,
                )
                &&& verdict == Verdict::Rejected(Rejection::StoreUnavailable)
                &&& final(self).store.records() == old(self).store.records()
            },
    {
        match self.begin(path, request, now) {
            Step::Decided(verdict) => verdict,
            Step::Spend(found) => {
                let reply = self.store.check_and_set(
                    found.namespace.as_str(),
                    found.nonce.as_str(),
                    found.ttl_secs,
                    now,
                );
                conclude(reply)
            },
        }
    }
}

/// Whether the verdict on a request for `path` hangs on the store: the path
/// is guarded by the complex scheme, and the request is authentic.
pub open spec fn needs_store(
    routes: Map<Seq<char>, ValidatorType>,
    complex: ComplexApiKeyConfig,
    policy: ReplayPolicy,
    keys: Keys,
    path: Seq<char>,
    request: RequestParts,
    now: u64,
) -> bool {
    &&& routes.contains_key(path)
    &&& routes[path] == ValidatorType::Complex
    &&& authenticated(complex, policy.skew(), keys, request, now) is Ok
}

} // verus!
