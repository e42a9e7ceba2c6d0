//! The nonce store kept in a cache that several servers share.
//!
//! The cache is reached over a network, so asking it is the caller's work.
//! This module says what to ask and what the answer means: one command,
//! "set this key, unless it is set, to expire after so many seconds", which
//! the cache carries out as one step, and one reading of each reply. A
//! request whose claim could not be put to the cache in time is refused.

use vstd::prelude::*;
use vstd::string::*;

use crate::nonce::{
    lemma_nonce_key_injective, nonce_key, nonce_key_of, NonceOutcome, StoreUnavailable,
};
use crate::validator::NonceClaim;

verus! {

/// The command to send: set `key` with a time to live of `ttl_secs`, only
/// if the cache does not hold `key`.
#[derive(Debug)]
pub struct CacheCommand {
    pub key: String,
    pub ttl_secs: u64,
}

/// What came back from the cache.
#[derive(Clone, Copy, Debug, PartialEq, Eq, Structural)]
pub enum CacheReply {
    /// The key was not held and is set now.
    Stored,
    /// The key is held; nothing was changed.
    AlreadyPresent,
    /// No answer came within the time allowed.
    TimedOut,
    /// The cache could not be reached, or answered with an error.
    Failed,
}

/// The key under which the cache holds a nonce: the prefix of this
/// application, a colon, and the text that `nonce_key` gives namespace and
/// nonce.
pub open spec fn cache_key(prefix: Seq<char>, namespace: Seq<char>, nonce: Seq<char>) -> Seq<char> {
    prefix + seq![':'] + nonce_key(namespace, nonce)
}

/// Under one prefix, different pairs of namespace and nonce have different
/// keys.
pub proof fn lemma_cache_key_injective(
    prefix: Seq<char>,
    namespace: Seq<char>,
    nonce: Seq<char>,
    other_namespace: Seq<char>,
    other_nonce: Seq<char>,
)
    requires
        namespace.len() <= u64::MAX,
        other_namespace.len() <= u64::MAX,
        cache_key(prefix, namespace, nonce) == cache_key(prefix, other_namespace, other_nonce),
    ensures
        namespace == other_namespace,
        nonce == other_nonce,
{
    let head = prefix + seq![':'];
    let one = cache_key(prefix, namespace, nonce);
    let two = cache_key(prefix, other_namespace, other_nonce);
    assert(one.subrange(head.len() as int, one.len() as int) =~= nonce_key(namespace, nonce));
    assert(two.subrange(head.len() as int, two.len() as int) =~= nonce_key(
        other_namespace,
        other_nonce,
    ));
    lemma_nonce_key_injective(namespace, nonce, other_namespace, other_nonce);
}

/// What a reply means for the nonce. No answer, or a failure, means that
/// the store is unavailable.
pub open spec fn outcome_of_reply(reply: CacheReply) -> Result<NonceOutcome, StoreUnavailable> {
    match reply {
        CacheReply::Stored => Ok(NonceOutcome::Fresh),
        CacheReply::AlreadyPresent => Ok(NonceOutcome::Replay),
        CacheReply::TimedOut => Err(StoreUnavailable),
        CacheReply::Failed => Err(StoreUnavailable),
    }
}

/// The command that puts a claim to the cache. A claim without time to
/// live has no command: its nonce would expire at once, so it is fresh
/// without asking.
pub fn command_for(prefix: &str, found: &NonceClaim) -> (command: Option<CacheCommand>)
    ensures
        found.ttl_secs == 0 ==> command is None,
        found.ttl_secs > 0 ==> (command matches Some(made) && made.ttl_secs == found.ttl_secs
            && made.key@ == cache_key(prefix@, found.namespace@, found.nonce@)),
{
    if found.ttl_secs == 0 {
        return None;
    }
    let mut key = String::from_str(prefix);
    key.append(":");
    proof {
        reveal_strlit(":");
        assert(":"@ =~= seq![':']);
    }
    let tail = nonce_key_of(found.namespace.as_str(), found.nonce.as_str());
    key.append(tail.as_str());
    assert(key@ =~= cache_key(prefix@, found.namespace@, found.nonce@));
    Some(CacheCommand { key, ttl_secs: found.ttl_secs })
}

/// Reads the reply of the cache.
pub fn read_reply(reply: CacheReply) -> (outcome: Result<NonceOutcome, StoreUnavailable>)
    ensures
        outcome == outcome_of_reply(reply),
{
    match reply {
        CacheReply::Stored => Ok(NonceOutcome::Fresh),
        CacheReply::AlreadyPresent => Ok(NonceOutcome::Replay),
        CacheReply::TimedOut => Err(StoreUnavailable),
        CacheReply::Failed => Err(StoreUnavailable),
    }
}

} // verus!
