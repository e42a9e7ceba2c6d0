//! The nonce store: a record of the nonces that were accepted, each under
//! its namespace and until its expiry, and the single operation on it,
//! `check_and_set`.
//!
//! A store is changed through `&mut self`, so a call to `check_and_set`
//! reads and writes as one step: between its look and its insert nothing
//! else can touch the store. Whoever shares a store among tasks puts it
//! behind one lock and holds the lock for the whole call.

use vstd::prelude::*;
use vstd::string::*;

use crate::text::{hex_digit, hex_encode, hex_of_bytes};

verus! {

/// What the store says of a nonce.
#[derive(Clone, Copy, Debug, PartialEq, Eq, Structural)]
pub enum NonceOutcome {
    /// The nonce was not on record; it is now.
    Fresh,
    /// The nonce is on record and has not expired.
    Replay,
}

/// The store could not be asked, or did not answer in time.
#[derive(Clone, Copy, Debug, PartialEq, Eq, Structural)]
pub struct StoreUnavailable;

/// One accepted nonce.
#[derive(Debug)]
pub struct NonceRecord {
    pub namespace: String,
    pub value: String,
    pub expires_at: u64,
}

/// What a store has on record: for namespace and nonce, the moment at which
/// the record expires.
pub type NonceRecords = Map<(Seq<char>, Seq<char>), u64>;

/// A record counts up to, and not at, the moment of its expiry.
pub open spec fn live_at(expires_at: u64, now: u64) -> bool {
    now < expires_at
}

/// The expiry of a record made at `now` to last `ttl` seconds. Time ends at
/// the largest moment that 64 bits can hold.
pub open spec fn expiry_after(now: u64, ttl: u64) -> u64 {
    if now + ttl > u64::MAX {
        u64::MAX
    } else {
        (now + ttl) as u64
    }
}

/// Whether the nonce is on record under the namespace and live at `now`.
pub open spec fn is_seen(
    records: NonceRecords,
    namespace: Seq<char>,
    nonce: Seq<char>,
    now: u64,
) -> bool {
    records.contains_key((namespace, nonce)) && live_at(records[(namespace, nonce)], now)
}

/// The step that `check_and_set` takes: a nonce that is live on record is a
/// replay and leaves the records as they are; any other nonce is fresh and
/// goes on record until `ttl` seconds after `now`.
pub open spec fn claim(
    records: NonceRecords,
    namespace: Seq<char>,
    nonce: Seq<char>,
    ttl: u64,
    now: u64,
) -> (NonceOutcome, NonceRecords) {
    if is_seen(records, namespace, nonce, now) {
        (NonceOutcome::Replay, records)
    } else {
        (NonceOutcome::Fresh, records.insert((namespace, nonce), expiry_after(now, ttl)))
    }
}

/// The capability that replay protection needs of a store, whatever keeps
/// the records: this process's memory, or a cache that several servers
/// share.
pub trait NonceStore {
    /// What the store has on record. A store that does not say knows of no
    /// record.
    open spec fn records(&self) -> NonceRecords {
        NonceRecords::empty()
    }

    /// What the store needs to hold of its own parts. Every way of making a
    /// store establishes it, and every operation keeps it.
    open spec fn well_formed(&self) -> bool {
        true
    }

    /// Whether the store always answers. A store in memory does; one that
    /// is reached over a network may not, and a store that does not say is
    /// taken not to.
    open spec fn dependable(&self) -> bool {
        false
    }

    /// Looks the nonce up and, unless it is live on record, puts it on
    /// record for `ttl` seconds from `now`, all in one step. A store that
    /// cannot answer says so and records nothing.
    fn check_and_set(&mut self, namespace: &str, nonce: &str, ttl: u64, now: u64) -> (reply: Result<
        NonceOutcome,
        StoreUnavailable,
    >)
        ensures
            old(self).well_formed() ==> final(self).well_formed(),
            final(self).dependable() == old(self).dependable(),
            old(self).dependable() ==> reply is Ok,
            match reply {
                Ok(outcome) => (outcome, final(self).records()) == claim(
                    old(self).records(),
                    namespace@,
                    nonce@,
                    ttl,
                    now,
                ),
                Err(_) => final(self).records() == old(self).records(),
            },
    ;
}

/// The eight bytes of a length, highest first.
pub open spec fn length_bytes(n: u64) -> Seq<u8> {
    seq![
        ((n >> 56) & 0xff) as u8,
        ((n >> 48) & 0xff) as u8,
        ((n >> 40) & 0xff) as u8,
        ((n >> 32) & 0xff) as u8,
        ((n >> 24) & 0xff) as u8,
        ((n >> 16) & 0xff) as u8,
        ((n >> 8) & 0xff) as u8,
        (n & 0xff) as u8,
    ]
}

/// The one text under which a store files namespace and nonce: the length
/// of the namespace in sixteen hexadecimal digits, then the namespace, then
/// the nonce. The length in front keeps two different pairs from running
/// into the same text.
pub open spec fn nonce_key(namespace: Seq<char>, nonce: Seq<char>) -> Seq<char> {
    hex_of_bytes(length_bytes(namespace.len() as u64)) + namespace + nonce
}

proof fn lemma_hex_digit_injective(m: int, n: int)
    requires
        0 <= m < 16,
        0 <= n < 16,
        hex_digit(m) == hex_digit(n),
    ensures
        m == n,
{
    assert(hex_digit(m) as int == if m < 10 {
        0x30 + m
    } else {
        0x61 + m - 10
    });
    assert(hex_digit(n) as int == if n < 10 {
        0x30 + n
    } else {
        0x61 + n - 10
    });
}

proof fn lemma_hex_injective(x: Seq<u8>, y: Seq<u8>)
    requires
        x.len() == y.len(),
        hex_of_bytes(x) == hex_of_bytes(y),
    ensures
        x == y,
{
    assert forall|i: int| 0 <= i < x.len() implies x[i] == y[i] by {
        let hx = hex_of_bytes(x);
        let hy = hex_of_bytes(y);
        assert(hx[2 * i] == hy[2 * i]);
        assert(hx[2 * i + 1] == hy[2 * i + 1]);
        assert(hx[2 * i] == hex_digit(x[i] as int / 16));
        assert(hy[2 * i] == hex_digit(y[i] as int / 16));
        assert(hx[2 * i + 1] == hex_digit(x[i] as int % 16));
        assert(hy[2 * i + 1] == hex_digit(y[i] as int % 16));
        lemma_hex_digit_injective(x[i] as int / 16, y[i] as int / 16);
        lemma_hex_digit_injective(x[i] as int % 16, y[i] as int % 16);
    }
    assert(x =~= y);
}

proof fn lemma_length_bytes_injective(m: u64, n: u64)
    requires
        length_bytes(m) == length_bytes(n),
    ensures
        m == n,
{
    let a = length_bytes(m);
    let b = length_bytes(n);
    assert(a[0] == b[0] && a[1] == b[1] && a[2] == b[2] && a[3] == b[3]);
    assert(a[4] == b[4] && a[5] == b[5] && a[6] == b[6] && a[7] == b[7]);
    assert(m == n) by (bit_vector)
        requires
            ((m >> 56) & 0xff) as u8 == ((n >> 56) & 0xff) as u8,
            ((m >> 48) & 0xff) as u8 == ((n >> 48) & 0xff) as u8,
            ((m >> 40) & 0xff) as u8 == ((n >> 40) & 0xff) as u8,
            ((m >> 32) & 0xff) as u8 == ((n >> 32) & 0xff) as u8,
            ((m >> 24) & 0xff) as u8 == ((n >> 24) & 0xff) as u8,
            ((m >> 16) & 0xff) as u8 == ((n >> 16) & 0xff) as u8,
            ((m >> 8) & 0xff) as u8 == ((n >> 8) & 0xff) as u8,
            (m & 0xff) as u8 == (n & 0xff) as u8,
    ;
}

/// Different pairs of namespace and nonce are filed under different texts.
pub proof fn lemma_nonce_key_injective(
    namespace: Seq<char>,
    nonce: Seq<char>,
    other_namespace: Seq<char>,
    other_nonce: Seq<char>,
)
    requires
        namespace.len() <= u64::MAX,
        other_namespace.len() <= u64::MAX,
        nonce_key(namespace, nonce) == nonce_key(other_namespace, other_nonce),
    ensures
        namespace == other_namespace,
        nonce == other_nonce,
{
    let m = namespace.len() as u64;
    let n = other_namespace.len() as u64;
    let head = hex_of_bytes(length_bytes(m));
    let other_head = hex_of_bytes(length_bytes(n));
    let key = nonce_key(namespace, nonce);
    let other_key = nonce_key(other_namespace, other_nonce);
    assert(head.len() == 16 && other_head.len() == 16);
    assert(key.subrange(0, 16) =~= head);
    assert(other_key.subrange(0, 16) =~= other_head);
    lemma_hex_injective(length_bytes(m), length_bytes(n));
    lemma_length_bytes_injective(m, n);
    assert(key.subrange(16, 16 + m) =~= namespace);
    assert(other_key.subrange(16, 16 + n) =~= other_namespace);
    assert(key.subrange(16 + m, key.len() as int) =~= nonce);
    assert(other_key.subrange(16 + n, other_key.len() as int) =~= other_nonce);
}

/// Builds the text under which a store files namespace and nonce.
pub fn nonce_key_of(namespace: &str, nonce: &str) -> (key: String)
    ensures
        key@ == nonce_key(namespace@, nonce@),
        namespace@.len() <= u64::MAX,
{
    let n: u64 = namespace.unicode_len() as u64;
    let mut bytes: Vec<u8> = Vec::new();
    bytes.push(((n >> 56) & 0xff) as u8);
    bytes.push(((n >> 48) & 0xff) as u8);
    bytes.push(((n >> 40) & 0xff) as u8);
    bytes.push(((n >> 32) & 0xff) as u8);
    bytes.push(((n >> 24) & 0xff) as u8);
    bytes.push(((n >> 16) & 0xff) as u8);
    bytes.push(((n >> 8) & 0xff) as u8);
    bytes.push((n & 0xff) as u8);
    assert(bytes@ =~= length_bytes(n));
    let mut key = hex_encode(bytes.as_slice());
    key.append(namespace);
    key.append(nonce);
    key
}

} // verus!
