//! Request signatures of the complex scheme.
//!
//! The signed message is identifier, timestamp and nonce, in that order and
//! as the request carries them, with a `|` between them. The signature is
//! the HMAC-SHA256 tag of that message under the identifier's secret,
//! written as 64 lower-case hexadecimal digits.

use hmac::{Hmac, Mac};
use sha2::Sha256;
use vstd::prelude::*;
use vstd::string::*;

use crate::text::{hex_encode, hex_of_bytes, lemma_utf8_injective, same_bytes, utf8};

verus! {

/// The byte that separates the parts of the signed message: `|`.
pub const SEPARATOR: u8 = 0x7c;

/// The HMAC-SHA256 tag of `message` under `key`.
pub uninterp spec fn hmac_sha256_tag(key: Seq<u8>, message: Seq<u8>) -> Seq<u8>;

/// Computes the HMAC-SHA256 tag of `message` under `key` with
/// `Hmac::<Sha256>`: `new_from_slice`, which takes a key of any length,
/// then `update` and `finalize`. The tag depends on key and message alone;
/// nothing else is claimed of it.
#[verifier::external_body]
fn hmac_sha256(key: &[u8], message: &[u8]) -> (tag: Vec<u8>)
    ensures
        tag@ == hmac_sha256_tag(key@, message@),
{
    match Hmac::<Sha256>::new_from_slice(key) {
        Ok(mut mac) => {
            mac.update(message);
            mac.finalize().into_bytes().to_vec()
        },
        Err(_) => Vec::new(),
    }
}

/// The message that a request signs.
pub open spec fn canonical_message(
    identifier: Seq<char>,
    timestamp: Seq<char>,
    nonce: Seq<char>,
) -> Seq<u8> {
    utf8(identifier) + seq![SEPARATOR] + utf8(timestamp) + seq![SEPARATOR] + utf8(nonce)
}

/// The signature text that belongs to a tag.
pub open spec fn signature_of_tag(tag: Seq<u8>) -> Seq<char> {
    hex_of_bytes(tag)
}

/// The signature that the holder of `secret` gives a request with these
/// fields.
pub open spec fn expected_signature(
    secret: Seq<char>,
    identifier: Seq<char>,
    timestamp: Seq<char>,
    nonce: Seq<char>,
) -> Seq<char> {
    signature_of_tag(hmac_sha256_tag(utf8(secret), canonical_message(identifier, timestamp, nonce)))
}

/// Builds the message that a request signs.
pub fn build_message(identifier: &str, timestamp: &str, nonce: &str) -> (message: Vec<u8>)
    ensures
        message@ == canonical_message(identifier@, timestamp@, nonce@),
{
    let mut message: Vec<u8> = Vec::new();
    message.extend_from_slice(identifier.as_bytes());
    message.push(SEPARATOR);
    message.extend_from_slice(timestamp.as_bytes());
    message.push(SEPARATOR);
    message.extend_from_slice(nonce.as_bytes());
    assert(message@ =~= canonical_message(identifier@, timestamp@, nonce@));
    message
}

/// Whether `supplied` is the signature text of `tag`. The comparison visits
/// every digit whatever the contents, so its duration tells nothing about
/// where the two differ.
pub fn tag_matches(tag: &[u8], supplied: &str) -> (matches: bool)
    ensures
        matches == (supplied@ == signature_of_tag(tag@)),
{
    let wanted = hex_encode(tag);
    let matches = same_bytes(wanted.as_str().as_bytes(), supplied.as_bytes());
    proof {
        if matches {
            lemma_utf8_injective(wanted@, supplied@);
        }
    }
    matches
}

/// Signs a request: the signature text that `secret` gives these fields.
pub fn sign(secret: &str, identifier: &str, timestamp: &str, nonce: &str) -> (signature: String)
    ensures
        signature@ == expected_signature(secret@, identifier@, timestamp@, nonce@),
{
    let message = build_message(identifier, timestamp, nonce);
    let tag = hmac_sha256(secret.as_bytes(), message.as_slice());
    hex_encode(tag.as_slice())
}

/// Whether `supplied` is the signature that `secret` gives these fields.
pub fn signature_is_valid(
    secret: &str,
    identifier: &str,
    timestamp: &str,
    nonce: &str,
    supplied: &str,
) -> (valid: bool)
    ensures
        valid == (supplied@ == expected_signature(secret@, identifier@, timestamp@, nonce@)),
{
    let message = build_message(identifier, timestamp, nonce);
    let tag = hmac_sha256(secret.as_bytes(), message.as_slice());
    tag_matches(tag.as_slice(), supplied)
}

} // verus!
