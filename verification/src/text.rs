//! Text helpers shared by the rest of the crate: equality of strings,
//! header-name matching and lower-case hexadecimal.
//!
//! A string is seen either as its characters (`s@`) or as its UTF-8 bytes
//! (`utf8(s@)`); the two determine each other.

use vstd::prelude::*;
use vstd::string::*;
use vstd::utf8::*;

verus! {

/// The UTF-8 bytes of a text.
pub open spec fn utf8(text: Seq<char>) -> Seq<u8> {
    encode_utf8(text)
}

/// Two texts with the same UTF-8 bytes are the same text.
pub proof fn lemma_utf8_injective(a: Seq<char>, b: Seq<char>)
    requires
        utf8(a) == utf8(b),
    ensures
        a == b,
{
    encode_utf8_decode_utf8(a);
    encode_utf8_decode_utf8(b);
}

/// Appends one character to a `String`, as `String::push` does.
#[verifier::external_body]
pub(crate) fn push_char(text: &mut String, c: char)
    ensures
        final(text)@ == old(text)@.push(c),
{
    text.push(c);
}

/// Whether two byte strings are equal, decided without leaving early: every
/// position is visited whatever the contents, so the time taken depends on
/// the lengths alone.
pub fn same_bytes(a: &[u8], b: &[u8]) -> (same: bool)
    ensures
        same == (a@ == b@),
{
    if a.len() != b.len() {
        return false;
    }
    let mut diff: u8 = 0;
    let mut i: usize = 0;
    while i < a.len()
        invariant
            a@.len() == b@.len(),
            i <= a@.len(),
            (diff == 0) == (a@.subrange(0, i as int) =~= b@.subrange(0, i as int)),
        decreases a@.len() - i,
    {
        let x: u8 = a[i];
        let y: u8 = b[i];
        let ghost before = diff;
        diff = diff | (x ^ y);
        proof {
            assert((before | (x ^ y)) == 0 <==> (before == 0 && x == y)) by (bit_vector);
            let pa = a@.subrange(0, i as int);
            let pb = b@.subrange(0, i as int);
            let na = a@.subrange(0, i + 1);
            let nb = b@.subrange(0, i + 1);
            assert(na == pa.push(x));
            assert(nb == pb.push(y));
            if na == nb {
                assert(na.drop_last() == nb.drop_last());
                assert(na.drop_last() == pa);
                assert(nb.drop_last() == pb);
                assert(na.last() == nb.last());
            }
        }
        i = i + 1;
    }
    proof {
        assert(a@.subrange(0, i as int) == a@);
        assert(b@.subrange(0, i as int) == b@);
    }
    diff == 0
}

/// Whether two texts are equal.
pub fn same_text(a: &str, b: &str) -> (same: bool)
    ensures
        same == (a@ == b@),
{
    let same = same_bytes(a.as_bytes(), b.as_bytes());
    proof {
        if same {
            lemma_utf8_injective(a@, b@);
        }
    }
    same
}

/// An ASCII upper-case letter becomes its lower-case letter; every other
/// byte stays.
pub open spec fn fold_ascii(b: u8) -> u8 {
    if 0x41 <= b <= 0x5a {
        (b + 0x20) as u8
    } else {
        b
    }
}

/// Two byte strings that differ at most in the case of ASCII letters.
pub open spec fn same_folded(a: Seq<u8>, b: Seq<u8>) -> bool {
    &&& a.len() == b.len()
    &&& forall|i: int| 0 <= i < a.len() ==> fold_ascii(#[trigger] a[i]) == fold_ascii(b[i])
}

/// Folds one byte as `fold_ascii` says.
pub fn fold_byte(b: u8) -> (folded: u8)
    ensures
        folded == fold_ascii(b),
{
    if 0x41 <= b && b <= 0x5a {
        b + 0x20
    } else {
        b
    }
}

/// Whether two names are the same but for the case of ASCII letters.
pub fn same_name_ignoring_case(a: &str, b: &str) -> (same: bool)
    ensures
        same == same_folded(utf8(a@), utf8(b@)),
{
    let x = a.as_bytes();
    let y = b.as_bytes();
    if x.len() != y.len() {
        return false;
    }
    let mut i: usize = 0;
    while i < x.len()
        invariant
            x@ == utf8(a@),
            y@ == utf8(b@),
            x@.len() == y@.len(),
            i <= x@.len(),
            forall|j: int| 0 <= j < i ==> fold_ascii(#[trigger] x@[j]) == fold_ascii(y@[j]),
        decreases x@.len() - i,
    {
        if fold_byte(x[i]) != fold_byte(y[i]) {
            assert(fold_ascii(x@[i as int]) != fold_ascii(y@[i as int]));
            return false;
        }
        i = i + 1;
    }
    true
}

/// The lower-case hexadecimal digit of a value below sixteen.
pub open spec fn hex_digit(n: int) -> char {
    if 0 <= n < 10 {
        (0x30 + n) as char
    } else {
        (0x61 + n - 10) as char
    }
}

/// The lower-case hexadecimal digit of `n`.
pub fn hex_digit_of(n: u8) -> (c: char)
    requires
        n < 16,
    ensures
        c == hex_digit(n as int),
{
    if n < 10 {
        (0x30u8 + n) as char
    } else {
        (0x61u8 + (n - 10)) as char
    }
}

/// Two digits for each byte, high half first.
pub open spec fn hex_of_bytes(bytes: Seq<u8>) -> Seq<char> {
    Seq::new(
        2 * bytes.len(),
        |i: int|
            if i % 2 == 0 {
                hex_digit(bytes[i / 2] as int / 16)
            } else {
                hex_digit(bytes[i / 2] as int % 16)
            },
    )
}

/// Writes `bytes` in lower-case hexadecimal, two digits for each byte.
pub fn hex_encode(bytes: &[u8]) -> (text: String)
    ensures
        text@ == hex_of_bytes(bytes@),
{
    let mut text = String::new();
    let mut i: usize = 0;
    while i < bytes.len()
        invariant
            i <= bytes@.len(),
            text@ == hex_of_bytes(bytes@.subrange(0, i as int)),
        decreases bytes@.len() - i,
    {
        let b: u8 = bytes[i];
        push_char(&mut text, hex_digit_of(b / 16));
        push_char(&mut text, hex_digit_of(b % 16));
        proof {
            let prev = bytes@.subrange(0, i as int);
            let next = bytes@.subrange(0, i + 1);
            assert(next == prev.push(b));
            assert(text@ =~= hex_of_bytes(next));
        }
        i = i + 1;
    }
    proof {
        assert(bytes@.subrange(0, i as int) == bytes@);
    }
    text
}

/// A number in lower-case hexadecimal without leading zeros; zero is `0`.
pub open spec fn hex_of_u64(v: u64) -> Seq<char>
    decreases v,
{
    if v < 16 {
        seq![hex_digit(v as int)]
    } else {
        hex_of_u64(v / 16).push(hex_digit(v as int % 16))
    }
}

/// Writes `v` in lower-case hexadecimal without leading zeros.
pub fn hex_u64(v: u64) -> (text: String)
    ensures
        text@ == hex_of_u64(v),
{
    let mut low: Vec<char> = Vec::new();
    let mut rest: u64 = v;
    while rest >= 16
        invariant
            hex_of_u64(v) == hex_of_u64(rest) + low@.reverse(),
        decreases rest,
    {
        let d: u8 = (rest % 16) as u8;
        let c = hex_digit_of(d);
        proof {
            let grown = low@.push(c);
            assert(grown.reverse() =~= seq![c] + low@.reverse());
            assert(hex_of_u64(rest) == hex_of_u64(rest / 16).push(c));
            assert(hex_of_u64(rest / 16).push(c) + low@.reverse() =~= hex_of_u64(rest / 16) + (
            seq![c] + low@.reverse()));
        }
        low.push(c);
        rest = rest / 16;
    }
    let mut text = String::new();
    push_char(&mut text, hex_digit_of(rest as u8));
    let mut k: usize = low.len();
    while k > 0
        invariant
            k <= low@.len(),
            text@ == hex_of_u64(rest) + low@.reverse().subrange(0, low@.len() - k),
            rest < 16,
        decreases k,
    {
        k = k - 1;
        let c: char = low[k];
        proof {
            let r = low@.reverse();
            let n = low@.len() as int;
            assert(r[n - 1 - k] == c);
            assert(r.subrange(0, n - k) =~= r.subrange(0, n - k - 1).push(c));
        }
        push_char(&mut text, c);
        proof {
            let r = low@.reverse();
            let n = low@.len() as int;
            assert(text@ =~= hex_of_u64(rest) + r.subrange(0, n - k));
        }
    }
    proof {
        let r = low@.reverse();
        assert(r.subrange(0, low@.len() as int) =~= r);
    }
    text
}

} // verus!
