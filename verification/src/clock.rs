//! Request timestamps and the clock-skew window.
//!
//! A timestamp is a count of seconds since the Unix epoch, written in decimal
//! digits. Time itself never enters this crate: every function that depends
//! on the present moment takes it as `now`, in the same unit.

use vstd::prelude::*;

verus! {

/// The skew window that a policy has when none is chosen: five minutes.
pub const DEFAULT_SKEW_SECS: u64 = 300;

/// An ASCII decimal digit.
pub open spec fn is_digit(b: u8) -> bool {
    0x30 <= b <= 0x39
}

/// One or more decimal digits and nothing else.
pub open spec fn all_digits(text: Seq<u8>) -> bool {
    &&& text.len() > 0
    &&& forall|i: int| 0 <= i < text.len() ==> is_digit(#[trigger] text[i])
}

/// The number that a run of decimal digits denotes.
pub open spec fn digits_value(text: Seq<u8>) -> nat
    decreases text.len(),
{
    if text.len() == 0 {
        0
    } else {
        digits_value(text.drop_last()) * 10 + (text.last() - 0x30) as nat
    }
}

/// The seconds that a timestamp denotes: the text must be decimal digits
/// whose value fits 64 bits. Any other text denotes no moment.
pub open spec fn timestamp_of(text: Seq<u8>) -> Option<u64> {
    if all_digits(text) && digits_value(text) <= u64::MAX {
        Some(digits_value(text) as u64)
    } else {
        None
    }
}

/// A moment lies in the window when it is at most `skew` seconds before or
/// after `now`.
pub open spec fn within_window(moment: u64, now: u64, skew: u64) -> bool {
    if moment <= now {
        now - moment <= skew
    } else {
        moment - now <= skew
    }
}

/// Whether a timestamp text denotes a moment in the window around `now`.
pub open spec fn timestamp_in_window(text: Seq<u8>, now: u64, skew: u64) -> bool {
    timestamp_of(text) matches Some(moment) && within_window(moment, now, skew)
}

/// A longer run of digits denotes at least as much as each of its prefixes.
proof fn lemma_prefix_value(text: Seq<u8>, n: int)
    requires
        0 <= n <= text.len(),
        forall|i: int| 0 <= i < text.len() ==> is_digit(#[trigger] text[i]),
    ensures
        digits_value(text.subrange(0, n)) <= digits_value(text),
    decreases text.len() - n,
{
    if n == text.len() {
        assert(text.subrange(0, n) == text);
    } else {
        let longer = text.subrange(0, n + 1);
        assert(longer.drop_last() == text.subrange(0, n));
        assert(is_digit(text[n]));
        assert(longer.last() == text[n]);
        lemma_prefix_value(text, n + 1);
    }
}

/// Reads a timestamp.
pub fn parse_timestamp(text: &[u8]) -> (moment: Option<u64>)
    ensures
        moment == timestamp_of(text@),
{
    if text.len() == 0 {
        return None;
    }
    let mut value: u64 = 0;
    let mut i: usize = 0;
    while i < text.len()
        invariant
            i <= text@.len(),
            forall|j: int| 0 <= j < i ==> is_digit(#[trigger] text@[j]),
            value == digits_value(text@.subrange(0, i as int)),
        decreases text@.len() - i,
    {
        let b: u8 = text[i];
        if b < 0x30 || b > 0x39 {
            assert(!is_digit(text@[i as int]));
            return None;
        }
        let digit: u64 = (b - 0x30) as u64;
        proof {
            let longer = text@.subrange(0, i + 1);
            assert(longer.drop_last() == text@.subrange(0, i as int));
            assert(longer.last() == b);
            assert(digits_value(longer) == value * 10 + digit);
        }
        if value > (u64::MAX - digit) / 10 {
            proof {
                let longer = text@.subrange(0, i + 1);
                assert(digits_value(longer) > u64::MAX);
                if all_digits(text@) {
                    lemma_prefix_value(text@, i + 1);
                }
            }
            return None;
        }
        value = value * 10 + digit;
        i = i + 1;
    }
    proof {
        assert(text@.subrange(0, i as int) == text@);
    }
    Some(value)
}

/// Whether `moment` is at most `skew` seconds away from `now`.
pub fn in_window(moment: u64, now: u64, skew: u64) -> (inside: bool)
    ensures
        inside == within_window(moment, now, skew),
{
    if moment <= now {
        now - moment <= skew
    } else {
        moment - now <= skew
    }
}

} // verus!
