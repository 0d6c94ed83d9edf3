//! Reading a non-negative decimal integer from the user's text, as Rust's
//! `str::parse::<usize>` reads it: an optional `+`, then one or more ASCII
//! digits, whose value must fit in a `usize`.

use vstd::prelude::*;
use vstd::string::StringSliceAdditionalSpecFns;

verus! {

/// Whether `b` is an ASCII digit.
pub open spec fn is_digit(b: u8) -> bool {
    0x30 <= b <= 0x39
}

/// The value of a sequence of ASCII digits, most significant first.
pub open spec fn digits_value(d: Seq<u8>) -> int
    decreases d.len(),
{
    if d.len() == 0 {
        0
    } else {
        digits_value(d.drop_last()) * 10 + (d.last() - 0x30)
    }
}

/// The digits of `text`: all of it but a leading `+`.
pub open spec fn unsigned_digits(text: Seq<u8>) -> Seq<u8> {
    if text.len() > 0 && text[0] == 0x2b {
        text.drop_first()
    } else {
        text
    }
}

/// The integer that `text` (as bytes) denotes, or `None` where it is not an
/// optional `+` followed by one or more digits, or its value does not fit in
/// a `usize`.
pub open spec fn usize_of_text(text: Seq<u8>) -> Option<usize> {
    let d = unsigned_digits(text);
    if d.len() > 0 && (forall|i: int| 0 <= i < d.len() ==> is_digit(#[trigger] d[i]))
        && digits_value(d) <= usize::MAX {
        Some(digits_value(d) as usize)
    } else {
        None
    }
}

proof fn lemma_digits_value_nonneg(d: Seq<u8>)
    requires
        forall|i: int| 0 <= i < d.len() ==> is_digit(#[trigger] d[i]),
    ensures
        digits_value(d) >= 0,
    decreases d.len(),
{
    if d.len() > 0 {
        let p = d.drop_last();
        assert forall|i: int| 0 <= i < p.len() implies is_digit(#[trigger] p[i]) by {
            assert(p[i] == d[i]);
        }
        lemma_digits_value_nonneg(p);
    }
}

/// Reads the number in `text`, as `usize_of_text` says.
pub fn parse_integer(text: &str) -> (r: Option<usize>)
    ensures
        r == usize_of_text(text.spec_bytes()),
{
    let bytes = text.as_bytes();
    let ghost d = unsigned_digits(bytes@);
    let start: usize = if bytes.len() > 0 && bytes[0] == 0x2b { 1 } else { 0 };
    if start >= bytes.len() {
        return None;
    }
    let mut value: usize = 0;
    let mut overflow = false;
    let mut i: usize = start;
    while i < bytes.len()
        invariant
            start <= i <= bytes@.len(),
            bytes@ == text.spec_bytes(),
            d == unsigned_digits(text.spec_bytes()),
            d == bytes@.subrange(start as int, bytes@.len() as int),
            forall|k: int| 0 <= k < i - start ==> is_digit(#[trigger] d[k]),
            overflow ==> digits_value(d.take(i - start)) > usize::MAX,
            !overflow ==> value == digits_value(d.take(i - start)),
        decreases bytes@.len() - i,
    {
        let b = bytes[i];
        if b < 0x30 || b > 0x39 {
            proof {
                let k = i - start;
                assert(d[k] == b);
                assert(!is_digit(d[k]));
            }
            return None;
        }
        let ghost prefix = d.take(i - start);
        let ghost next = d.take(i - start + 1);
        proof {
            assert(next.drop_last() =~= prefix);
            assert(next.last() == b);
            assert forall|k: int| 0 <= k < prefix.len() implies is_digit(#[trigger] prefix[k]) by {
                assert(prefix[k] == d[k]);
            }
            lemma_digits_value_nonneg(prefix);
        }
        let digit = (b - 0x30) as usize;
        if !overflow {
            match value.checked_mul(10) {
                Some(tens) => match tens.checked_add(digit) {
                    Some(v) => value = v,
                    None => overflow = true,
                },
                None => {
                    overflow = true;
                },
            }
        } else {
            assert(digits_value(prefix) * 10 >= digits_value(prefix)) by (nonlinear_arith)
                requires
                    digits_value(prefix) >= 0,
            ;
        }
        i = i + 1;
    }
    proof {
        assert(d.take(d.len() as int) =~= d);
    }
    if overflow {
        None
    } else {
        Some(value)
    }
}

} // verus!
