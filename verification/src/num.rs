//! Strict signed 64-bit decimal parsing, specified and verified down to the
//! digit fold. Accepts an optional sign followed by one or more ASCII digits,
//! and rejects any text whose value falls outside the `i64` range — the same
//! grammar std's integer parsing accepts. Any byte outside ASCII digits and
//! signs (in particular any non-ASCII byte, however it would decode) makes
//! the text invalid, so parsing raw bytes coincides with parsing their lossy
//! decoding.

use vstd::prelude::*;

verus! {

/// An ASCII decimal digit.
pub open spec fn is_digit(c: u8) -> bool {
    0x30 <= c <= 0x39
}

/// Every byte of `s` is an ASCII decimal digit.
pub open spec fn all_digits(s: Seq<u8>) -> bool {
    forall|i: int| 0 <= i < s.len() ==> is_digit(#[trigger] s[i])
}

/// The value of a digit string, most significant digit first.
pub open spec fn digits_value(s: Seq<u8>) -> int
    decreases s.len(),
{
    if s.len() == 0 {
        0
    } else {
        digits_value(s.drop_last()) * 10 + (s.last() - 0x30)
    }
}

/// Whether `s` starts with an ASCII sign byte.
pub open spec fn has_sign(s: Seq<u8>) -> bool {
    s.len() > 0 && (s[0] == 0x2b || s[0] == 0x2d)
}

/// The digit part of `s`: everything after the sign, if there is one.
pub open spec fn digits_part(s: Seq<u8>) -> Seq<u8> {
    if has_sign(s) {
        s.subrange(1, s.len() as int)
    } else {
        s
    }
}

/// Whether `s` denotes a negative number.
pub open spec fn is_negative_text(s: Seq<u8>) -> bool {
    s.len() > 0 && s[0] == 0x2d
}

/// The mathematical integer `s` denotes.
pub open spec fn text_int(s: Seq<u8>) -> int {
    if is_negative_text(s) {
        -digits_value(digits_part(s))
    } else {
        digits_value(digits_part(s))
    }
}

/// Whether `s` is a valid `i64` literal: an optional sign, at least one
/// digit, nothing else, and a value within the `i64` range.
pub open spec fn is_i64_text(s: Seq<u8>) -> bool {
    &&& digits_part(s).len() > 0
    &&& all_digits(digits_part(s))
    &&& i64::MIN <= text_int(s) <= i64::MAX
}

/// What strict signed 64-bit parsing yields on `s`.
pub open spec fn i64_parsed(s: Seq<u8>) -> Option<i64> {
    if is_i64_text(s) {
        Some(text_int(s) as i64)
    } else {
        None
    }
}

proof fn lemma_digits_nonneg(s: Seq<u8>)
    requires
        all_digits(s),
    ensures
        digits_value(s) >= 0,
    decreases s.len(),
{
    if s.len() > 0 {
        assert(all_digits(s.drop_last())) by {
            assert(forall|i: int|
                0 <= i < s.drop_last().len() ==> #[trigger] s.drop_last()[i] == s[i]);
        }
        lemma_digits_nonneg(s.drop_last());
    }
}

proof fn lemma_digits_take_monotone(s: Seq<u8>, k: int)
    requires
        all_digits(s),
        0 <= k <= s.len(),
    ensures
        digits_value(s) >= digits_value(s.take(k)),
    decreases s.len() - k,
{
    if k < s.len() {
        assert(s.take(k + 1).drop_last() =~= s.take(k));
        assert(s.take(k + 1).last() == s[k]);
        assert(all_digits(s.take(k))) by {
            assert(forall|i: int| 0 <= i < k ==> #[trigger] s.take(k)[i] == s[i]);
        }
        lemma_digits_nonneg(s.take(k));
        assert(digits_value(s.take(k + 1)) >= digits_value(s.take(k)));
        lemma_digits_take_monotone(s, k + 1);
    } else {
        assert(s.take(k) =~= s);
    }
}

/// Parses `b` as a signed 64-bit decimal integer, exactly as `is_i64_text`
/// allows.
pub fn parse_i64(b: &[u8]) -> (r: Option<i64>)
    ensures
        r == i64_parsed(b@),
{
    let ghost s = b@;
    let mut start: usize = 0;
    let mut neg = false;
    if b.len() > 0 && (b[0] == 0x2b || b[0] == 0x2d) {
        start = 1;
        neg = b[0] == 0x2d;
    }
    let ghost d = digits_part(s);
    proof {
        assert(d =~= s.subrange(start as int, s.len() as int));
    }
    if b.len() == start {
        return None;
    }
    let mut n: i64 = 0;
    let mut i: usize = start;
    while i < b.len()
        invariant
            start <= i <= b@.len(),
            b@ == s,
            d == digits_part(s),
            d =~= s.subrange(start as int, s.len() as int),
            all_digits(d.take(i - start)),
            n <= 0,
            n == -digits_value(d.take(i - start)),
        decreases b@.len() - i,
    {
        let c = b[i];
        if c < 0x30 || c > 0x39 {
            proof {
                assert(d[i - start] == s[i as int]);
                assert(!is_digit(d[i - start]));
            }
            return None;
        }
        let dig = (c - 0x30) as i64;
        let step = match n.checked_mul(10) {
            Some(m) => m.checked_sub(dig),
            None => None,
        };
        proof {
            assert(d.take(i - start + 1).drop_last() =~= d.take(i - start as int));
            assert(d.take(i - start + 1).last() == s[i as int]);
        }
        match step {
            Some(x) => {
                n = x;
            }
            None => {
                proof {
                    // The running value has left the i64 range; appending more
                    // digits can only grow the magnitude, so the text is out of
                    // range whether or not the rest is well-formed.
                    assert(digits_value(d.take(i - start + 1)) > (i64::MAX as int) + 1);
                    if all_digits(d) {
                        lemma_digits_take_monotone(d, i - start + 1);
                        assert(digits_value(d) > (i64::MAX as int) + 1);
                        assert(!is_i64_text(s));
                    }
                }
                return None;
            }
        }
        i += 1;
    }
    proof {
        assert(d.take(i - start as int) =~= d);
    }
    if neg {
        proof {
            assert(is_i64_text(s));
            assert(text_int(s) == n);
        }
        Some(n)
    } else if n == i64::MIN {
        proof {
            assert(text_int(s) == -(n as int) && -(n as int) > i64::MAX as int);
            assert(!is_i64_text(s));
        }
        None
    } else {
        proof {
            assert(is_i64_text(s));
            assert(text_int(s) == -(n as int));
        }
        Some(-n)
    }
}

} // verus!
