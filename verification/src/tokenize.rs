//! The delimited-array tokenizer: strips an optional bracket pair, then
//! splits on a delimiter ("," when none is given), leftmost first.

use vstd::prelude::*;
use vstd::slice::{slice_subrange, slice_to_vec};
use crate::value::bytes_eq;

verus! {

/// The position of the first occurrence of `d` in `t`, if any.
pub open spec fn first_match_in(t: Seq<u8>, d: Seq<u8>) -> Option<nat>
    decreases t.len(),
{
    if d.len() == 0 || t.len() < d.len() {
        None
    } else if t.take(d.len() as int) == d {
        Some(0)
    } else {
        match first_match_in(t.skip(1), d) {
            None => None,
            Some(j) => Some(j + 1),
        }
    }
}

proof fn lemma_first_match_bounds(t: Seq<u8>, d: Seq<u8>)
    ensures
        first_match_in(t, d) is Some ==> first_match_in(t, d)->Some_0 + d.len() <= t.len(),
    decreases t.len(),
{
    if d.len() > 0 && t.len() >= d.len() && t.take(d.len() as int) != d {
        lemma_first_match_bounds(t.skip(1), d);
    }
}

/// `t` split on every occurrence of the non-empty delimiter `d`, left to
/// right; matches never overlap.
pub open spec fn split_bytes(t: Seq<u8>, d: Seq<u8>) -> Seq<Seq<u8>>
    decreases t.len(),
    via split_bytes_dec
{
    if d.len() == 0 {
        seq![t]
    } else {
        match first_match_in(t, d) {
            None => seq![t],
            Some(j) => seq![t.take(j as int)] + split_bytes(
                t.skip(j + d.len() as int),
                d,
            ),
        }
    }
}

#[via_fn]
proof fn split_bytes_dec(t: Seq<u8>, d: Seq<u8>) {
    lemma_first_match_bounds(t, d);
}

/// Finds the first occurrence of `d` in `t`.
pub fn find_first(t: &[u8], d: &[u8]) -> (r: Option<usize>)
    ensures
        match r {
            Some(j) => first_match_in(t@, d@) == Some(j as nat),
            None => first_match_in(t@, d@) is None,
        },
    decreases t@.len(),
{
    if d.len() == 0 || t.len() < d.len() {
        None
    } else if bytes_eq(slice_subrange(t, 0, d.len()), d) {
        proof {
            assert(t@.take(d@.len() as int) =~= t@.subrange(0, d@.len() as int));
        }
        Some(0)
    } else {
        proof {
            assert(t@.take(d@.len() as int) =~= t@.subrange(0, d@.len() as int));
            assert(t@.skip(1) =~= t@.subrange(1, t@.len() as int));
        }
        match find_first(slice_subrange(t, 1, t.len()), d) {
            None => None,
            Some(j) => {
                proof {
                    lemma_first_match_bounds(t@.skip(1), d@);
                }
                Some(j + 1)
            }
        }
    }
}

/// Splits `t` on the non-empty delimiter `d`, tokens in original order.
pub fn split_slice(t: &[u8], d: &[u8]) -> (r: Vec<Vec<u8>>)
    requires
        d@.len() > 0,
    ensures
        r.deep_view() == split_bytes(t@, d@),
    decreases t@.len(),
{
    match find_first(t, d) {
        None => {
            let mut out: Vec<Vec<u8>> = Vec::new();
            out.push(slice_to_vec(t));
            proof {
                let sp = split_bytes(t@, d@);
                assert(out.deep_view()[0] =~= sp[0]);
                assert(out.deep_view() =~= sp);
            }
            out
        }
        Some(j) => {
            let tlen = t.len();
            proof {
                lemma_first_match_bounds(t@, d@);
                assert(j as nat + d@.len() <= t@.len());
                assert(t@.len() == tlen as nat);
            }
            let head = slice_to_vec(slice_subrange(t, 0, j));
            let tail = slice_subrange(t, j + d.len(), tlen);
            proof {
                assert(tail@ =~= t@.skip(j + d@.len() as int));
                assert(head@ =~= t@.take(j as int));
            }
            let mut rest = split_slice(tail, d);
            let ghost rds = rest.deep_view();
            let ghost rv = rest@;
            let mut out: Vec<Vec<u8>> = Vec::new();
            out.push(head);
            out.append(&mut rest);
            proof {
                let sp = split_bytes(t@, d@);
                assert(sp == seq![t@.take(j as int)] + rds);
                assert(out.deep_view()[0] =~= sp[0]);
                assert forall|i: int| 1 <= i < out.deep_view().len() implies out.deep_view()[i]
                    == sp[i] by {
                    assert(out@[i] == rv[i - 1]);
                    assert(out.deep_view()[i] == rv[i - 1].deep_view());
                    assert(rds[i - 1] == rv[i - 1].deep_view());
                    assert(rds[i - 1] == sp[i]);
                }
                assert(out.deep_view() =~= sp);
            }
            out
        }
    }
}

/// An ASCII character.
pub open spec fn is_ascii_char(c: char) -> bool {
    (c as u32) < 128
}

/// What tokenizing yields: `None` is a tokenize failure. With brackets given,
/// the text must be wrapped by them (they are stripped); the delimiter
/// defaults to ",", and an empty delimiter cannot split. Only ASCII brackets
/// can match, byte against byte.
pub open spec fn tokenize_spec(
    b: Seq<u8>,
    brackets: Option<(char, char)>,
    delim: Option<Seq<u8>>,
) -> Option<Seq<Seq<u8>>> {
    let d = if delim is Some {
        delim->Some_0
    } else {
        seq![0x2cu8]
    };
    if d.len() == 0 {
        None
    } else {
        match brackets {
            None => Some(split_bytes(b, d)),
            Some((o, c)) => {
                if is_ascii_char(o) && is_ascii_char(c) && b.len() >= 2 && b[0] as u32 == o as u32
                    && b.last() as u32 == c as u32 {
                    Some(split_bytes(b.subrange(1, b.len() - 1), d))
                } else {
                    None
                }
            }
        }
    }
}

/// Tokenizes `b`: strips the bracket pair when given, splits on the
/// delimiter. `None` is a tokenize failure.
pub fn tokenize(b: &[u8], brackets: Option<(char, char)>, delim: Option<&Vec<u8>>) -> (r: Option<
    Vec<Vec<u8>>,
>)
    ensures
        match r {
            Some(tokens) => tokenize_spec(b@, brackets, deep_option(delim)) == Some(
                tokens.deep_view(),
            ),
            None => tokenize_spec(b@, brackets, deep_option(delim)) is None,
        },
{
    let mut default_d: Vec<u8> = Vec::new();
    default_d.push(0x2c);
    let d: &[u8] = match delim {
        Some(v) => v.as_slice(),
        None => default_d.as_slice(),
    };
    let ghost dd = if deep_option(delim) is Some {
        deep_option(delim)->Some_0
    } else {
        seq![0x2cu8]
    };
    proof {
        assert(default_d@ =~= seq![0x2cu8]);
        assert(d@ == dd);
    }
    if d.len() == 0 {
        return None;
    }
    match brackets {
        None => Some(split_slice(b, d)),
        Some((o, c)) => {
            let oc = o as u32;
            let cc = c as u32;
            if oc < 128 && cc < 128 && b.len() >= 2 && b[0] as u32 == oc && (b[b.len() - 1]
                as u32) == cc {
                let inner = slice_subrange(b, 1, b.len() - 1);
                Some(split_slice(inner, d))
            } else {
                None
            }
        }
    }
}

/// The view of an optional borrowed byte vector.
pub open spec fn deep_option(d: Option<&Vec<u8>>) -> Option<Seq<u8>> {
    match d {
        None => None,
        Some(v) => Some(v@),
    }
}

} // verus!
