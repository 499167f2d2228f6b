//! Verified byte-sequence utilities: equality, splitting, line handling and
//! decimal parsing, shared by the database probe and the role logic.

use vstd::prelude::*;
use vstd::std_specs::cmp::PartialEqSpec;
use vstd::string::StringSliceAdditionalSpecFns;

verus! {

/// Compare two byte vectors for (view) equality.
pub fn bytes_eq(a: &Vec<u8>, b: &Vec<u8>) -> (r: bool)
    ensures
        r == (a@ == b@),
{
    let eq = a == b;
    proof {
        if eq {
            assert(a@ =~= b@);
        } else {
            if a@ == b@ {
                assert(a.eq_spec(b));
            }
        }
    }
    eq
}

/// The bytes of a string, as a vector.
pub fn string_to_bytes(s: &str) -> (r: Vec<u8>)
    ensures
        r@ == s.spec_bytes(),
{
    vstd::slice::slice_to_vec(s.as_bytes())
}

/// `s` split at every occurrence of `sep`; always one more piece than there
/// are separators, so the result is never empty.
pub open spec fn spec_split(s: Seq<u8>, sep: u8) -> Seq<Seq<u8>>
    decreases s.len(),
{
    if s.len() == 0 {
        seq![Seq::<u8>::empty()]
    } else if s[0] == sep {
        seq![Seq::<u8>::empty()] + spec_split(s.drop_first(), sep)
    } else {
        let rest = spec_split(s.drop_first(), sep);
        seq![seq![s[0]] + rest[0]] + rest.drop_first()
    }
}

pub proof fn lemma_split_len(s: Seq<u8>, sep: u8)
    ensures
        spec_split(s, sep).len() >= 1,
    decreases s.len(),
{
    if s.len() > 0 {
        lemma_split_len(s.drop_first(), sep);
    }
}

/// Split a byte slice at every occurrence of `sep`.
pub fn split_bytes(s: &[u8], sep: u8) -> (r: Vec<Vec<u8>>)
    ensures
        r.deep_view() == spec_split(s@, sep),
        r@.len() >= 1,
    decreases s@.len(),
{
    proof {
        lemma_split_len(s@, sep);
    }
    if s.len() == 0 {
        let out: Vec<Vec<u8>> = vec![Vec::new()];
        proof {
            assert(out.deep_view() =~~= spec_split(s@, sep));
        }
        out
    } else if s[0] == sep {
        let tail = vstd::slice::slice_subrange(s, 1, s.len());
        proof {
            assert(tail@ =~= s@.drop_first());
        }
        let mut rest = split_bytes(tail, sep);
        let ghost restv = rest.deep_view();
        let mut out: Vec<Vec<u8>> = vec![Vec::new()];
        out.append(&mut rest);
        proof {
            assert(out.deep_view() =~~= seq![Seq::<u8>::empty()] + restv);
            assert(out.deep_view() =~~= spec_split(s@, sep));
        }
        out
    } else {
        let tail = vstd::slice::slice_subrange(s, 1, s.len());
        proof {
            assert(tail@ =~= s@.drop_first());
        }
        let mut rest = split_bytes(tail, sep);
        let ghost restv0 = rest.deep_view();
        let mut head = rest.remove(0);
        proof {
            assert(head@ == restv0[0]);
        }
        head.insert(0, s[0]);
        proof {
            assert(head@ =~= seq![s@[0]] + restv0[0]);
        }
        let ghost headv = head@;
        let mut out: Vec<Vec<u8>> = vec![head];
        let ghost restv1 = rest.deep_view();
        out.append(&mut rest);
        proof {
            let sp = spec_split(s@, sep);
            assert(restv1 =~~= restv0.drop_first());
            assert(out.deep_view() =~~= seq![headv] + restv1);
            assert(headv =~= sp[0]);
            assert(out.deep_view() =~~= sp);
        }
        out
    }
}

/// The lines of a text file: the trailing newline, if any, ends the last
/// line rather than opening an empty one, and an empty file has no lines.
pub open spec fn spec_lines(s: Seq<u8>) -> Seq<Seq<u8>> {
    if s.len() == 0 {
        Seq::empty()
    } else if s.last() == 10 {
        spec_split(s.drop_last(), 10)
    } else {
        spec_split(s, 10)
    }
}

/// Split file content into lines, stripping one trailing newline.
pub fn lines_of(s: &[u8]) -> (r: Vec<Vec<u8>>)
    ensures
        r.deep_view() == spec_lines(s@),
{
    if s.len() == 0 {
        Vec::new()
    } else if s[s.len() - 1] == 10 {
        let body = vstd::slice::slice_subrange(s, 0, s.len() - 1);
        proof {
            assert(body@ =~= s@.drop_last());
        }
        split_bytes(body, 10)
    } else {
        split_bytes(s, 10)
    }
}

/// The decimal value of a digit byte, if it is one.
pub open spec fn digit_of(b: u8) -> Option<u8> {
    if 48 <= b && b <= 57 {
        Some((b - 48) as u8)
    } else {
        None
    }
}

/// The value of a non-empty all-digit byte sequence, read in decimal.
pub open spec fn spec_dec_val(s: Seq<u8>) -> Option<int>
    decreases s.len(),
{
    if s.len() == 0 {
        None
    } else if s.len() == 1 {
        match digit_of(s[0]) {
            Some(d) => Some(d as int),
            None => None,
        }
    } else {
        match (spec_dec_val(s.drop_last()), digit_of(s.last())) {
            (Some(v), Some(d)) => Some(v * 10 + d),
            _ => None,
        }
    }
}

proof fn lemma_dec_val_nonneg(s: Seq<u8>)
    requires
        spec_dec_val(s) is Some,
    ensures
        spec_dec_val(s).unwrap() >= 0,
    decreases s.len(),
{
    if s.len() > 1 {
        lemma_dec_val_nonneg(s.drop_last());
    }
}

/// A decimal value never shrinks when more digits follow.
proof fn lemma_dec_val_grows(s: Seq<u8>, n: int)
    requires
        0 < n < s.len(),
        spec_dec_val(s) is Some,
    ensures
        spec_dec_val(s.subrange(0, n)) is Some,
        spec_dec_val(s.subrange(0, n)).unwrap() <= spec_dec_val(s).unwrap(),
    decreases s.len(),
{
    lemma_dec_val_nonneg(s.drop_last());
    if n == s.len() - 1 {
        assert(s.subrange(0, n) =~= s.drop_last());
    } else {
        assert(s.drop_last().subrange(0, n) =~= s.subrange(0, n));
        lemma_dec_val_grows(s.drop_last(), n);
    }
}

/// Parse a non-empty decimal byte string into a `u32`; `None` when it is
/// empty, holds a non-digit, or exceeds `u32::MAX`.
pub open spec fn spec_parse_u32(s: Seq<u8>) -> Option<u32> {
    match spec_dec_val(s) {
        Some(v) => if v <= u32::MAX { Some(v as u32) } else { None },
        None => None,
    }
}

pub fn parse_u32(s: &[u8]) -> (r: Option<u32>)
    ensures
        r == spec_parse_u32(s@),
{
    if s.len() == 0 {
        return None;
    }
    let mut acc: u32 = 0;
    let mut i: usize = 0;
    while i < s.len()
        invariant
            0 < s@.len(),
            0 <= i <= s@.len(),
            i == 0 ==> acc == 0,
            i > 0 ==> spec_dec_val(s@.subrange(0, i as int)) == Some(acc as int),
        decreases s@.len() - i,
    {
        let b = s[i];
        if b < 48 || b > 57 {
            proof {
                if spec_dec_val(s@) is Some {
                    if i + 1 == s@.len() {
                        assert(s@.subrange(0, i as int) =~= s@.drop_last());
                    } else {
                        lemma_dec_val_grows(s@, i + 1);
                    }
                    assert(spec_dec_val(s@.subrange(0, i + 1)) is Some);
                    assert(s@.subrange(0, i + 1).drop_last() =~= s@.subrange(0, i as int));
                    assert(s@.subrange(0, i + 1).last() == b);
                    assert(digit_of(b) is None);
                    assert(false);
                }
            }
            return None;
        }
        let d = b - 48;
        proof {
            if i > 0 {
                assert(s@.subrange(0, i + 1).drop_last() =~= s@.subrange(0, i as int));
            }
            assert(s@.subrange(0, i + 1).last() == b);
        }
        if acc > (u32::MAX - d as u32) / 10 {
            // The prefix already exceeds u32::MAX, so the whole string does.
            proof {
                let pref = s@.subrange(0, i + 1);
                assert(spec_dec_val(pref) == Some(acc as int * 10 + d as int));
                if spec_dec_val(s@) is Some {
                    if i + 1 == s@.len() {
                        assert(pref =~= s@);
                    } else {
                        lemma_dec_val_grows(s@, i + 1);
                    }
                    assert(spec_dec_val(s@).unwrap() > u32::MAX);
                }
            }
            return None;
        }
        acc = acc * 10 + d as u32;
        i += 1;
        proof {
            if i as int == 1 {
                assert(s@.subrange(0, 1).len() == 1);
                assert(spec_dec_val(s@.subrange(0, i as int)) == Some(acc as int));
            } else {
                assert(spec_dec_val(s@.subrange(0, i as int)) == Some(acc as int));
            }
        }
    }
    proof {
        assert(s@.subrange(0, s@.len() as int) =~= s@);
    }
    Some(acc)
}


/// The character of one decimal digit value.
pub open spec fn dec_digit(d: int) -> char {
    if d == 0 {
        '0'
    } else if d == 1 {
        '1'
    } else if d == 2 {
        '2'
    } else if d == 3 {
        '3'
    } else if d == 4 {
        '4'
    } else if d == 5 {
        '5'
    } else if d == 6 {
        '6'
    } else if d == 7 {
        '7'
    } else if d == 8 {
        '8'
    } else {
        '9'
    }
}

/// The decimal rendering of a non-negative integer.
pub open spec fn dec_str_nat(n: int) -> Seq<char>
    decreases n,
{
    if n < 10 {
        seq![dec_digit(n)]
    } else {
        dec_str_nat(n / 10).push(dec_digit(n % 10))
    }
}

/// The decimal rendering of a signed integer.
pub open spec fn dec_str_int(n: int) -> Seq<char> {
    if n >= 0 {
        dec_str_nat(n)
    } else {
        seq!['-'] + dec_str_nat(-n)
    }
}

fn push_digit(s: &mut String, d: u64)
    requires
        d < 10,
    ensures
        final(s)@ == old(s)@.push(dec_digit(d as int)),
{
    if d == 0 {
        proof {
            reveal_strlit("0");
        }
        s.append("0");
    } else if d == 1 {
        proof {
            reveal_strlit("1");
        }
        s.append("1");
    } else if d == 2 {
        proof {
            reveal_strlit("2");
        }
        s.append("2");
    } else if d == 3 {
        proof {
            reveal_strlit("3");
        }
        s.append("3");
    } else if d == 4 {
        proof {
            reveal_strlit("4");
        }
        s.append("4");
    } else if d == 5 {
        proof {
            reveal_strlit("5");
        }
        s.append("5");
    } else if d == 6 {
        proof {
            reveal_strlit("6");
        }
        s.append("6");
    } else if d == 7 {
        proof {
            reveal_strlit("7");
        }
        s.append("7");
    } else if d == 8 {
        proof {
            reveal_strlit("8");
        }
        s.append("8");
    } else {
        proof {
            reveal_strlit("9");
        }
        s.append("9");
    }
    proof {
        assert(s@ =~= old(s)@.push(dec_digit(d as int)));
    }
}

/// Render a non-negative integer in decimal.
pub fn u64_string(n: u64) -> (r: String)
    ensures
        r@ == dec_str_nat(n as int),
    decreases n,
{
    if n < 10 {
        let mut s = String::new();
        push_digit(&mut s, n);
        proof {
            assert(s@ =~= seq![dec_digit(n as int)]);
        }
        s
    } else {
        let mut s = u64_string(n / 10);
        push_digit(&mut s, n % 10);
        s
    }
}

/// Render a signed integer in decimal.
pub fn i64_string(n: i64) -> (r: String)
    ensures
        r@ == dec_str_int(n as int),
{
    if n >= 0 {
        u64_string(n as u64)
    } else {
        let m: u64 = ((-(n + 1)) as u64) + 1;
        proof {
            assert(m as int == -(n as int));
        }
        let mut s = "-".to_owned();
        let digits = u64_string(m);
        s.append(digits.as_str());
        proof {
            reveal_strlit("-");
            assert("-"@ =~= seq!['-']);
            assert(s@ =~= dec_str_int(n as int));
        }
        s
    }
}

} // verus!
