//! Content digests: trusted bindings to the hash implementations, plus
//! verified hex-digest parsing and comparison.

use vstd::prelude::*;
use vstd::std_specs::cmp::PartialEqSpec;
use vstd::string::StringSliceAdditionalSpecFns;
use crate::types::HashType;
use sha2::Digest;

verus! {

/// The SHA-256 digest of a byte sequence: a function of the bytes alone.
pub uninterp spec fn sha256_of(b: Seq<u8>) -> Seq<u8>;

/// The SHA-1 digest of a byte sequence: a function of the bytes alone.
pub uninterp spec fn sha1_of(b: Seq<u8>) -> Seq<u8>;

/// The MD5 digest of a byte sequence: a function of the bytes alone.
pub uninterp spec fn md5_of(b: Seq<u8>) -> Seq<u8>;

/// Relies on sha2::Sha256: the digest depends on the bytes alone and is 32
/// bytes long.
#[verifier::external_body]
fn sha256_bytes(b: &[u8]) -> (r: Vec<u8>)
    ensures
        r@ == sha256_of(b@),
        r@.len() == 32,
{
    sha2::Sha256::digest(b).to_vec()
}

/// Relies on sha1::Sha1: the digest depends on the bytes alone and is 20
/// bytes long.
#[verifier::external_body]
fn sha1_bytes(b: &[u8]) -> (r: Vec<u8>)
    ensures
        r@ == sha1_of(b@),
        r@.len() == 20,
{
    sha1::Sha1::digest(b).to_vec()
}

/// Relies on md5::Md5: the digest depends on the bytes alone and is 16 bytes
/// long.
#[verifier::external_body]
fn md5_bytes(b: &[u8]) -> (r: Vec<u8>)
    ensures
        r@ == md5_of(b@),
        r@.len() == 16,
{
    md5::Md5::digest(b).to_vec()
}

/// The digest of `b` under algorithm `h`.
pub open spec fn spec_digest(h: HashType, b: Seq<u8>) -> Seq<u8> {
    match h {
        HashType::SHA1 => sha1_of(b),
        HashType::SHA256 => sha256_of(b),
        HashType::MD5 => md5_of(b),
    }
}

/// Compute the digest of `data` under algorithm `h`.
pub fn compute_digest(h: HashType, data: &[u8]) -> (r: Vec<u8>)
    ensures
        r@ == spec_digest(h, data@),
{
    match h {
        HashType::SHA1 => sha1_bytes(data),
        HashType::SHA256 => sha256_bytes(data),
        HashType::MD5 => md5_bytes(data),
    }
}

/// The value of one hex digit (both cases accepted), if the byte is one.
pub open spec fn nibble_of(b: u8) -> Option<u8> {
    if 48 <= b && b <= 57 {
        Some((b - 48) as u8)
    } else if 97 <= b && b <= 102 {
        Some((b - 87) as u8)
    } else if 65 <= b && b <= 70 {
        Some((b - 55) as u8)
    } else {
        None
    }
}

/// The bytes denoted by a hex string, or `None` when the string is not an
/// even-length sequence of hex digits.
pub open spec fn bytes_of_hex(s: Seq<u8>) -> Option<Seq<u8>>
    decreases s.len(),
{
    if s.len() == 0 {
        Some(Seq::empty())
    } else if s.len() == 1 {
        None
    } else {
        match (nibble_of(s[0]), nibble_of(s[1])) {
            (Some(h), Some(l)) => match bytes_of_hex(s.skip(2)) {
                Some(rest) => Some(seq![(h * 16 + l) as u8] + rest),
                None => None,
            },
            _ => None,
        }
    }
}

fn nibble(b: u8) -> (r: Option<u8>)
    ensures
        r == nibble_of(b),
{
    if 48 <= b && b <= 57 {
        Some(b - 48)
    } else if 97 <= b && b <= 102 {
        Some(b - 87)
    } else if 65 <= b && b <= 70 {
        Some(b - 55)
    } else {
        None
    }
}

/// Decode a hex string into bytes; `None` exactly when it is malformed.
pub fn parse_hex(s: &[u8]) -> (r: Option<Vec<u8>>)
    ensures
        match r {
            Some(v) => bytes_of_hex(s@) == Some(v@),
            None => bytes_of_hex(s@) is None,
        },
    decreases s@.len(),
{
    if s.len() == 0 {
        Some(Vec::new())
    } else if s.len() == 1 {
        None
    } else {
        let h = nibble(s[0]);
        let l = nibble(s[1]);
        match (h, l) {
            (Some(h), Some(l)) => {
                let tail = vstd::slice::slice_subrange(s, 2, s.len());
                match parse_hex(tail) {
                    Some(mut rest) => {
                        let mut out: Vec<u8> = Vec::new();
                        out.push(h * 16 + l);
                        out.append(&mut rest);
                        Some(out)
                    },
                    None => None,
                }
            },
            _ => None,
        }
    }
}

/// Whether the hex string `expected` denotes exactly the bytes `actual`.
pub open spec fn hex_digest_matches(expected: Seq<u8>, actual: Seq<u8>) -> bool {
    bytes_of_hex(expected) == Some(actual)
}

/// Compare an expected hex digest against computed digest bytes.
pub fn digest_matches(expected_hex: &str, actual: &Vec<u8>) -> (r: bool)
    ensures
        r == hex_digest_matches(expected_hex.spec_bytes(), actual@),
{
    match parse_hex(expected_hex.as_bytes()) {
        Some(v) => {
            let eq = v == *actual;
            proof {
                if eq {
                    assert(v@ =~= actual@);
                } else {
                    assert(v@ != actual@) by {
                        if v@ == actual@ {
                            assert(v.eq_spec(actual));
                        }
                    }
                }
            }
            eq
        },
        None => false,
    }
}

} // verus!
