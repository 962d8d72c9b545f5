//! The commitment scheme's hash function: a Keccak-256 digest of the
//! secret's bytes, compared in ASCII-lowercased form against the stored
//! hashlock.

use sha3::Digest;
use vstd::prelude::*;

verus! {

/// The Keccak-256 digest of the UTF-8 bytes of a string. The digest itself
/// is computed by an outside implementation; this name stands for its value,
/// which depends on the input alone.
pub uninterp spec fn keccak256_of(s: Seq<char>) -> Seq<u8>;

/// Relies on sha3::Keccak256 through the Digest trait: the digest is a pure
/// function of the input bytes and is exactly 32 bytes long.
#[verifier::external_body]
pub(crate) fn keccak256_str(s: &str) -> (r: Vec<u8>)
    ensures
        r@ == keccak256_of(s@),
        r@.len() == 32,
{
    sha3::Keccak256::digest(s.as_bytes()).to_vec()
}

/// An ASCII uppercase letter mapped to its lowercase form; any other byte
/// unchanged.
pub open spec fn ascii_lower_byte(b: u8) -> u8 {
    if 65 <= b <= 90 {
        (b + 32) as u8
    } else {
        b
    }
}

/// Each byte of a sequence ASCII-lowercased.
pub open spec fn ascii_lower_bytes(s: Seq<u8>) -> Seq<u8> {
    s.map_values(|b: u8| ascii_lower_byte(b))
}

/// The stored form of a commitment to `secret`: its Keccak-256 digest with
/// every byte ASCII-lowercased.
pub open spec fn hashlock_of(secret: Seq<char>) -> Seq<u8> {
    ascii_lower_bytes(keccak256_of(secret))
}

/// Whether two byte vectors hold the same bytes in the same order.
pub fn bytes_eq(a: &Vec<u8>, b: &Vec<u8>) -> (r: bool)
    ensures
        r == (a@ == b@),
{
    if a.len() != b.len() {
        return false;
    }
    let mut i: usize = 0;
    while i < a.len()
        invariant
            i <= a@.len(),
            a@.len() == b@.len(),
            forall|j: int| 0 <= j < i ==> a@[j] == b@[j],
        decreases a@.len() - i,
    {
        if a[i] != b[i] {
            return false;
        }
        i += 1;
    }
    proof {
        assert(a@ =~= b@);
    }
    true
}

/// Every byte of `v` ASCII-lowercased, in order.
pub fn ascii_lowercase_bytes(v: &Vec<u8>) -> (r: Vec<u8>)
    ensures
        r@ == ascii_lower_bytes(v@),
{
    let mut out: Vec<u8> = Vec::new();
    let mut i: usize = 0;
    while i < v.len()
        invariant
            i <= v@.len(),
            out@ == ascii_lower_bytes(v@.take(i as int)),
        decreases v@.len() - i,
    {
        let b = v[i];
        let lb: u8 = if b >= 65 && b <= 90 {
            b + 32
        } else {
            b
        };
        out.push(lb);
        i += 1;
        proof {
            assert(v@.take(i as int).map_values(|x: u8| ascii_lower_byte(x)) =~= v@.take(
                i as int - 1,
            ).map_values(|x: u8| ascii_lower_byte(x)).push(ascii_lower_byte(v@[i as int - 1])));
        }
    }
    proof {
        assert(v@.take(v@.len() as int) =~= v@);
    }
    out
}

} // verus!
