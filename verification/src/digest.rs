//! SHA-256 digests and their hexadecimal rendering, for privacy-preserving
//! identifiers and download verification.

use vstd::prelude::*;
use vstd::string::StringSliceAdditionalSpecFns;
use crate::textfmt::spec_lower_bytes;

verus! {

/// The SHA-256 digest of a byte string. The hash is computed by an outside
/// implementation; its value is a pure function of the input bytes alone.
pub uninterp spec fn sha256_of(data: Seq<u8>) -> Seq<u8>;

/// Relies on sha2's `Sha256` (through the `Digest` trait): hashing is a
/// pure function of the input bytes, and a SHA-256 digest is 32 bytes.
#[verifier::external_body]
fn sha256_digest(data: &Vec<u8>) -> (r: Vec<u8>)
    ensures
        r@ == sha256_of(data@),
        r@.len() == 32,
{
    let mut hasher: sha2::Sha256 = sha2::Digest::new();
    sha2::Digest::update(&mut hasher, data.as_slice());
    sha2::Digest::finalize(hasher).to_vec()
}

/// The lower-case hexadecimal digit for a value below 16, as an ASCII byte.
pub open spec fn spec_hex_digit(d: int) -> u8 {
    if d < 10 {
        (48 + d) as u8
    } else {
        (87 + d) as u8
    }
}

/// The lower-case hexadecimal rendering of a byte string, two digits per
/// byte, as ASCII bytes.
pub open spec fn spec_hex_bytes(s: Seq<u8>) -> Seq<u8>
    decreases s.len(),
{
    if s.len() == 0 {
        Seq::empty()
    } else {
        spec_hex_bytes(s.drop_last()) + seq![
            spec_hex_digit(s.last() as int / 16),
            spec_hex_digit(s.last() as int % 16),
        ]
    }
}

/// Render a byte string in lower-case hexadecimal.
#[verifier::loop_isolation(false)]
pub fn hex_bytes(data: &Vec<u8>) -> (r: Vec<u8>)
    ensures
        r@ =~= spec_hex_bytes(data@),
        r@.len() == 2 * data@.len(),
{
    let mut out: Vec<u8> = Vec::new();
    let mut i: usize = 0;
    while i < data.len()
        invariant
            i <= data@.len(),
            out@ =~= spec_hex_bytes(data@.subrange(0, i as int)),
            out@.len() == 2 * i,
        decreases data@.len() - i,
    {
        let b = data[i];
        let hi = b / 16;
        let lo = b % 16;
        out.push(if hi < 10 {
            48 + hi
        } else {
            87 + hi
        });
        out.push(if lo < 10 {
            48 + lo
        } else {
            87 + lo
        });
        proof {
            assert(data@.subrange(0, i + 1 as int).drop_last() =~= data@.subrange(0, i as int));
            assert(out@ =~= spec_hex_bytes(data@.subrange(0, i + 1 as int)));
        }
        i = i + 1;
    }
    proof {
        assert(data@.subrange(0, data@.len() as int) =~= data@);
    }
    out
}

/// The lower-case hexadecimal SHA-256 digest of a byte string, as bytes.
pub fn sha256_hex_bytes(data: &Vec<u8>) -> (r: Vec<u8>)
    ensures
        r@ =~= spec_hex_bytes(sha256_of(data@)),
        r@.len() == 64,
{
    let digest = sha256_digest(data);
    hex_bytes(&digest)
}

/// Hash an identifier (such as a MAC address) for privacy: the lower-case
/// hexadecimal SHA-256 digest of its UTF-8 bytes, as a string of bytes.
pub fn hash_identifier(identifier: &str) -> (r: Vec<u8>)
    ensures
        r@ =~= spec_hex_bytes(sha256_of(identifier.spec_bytes())),
        r@.len() == 64,
{
    let bytes = identifier.as_bytes();
    let mut data: Vec<u8> = Vec::new();
    let mut i: usize = 0;
    while i < bytes.len()
        invariant
            i <= bytes@.len(),
            data@ =~= bytes@.subrange(0, i as int),
        decreases bytes@.len() - i,
    {
        data.push(bytes[i]);
        proof {
            assert(data@ =~= bytes@.subrange(0, i + 1 as int));
        }
        i = i + 1;
    }
    proof {
        assert(data@ =~= bytes@);
    }
    sha256_hex_bytes(&data)
}

/// Check a download against its expected SHA-256 checksum: the data's
/// digest must equal the expected hexadecimal string, compared without
/// regard to ASCII letter case.
pub fn verify_checksum(data: &Vec<u8>, expected: &str) -> (r: bool)
    ensures
        r == (spec_lower_bytes(expected.spec_bytes()) =~= spec_hex_bytes(sha256_of(data@))),
{
    let actual = sha256_hex_bytes(data);
    let expected_lower = crate::textfmt::to_lower_bytes(expected);
    if expected_lower.len() != actual.len() {
        return false;
    }
    let mut i: usize = 0;
    while i < actual.len()
        invariant
            i <= actual@.len(),
            actual@.len() == expected_lower@.len(),
            actual@ =~= spec_hex_bytes(sha256_of(data@)),
            expected_lower@ =~= spec_lower_bytes(expected.spec_bytes()),
            forall|k: int| 0 <= k < i ==> #[trigger] expected_lower@[k] == actual@[k],
        decreases actual@.len() - i,
    {
        if expected_lower[i] != actual[i] {
            return false;
        }
        i = i + 1;
    }
    proof {
        assert(expected_lower@ =~= actual@);
    }
    true
}

} // verus!
