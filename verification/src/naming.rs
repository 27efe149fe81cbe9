//! Collision-safe snapshot naming.
//!
//! A candidate name is the lowercase-hex rendering of the SHA-256 digest of
//! the caller-supplied seed followed by a little-endian 64-bit counter. The
//! digest makes the name unpredictable; the counter gives a fresh candidate
//! after each collision with an existing name.

use vstd::prelude::*;
use vstd::bytes::*;
use vstd::slice::*;

verus! {

/// The SHA-256 digest of a byte sequence.
pub uninterp spec fn sha256_of(data: Seq<u8>) -> Seq<u8>;

/// Relies on `hmac_sha256::Hash::hash`: the SHA-256 digest is 32 bytes and
/// depends on the input bytes alone.
#[verifier::external_body]
fn sha256(data: &[u8]) -> (r: Vec<u8>)
    ensures
        r@ == sha256_of(data@),
        r@.len() == 32,
{
    hmac_sha256::Hash::hash(data).to_vec()
}

/// The ASCII code of the lowercase hex digit for `n`.
pub open spec fn hex_digit(n: u8) -> u8
    recommends
        n < 16,
{
    if n < 10 {
        (48 + n) as u8
    } else {
        (87 + n) as u8
    }
}

/// The lowercase-hex rendering of a byte sequence, two digits per byte,
/// high nibble first.
pub open spec fn hex_of(bytes: Seq<u8>) -> Seq<u8> {
    Seq::new(
        bytes.len() * 2,
        |i: int|
            if i % 2 == 0 {
                hex_digit(bytes[i / 2] / 16)
            } else {
                hex_digit(bytes[i / 2] % 16)
            },
    )
}

/// Every rendered hex digit is a printable ASCII byte: in particular the
/// rendering is NUL-free and contains no path separator.
pub proof fn lemma_hex_of_printable(bytes: Seq<u8>)
    ensures
        forall|i: int|
            0 <= i < hex_of(bytes).len() ==> 48 <= #[trigger] hex_of(bytes)[i] <= 102,
{
}

/// Renders bytes in lowercase hex.
pub fn hex_lower(bytes: &[u8]) -> (r: Vec<u8>)
    ensures
        r@ == hex_of(bytes@),
{
    let n = bytes.len();
    let mut out: Vec<u8> = Vec::new();
    let mut i: usize = 0;
    while i < n
        invariant
            n == bytes@.len(),
            i <= n,
            out@ == hex_of(bytes@.subrange(0, i as int)),
        decreases n - i,
    {
        let b = *slice_index_get(bytes, i);
        let hi = b / 16;
        let lo = b % 16;
        out.push(if hi < 10 { 48 + hi } else { 87 + hi });
        out.push(if lo < 10 { 48 + lo } else { 87 + lo });
        i = i + 1;
        proof {
            assert(out@ =~= hex_of(bytes@.subrange(0, i as int)));
        }
    }
    proof {
        assert(bytes@.subrange(0, n as int) =~= bytes@);
    }
    out
}

/// The candidate snapshot name for a seed and a counter value.
pub open spec fn spec_snapshot_name(seed: Seq<u8>, counter: u64) -> Seq<u8> {
    hex_of(sha256_of(seed + spec_u64_to_le_bytes(counter)))
}

/// Generates the candidate snapshot name for a seed and a counter value:
/// 64 lowercase hex digits, so in particular NUL-free and free of path
/// separators.
pub fn snapshot_name(seed: &[u8], counter: u64) -> (r: Vec<u8>)
    ensures
        r@ == spec_snapshot_name(seed@, counter),
        r@.len() == 64,
        forall|i: int| 0 <= i < r@.len() ==> 48 <= #[trigger] r@[i] <= 102,
{
    let mut data = slice_to_vec(seed);
    let mut ctr = u64_to_le_bytes(counter);
    data.append(&mut ctr);
    let digest = sha256(data.as_slice());
    let r = hex_lower(digest.as_slice());
    proof {
        lemma_hex_of_printable(digest@);
    }
    r
}

} // verus!
