//! SHA-256 hashcash proof-of-work, server-side verification.

use crate::bytes::extend_bytes;
use crate::hashing::{sha256, sha256_spec};
use vstd::prelude::*;
use vstd::utf8::encode_utf8;

verus! {

/// Number of leading zero bits of a single byte.
pub open spec fn byte_leading_zeros(b: u8) -> nat {
    if b >= 128 { 0 }
    else if b >= 64 { 1 }
    else if b >= 32 { 2 }
    else if b >= 16 { 3 }
    else if b >= 8 { 4 }
    else if b >= 4 { 5 }
    else if b >= 2 { 6 }
    else if b >= 1 { 7 }
    else { 8 }
}

/// Number of leading zero bits of a byte string read most-significant bit first.
pub open spec fn leading_zeros_spec(s: Seq<u8>) -> nat
    decreases s.len(),
{
    if s.len() == 0 {
        0
    } else if s[0] == 0 {
        8 + leading_zeros_spec(s.drop_first())
    } else {
        byte_leading_zeros(s[0])
    }
}

fn byte_lz(b: u8) -> (r: u32)
    ensures r == byte_leading_zeros(b),
{
    if b >= 128 { 0 }
    else if b >= 64 { 1 }
    else if b >= 32 { 2 }
    else if b >= 16 { 3 }
    else if b >= 8 { 4 }
    else if b >= 4 { 5 }
    else if b >= 2 { 6 }
    else if b >= 1 { 7 }
    else { 8 }
}

/// Skipping a run of zero bytes adds eight bits per byte.
proof fn lemma_leading_zeros_skip(s: Seq<u8>, i: int)
    requires
        0 <= i <= s.len(),
        forall|j: int| 0 <= j < i ==> s[j] == 0,
    ensures
        leading_zeros_spec(s) == 8 * i + leading_zeros_spec(s.skip(i)),
    decreases i,
{
    if i > 0 {
        lemma_leading_zeros_skip(s.drop_first(), i - 1);
        assert(s.drop_first().skip(i - 1) =~= s.skip(i));
    } else {
        assert(s.skip(0) =~= s);
    }
}

/// Counts the leading zero bits of `digest`.
pub fn leading_zero_bits(digest: &[u8]) -> (count: u32)
    requires
        digest@.len() * 8 <= u32::MAX,
    ensures
        count == leading_zeros_spec(digest@),
{
    let mut count: u32 = 0;
    let mut i: usize = 0;
    while i < digest.len()
        invariant
            i <= digest@.len(),
            digest@.len() * 8 <= u32::MAX,
            count == 8 * i,
            forall|j: int| 0 <= j < i ==> digest@[j] == 0,
        decreases digest@.len() - i,
    {
        let byte = digest[i];
        if byte == 0 {
            count = count + 8;
        } else {
            proof {
                lemma_leading_zeros_skip(digest@, i as int);
            }
            count = count + byte_lz(byte);
            return count;
        }
        i = i + 1;
    }
    proof {
        lemma_leading_zeros_skip(digest@, i as int);
    }
    count
}

/// The bytes the proof of work hashes: `thread_id || body || nonce`.
pub open spec fn pow_preimage(thread_id: Seq<u8>, body: Seq<char>, nonce: Seq<u8>) -> Seq<u8> {
    thread_id + encode_utf8(body) + nonce
}

/// Whether `nonce` solves the puzzle at difficulty `bits`.
pub open spec fn pow_holds(thread_id: Seq<u8>, body: Seq<char>, nonce: Seq<u8>, bits: u32) -> bool {
    leading_zeros_spec(sha256_spec(pow_preimage(thread_id, body, nonce))) >= bits
}

/// Checks a hashcash proof of work: the SHA-256 of
/// `thread_id || body || nonce` must start with at least `bits` zero bits.
pub fn verify(thread_id: &[u8], body: &str, nonce: &[u8], bits: u32) -> (ok: bool)
    ensures
        ok == pow_holds(thread_id@, body@, nonce@, bits),
{
    let mut pre: Vec<u8> = Vec::new();
    extend_bytes(&mut pre, thread_id);
    extend_bytes(&mut pre, body.as_bytes());
    extend_bytes(&mut pre, nonce);
    let digest = sha256(pre.as_slice());
    assert(pre@ =~= pow_preimage(thread_id@, body@, nonce@));
    assert(digest@.len() == 32);
    leading_zero_bits(&digest) >= bits
}

/// What the proof of work hashes, field by field: the thread id comes
/// first, then the UTF-8 bytes of the body, then the nonce, with nothing
/// between them; and a nonce solves the puzzle exactly when the SHA-256
/// of those bytes starts with at least `bits` zero bits.
pub proof fn lemma_pow_hashes_thread_body_nonce(thread_id: Seq<u8>, body: Seq<char>, nonce: Seq<u8>, bits: u32)
    ensures
        pow_preimage(thread_id, body, nonce).len() == thread_id.len() + encode_utf8(body).len() + nonce.len(),
        pow_preimage(thread_id, body, nonce).subrange(0, thread_id.len() as int) == thread_id,
        pow_preimage(thread_id, body, nonce).subrange(thread_id.len() as int, (thread_id.len() + encode_utf8(body).len()) as int) == encode_utf8(body),
        pow_preimage(thread_id, body, nonce).subrange((thread_id.len() + encode_utf8(body).len()) as int, pow_preimage(thread_id, body, nonce).len() as int) == nonce,
        pow_holds(thread_id, body, nonce, bits) == (leading_zeros_spec(sha256_spec(thread_id + encode_utf8(body) + nonce)) >= bits),
{
    let u = encode_utf8(body);
    let pre = pow_preimage(thread_id, body, nonce);
    assert(pre.subrange(0, thread_id.len() as int) =~= thread_id);
    assert(pre.subrange(thread_id.len() as int, (thread_id.len() + u.len()) as int) =~= u);
    assert(pre.subrange((thread_id.len() + u.len()) as int, pre.len() as int) =~= nonce);
}

/// A nonce that meets a difficulty also meets every lower difficulty.
pub proof fn lemma_pow_monotone(thread_id: Seq<u8>, body: Seq<char>, nonce: Seq<u8>, hi: u32, lo: u32)
    requires
        lo <= hi,
        pow_holds(thread_id, body, nonce, hi),
    ensures
        pow_holds(thread_id, body, nonce, lo),
{
}

} // verus!
