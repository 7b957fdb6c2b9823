//! Ed25519 verification of client signatures.

use crate::bytes::slice_to_array;
use crate::federation::identity::{ed25519_point_decodes, ed25519_strict_accepts, ed25519_verify_strict, Ed25519Rejection};
use vstd::prelude::*;

verus! {

/// Why a client signature was refused.
#[derive(Debug, Clone, Copy, PartialEq, Eq, Structural)]
pub enum CryptoError {
    BadPubkey,
    BadSignature,
    VerifyFailed,
}

impl CryptoError {
    /// The message of this error.
    pub fn message(&self) -> (m: &'static str)
        ensures
            m@ == crypto_error_message(*self),
    {
        match self {
            CryptoError::BadPubkey => "malformed public key",
            CryptoError::BadSignature => "malformed signature",
            CryptoError::VerifyFailed => "signature does not verify",
        }
    }
}

/// The message of a crypto error.
pub open spec fn crypto_error_message(e: CryptoError) -> Seq<char> {
    match e {
        CryptoError::BadPubkey => "malformed public key"@,
        CryptoError::BadSignature => "malformed signature"@,
        CryptoError::VerifyFailed => "signature does not verify"@,
    }
}

/// Strict lexicographic order of byte strings, the order in which a
/// vouch ring lists its keys.
pub open spec fn bytes_lt(a: Seq<u8>, b: Seq<u8>) -> bool
    decreases a.len(),
{
    if a.len() == 0 {
        b.len() > 0
    } else if b.len() == 0 {
        false
    } else if a[0] != b[0] {
        a[0] < b[0]
    } else {
        bytes_lt(a.drop_first(), b.drop_first())
    }
}

/// Whether `a` comes strictly before `b` in lexicographic byte order;
/// a ring key must come strictly after the one before it.
pub fn bytes_less(a: &[u8], b: &[u8]) -> (r: bool)
    ensures
        r == bytes_lt(a@, b@),
{
    let mut i: usize = 0;
    assert(a@.skip(0) =~= a@ && b@.skip(0) =~= b@);
    while i < a.len() && i < b.len()
        invariant
            i <= a@.len(),
            i <= b@.len(),
            bytes_lt(a@, b@) == bytes_lt(a@.skip(i as int), b@.skip(i as int)),
        decreases a@.len() - i,
    {
        let ghost sa = a@.skip(i as int);
        let ghost sb = b@.skip(i as int);
        assert(sa[0] == a@[i as int] && sb[0] == b@[i as int]);
        if a[i] != b[i] {
            return a[i] < b[i];
        }
        assert(sa.drop_first() =~= a@.skip(i as int + 1));
        assert(sb.drop_first() =~= b@.skip(i as int + 1));
        i = i + 1;
    }
    assert(a@.skip(i as int).len() == a@.len() - i);
    i < b.len()
}

/// Decoded, length-checked vouch ready for ring verification.
pub struct VouchParts<'a> {
    pub room_id: &'a [u8],
    pub thread_id: &'a [u8],
    pub body: &'a str,
    pub roster_epoch: i32,
    /// Sorted ascending, 1..=50 entries of 32 bytes.
    pub ring: &'a [Vec<u8>],
    pub key_image: &'a [u8; 32],
    pub c0: &'a [u8; 32],
    pub s: &'a [[u8; 32]],
}

/// What verifying a client signature gives.
pub open spec fn ed25519_check(pubkey: Seq<u8>, sig: Seq<u8>, msg: Seq<u8>) -> Result<(), CryptoError> {
    if pubkey.len() != 32 {
        Err(CryptoError::BadPubkey)
    } else if sig.len() != 64 {
        Err(CryptoError::BadSignature)
    } else if !ed25519_point_decodes(pubkey) {
        Err(CryptoError::BadPubkey)
    } else if !ed25519_strict_accepts(pubkey, msg, sig) {
        Err(CryptoError::VerifyFailed)
    } else {
        Ok(())
    }
}

/// Verifies an Ed25519 signature in strict mode.
pub fn verify_ed25519(pubkey: &[u8], sig: &[u8], msg: &[u8]) -> (r: Result<(), CryptoError>)
    ensures
        r == ed25519_check(pubkey@, sig@, msg@),
{
    let pk: [u8; 32] = match slice_to_array::<32>(pubkey) {
        Some(a) => a,
        None => return Err(CryptoError::BadPubkey),
    };
    let sig_arr: [u8; 64] = match slice_to_array::<64>(sig) {
        Some(a) => a,
        None => return Err(CryptoError::BadSignature),
    };
    match ed25519_verify_strict(&pk, &sig_arr, msg) {
        Ok(()) => Ok(()),
        Err(Ed25519Rejection::Key) => Err(CryptoError::BadPubkey),
        Err(Ed25519Rejection::Signature) => Err(CryptoError::VerifyFailed),
    }
}

} // verus!
