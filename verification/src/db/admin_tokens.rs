//! Admin tokens are stored as their SHA-256 only; the plaintext leaves the
//! server once, at mint time.

use crate::hashing::{sha256, sha256_spec};
use crate::time::JulianDay;
use vstd::prelude::*;
use vstd::utf8::encode_utf8;

verus! {

/// A stored admin token's public facts.
pub struct TokenRow {
    pub label: String,
    pub created_at: JulianDay,
    pub revoked_at: Option<JulianDay>,
}

/// The stored hash of a token: SHA-256 of its UTF-8 bytes.
pub fn hash(token: &str) -> (h: [u8; 32])
    ensures
        h@ == sha256_spec(encode_utf8(token@)),
{
    sha256(token.as_bytes())
}

} // verus!
