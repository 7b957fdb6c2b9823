//! 16-byte random ids and URL-safe base64 helpers used at HTTP boundaries.

use base64::engine::general_purpose::URL_SAFE_NO_PAD;
use base64::DecodeError as Base64Error;
use base64::Engine as _;
use rand::RngCore as _;
use vstd::prelude::*;

verus! {

#[verifier::external_type_specification]
#[verifier::external_body]
pub struct ExBase64Error(Base64Error);

/// The URL-safe, unpadded base64 text of a byte string.
pub uninterp spec fn b64url_encode(bytes: Seq<u8>) -> Seq<char>;

/// What URL-safe, unpadded base64 decoding gives for a text: `None` when
/// the text is not canonical unpadded URL-safe base64.
pub uninterp spec fn b64url_decode(text: Seq<char>) -> Option<Seq<u8>>;

/// Length of the unpadded base64 text of `n` bytes.
pub open spec fn b64url_len(n: nat) -> nat {
    4 * (n / 3) + if n % 3 == 0 { 0nat } else if n % 3 == 1 { 2nat } else { 3nat }
}

/// A character of the URL-safe base64 alphabet: `A-Z a-z 0-9 - _`.
pub open spec fn is_b64url_char(c: char) -> bool {
    ('A' <= c <= 'Z') || ('a' <= c <= 'z') || ('0' <= c <= '9') || c == '-' || c == '_'
}

/// Calls `URL_SAFE_NO_PAD.encode` of the `base64` crate. Claimed: the
/// text is the named encoding of `bytes`, its length is
/// `4 * (n / 3)` plus 2 or 3 for a partial group, every character is of
/// the URL-safe alphabet, and decoding it gives `bytes` back. It panics only when that length overflows `usize`,
/// which `requires` leaves out.
#[verifier::external_body]
pub fn b64(bytes: &[u8]) -> (text: String)
    requires
        (bytes@.len() / 3) * 4 + 3 <= usize::MAX,
    ensures
        text@ == b64url_encode(bytes@),
        text@.len() == b64url_len(bytes@.len()),
        forall|i: int| 0 <= i < text@.len() ==> is_b64url_char(#[trigger] text@[i]),
        b64url_decode(text@) == Some(bytes@),
{
    URL_SAFE_NO_PAD.encode(bytes)
}

/// Calls `URL_SAFE_NO_PAD.decode` of the `base64` crate. Claimed: it
/// succeeds exactly when the named decoding is defined, with those
/// bytes; and since this engine accepts only canonical text (no padding,
/// no stray trailing bits), encoding the bytes again gives `text` back.
#[verifier::external_body]
pub fn unb64(text: &str) -> (r: Result<Vec<u8>, Base64Error>)
    ensures
        match r {
            Ok(v) => b64url_decode(text@) == Some(v@) && b64url_encode(v@) == text@,
            Err(_) => b64url_decode(text@) is None,
        },
{
    URL_SAFE_NO_PAD.decode(text)
}

/// Converts a vector into an array of `N` bytes (`TryFrom<Vec<u8>>`),
/// or `None` when the length is not `N`.
#[verifier::external_body]
pub(crate) fn vec_to_array<const N: usize>(v: Vec<u8>) -> (r: Option<[u8; N]>)
    ensures
        match r {
            Some(a) => v@.len() == N && a@ == v@,
            None => v@.len() != N,
        },
{
    v.try_into().ok()
}

/// Why a fixed-size decode failed.
pub open spec fn unb64_array_spec<const N: usize>(text: Seq<char>) -> Result<Seq<u8>, Seq<char>> {
    match b64url_decode(text) {
        None => Err("invalid base64"@),
        Some(b) => if b.len() == N { Ok(b) } else { Err("wrong byte length"@) },
    }
}

/// Decodes URL-safe base64 into exactly `N` bytes.
pub fn unb64_array<const N: usize>(text: &str) -> (r: Result<[u8; N], &'static str>)
    ensures
        match r {
            Ok(a) => unb64_array_spec::<N>(text@) == Ok::<Seq<u8>, Seq<char>>(a@),
            Err(e) => unb64_array_spec::<N>(text@) == Err::<Seq<u8>, Seq<char>>(e@),
        },
{
    let v = match unb64(text) {
        Ok(v) => v,
        Err(_) => return Err("invalid base64"),
    };
    match vec_to_array::<N>(v) {
        Some(a) => Ok(a),
        None => Err("wrong byte length"),
    }
}

/// Calls `rand::thread_rng().fill_bytes` for 16 fresh bytes. Nothing is
/// claimed of the bytes: they are random.
#[verifier::external_body]
pub fn new_id() -> (id: [u8; 16]) {
    let mut buf = [0u8; 16];
    rand::thread_rng().fill_bytes(&mut buf);
    buf
}

/// Calls `rand::thread_rng().fill_bytes` for 32 fresh bytes. Nothing is
/// claimed of the bytes: they are random.
#[verifier::external_body]
pub(crate) fn random_32() -> (b: [u8; 32]) {
    let mut buf = [0u8; 32];
    rand::thread_rng().fill_bytes(&mut buf);
    buf
}

/// A 22-character URL-safe base64 invite code of 16 random bytes: every
/// character is of the URL-safe alphabet, and decoding the code gives
/// back the 16 bytes it encodes.
pub fn random_invite_code() -> (code: String)
    ensures
        code@.len() == 22,
        forall|i: int| 0 <= i < code@.len() ==> is_b64url_char(#[trigger] code@[i]),
        exists|id: Seq<u8>|
            #![trigger b64url_encode(id)]
            id.len() == 16 && code@ == b64url_encode(id) && b64url_decode(code@) == Some(id),
{
    let id = new_id();
    assert(id@.len() == 16);
    b64(&id)
}

} // verus!
