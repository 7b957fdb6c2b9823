//! Post records, and how a stored post is shown to readers.

use crate::ids::{b64, b64url_encode};
use crate::time::JulianDay;
use vstd::prelude::*;

verus! {

/// A locally authored post to insert.
pub struct NewPost<'a> {
    pub thread_id: &'a [u8],
    pub body: &'a str,
    pub pow_nonce: &'a [u8],
    pub pubkey: Option<&'a [u8]>,
    pub signature: Option<&'a [u8]>,
    pub created_at: JulianDay,
    /// This server's public key.
    pub origin_server_id: &'a [u8],
}

/// What an insert assigned.
pub struct Inserted {
    pub post_id: [u8; 16],
    pub seq: i32,
}

/// A post pulled from a peer, to insert.
pub struct FederatedPost<'a> {
    pub thread_id: &'a [u8],
    pub body: &'a str,
    pub pubkey: Option<&'a [u8]>,
    pub signature: Option<&'a [u8]>,
    pub created_at: JulianDay,
    pub origin_server_id: &'a [u8],
    pub origin_post_id: &'a [u8],
}

/// The body shown in place of a removed post.
pub open spec fn tombstone_spec(reason: Seq<char>) -> Seq<char> {
    "[removed: "@ + reason + "]"@
}

/// The body shown in place of a removed post: `[removed: <reason>]`.
pub fn tombstone_body(reason: &str) -> (body: String)
    ensures
        body@ == tombstone_spec(reason@),
{
    String::from_str("[removed: ").concat(reason).concat("]")
}

/// A stored post as the thread listing reads it.
pub struct PostRow {
    pub id: Vec<u8>,
    pub seq: i32,
    pub body: String,
    pub created_at: JulianDay,
    pub pubkey: Option<Vec<u8>>,
    /// The reason of its removal, if it was removed.
    pub removal_reason: Option<String>,
    pub origin_server_id: Option<Vec<u8>>,
    /// The label of the peer it came from, if that peer has one.
    pub origin_server_label: Option<String>,
}

/// A post as readers see it.
pub struct PostView {
    pub post_id: String,
    pub seq: i32,
    pub body: String,
    pub created_at: JulianDay,
    pub pubkey: Option<String>,
    pub signer_first_seq: Option<i32>,
    pub origin_server_id: Option<String>,
    pub origin_server_label: Option<String>,
}

/// The key a listed post shows as its author's: none once it is removed.
pub fn shown_pubkey(r: &PostRow) -> (k: Option<Vec<u8>>)
    ensures
        r.removal_reason is Some ==> k is None,
        r.removal_reason is None ==> opt_vec_bytes(k) == opt_vec_bytes(r.pubkey),
{
    if r.removal_reason.is_some() {
        return None;
    }
    match &r.pubkey {
        Some(p) => {
            let mut v: Vec<u8> = Vec::new();
            crate::bytes::extend_bytes(&mut v, p.as_slice());
            Some(v)
        },
        None => None,
    }
}

/// Whether a stored post was written here: its origin is this server, or
/// it predates federation and names none.
pub open spec fn is_local(origin: Option<Seq<u8>>, own: Seq<u8>) -> bool {
    match origin {
        None => true,
        Some(o) => o == own,
    }
}

/// The bytes of an optional vector.
pub open spec fn opt_vec_bytes(v: Option<Vec<u8>>) -> Option<Seq<u8>> {
    match v {
        Some(v) => Some(v@),
        None => None,
    }
}

/// How a stored post is listed. A removed post shows the tombstone in
/// place of its body and no author key; a post written here shows no
/// origin, so unfederated reads stay clean; a copy from a peer shows the
/// peer's key and label. `signer_first_seq` is looked up for the key
/// shown.
pub fn post_view(r: PostRow, self_pubkey: &[u8; 32], signer_first_seq: Option<i32>) -> (v: PostView)
    requires
        b64_fits_len(r.id@.len()),
        r.pubkey matches Some(k) ==> b64_fits_len(k@.len()),
        r.origin_server_id matches Some(o) ==> b64_fits_len(o@.len()),
    ensures
        v.post_id@ == b64url_encode(r.id@),
        v.seq == r.seq,
        v.created_at == r.created_at,
        r.removal_reason matches Some(reason) ==> v.body@ == tombstone_spec(reason@) && v.pubkey is None,
        r.removal_reason is None ==> v.body == r.body,
        r.removal_reason is None ==> (match r.pubkey {
            Some(k) => v.pubkey matches Some(t) && t@ == b64url_encode(k@),
            None => v.pubkey is None,
        }),
        v.signer_first_seq == signer_first_seq,
        is_local(opt_vec_bytes(r.origin_server_id), self_pubkey@) ==> v.origin_server_id is None && v.origin_server_label is None,
        !is_local(opt_vec_bytes(r.origin_server_id), self_pubkey@) ==> (r.origin_server_id matches Some(o)
            && v.origin_server_id matches Some(t) && t@ == b64url_encode(o@) && v.origin_server_label == r.origin_server_label),
{
    let shown = shown_pubkey(&r);
    let local = match &r.origin_server_id {
        None => true,
        Some(o) => crate::bytes::bytes_eq(o.as_slice(), self_pubkey),
    };
    let body = match &r.removal_reason {
        Some(reason) => tombstone_body(reason.as_str()),
        None => r.body,
    };
    let pubkey = match &shown {
        Some(k) => Some(b64(k.as_slice())),
        None => None,
    };
    let (origin_server_id, origin_server_label) = if local {
        (None, None)
    } else {
        match &r.origin_server_id {
            Some(o) => (Some(b64(o.as_slice())), r.origin_server_label),
            None => (None, None),
        }
    };
    PostView {
        post_id: b64(r.id.as_slice()),
        seq: r.seq,
        body,
        created_at: r.created_at,
        pubkey,
        signer_first_seq,
        origin_server_id,
        origin_server_label,
    }
}

/// Whether a byte string's base64 text fits in memory.
pub open spec fn b64_fits_len(n: nat) -> bool {
    (n / 3) * 4 + 3 <= usize::MAX
}

} // verus!
