//! Thread and post creation: length limits, the proof-of-work gate, the
//! optional author identity, vouches, author-set expiry, and author
//! self-deletion.

use super::{b64_field, decode_field, decode_sized, opt_text, sized_field};
use crate::error::{insert_conflict, violated_constraint, AppError, AppErrorView};
use crate::hashing::sha256_spec;
use crate::ids::{b64url_decode, new_id};
use crate::moderation::{reason_code, Reason};
use crate::pow::{leading_zeros_spec, pow_holds, verify as pow_verify};
use crate::text::{bad_length, length_ok};
use crate::time::{julian_day_in_range, julian_day_valid, JulianDay};
use vstd::prelude::*;
use vstd::utf8::encode_utf8;

verus! {

/// Longest thread title, in UTF-8 bytes.
pub const MAX_TITLE: usize = 256;

/// Longest post body, in UTF-8 bytes.
pub const MAX_BODY: usize = 16384;

/// Longest author-set thread lifetime (about ten years): a rail against
/// typos. No value means the thread never expires.
pub const MAX_EXPIRES_IN_DAYS: i32 = 3650;

/// Most members a vouch's ring may name.
pub const VOUCH_MAX_RING: usize = 50;

/// A room vouch attached to a post: a linkable ring signature by a member
/// of the room's signed roster.
pub struct VouchPayload {
    pub room_id: String,
    pub roster_epoch: i32,
    pub ring: Vec<String>,
    pub key_image: String,
    pub c0: String,
    pub s: Vec<String>,
    pub creator_sig: String,
}

/// Body of `POST /api/boards/:board/threads`.
pub struct CreateThreadReq {
    pub board_id: String,
    pub title: String,
    pub body: String,
    pub pow_nonce: String,
    /// Client-minted thread id; needed to sign or vouch for the first post.
    pub thread_id: Option<String>,
    pub pubkey: Option<String>,
    pub signature: Option<String>,
    pub vouch: Option<VouchPayload>,
    pub expires_in_days: Option<i32>,
}

/// Reply to a thread creation.
pub struct CreateThreadResp {
    pub thread_id: String,
    pub seq: i32,
}

/// Body of `POST /api/threads/:id/posts`.
pub struct CreatePostReq {
    pub body: String,
    pub pow_nonce: String,
    pub pubkey: Option<String>,
    pub signature: Option<String>,
    pub vouch: Option<VouchPayload>,
}

/// Reply to a post creation.
pub struct CreatePostResp {
    pub post_id: String,
    pub seq: i32,
    /// The first sequence number this signer posted at in the thread.
    pub signer_first_seq: Option<i32>,
}

/// Body of an author's request to delete a post.
pub struct DeletePostReq {
    pub pubkey: String,
    pub sig: String,
    pub ts: i64,
}

/// The client message of a moderation rejection.
pub open spec fn reason_message(r: Reason) -> Seq<char> {
    "rejected: "@ + reason_code(r)
}

/// The `400` message for a submission moderation rejected.
pub fn reason_static(r: Reason) -> (m: &'static str)
    ensures
        m@ == reason_message(r),
{
    proof {
        reveal_strlit("rejected: ");
    }
    match r {
        Reason::SpamDuplicate => {
            proof {
                reveal_strlit("spam_duplicate");
                reveal_strlit("rejected: spam_duplicate");
            }
            assert("rejected: spam_duplicate"@ =~= "rejected: "@ + "spam_duplicate"@);
            "rejected: spam_duplicate"
        },
        Reason::SpamLinkDensity => {
            proof {
                reveal_strlit("spam_link_density");
                reveal_strlit("rejected: spam_link_density");
            }
            assert("rejected: spam_link_density"@ =~= "rejected: "@ + "spam_link_density"@);
            "rejected: spam_link_density"
        },
        Reason::SpamTooShort => {
            proof {
                reveal_strlit("spam_too_short");
                reveal_strlit("rejected: spam_too_short");
            }
            assert("rejected: spam_too_short"@ =~= "rejected: "@ + "spam_too_short"@);
            "rejected: spam_too_short"
        },
        Reason::MalwareLink => {
            proof {
                reveal_strlit("malware_link");
                reveal_strlit("rejected: malware_link");
            }
            assert("rejected: malware_link"@ =~= "rejected: "@ + "malware_link"@);
            "rejected: malware_link"
        },
        Reason::HarassmentOrHate => {
            proof {
                reveal_strlit("harassment_or_hate");
                reveal_strlit("rejected: harassment_or_hate");
            }
            assert("rejected: harassment_or_hate"@ =~= "rejected: "@ + "harassment_or_hate"@);
            "rejected: harassment_or_hate"
        },
        Reason::AiClassifier => {
            proof {
                reveal_strlit("ai_classifier");
                reveal_strlit("rejected: ai_classifier");
            }
            assert("rejected: ai_classifier"@ =~= "rejected: "@ + "ai_classifier"@);
            "rejected: ai_classifier"
        },
    }
}

/// The proof-of-work gate: the nonce must be base64 and solve the puzzle
/// over `(scope, body)` at `bits`. Returns the nonce.
pub open spec fn pow_gate_spec(scope: Seq<u8>, body: Seq<char>, nonce: Seq<char>, bits: u32) -> Result<Seq<u8>, AppErrorView> {
    match b64_field(nonce, "pow_nonce b64"@) {
        Err(e) => Err(e),
        Ok(n) => if pow_holds(scope, body, n, bits) { Ok(n) } else { Err(AppErrorView::BadRequest("insufficient pow"@)) },
    }
}

/// Checks a proof of work over `(scope, body)`.
pub fn check_pow(scope: &[u8], body: &str, nonce: &str, bits: u32) -> (r: Result<Vec<u8>, AppError>)
    ensures
        match r {
            Ok(n) => pow_gate_spec(scope@, body@, nonce@, bits) == Ok::<Seq<u8>, AppErrorView>(n@),
            Err(e) => pow_gate_spec(scope@, body@, nonce@, bits) == Err::<Seq<u8>, AppErrorView>(e@),
        },
{
    let n = decode_field(nonce, "pow_nonce b64")?;
    if !pow_verify(scope, body, n.as_slice(), bits) {
        return Err(AppError::BadRequest("insufficient pow"));
    }
    Ok(n)
}

/// What a new thread must pass before moderation: title and body lengths,
/// then a proof of work over the board id (there is no thread id yet, so
/// the client can solve it without asking the server first).
pub open spec fn thread_gate_spec(board_id: Seq<char>, title: Seq<char>, body: Seq<char>, nonce: Seq<char>, bits: u32) -> Result<Seq<u8>, AppErrorView> {
    if bad_length(title, MAX_TITLE as nat) {
        Err(AppErrorView::BadRequest("title length"@))
    } else if bad_length(body, MAX_BODY as nat) {
        Err(AppErrorView::BadRequest("body length"@))
    } else {
        pow_gate_spec(encode_utf8(board_id), body, nonce, bits)
    }
}

/// A new thread's proof of work is over its board id: once the title and
/// body lengths pass, the nonce must decode and it passes exactly when
/// SHA-256 of the board id's UTF-8 bytes, the body's UTF-8 bytes and the
/// nonce starts with `bits` zero bits. The title is not hashed, so two
/// requests that differ only in an acceptable title get the same answer.
pub proof fn lemma_thread_pow_is_over_board_id(
    board_id: Seq<char>,
    title: Seq<char>,
    other_title: Seq<char>,
    body: Seq<char>,
    nonce: Seq<char>,
    bits: u32,
)
    requires
        !bad_length(title, MAX_TITLE as nat),
        !bad_length(other_title, MAX_TITLE as nat),
        !bad_length(body, MAX_BODY as nat),
    ensures
        match b64url_decode(nonce) {
            None => thread_gate_spec(board_id, title, body, nonce, bits) == Err::<Seq<u8>, AppErrorView>(AppErrorView::BadRequest("pow_nonce b64"@)),
            Some(n) => if leading_zeros_spec(sha256_spec(encode_utf8(board_id) + encode_utf8(body) + n)) >= bits {
                thread_gate_spec(board_id, title, body, nonce, bits) == Ok::<Seq<u8>, AppErrorView>(n)
            } else {
                thread_gate_spec(board_id, title, body, nonce, bits) == Err::<Seq<u8>, AppErrorView>(AppErrorView::BadRequest("insufficient pow"@))
            },
        },
        thread_gate_spec(board_id, title, body, nonce, bits) == thread_gate_spec(board_id, other_title, body, nonce, bits),
{
}

/// Checks a new thread's lengths and proof of work, returning the nonce.
pub fn check_thread_gate(req: &CreateThreadReq, pow_bits: u32) -> (r: Result<Vec<u8>, AppError>)
    ensures
        match r {
            Ok(n) => thread_gate_spec(req.board_id@, req.title@, req.body@, req.pow_nonce@, pow_bits) == Ok::<Seq<u8>, AppErrorView>(n@),
            Err(e) => thread_gate_spec(req.board_id@, req.title@, req.body@, req.pow_nonce@, pow_bits) == Err::<Seq<u8>, AppErrorView>(e@),
        },
{
    if !length_ok(req.title.as_str(), MAX_TITLE) {
        return Err(AppError::BadRequest("title length"));
    }
    if !length_ok(req.body.as_str(), MAX_BODY) {
        return Err(AppError::BadRequest("body length"));
    }
    check_pow(req.board_id.as_str().as_bytes(), req.body.as_str(), req.pow_nonce.as_str(), pow_bits)
}

/// An author's identity claim: the public key and signature come both or
/// not at all, each as base64.
pub open spec fn author_claim_spec(pubkey: Option<Seq<char>>, signature: Option<Seq<char>>) -> Result<Option<(Seq<u8>, Seq<u8>)>, AppErrorView> {
    match (pubkey, signature) {
        (None, None) => Ok(None),
        (Some(pk), Some(sig)) => match b64_field(pk, "pubkey b64"@) {
            Err(e) => Err(e),
            Ok(k) => match b64_field(sig, "signature b64"@) {
                Err(e) => Err(e),
                Ok(s) => Ok(Some((k, s))),
            },
        },
        _ => Err(AppErrorView::BadRequest("pubkey/signature must come together"@)),
    }
}

/// The bytes of an optional decoded claim.
pub open spec fn claim_view(c: Option<(Vec<u8>, Vec<u8>)>) -> Option<(Seq<u8>, Seq<u8>)> {
    match c {
        Some((k, s)) => Some((k@, s@)),
        None => None,
    }
}

/// Decodes an author's identity claim. The signature itself is checked
/// against the canonical payload afterwards.
pub fn decode_author_claim(pubkey: &Option<String>, signature: &Option<String>) -> (r: Result<Option<(Vec<u8>, Vec<u8>)>, AppError>)
    ensures
        match r {
            Ok(c) => author_claim_spec(opt_text(*pubkey), opt_text(*signature)) == Ok::<Option<(Seq<u8>, Seq<u8>)>, AppErrorView>(claim_view(c)),
            Err(e) => author_claim_spec(opt_text(*pubkey), opt_text(*signature)) == Err::<Option<(Seq<u8>, Seq<u8>)>, AppErrorView>(e@),
        },
{
    match (pubkey, signature) {
        (None, None) => Ok(None),
        (Some(pk), Some(sig)) => {
            let k = decode_field(pk.as_str(), "pubkey b64")?;
            let s = decode_field(sig.as_str(), "signature b64")?;
            Ok(Some((k, s)))
        },
        _ => Err(AppError::BadRequest("pubkey/signature must come together")),
    }
}

/// The identity of a new thread's first post. A client-minted thread id
/// must be 16 bytes of base64; claiming an author identity or vouching
/// needs one, because both bind the thread id. Returns the requested id,
/// if any, and the claim.
pub open spec fn thread_claim_spec(thread_id: Option<Seq<char>>, pubkey: Option<Seq<char>>, signature: Option<Seq<char>>, vouching: bool)
    -> Result<(Option<Seq<u8>>, Option<(Seq<u8>, Seq<u8>)>), AppErrorView> {
    let tid = match thread_id {
        None => Ok(None),
        Some(t) => match sized_field(t, 16, "thread_id b64"@, "thread_id length"@) {
            Err(e) => Err(e),
            Ok(b) => Ok(Some(b)),
        },
    };
    match tid {
        Err(e) => Err(e),
        Ok(tid) => if pubkey is Some && signature is Some && thread_id is None {
            Err(AppErrorView::BadRequest("thread_id required when claiming OP identity"@))
        } else {
            match author_claim_spec(pubkey, signature) {
                Err(e) => Err(e),
                Ok(claim) => if vouching && thread_id is None {
                    Err(AppErrorView::BadRequest("thread_id required when vouching"@))
                } else {
                    Ok((tid, claim))
                },
            }
        },
    }
}

/// A new thread's id and its first post's author claim.
pub struct ThreadClaim {
    pub thread_id: Vec<u8>,
    pub author: Option<(Vec<u8>, Vec<u8>)>,
}

/// Settles a new thread's id and author claim: the client's id when it
/// minted one, else a fresh random one.
pub fn thread_claim(req: &CreateThreadReq) -> (r: Result<ThreadClaim, AppError>)
    ensures
        match r {
            Ok(c) => {
                &&& thread_claim_spec(opt_text(req.thread_id), opt_text(req.pubkey), opt_text(req.signature), req.vouch is Some) matches Ok((tid, claim))
                &&& claim == claim_view(c.author)
                &&& c.thread_id@.len() == 16
                &&& (tid matches Some(t) ==> c.thread_id@ == t)
            },
            Err(e) => thread_claim_spec(opt_text(req.thread_id), opt_text(req.pubkey), opt_text(req.signature), req.vouch is Some)
                == Err::<(Option<Seq<u8>>, Option<(Seq<u8>, Seq<u8>)>), AppErrorView>(e@),
        },
{
    let tid = match &req.thread_id {
        Some(t) => Some(decode_sized(t.as_str(), 16, "thread_id b64", "thread_id length")?),
        None => None,
    };
    if req.pubkey.is_some() && req.signature.is_some() && req.thread_id.is_none() {
        return Err(AppError::BadRequest("thread_id required when claiming OP identity"));
    }
    let author = decode_author_claim(&req.pubkey, &req.signature)?;
    if req.vouch.is_some() && req.thread_id.is_none() {
        return Err(AppError::BadRequest("thread_id required when vouching"));
    }
    let thread_id = match tid {
        Some(t) => t,
        None => {
            let fresh = new_id();
            let mut v: Vec<u8> = Vec::new();
            crate::bytes::extend_bytes(&mut v, &fresh);
            assert(v@.len() == 16);
            v
        },
    };
    Ok(ThreadClaim { thread_id, author })
}

/// When an author-set lifetime ends: `days` of 1 to 3650 count from
/// `today`; an end that is no representable date, or any other count, is
/// refused.
pub open spec fn expiry_spec(today: int, days: Option<i32>) -> Result<Option<int>, AppErrorView> {
    match days {
        None => Ok(None),
        Some(d) => if 1 <= d <= MAX_EXPIRES_IN_DAYS {
            if julian_day_in_range(today + d) {
                Ok(Some(today + d))
            } else {
                Err(AppErrorView::BadRequest("expires_in_days"@))
            }
        } else {
            Err(AppErrorView::BadRequest("expires_in_days out of range"@))
        },
    }
}

/// The expiry date of a new thread, as a Julian day.
pub fn expiry_date(today: JulianDay, days: Option<i32>) -> (r: Result<Option<JulianDay>, AppError>)
    requires
        julian_day_in_range(today as int),
    ensures
        match r {
            Ok(Some(d)) => expiry_spec(today as int, days) == Ok::<Option<int>, AppErrorView>(Some(d as int)),
            Ok(None) => expiry_spec(today as int, days) == Ok::<Option<int>, AppErrorView>(None),
            Err(e) => expiry_spec(today as int, days) == Err::<Option<int>, AppErrorView>(e@),
        },
{
    match days {
        None => Ok(None),
        Some(d) => {
            if 1 <= d && d <= MAX_EXPIRES_IN_DAYS {
                let end = today + d;
                if !julian_day_valid(end) {
                    return Err(AppError::BadRequest("expires_in_days"));
                }
                Ok(Some(end))
            } else {
                Err(AppError::BadRequest("expires_in_days out of range"))
            }
        },
    }
}

/// The error of a failed thread insert: a taken thread id is a conflict;
/// anything else is a database error.
pub fn thread_insert_error(e: sqlx::Error) -> (r: AppError)
    ensures
        r@ == AppErrorView::Conflict("thread_id already exists"@) || r@ == AppErrorView::Db,
{
    let c = violated_constraint(&e);
    insert_conflict(e, c, "threads_pkey", "thread_id already exists")
}

/// The target of a reply: the body's length, then the thread id as base64.
pub open spec fn reply_target_spec(thread_id: Seq<char>, body: Seq<char>) -> Result<Seq<u8>, AppErrorView> {
    if bad_length(body, MAX_BODY as nat) {
        Err(AppErrorView::BadRequest("body length"@))
    } else {
        b64_field(thread_id, "thread_id b64"@)
    }
}

/// Checks a reply's body length and decodes its thread id.
pub fn check_reply_target(thread_id_b64: &str, req: &CreatePostReq) -> (r: Result<Vec<u8>, AppError>)
    ensures
        match r {
            Ok(t) => reply_target_spec(thread_id_b64@, req.body@) == Ok::<Seq<u8>, AppErrorView>(t@),
            Err(e) => reply_target_spec(thread_id_b64@, req.body@) == Err::<Seq<u8>, AppErrorView>(e@),
        },
{
    if !length_ok(req.body.as_str(), MAX_BODY) {
        return Err(AppError::BadRequest("body length"));
    }
    decode_field(thread_id_b64, "thread_id b64")
}

/// The decoded fields of a delete request.
pub struct DeleteFields {
    pub post_id: Vec<u8>,
    pub pubkey: Vec<u8>,
    pub sig: Vec<u8>,
}

/// A delete request names a 16-byte post id and carries a 32-byte key and
/// a 64-byte signature, checked in that order.
pub open spec fn delete_fields_spec(post_id: Seq<char>, pubkey: Seq<char>, sig: Seq<char>) -> Result<(Seq<u8>, Seq<u8>, Seq<u8>), AppErrorView> {
    match sized_field(post_id, 16, "post_id b64"@, "post_id length"@) {
        Err(e) => Err(e),
        Ok(p) => match sized_field(pubkey, 32, "pubkey b64"@, "pubkey length"@) {
            Err(e) => Err(e),
            Ok(k) => match sized_field(sig, 64, "sig b64"@, "sig length"@) {
                Err(e) => Err(e),
                Ok(s) => Ok((p, k, s)),
            },
        },
    }
}

/// Decodes the fields of an author's delete request.
pub fn check_delete_fields(post_id_b64: &str, req: &DeletePostReq) -> (r: Result<DeleteFields, AppError>)
    ensures
        match r {
            Ok(f) => delete_fields_spec(post_id_b64@, req.pubkey@, req.sig@) == Ok::<(Seq<u8>, Seq<u8>, Seq<u8>), AppErrorView>((f.post_id@, f.pubkey@, f.sig@)),
            Err(e) => delete_fields_spec(post_id_b64@, req.pubkey@, req.sig@) == Err::<(Seq<u8>, Seq<u8>, Seq<u8>), AppErrorView>(e@),
        },
{
    let post_id = decode_sized(post_id_b64, 16, "post_id b64", "post_id length")?;
    let pubkey = decode_sized(req.pubkey.as_str(), 32, "pubkey b64", "pubkey length")?;
    let sig = decode_sized(req.sig.as_str(), 64, "sig b64", "sig length")?;
    Ok(DeleteFields { post_id, pubkey, sig })
}

/// Whose post may be deleted: the post must exist, be signed, and be
/// signed by the key that just proved control. Anonymous posts cannot be
/// deleted: nobody can prove they wrote them.
pub open spec fn delete_owner_spec(stored: Option<Option<Seq<u8>>>, pubkey: Seq<u8>) -> Result<(), AppErrorView> {
    match stored {
        None => Err(AppErrorView::NotFound),
        Some(None) => Err(AppErrorView::Forbidden("anonymous posts cannot be self-deleted"@)),
        Some(Some(k)) => if k == pubkey {
            Ok(())
        } else {
            Err(AppErrorView::Forbidden("pubkey does not match the post author"@))
        },
    }
}

/// The stored author key of a post, as the database returned it.
pub open spec fn stored_author_view(s: Option<Option<Vec<u8>>>) -> Option<Option<Seq<u8>>> {
    match s {
        None => None,
        Some(None) => Some(None),
        Some(Some(k)) => Some(Some(k@)),
    }
}

/// Checks that the requester wrote the post.
pub fn check_delete_owner(stored: &Option<Option<Vec<u8>>>, pubkey: &[u8]) -> (r: Result<(), AppError>)
    ensures
        match r {
            Ok(()) => delete_owner_spec(stored_author_view(*stored), pubkey@) == Ok::<(), AppErrorView>(()),
            Err(e) => delete_owner_spec(stored_author_view(*stored), pubkey@) == Err::<(), AppErrorView>(e@),
        },
{
    match stored {
        None => Err(AppError::NotFound),
        Some(None) => Err(AppError::Forbidden("anonymous posts cannot be self-deleted")),
        Some(Some(k)) => {
            if crate::bytes::bytes_eq(k.as_slice(), pubkey) {
                Ok(())
            } else {
                Err(AppError::Forbidden("pubkey does not match the post author"))
            }
        },
    }
}

/// A delete that scrubbed nothing found the post already removed.
pub fn delete_outcome(deleted: bool) -> (r: Result<(), AppError>)
    ensures
        deleted ==> r is Ok,
        !deleted ==> (r matches Err(e) && e@ == AppErrorView::Conflict("post is already removed"@)),
{
    if !deleted {
        return Err(AppError::Conflict("post is already removed"));
    }
    Ok(())
}

/// The texts of a list of strings.
pub open spec fn texts(v: Seq<String>) -> Seq<Seq<char>> {
    v.map_values(|t: String| t@)
}

/// The bytes of a list of byte vectors.
pub open spec fn byte_lists(v: Seq<Vec<u8>>) -> Seq<Seq<u8>> {
    v.map_values(|b: Vec<u8>| b@)
}

/// Decoding each text of a list in order; the first failure is the error.
pub open spec fn decode_each_spec(ts: Seq<Seq<char>>, n: nat, b64_label: Seq<char>, len_label: Seq<char>) -> Result<Seq<Seq<u8>>, AppErrorView>
    decreases ts.len(),
{
    if ts.len() == 0 {
        Ok(Seq::empty())
    } else {
        match decode_each_spec(ts.drop_last(), n, b64_label, len_label) {
            Err(e) => Err(e),
            Ok(v) => match sized_field(ts.last(), n, b64_label, len_label) {
                Err(e) => Err(e),
                Ok(b) => Ok(v.push(b)),
            },
        }
    }
}

proof fn lemma_decode_each_prefix_err(ts: Seq<Seq<char>>, k: int, n: nat, b64_label: Seq<char>, len_label: Seq<char>)
    requires
        0 <= k <= ts.len(),
        decode_each_spec(ts.take(k), n, b64_label, len_label) is Err,
    ensures
        decode_each_spec(ts, n, b64_label, len_label) == decode_each_spec(ts.take(k), n, b64_label, len_label),
    decreases ts.len(),
{
    if k == ts.len() {
        assert(ts.take(k) =~= ts);
    } else {
        assert(ts.drop_last().take(k) =~= ts.take(k));
        lemma_decode_each_prefix_err(ts.drop_last(), k, n, b64_label, len_label);
    }
}

/// Decodes each base64 text of a list into exactly `n` bytes.
pub fn decode_each(ts: &Vec<String>, n: usize, b64_label: &'static str, len_label: &'static str) -> (r: Result<Vec<Vec<u8>>, AppError>)
    ensures
        match r {
            Ok(v) => decode_each_spec(texts(ts@), n as nat, b64_label@, len_label@) == Ok::<Seq<Seq<u8>>, AppErrorView>(byte_lists(v@)),
            Err(e) => decode_each_spec(texts(ts@), n as nat, b64_label@, len_label@) == Err::<Seq<Seq<u8>>, AppErrorView>(e@),
        },
{
    let mut out: Vec<Vec<u8>> = Vec::new();
    let mut i: usize = 0;
    assert(texts(ts@).take(0) =~= Seq::<Seq<char>>::empty());
    assert(byte_lists(out@) =~= Seq::<Seq<u8>>::empty());
    while i < ts.len()
        invariant
            i <= ts@.len(),
            decode_each_spec(texts(ts@).take(i as int), n as nat, b64_label@, len_label@) == Ok::<Seq<Seq<u8>>, AppErrorView>(byte_lists(out@)),
        decreases ts@.len() - i,
    {
        let ghost pre = texts(ts@).take(i as int + 1);
        assert(pre.drop_last() =~= texts(ts@).take(i as int));
        assert(pre.last() == ts@[i as int]@);
        match decode_sized(ts[i].as_str(), n, b64_label, len_label) {
            Ok(b) => {
                let ghost before = out@;
                let ghost bv = b@;
                out.push(b);
                assert(byte_lists(out@) =~= byte_lists(before).push(bv));
            },
            Err(e) => {
                proof {
                    lemma_decode_each_prefix_err(texts(ts@), i as int + 1, n as nat, b64_label@, len_label@);
                }
                return Err(e);
            },
        }
        i = i + 1;
    }
    assert(texts(ts@).take(i as int) =~= texts(ts@));
    Ok(out)
}

/// A vouch with its fields decoded.
pub struct DecodedVouch {
    pub room_id: Vec<u8>,
    pub ring: Vec<Vec<u8>>,
    pub key_image: Vec<u8>,
    pub c0: Vec<u8>,
    pub s: Vec<Vec<u8>>,
    pub creator_sig: Vec<u8>,
}

/// The bytes of a decoded vouch.
pub struct DecodedVouchView {
    pub room_id: Seq<u8>,
    pub ring: Seq<Seq<u8>>,
    pub key_image: Seq<u8>,
    pub c0: Seq<u8>,
    pub s: Seq<Seq<u8>>,
    pub creator_sig: Seq<u8>,
}

impl View for DecodedVouch {
    type V = DecodedVouchView;

    open spec fn view(&self) -> DecodedVouchView {
        DecodedVouchView {
            room_id: self.room_id@,
            ring: byte_lists(self.ring@),
            key_image: self.key_image@,
            c0: self.c0@,
            s: byte_lists(self.s@),
            creator_sig: self.creator_sig@,
        }
    }
}

/// What decoding a vouch gives: a 16-byte room id; a ring of 1 to
/// `VOUCH_MAX_RING` 32-byte keys with one response scalar per key; a
/// 32-byte key image and challenge; the roster's creator signature.
pub open spec fn vouch_decode_spec(v: VouchPayload) -> Result<DecodedVouchView, AppErrorView> {
    match sized_field(v.room_id@, 16, "vouch room_id b64"@, "vouch room_id length"@) {
        Err(e) => Err(e),
        Ok(room_id) => if v.ring@.len() == 0 || v.ring@.len() > VOUCH_MAX_RING || v.s@.len() != v.ring@.len() {
            Err(AppErrorView::BadRequest("vouch ring size"@))
        } else {
            match decode_each_spec(texts(v.ring@), 32, "vouch ring b64"@, "vouch ring pubkey length"@) {
                Err(e) => Err(e),
                Ok(ring) => match sized_field(v.key_image@, 32, "vouch key_image"@, "vouch key_image"@) {
                    Err(e) => Err(e),
                    Ok(key_image) => match sized_field(v.c0@, 32, "vouch c0"@, "vouch c0"@) {
                        Err(e) => Err(e),
                        Ok(c0) => match decode_each_spec(texts(v.s@), 32, "vouch s"@, "vouch s"@) {
                            Err(e) => Err(e),
                            Ok(s) => match b64_field(v.creator_sig@, "vouch creator_sig b64"@) {
                                Err(e) => Err(e),
                                Ok(creator_sig) => Ok(DecodedVouchView { room_id, ring, key_image, c0, s, creator_sig }),
                            },
                        },
                    },
                },
            }
        },
    }
}

/// Decodes a vouch's fields and checks the ring's size.
pub fn decode_vouch(v: &VouchPayload) -> (r: Result<DecodedVouch, AppError>)
    ensures
        match r {
            Ok(d) => vouch_decode_spec(*v) == Ok::<DecodedVouchView, AppErrorView>(d@),
            Err(e) => vouch_decode_spec(*v) == Err::<DecodedVouchView, AppErrorView>(e@),
        },
{
    let room_id = decode_sized(v.room_id.as_str(), 16, "vouch room_id b64", "vouch room_id length")?;
    if v.ring.len() == 0 || v.ring.len() > VOUCH_MAX_RING || v.s.len() != v.ring.len() {
        return Err(AppError::BadRequest("vouch ring size"));
    }
    let ring = decode_each(&v.ring, 32, "vouch ring b64", "vouch ring pubkey length")?;
    let key_image = decode_sized(v.key_image.as_str(), 32, "vouch key_image", "vouch key_image")?;
    let c0 = decode_sized(v.c0.as_str(), 32, "vouch c0", "vouch c0")?;
    let s = decode_each(&v.s, 32, "vouch s", "vouch s")?;
    let creator_sig = decode_field(v.creator_sig.as_str(), "vouch creator_sig b64")?;
    Ok(DecodedVouch { room_id, ring, key_image, c0, s, creator_sig })
}

/// What the room a vouch cites must be: known, with vouching on, and at
/// the roster epoch the vouch cites. `room` is the room's vouching flag
/// and current roster epoch, when the room exists.
pub open spec fn vouch_room_spec(room: Option<(bool, i32)>, vouch_epoch: i32) -> Result<(), AppErrorView> {
    match room {
        None => Err(AppErrorView::BadRequest("vouch room not found"@)),
        Some((enabled, epoch)) => if !enabled {
            Err(AppErrorView::Forbidden("vouching is not enabled for that room"@))
        } else if vouch_epoch != epoch {
            Err(AppErrorView::Conflict("vouch cites a stale roster epoch"@))
        } else {
            Ok(())
        },
    }
}

/// Checks the room a vouch cites.
pub fn check_vouch_room(room: Option<(bool, i32)>, vouch_epoch: i32) -> (r: Result<(), AppError>)
    ensures
        match r {
            Ok(()) => vouch_room_spec(room, vouch_epoch) == Ok::<(), AppErrorView>(()),
            Err(e) => vouch_room_spec(room, vouch_epoch) == Err::<(), AppErrorView>(e@),
        },
{
    match room {
        None => Err(AppError::BadRequest("vouch room not found")),
        Some((enabled, epoch)) => {
            if !enabled {
                Err(AppError::Forbidden("vouching is not enabled for that room"))
            } else if vouch_epoch != epoch {
                Err(AppError::Conflict("vouch cites a stale roster epoch"))
            } else {
                Ok(())
            }
        },
    }
}

/// Whether two lists of byte strings are equal.
pub fn byte_lists_eq(a: &Vec<Vec<u8>>, b: &Vec<Vec<u8>>) -> (r: bool)
    ensures
        r == (byte_lists(a@) == byte_lists(b@)),
{
    if a.len() != b.len() {
        assert(byte_lists(a@).len() != byte_lists(b@).len());
        return false;
    }
    let mut i: usize = 0;
    while i < a.len()
        invariant
            i <= a@.len(),
            a@.len() == b@.len(),
            forall|k: int| 0 <= k < i ==> a@[k]@ == b@[k]@,
        decreases a@.len() - i,
    {
        if !crate::bytes::bytes_eq(a[i].as_slice(), b[i].as_slice()) {
            assert(byte_lists(a@)[i as int] != byte_lists(b@)[i as int]);
            return false;
        }
        i = i + 1;
    }
    assert(byte_lists(a@) =~= byte_lists(b@));
    true
}

/// The ring of a vouch must be exactly the roster signed at its epoch,
/// with the same creator signature, so that a member removed since the
/// last roster signing cannot get a fresh vouch stored.
pub open spec fn vouch_roster_spec(stored: Option<(Seq<Seq<u8>>, Seq<u8>)>, ring: Seq<Seq<u8>>, creator_sig: Seq<u8>) -> Result<(), AppErrorView> {
    match stored {
        None => Err(AppErrorView::Conflict("roster epoch missing"@)),
        Some((members, sig)) => if members == ring && sig == creator_sig {
            Ok(())
        } else {
            Err(AppErrorView::Forbidden("vouch ring does not match the signed roster"@))
        },
    }
}

/// The bytes of a stored roster.
pub open spec fn roster_view(r: Option<(Vec<Vec<u8>>, Vec<u8>)>) -> Option<(Seq<Seq<u8>>, Seq<u8>)> {
    match r {
        Some((m, s)) => Some((byte_lists(m@), s@)),
        None => None,
    }
}

/// Checks a decoded vouch against the roster stored for its epoch.
pub fn check_vouch_roster(stored: &Option<(Vec<Vec<u8>>, Vec<u8>)>, vouch: &DecodedVouch) -> (r: Result<(), AppError>)
    ensures
        match r {
            Ok(()) => vouch_roster_spec(roster_view(*stored), vouch@.ring, vouch@.creator_sig) == Ok::<(), AppErrorView>(()),
            Err(e) => vouch_roster_spec(roster_view(*stored), vouch@.ring, vouch@.creator_sig) == Err::<(), AppErrorView>(e@),
        },
{
    match stored {
        None => Err(AppError::Conflict("roster epoch missing")),
        Some((members, sig)) => {
            if byte_lists_eq(members, &vouch.ring) && crate::bytes::bytes_eq(sig.as_slice(), vouch.creator_sig.as_slice()) {
                Ok(())
            } else {
                Err(AppError::Forbidden("vouch ring does not match the signed roster"))
            }
        },
    }
}

} // verus!
