//! Report submission. Proof-of-work gated like a post: the proof binds
//! the post id, the optional reason and the reporter's nonce, so a nonce
//! captured for one post cannot be replayed against another.

use super::{decode_sized, sized_field};
use super::posts::{check_pow, pow_gate_spec};
use crate::error::{AppError, AppErrorView};
use crate::hashing::sha256_spec;
use crate::ids::b64url_decode;
use crate::pow::leading_zeros_spec;
use crate::text::{chars_of, string_from_chars, trim_spec, trimmed_chars};
use vstd::prelude::*;
use vstd::utf8::encode_utf8;

verus! {

/// Longest report reason, in UTF-8 bytes after trimming.
pub const MAX_REASON: usize = 500;

/// Body of `POST /api/posts/:id/report`.
pub struct ReportPostReq {
    pub reason: Option<String>,
    pub pow_nonce: String,
}

/// Reply to a report.
pub struct ReportPostResp {
    pub report_id: String,
}

/// The reported post's id: 16 bytes of base64.
pub open spec fn report_target_spec(post_id: Seq<char>) -> Result<Seq<u8>, AppErrorView> {
    sized_field(post_id, 16, "post_id b64"@, "post_id length"@)
}

/// Decodes the id of the reported post.
pub fn check_report_target(post_id_b64: &str) -> (r: Result<Vec<u8>, AppError>)
    ensures
        match r {
            Ok(p) => report_target_spec(post_id_b64@) == Ok::<Seq<u8>, AppErrorView>(p@),
            Err(e) => report_target_spec(post_id_b64@) == Err::<Seq<u8>, AppErrorView>(e@),
        },
{
    decode_sized(post_id_b64, 16, "post_id b64", "post_id length")
}

/// A report's reason: trimmed of white space; an empty one counts as none;
/// more than `MAX_REASON` bytes is refused.
pub open spec fn report_reason_spec(reason: Option<Seq<char>>) -> Result<Option<Seq<char>>, AppErrorView> {
    match reason {
        None => Ok(None),
        Some(t) => {
            let r = trim_spec(t);
            if r.len() == 0 {
                Ok(None)
            } else if encode_utf8(r).len() > MAX_REASON {
                Err(AppErrorView::BadRequest("reason length"@))
            } else {
                Ok(Some(r))
            }
        },
    }
}

/// The characters of an optional string.
pub open spec fn opt_reason_view(s: Option<String>) -> Option<Seq<char>> {
    match s {
        Some(s) => Some(s@),
        None => None,
    }
}

/// Normalises and checks a report's reason.
pub fn check_report_reason(reason: &Option<String>) -> (r: Result<Option<String>, AppError>)
    ensures
        match r {
            Ok(t) => report_reason_spec(opt_reason_view(*reason)) == Ok::<Option<Seq<char>>, AppErrorView>(opt_reason_view(t)),
            Err(e) => report_reason_spec(opt_reason_view(*reason)) == Err::<Option<Seq<char>>, AppErrorView>(e@),
        },
{
    match reason {
        None => Ok(None),
        Some(t) => {
            let cs = chars_of(t.as_str());
            let trimmed = trimmed_chars(&cs);
            let s = string_from_chars(&trimmed);
            if trimmed.len() == 0 {
                return Ok(None);
            }
            if s.as_str().as_bytes().len() > MAX_REASON {
                return Err(AppError::BadRequest("reason length"));
            }
            Ok(Some(s))
        },
    }
}

/// The proof of work of a report: over the post id and the reason (empty
/// when there is none).
pub open spec fn report_pow_spec(post_id: Seq<u8>, reason: Option<Seq<char>>, nonce: Seq<char>, bits: u32) -> Result<Seq<u8>, AppErrorView> {
    let body = match reason {
        Some(r) => r,
        None => Seq::empty(),
    };
    pow_gate_spec(post_id, body, nonce, bits)
}

/// A report's proof of work binds its reason: with a reason, the nonce
/// must decode, and it passes exactly when SHA-256 of the post id, the
/// reason's UTF-8 bytes and the nonce starts with `bits` zero bits; only
/// a report without a reason hashes the post id and the nonce alone.
pub proof fn lemma_report_pow_binds_reason(post_id: Seq<u8>, reason: Option<Seq<char>>, nonce: Seq<char>, bits: u32)
    ensures
        ({
            let hashed = match reason {
                Some(r) => post_id + encode_utf8(r),
                None => post_id,
            };
            match b64url_decode(nonce) {
                None => report_pow_spec(post_id, reason, nonce, bits) == Err::<Seq<u8>, AppErrorView>(AppErrorView::BadRequest("pow_nonce b64"@)),
                Some(n) => if leading_zeros_spec(sha256_spec(hashed + n)) >= bits {
                    report_pow_spec(post_id, reason, nonce, bits) == Ok::<Seq<u8>, AppErrorView>(n)
                } else {
                    report_pow_spec(post_id, reason, nonce, bits) == Err::<Seq<u8>, AppErrorView>(AppErrorView::BadRequest("insufficient pow"@))
                },
            }
        }),
{
    if reason is None {
        assert(encode_utf8(Seq::<char>::empty()) =~= Seq::<u8>::empty());
        if let Some(n) = b64url_decode(nonce) {
            assert(post_id + encode_utf8(Seq::<char>::empty()) + n =~= post_id + n);
        }
    }
}

/// Checks a report's proof of work, returning the nonce.
pub fn check_report_pow(post_id: &[u8], reason: &Option<String>, nonce: &str, bits: u32) -> (r: Result<Vec<u8>, AppError>)
    ensures
        match r {
            Ok(n) => report_pow_spec(post_id@, opt_reason_view(*reason), nonce@, bits) == Ok::<Seq<u8>, AppErrorView>(n@),
            Err(e) => report_pow_spec(post_id@, opt_reason_view(*reason), nonce@, bits) == Err::<Seq<u8>, AppErrorView>(e@),
        },
{
    match reason {
        Some(r) => check_pow(post_id, r.as_str(), nonce, bits),
        None => {
            proof {
                reveal_strlit("");
            }
            check_pow(post_id, "", nonce, bits)
        },
    }
}

} // verus!
