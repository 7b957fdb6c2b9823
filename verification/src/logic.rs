//! Request logic between the HTTP routes and the database: validation,
//! proof-of-work and signature gates, and the decisions that follow the
//! database's answers. Nothing here sees a request or a connection.

use crate::error::{AppError, AppErrorView};
use crate::ids::{b64url_decode, unb64};
use vstd::prelude::*;

pub mod posts;
pub mod reports;
pub mod rooms;



verus! {

/// Decoding a base64 request field; a malformed one is `400 label`.
pub open spec fn b64_field(text: Seq<char>, label: Seq<char>) -> Result<Seq<u8>, AppErrorView> {
    match b64url_decode(text) {
        None => Err(AppErrorView::BadRequest(label)),
        Some(b) => Ok(b),
    }
}

/// Decodes a base64 request field.
pub fn decode_field(text: &str, label: &'static str) -> (r: Result<Vec<u8>, AppError>)
    ensures
        match r {
            Ok(v) => b64_field(text@, label@) == Ok::<Seq<u8>, AppErrorView>(v@),
            Err(e) => b64_field(text@, label@) == Err::<Seq<u8>, AppErrorView>(e@),
        },
{
    match unb64(text) {
        Ok(v) => Ok(v),
        Err(_) => Err(AppError::BadRequest(label)),
    }
}

/// Decoding a base64 field of exactly `n` bytes: `400 b64_label` when it
/// is not base64, `400 len_label` when it has another length.
pub open spec fn sized_field(text: Seq<char>, n: nat, b64_label: Seq<char>, len_label: Seq<char>) -> Result<Seq<u8>, AppErrorView> {
    match b64_field(text, b64_label) {
        Err(e) => Err(e),
        Ok(b) => if b.len() == n { Ok(b) } else { Err(AppErrorView::BadRequest(len_label)) },
    }
}

/// Decodes a base64 field of exactly `n` bytes.
pub fn decode_sized(text: &str, n: usize, b64_label: &'static str, len_label: &'static str) -> (r: Result<Vec<u8>, AppError>)
    ensures
        match r {
            Ok(v) => sized_field(text@, n as nat, b64_label@, len_label@) == Ok::<Seq<u8>, AppErrorView>(v@),
            Err(e) => sized_field(text@, n as nat, b64_label@, len_label@) == Err::<Seq<u8>, AppErrorView>(e@),
        },
{
    let v = decode_field(text, b64_label)?;
    if v.len() != n {
        return Err(AppError::BadRequest(len_label));
    }
    Ok(v)
}

/// The characters of an optional string.
pub open spec fn opt_text(s: Option<String>) -> Option<Seq<char>> {
    match s {
        Some(s) => Some(s@),
        None => None,
    }
}

/// Whether a signed timestamp lies within a minute of the server clock.
pub open spec fn in_window(now: int, ts: int) -> bool {
    -60 <= now - ts <= 60
}

/// Refuses a signed request whose timestamp is more than a minute away
/// from `now`, with `400 msg`.
pub fn check_window(now: i64, ts: i64, msg: &'static str) -> (r: Result<(), AppError>)
    ensures
        r is Ok <==> in_window(now as int, ts as int),
        r matches Err(e) ==> e@ == AppErrorView::BadRequest(msg@),
{
    let d: i128 = (now as i128) - (ts as i128);
    if d < -60 || d > 60 {
        return Err(AppError::BadRequest(msg));
    }
    Ok(())
}

/// Calls `time::OffsetDateTime::now_utc().unix_timestamp()`. Nothing is
/// claimed of the result: it is the clock.
#[verifier::external_body]
pub(crate) fn unix_now() -> (t: i64) {
    ::time::OffsetDateTime::now_utc().unix_timestamp()
}

/// Refuses a signed request whose timestamp is more than a minute away
/// from the server clock now.
pub fn check_fresh(ts: i64, msg: &'static str) -> (r: Result<(), AppError>)
    ensures
        r is Ok || (r matches Err(e) && e@ == AppErrorView::BadRequest(msg@)),
{
    let now = unix_now();
    check_window(now, ts, msg)
}

} // verus!
