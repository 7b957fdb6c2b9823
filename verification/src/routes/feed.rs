//! `GET /api/feed?cat=&sort=&cursor_ts=&cursor_id=`: the front-page feed.

use crate::error::{AppError, AppErrorView};
use crate::logic::{b64_field, decode_field};
use vstd::prelude::*;

verus! {

/// Most threads in one feed page.
pub const PAGE_LIMIT: i64 = 50;

/// How the feed is ordered.
#[derive(Debug, Clone, Copy, PartialEq, Eq, Structural)]
pub enum FeedSort {
    /// Latest activity first (the default).
    LastComment,
    /// Newest thread first.
    Newest,
}

impl Default for FeedSort {
    fn default() -> (s: Self)
        ensures
            s == FeedSort::LastComment,
    {
        FeedSort::LastComment
    }
}

/// Query of the feed. The cursor is the sort time of the last item the
/// client has, as ISO-8601, paired with that item's thread id.
pub struct FeedQuery {
    pub cat: Option<String>,
    pub sort: FeedSort,
    pub cursor_ts: Option<String>,
    pub cursor_id: Option<String>,
}

/// The instant an ISO-8601 date-time text names, in nanoseconds since the
/// Unix epoch; `None` when the text does not parse.
pub uninterp spec fn iso8601_instant(text: Seq<char>) -> Option<int>;

/// Calls `time::OffsetDateTime::parse` with the well-known ISO-8601
/// description and returns `unix_timestamp_nanos` of the result. Claimed:
/// the result is the named instant of the text.
#[verifier::external_body]
fn parse_iso8601(text: &str) -> (r: Option<i128>)
    ensures
        match r {
            Some(n) => iso8601_instant(text@) == Some(n as int),
            None => iso8601_instant(text@) is None,
        },
{
    ::time::OffsetDateTime::parse(text, &::time::format_description::well_known::Iso8601::DEFAULT)
        .ok()
        .map(|t| t.unix_timestamp_nanos())
}

/// A feed cursor: both parts or neither; the time must parse and the id
/// must be base64.
pub open spec fn feed_cursor_spec(ts: Option<Seq<char>>, id: Option<Seq<char>>) -> Result<Option<(int, Seq<u8>)>, AppErrorView> {
    match (ts, id) {
        (Some(t), Some(i)) => match iso8601_instant(t) {
            None => Err(AppErrorView::BadRequest("cursor_ts must be ISO-8601"@)),
            Some(n) => match b64_field(i, "cursor_id b64"@) {
                Err(e) => Err(e),
                Ok(b) => Ok(Some((n, b))),
            },
        },
        (None, None) => Ok(None),
        _ => Err(AppErrorView::BadRequest("cursor_ts and cursor_id come together"@)),
    }
}

/// The characters of an optional string slice.
pub open spec fn opt_str_chars(s: Option<&str>) -> Option<Seq<char>> {
    match s {
        Some(s) => Some(s@),
        None => None,
    }
}

/// Parses the feed cursor of a query.
pub fn feed_cursor(ts: Option<&str>, id: Option<&str>) -> (r: Result<Option<(i128, Vec<u8>)>, AppError>)
    ensures
        match r {
            Ok(Some((n, b))) => feed_cursor_spec(opt_str_chars(ts), opt_str_chars(id)) == Ok::<Option<(int, Seq<u8>)>, AppErrorView>(Some((n as int, b@))),
            Ok(None) => feed_cursor_spec(opt_str_chars(ts), opt_str_chars(id)) == Ok::<Option<(int, Seq<u8>)>, AppErrorView>(None),
            Err(e) => feed_cursor_spec(opt_str_chars(ts), opt_str_chars(id)) == Err::<Option<(int, Seq<u8>)>, AppErrorView>(e@),
        },
{
    match (ts, id) {
        (Some(t), Some(i)) => {
            let n = match parse_iso8601(t) {
                Some(n) => n,
                None => return Err(AppError::BadRequest("cursor_ts must be ISO-8601")),
            };
            let b = decode_field(i, "cursor_id b64")?;
            Ok(Some((n, b)))
        },
        (None, None) => Ok(None),
        _ => Err(AppError::BadRequest("cursor_ts and cursor_id come together")),
    }
}

} // verus!
