//! Logic of the federation endpoints: the event stream's cursors and
//! response, admin-token checks, and peer-management request checks.

use super::events::{
    build_post_event, build_removal_event, b64_fits, post_event_spec, post_fields_encodable, post_fields_sized, post_payload,
    removal_event_spec, removal_payload, verify_post_spec, verify_removal_spec, DecodeErrorView,
    PostEvent, PostEventFields, PostFieldsView, RemovalEvent, RemovalEventFields,
    RemovalFieldsView, EventsResponse, opt_view,
};
use super::identity::{ed25519_signature, ed25519_strict_accepts};
use super::identity::Identity;
use crate::bytes::bytes_eq;
use crate::db::federation::{Peer, PostStreamRow};
use crate::db::post_removals::RemovalRow;
use crate::decimal::{int_text, int_to_text, parse_i32, parse_i32_spec};
use crate::error::{AppError, AppErrorView};
use crate::ids::{b64, b64url_decode, b64url_encode, unb64, unb64_array, unb64_array_spec};
use crate::text::{bad_length, chars_of};
use crate::time::{julian_day_in_range, julian_day_valid, JulianDay};
use vstd::prelude::*;
use vstd::string::StringExecFns;

verus! {

/// Most events of each kind in one response.
pub const EVENTS_PAGE_LIMIT: i64 = 200;

/// Query of `GET /api/federation/events`.
pub struct EventsQuery {
    pub since_post: Option<String>,
    pub since_removal: Option<String>,
}

/// A peer as the peer lists show it.
pub struct PeerView {
    pub server_pubkey: String,
    pub endpoint: String,
    pub label: Option<String>,
    pub enabled: bool,
}

/// A list of peers.
pub struct PeersList {
    pub peers: Vec<PeerView>,
}

/// Body of `POST /api/federation/peers`.
pub struct AddPeerReq {
    pub server_pubkey: String,
    pub endpoint: String,
    pub label: Option<String>,
}

/// Body of `POST /api/federation/peers/disable`.
pub struct DisablePeerReq {
    pub server_pubkey: String,
    pub enabled: bool,
}

/// Body of `POST /api/federation/admin/tokens`.
pub struct MintTokenReq {
    pub label: String,
}

/// A freshly minted token, returned once.
pub struct MintTokenResp {
    pub label: String,
    pub token: String,
}

/// A stored token as listed.
pub struct TokenView {
    pub label: String,
    pub created_at: String,
    pub revoked_at: Option<String>,
}

/// A list of tokens.
pub struct TokensList {
    pub tokens: Vec<TokenView>,
}

/// Body of `POST /api/federation/admin/tokens/revoke`.
pub struct RevokeTokenReq {
    pub label: String,
}

/// A disable request that names no state disables the peer.
pub fn default_enabled() -> (e: bool)
    ensures
        !e,
{
    false
}

/// The text of a cursor: `<julian_day>.<base64url id>`.
pub open spec fn cursor_text(d: int, id: Seq<u8>) -> Seq<char> {
    int_text(d) + seq!['.'] + b64url_encode(id)
}

/// Index of the first `.` in `s`, if any.
pub open spec fn first_dot(s: Seq<char>) -> Option<int> {
    if exists|i: int| 0 <= i < s.len() && s[i] == '.' {
        Some(choose|i: int| 0 <= i < s.len() && s[i] == '.' && forall|j: int| 0 <= j < i ==> s[j] != '.')
    } else {
        None
    }
}

/// What a cursor parameter parses to: absent or empty means no cursor;
/// otherwise a Julian day in range, a `.`, and a 16-byte base64 id.
pub open spec fn parse_cursor_spec(s: Option<Seq<char>>) -> Result<Option<(int, Seq<u8>)>, ()> {
    match s {
        None => Ok(None),
        Some(s) => if s.len() == 0 {
            Ok(None)
        } else {
            match first_dot(s) {
                None => Err(()),
                Some(k) => match parse_i32_spec(s.subrange(0, k)) {
                    None => Err(()),
                    Some(day) => if !julian_day_in_range(day as int) {
                        Err(())
                    } else {
                        match b64url_decode(s.subrange(k + 1, s.len() as int)) {
                            None => Err(()),
                            Some(id) => if id.len() != 16 { Err(()) } else { Ok(Some((day as int, id))) },
                        }
                    },
                },
            }
        },
    }
}

proof fn lemma_first_dot(s: Seq<char>, k: int)
    requires
        0 <= k < s.len(),
        s[k] == '.',
        forall|j: int| 0 <= j < k ==> s[j] != '.',
    ensures
        first_dot(s) == Some(k),
{
    let c = choose|i: int| 0 <= i < s.len() && s[i] == '.' && forall|j: int| 0 <= j < i ==> s[j] != '.';
    assert(0 <= k < s.len() && s[k] == '.' && forall|j: int| 0 <= j < k ==> s[j] != '.');
    if c < k {
        assert(s[c] != '.');
    } else if c > k {
        assert(s[k] != '.');
    }
}

fn sub_string(v: &Vec<char>, a: usize, b: usize) -> (s: Vec<char>)
    requires
        a <= b <= v@.len(),
    ensures
        s@ == v@.subrange(a as int, b as int),
{
    let mut s: Vec<char> = Vec::new();
    let mut i = a;
    while i < b
        invariant
            a <= i <= b,
            b <= v@.len(),
            s@ == v@.subrange(a as int, i as int),
        decreases b - i,
    {
        s.push(v[i]);
        i = i + 1;
        assert(s@ =~= v@.subrange(a as int, i as int));
    }
    s
}

/// Parses a cursor parameter.
pub fn parse_cursor(s: Option<&str>) -> (r: Result<Option<(JulianDay, Vec<u8>)>, ()>)
    ensures
        match r {
            Ok(None) => parse_cursor_spec(opt_str_view(s)) == Ok::<Option<(int, Seq<u8>)>, ()>(None),
            Ok(Some((d, id))) => parse_cursor_spec(opt_str_view(s)) == Ok::<Option<(int, Seq<u8>)>, ()>(Some((d as int, id@))),
            Err(()) => parse_cursor_spec(opt_str_view(s)) == Err::<Option<(int, Seq<u8>)>, ()>(()),
        },
{
    let s = match s {
        None => return Ok(None),
        Some(s) => s,
    };
    let v = chars_of(s);
    let n = v.len();
    if n == 0 {
        return Ok(None);
    }
    let mut k: usize = 0;
    while k < n && v[k] != '.'
        invariant
            n == v@.len(),
            k <= n,
            forall|j: int| 0 <= j < k ==> v@[j] != '.',
        decreases n - k,
    {
        k = k + 1;
    }
    if k == n {
        proof {
            assert(!(exists|i: int| 0 <= i < v@.len() && v@[i] == '.'));
        }
        return Err(());
    }
    proof {
        lemma_first_dot(v@, k as int);
    }
    let day_text = sub_string(&v, 0, k);
    let day = match parse_i32(&day_text) {
        Some(d) => d,
        None => return Err(()),
    };
    if !julian_day_valid(day) {
        return Err(());
    }
    let id_chars = sub_string(&v, k + 1, n);
    let id_text = crate::text::string_from_chars(&id_chars);
    let id = match unb64(id_text.as_str()) {
        Ok(id) => id,
        Err(_) => return Err(()),
    };
    if id.len() != 16 {
        return Err(());
    }
    Ok(Some((day, id)))
}

/// The characters of an optional string slice.
pub open spec fn opt_str_view(s: Option<&str>) -> Option<Seq<char>> {
    match s {
        Some(s) => Some(s@),
        None => None,
    }
}

/// Encodes a cursor. Parsing the text again gives the same day and id
/// back whenever the day is a representable date and the id has 16 bytes.
pub fn encode_cursor(d: JulianDay, id: &[u8]) -> (s: String)
    requires
        b64_fits(id@.len()),
    ensures
        s@ == cursor_text(d as int, id@),
        julian_day_in_range(d as int) && id@.len() == 16
            ==> parse_cursor_spec(Some(s@)) == Ok::<Option<(int, Seq<u8>)>, ()>(Some((d as int, id@))),
{
    let day = int_to_text(d);
    let tail = b64(id);
    proof {
        reveal_strlit(".");
    }
    let s = day.concat(".").concat(tail.as_str());
    proof {
        let t = s@;
        let k = day@.len() as int;
        crate::decimal::lemma_int_text_parses(d);
        assert(t =~= cursor_text(d as int, id@));
        assert(forall|j: int| 0 <= j < k ==> t[j] == day@[j]);
        lemma_int_text_no_dot(d as int);
        assert(t[k] == '.');
        lemma_first_dot(t, k);
        assert(t.subrange(0, k) =~= day@);
        assert(t.subrange(k + 1, t.len() as int) =~= tail@);
    }
    s
}

proof fn lemma_int_text_no_dot(d: int)
    ensures
        forall|j: int| 0 <= j < int_text(d).len() ==> int_text(d)[j] != '.',
{
    crate::decimal::lemma_int_text_chars(d);
}

/// Compares two byte strings in time that depends on their length only.
pub fn constant_time_eq(a: &[u8], b: &[u8]) -> (eq: bool)
    ensures
        eq == (a@ == b@),
{
    if a.len() != b.len() {
        return false;
    }
    let mut acc: u8 = 0;
    let mut i: usize = 0;
    while i < a.len()
        invariant
            i <= a@.len(),
            a@.len() == b@.len(),
            (acc == 0) == (forall|k: int| 0 <= k < i ==> a@[k] == b@[k]),
        decreases a@.len() - i,
    {
        let x = a[i];
        let y = b[i];
        let old_acc = acc;
        acc = acc | (x ^ y);
        proof {
            assert((old_acc | (x ^ y)) == 0 <==> (old_acc == 0 && x == y)) by (bit_vector);
        }
        i = i + 1;
    }
    proof {
        if acc == 0 {
            assert(a@ =~= b@);
        }
    }
    acc == 0
}

} // verus!

verus! {

/// `a - b`, clamped to the range of `i32` (`i32::saturating_sub`).
pub open spec fn sat_sub_i32(a: i32, b: i32) -> i32 {
    let d = a - b;
    if d < i32::MIN { i32::MIN } else if d > i32::MAX { i32::MAX } else { d as i32 }
}

fn saturating_sub_i32(a: i32, b: i32) -> (r: i32)
    ensures
        r == sat_sub_i32(a, b),
{
    let d: i64 = (a as i64) - (b as i64);
    if d < (i32::MIN as i64) {
        i32::MIN
    } else if d > (i32::MAX as i64) {
        i32::MAX
    } else {
        d as i32
    }
}

/// Sixteen zero bytes: the id that every real post id sorts above.
pub open spec fn zero_id() -> Seq<u8> {
    Seq::new(16, |i: int| 0u8)
}

proof fn lemma_first_nonzero(b: Seq<u8>, i: int)
    requires
        0 <= i <= b.len(),
        forall|j: int| 0 <= j < i ==> b[j] == 0,
        exists|j: int| i <= j < b.len() && b[j] != 0,
    ensures
        exists|k: int| #![trigger b[k]] i <= k < b.len() && b[k] > 0 && forall|j: int| 0 <= j < k ==> b[j] == 0,
    decreases b.len() - i,
{
    if b[i] != 0 {
        assert(i <= i < b.len() && b[i] > 0 && forall|j: int| 0 <= j < i ==> b[j] == 0);
    } else {
        lemma_first_nonzero(b, i + 1);
    }
}

/// The sentinel id sorts strictly below every other 16-byte id: any id
/// that is not all zeros has a first non-zero byte, and all bytes before
/// it are zero. So a cursor at `(day, zero id)` lets through every post
/// of that day.
pub proof fn lemma_zero_id_least(b: Seq<u8>)
    requires
        b.len() == 16,
        b != zero_id(),
    ensures
        exists|k: int| #![trigger b[k]] 0 <= k < 16 && zero_id()[k] < b[k] && forall|j: int| 0 <= j < k ==> zero_id()[j] == b[j],
{
    if forall|j: int| 0 <= j < 16 ==> b[j] == 0 {
        assert(b =~= zero_id());
    }
    lemma_first_nonzero(b, 0);
}

/// The cursor that skips what is older than `horizon_days` before `today`
/// (the day count taken as `i32`, as a cast truncates it).
pub open spec fn horizon_cursor(today: i32, horizon_days: i64) -> Seq<char> {
    cursor_text(sat_sub_i32(today, horizon_days as i32) as int, zero_id())
}

/// The stored cursor a newly added peer starts from: none for a full
/// backfill (`horizon_days <= 0`); otherwise both kinds start at the
/// horizon, with the sentinel id. It has the shape the events endpoint
/// parses, so the first pull resumes from the horizon as from any cursor.
pub fn backfill_cursor_at(today: JulianDay, horizon_days: i64) -> (r: Option<super::pull::StoredCursor>)
    ensures
        horizon_days <= 0 ==> r is None,
        horizon_days > 0 ==> (r matches Some(c) && c@.post == Some(horizon_cursor(today, horizon_days))
            && c@.removal == Some(horizon_cursor(today, horizon_days))),
        horizon_days > 0 && julian_day_in_range(sat_sub_i32(today, horizon_days as i32) as int)
            ==> parse_cursor_spec(Some(horizon_cursor(today, horizon_days)))
                == Ok::<Option<(int, Seq<u8>)>, ()>(Some((sat_sub_i32(today, horizon_days as i32) as int, zero_id()))),
{
    if horizon_days <= 0 {
        return None;
    }
    let horizon_julian = saturating_sub_i32(today, horizon_days as i32);
    let zero: [u8; 16] = [0u8; 16];
    assert(zero@ =~= zero_id());
    let c = encode_cursor(horizon_julian, &zero);
    let c2 = c.clone();
    Some(super::pull::StoredCursor { post: Some(c), removal: Some(c2) })
}

/// `backfill_cursor_at` with today's UTC date.
pub fn backfill_cursor(horizon_days: i64) -> (r: Option<super::pull::StoredCursor>)
    ensures
        horizon_days <= 0 ==> r is None,
        horizon_days > 0 ==> (r matches Some(c) && exists|today: i32| julian_day_in_range(today as int)
            && c@.post == Some(horizon_cursor(today, horizon_days))
            && c@.removal == Some(horizon_cursor(today, horizon_days))),
{
    let today = crate::time::today_utc();
    backfill_cursor_at(today, horizon_days)
}

/// The credential of an `Authorization` header: what follows `Bearer `,
/// or nothing.
pub open spec fn bearer_spec(header: Option<Seq<char>>) -> Seq<char> {
    match header {
        Some(h) => if h.len() >= 7 && h.take(7) == "Bearer "@ {
            h.skip(7)
        } else {
            Seq::empty()
        },
        None => Seq::empty(),
    }
}

/// The token presented in an `Authorization: Bearer <token>` header;
/// empty when the header is absent or of another scheme.
pub fn bearer_token(header: Option<&str>) -> (t: String)
    ensures
        t@ == bearer_spec(opt_str_view(header)),
{
    let h = match header {
        Some(h) => h,
        None => return String::new(),
    };
    let v = chars_of(h);
    proof {
        reveal_strlit("Bearer ");
    }
    let p = chars_of("Bearer ");
    if v.len() < 7 {
        return String::new();
    }
    let head = sub_string(&v, 0, 7);
    if !crate::bytes::chars_eq(&head, &p) {
        proof {
            assert(v@.take(7) =~= head@);
        }
        return String::new();
    }
    let tail = sub_string(&v, 7, v.len());
    proof {
        assert(v@.take(7) =~= head@);
        assert(v@.skip(7) =~= tail@);
    }
    crate::text::string_from_chars(&tail)
}

/// Whether the presented token matches the configured bootstrap token; an
/// empty configured token matches nothing.
pub fn env_token_matches(configured: Option<&str>, presented: &str) -> (ok: bool)
    ensures
        ok == (configured matches Some(c) && c@.len() > 0 && c@ == presented@),
{
    match configured {
        Some(c) => {
            if c.is_empty() {
                return false;
            }
            let r = constant_time_eq(c.as_bytes(), presented.as_bytes());
            proof {
                vstd::utf8::encode_utf8_decode_utf8(c@);
                vstd::utf8::encode_utf8_decode_utf8(presented@);
            }
            r
        },
        None => false,
    }
}

/// The refusal of an unauthenticated admin request: a hint to configure a
/// token when none exists anywhere, otherwise a plain refusal.
pub fn admin_denial(env_token_configured: bool, table_has_live_token: bool) -> (e: AppError)
    ensures
        !env_token_configured && !table_has_live_token ==> e@ == crate::error::AppErrorView::Forbidden("admin token not configured"@),
        env_token_configured || table_has_live_token ==> e@ == crate::error::AppErrorView::Forbidden("bad admin token"@),
{
    if !env_token_configured && !table_has_live_token {
        AppError::Forbidden("admin token not configured")
    } else {
        AppError::Forbidden("bad admin token")
    }
}

} // verus!

verus! {

/// A peer key field: 32 bytes of base64, else `400 server_pubkey`.
pub open spec fn peer_key_spec(text: Seq<char>) -> Result<Seq<u8>, AppErrorView> {
    match unb64_array_spec::<32>(text) {
        Ok(k) => Ok(k),
        Err(_) => Err(AppErrorView::BadRequest("server_pubkey"@)),
    }
}

/// Decodes the peer key of an admin request.
pub fn peer_key(text: &str) -> (r: Result<[u8; 32], AppError>)
    ensures
        match r {
            Ok(k) => peer_key_spec(text@) == Ok::<Seq<u8>, AppErrorView>(k@),
            Err(e) => peer_key_spec(text@) == Err::<Seq<u8>, AppErrorView>(e@),
        },
{
    match unb64_array::<32>(text) {
        Ok(k) => Ok(k),
        Err(_) => Err(AppError::BadRequest("server_pubkey")),
    }
}

/// What adding a peer accepts: a 32-byte key that is not this server's
/// own, and an endpoint of 1 to 1024 bytes.
pub open spec fn add_peer_spec(server_pubkey: Seq<char>, endpoint: Seq<char>, own: Option<Seq<u8>>) -> Result<Seq<u8>, AppErrorView> {
    match peer_key_spec(server_pubkey) {
        Err(e) => Err(e),
        Ok(k) => if own == Some(k) {
            Err(AppErrorView::BadRequest("cannot peer with self"@))
        } else if bad_length(endpoint, 1024) {
            Err(AppErrorView::BadRequest("endpoint length"@))
        } else {
            Ok(k)
        },
    }
}

/// The optional own key of a server that may run without an identity.
pub open spec fn opt_key_view(k: Option<&[u8; 32]>) -> Option<Seq<u8>> {
    match k {
        Some(k) => Some(k@),
        None => None,
    }
}

/// Checks a request to add a peer, returning the peer's key.
pub fn check_add_peer(req: &AddPeerReq, own: Option<&[u8; 32]>) -> (r: Result<[u8; 32], AppError>)
    ensures
        match r {
            Ok(k) => add_peer_spec(req.server_pubkey@, req.endpoint@, opt_key_view(own)) == Ok::<Seq<u8>, AppErrorView>(k@),
            Err(e) => add_peer_spec(req.server_pubkey@, req.endpoint@, opt_key_view(own)) == Err::<Seq<u8>, AppErrorView>(e@),
        },
{
    let pk = peer_key(req.server_pubkey.as_str())?;
    if let Some(own) = own {
        if bytes_eq(&pk, own) {
            return Err(AppError::BadRequest("cannot peer with self"));
        }
    }
    let ep = req.endpoint.as_str();
    if ep.is_empty() || ep.as_bytes().len() > 1024 {
        return Err(AppError::BadRequest("endpoint length"));
    }
    Ok(pk)
}

/// Checks the label of a token to mint: 1 to 64 bytes.
pub fn check_token_label(label: &str) -> (r: Result<(), AppError>)
    ensures
        r is Ok <==> !bad_length(label@, 64),
        r matches Err(e) ==> e@ == AppErrorView::BadRequest("label length"@),
{
    if label.is_empty() || label.as_bytes().len() > 64 {
        return Err(AppError::BadRequest("label length"));
    }
    Ok(())
}

/// A fresh admin token: 32 random bytes as 43 characters of base64.
pub fn new_admin_token() -> (t: String)
    ensures
        t@.len() == 43,
        exists|b: Seq<u8>| b.len() == 32 && t@ == b64url_encode(b),
{
    let b = crate::ids::random_32();
    assert(b@.len() == 32);
    b64(&b)
}

/// The error of a failed token insert: a collision on the token hash asks
/// the operator to try again; anything else is a database error.
pub fn token_insert_error(e: sqlx::Error) -> (r: AppError)
    ensures
        r@ == AppErrorView::Conflict("token collision; try again"@) || r@ == AppErrorView::Db,
{
    let c = crate::error::violated_constraint(&e);
    crate::error::insert_conflict(e, c, "admin_tokens_pkey", "token collision; try again")
}

/// A revocation that touched no row names no live token.
pub fn revoke_outcome(updated: u64) -> (r: Result<u64, AppError>)
    ensures
        updated == 0 ==> (r matches Err(e) && e@ == AppErrorView::NotFound),
        updated != 0 ==> r == Ok::<u64, AppError>(updated),
{
    if updated == 0 {
        return Err(AppError::NotFound);
    }
    Ok(updated)
}

/// An enable/disable that touched no row names no known peer.
pub fn set_enabled_outcome(updated: bool) -> (r: Result<(), AppError>)
    ensures
        !updated ==> (r matches Err(e) && e@ == AppErrorView::NotFound),
        updated ==> r is Ok,
{
    if !updated {
        return Err(AppError::NotFound);
    }
    Ok(())
}

/// A peer as listed: its key as base64.
pub fn peer_view(p: Peer) -> (v: PeerView)
    requires
        b64_fits(p.server_pubkey@.len()),
    ensures
        v.server_pubkey@ == b64url_encode(p.server_pubkey@),
        v.endpoint@ == p.endpoint@,
        v.label == p.label,
        v.enabled == p.enabled,
{
    PeerView { server_pubkey: b64(&p.server_pubkey), endpoint: p.endpoint, label: p.label, enabled: p.enabled }
}

} // verus!

verus! {

/// A parsed cursor, as day and id bytes.
pub open spec fn cursor_view(c: Option<(JulianDay, Vec<u8>)>) -> Option<(int, Seq<u8>)> {
    match c {
        Some((d, id)) => Some((d as int, id@)),
        None => None,
    }
}

/// The characters of an optional string.
pub open spec fn opt_string_chars(s: Option<String>) -> Option<Seq<char>> {
    match s {
        Some(s) => Some(s@),
        None => None,
    }
}

fn opt_as_str(s: &Option<String>) -> (r: Option<&str>)
    ensures
        opt_str_view(r) == opt_string_chars(*s),
{
    match s {
        Some(x) => Some(x.as_str()),
        None => None,
    }
}

/// Parses both cursors of an events request; a malformed one is a
/// `400` naming it.
pub fn parse_events_query(q: &EventsQuery) -> (r: Result<(Option<(JulianDay, Vec<u8>)>, Option<(JulianDay, Vec<u8>)>), AppError>)
    ensures
        match r {
            Ok((p, m)) => parse_cursor_spec(opt_string_chars(q.since_post)) == Ok::<Option<(int, Seq<u8>)>, ()>(cursor_view(p))
                && parse_cursor_spec(opt_string_chars(q.since_removal)) == Ok::<Option<(int, Seq<u8>)>, ()>(cursor_view(m)),
            Err(e) => (parse_cursor_spec(opt_string_chars(q.since_post)) is Err && e@ == AppErrorView::BadRequest("since_post cursor"@))
                || (parse_cursor_spec(opt_string_chars(q.since_post)) is Ok && parse_cursor_spec(opt_string_chars(q.since_removal)) is Err
                    && e@ == AppErrorView::BadRequest("since_removal cursor"@)),
        },
{
    let p = match parse_cursor(opt_as_str(&q.since_post)) {
        Ok(p) => p,
        Err(()) => return Err(AppError::BadRequest("since_post cursor")),
    };
    let m = match parse_cursor(opt_as_str(&q.since_removal)) {
        Ok(m) => m,
        Err(()) => return Err(AppError::BadRequest("since_removal cursor")),
    };
    Ok((p, m))
}

/// The bytes of an optional vector.
pub open spec fn opt_vec_view(v: Option<Vec<u8>>) -> Option<Seq<u8>> {
    match v {
        Some(v) => Some(v@),
        None => None,
    }
}

/// The event fields of a stored local post. A thread that names no
/// origin server was started here, by the post's own origin.
pub open spec fn stream_row_fields(r: PostStreamRow) -> PostFieldsView {
    PostFieldsView {
        board_id: r.board_id@,
        thread_id: r.thread_id@,
        thread_origin_server_id: match r.thread_origin_server_id {
            Some(t) => t@,
            None => r.origin_server_id@,
        },
        thread_title: r.thread_title@,
        origin_server_id: r.origin_server_id@,
        origin_post_id: r.origin_post_id@,
        body: r.body@,
        created_at: r.created_at,
        author_pubkey: opt_vec_view(r.author_pubkey),
        author_signature: opt_vec_view(r.author_signature),
    }
}

/// The event fields of a stored global removal of a local post: the
/// origin is this server, and the local id is the origin post id.
pub open spec fn removal_row_fields(own: Seq<u8>, r: RemovalRow) -> RemovalFieldsView {
    RemovalFieldsView { origin_server_id: own, origin_post_id: r.post_id@, reason: r.reason@, removed_at: r.removed_at }
}

fn opt_vec_slice(v: &Option<Vec<u8>>) -> (r: Option<&[u8]>)
    ensures
        opt_view(r) == opt_vec_view(*v),
{
    match v {
        Some(x) => Some(x.as_slice()),
        None => None,
    }
}

/// How many of `n` rows read one response serves: at most
/// `EVENTS_PAGE_LIMIT`.
pub open spec fn page_len(n: nat) -> nat {
    if n <= EVENTS_PAGE_LIMIT { n } else { EVENTS_PAGE_LIMIT as nat }
}

/// The rows, in order, that this server (key `own`) originated.
pub open spec fn own_post_rows(own: Seq<u8>, rows: Seq<PostStreamRow>) -> Seq<PostStreamRow>
    decreases rows.len(),
{
    if rows.len() == 0 {
        Seq::empty()
    } else {
        let before = own_post_rows(own, rows.drop_last());
        if rows.last().origin_server_id@ == own { before.push(rows.last()) } else { before }
    }
}

/// The post rows a response serves: those of the page read that this
/// server originated. The stream carries local posts only.
pub open spec fn served_post_rows(own: Seq<u8>, rows: Seq<PostStreamRow>) -> Seq<PostStreamRow> {
    own_post_rows(own, rows.take(page_len(rows.len()) as int))
}

/// The removal rows a response serves: the page read.
pub open spec fn served_removal_rows(rows: Seq<RemovalRow>) -> Seq<RemovalRow> {
    rows.take(page_len(rows.len()) as int)
}

/// Every row kept as this server's own names this server as origin, and
/// no more rows are kept than were read.
pub proof fn lemma_own_post_rows(own: Seq<u8>, rows: Seq<PostStreamRow>)
    ensures
        own_post_rows(own, rows).len() <= rows.len(),
        forall|i: int| 0 <= i < own_post_rows(own, rows).len() ==> (#[trigger] own_post_rows(own, rows)[i]).origin_server_id@ == own,
    decreases rows.len(),
{
    if rows.len() > 0 {
        lemma_own_post_rows(own, rows.drop_last());
    }
}

/// Whether `events_response` can encode every row read: each byte
/// field fits a base64 text and each date is a representable day.
pub open spec fn event_rows_fit(post_rows: Seq<PostStreamRow>, removal_rows: Seq<RemovalRow>) -> bool {
    &&& forall|i: int| 0 <= i < post_rows.len() ==> #[trigger] post_fields_encodable(stream_row_fields(post_rows[i]))
    &&& forall|i: int| 0 <= i < removal_rows.len() ==> {
        let r = #[trigger] removal_rows[i];
        b64_fits(r.post_id@.len()) && julian_day_in_range(r.removed_at as int)
    }
}

fn fits_b64(n: usize) -> (ok: bool)
    ensures
        ok == b64_fits(n as nat),
{
    match (n / 3).checked_mul(4) {
        Some(m) => m.checked_add(3).is_some(),
        None => false,
    }
}

fn opt_fits_b64(b: &Option<Vec<u8>>) -> (ok: bool)
    ensures
        ok == (opt_vec_view(*b) matches Some(x) ==> b64_fits(x.len())),
{
    match b {
        Some(x) => fits_b64(x.len()),
        None => true,
    }
}

/// Tests the condition of `events_response` on rows read from the store.
pub fn events_rows_fit(post_rows: &Vec<PostStreamRow>, removal_rows: &Vec<RemovalRow>) -> (ok: bool)
    ensures
        ok == event_rows_fit(post_rows@, removal_rows@),
{
    let mut i: usize = 0;
    while i < post_rows.len()
        invariant
            i <= post_rows@.len(),
            forall|j: int| 0 <= j < i ==> #[trigger] post_fields_encodable(stream_row_fields(post_rows@[j])),
        decreases post_rows@.len() - i,
    {
        let r = &post_rows[i];
        let thread_origin_fits = match &r.thread_origin_server_id {
            Some(t) => fits_b64(t.len()),
            None => fits_b64(r.origin_server_id.len()),
        };
        let ok = fits_b64(r.thread_id.len()) && thread_origin_fits && fits_b64(r.origin_server_id.len())
            && fits_b64(r.origin_post_id.len()) && opt_fits_b64(&r.author_pubkey) && opt_fits_b64(&r.author_signature)
            && julian_day_valid(r.created_at);
        if !ok {
            assert(!post_fields_encodable(stream_row_fields(post_rows@[i as int])));
            return false;
        }
        assert(post_fields_encodable(stream_row_fields(post_rows@[i as int])));
        i = i + 1;
    }
    let mut k: usize = 0;
    while k < removal_rows.len()
        invariant
            k <= removal_rows@.len(),
            forall|j: int| 0 <= j < post_rows@.len() ==> #[trigger] post_fields_encodable(stream_row_fields(post_rows@[j])),
            forall|j: int| 0 <= j < k ==> {
                let r = #[trigger] removal_rows@[j];
                b64_fits(r.post_id@.len()) && julian_day_in_range(r.removed_at as int)
            },
        decreases removal_rows@.len() - k,
    {
        let r = &removal_rows[k];
        if !(fits_b64(r.post_id.len()) && julian_day_valid(r.removed_at)) {
            let ghost rr = removal_rows@[k as int];
            assert(!(b64_fits(rr.post_id@.len()) && julian_day_in_range(rr.removed_at as int)));
            return false;
        }
        k = k + 1;
    }
    true
}

/// The response of `GET /api/federation/events` for the rows read.
///
/// At most `EVENTS_PAGE_LIMIT` rows of each kind are served; of the post
/// rows, only those this server originated. Each is signed as an event,
/// in order, and names this server as its origin. A peer pulling the
/// stream with this server's key gets each row's fields back, provided
/// they have the sizes the receiver insists on and the signature passes
/// strict verification. Each next cursor points at the last row of its
/// kind in the page (none when there was no row).
pub fn events_response(identity: &Identity, post_rows: &Vec<PostStreamRow>, removal_rows: &Vec<RemovalRow>) -> (resp: EventsResponse)
    requires
        event_rows_fit(post_rows@, removal_rows@),
    ensures
        resp.posts@.len() <= EVENTS_PAGE_LIMIT,
        resp.posts@.len() == served_post_rows(identity.public_key(), post_rows@).len(),
        forall|i: int| 0 <= i < resp.posts@.len() ==> #[trigger] resp.posts@[i]@ == post_event_spec(identity.seed_view(), stream_row_fields(served_post_rows(identity.public_key(), post_rows@)[i])),
        forall|i: int| 0 <= i < resp.posts@.len() ==> b64url_decode(#[trigger] resp.posts@[i].origin_server_id@) == Some(identity.public_key()),
        forall|i: int| 0 <= i < resp.posts@.len() ==> ({
            let f = stream_row_fields(served_post_rows(identity.public_key(), post_rows@)[i]);
            post_fields_sized(f)
                && ed25519_strict_accepts(identity.public_key(), post_payload(f), ed25519_signature(identity.seed_view(), post_payload(f)))
                ==> verify_post_spec(#[trigger] resp.posts@[i]@, identity.public_key()) == Ok::<PostFieldsView, DecodeErrorView>(f)
        }),
        resp.removals@.len() == page_len(removal_rows@.len()),
        forall|i: int| 0 <= i < resp.removals@.len() ==> #[trigger] resp.removals@[i]@ == removal_event_spec(identity.seed_view(), removal_row_fields(identity.public_key(), removal_rows@[i])),
        forall|i: int| 0 <= i < resp.removals@.len() ==> b64url_decode(#[trigger] resp.removals@[i].origin_server_id@) == Some(identity.public_key()),
        forall|i: int| 0 <= i < resp.removals@.len() ==> ({
            let f = removal_row_fields(identity.public_key(), removal_rows@[i]);
            f.origin_post_id.len() == 16
                && ed25519_strict_accepts(identity.public_key(), removal_payload(f), ed25519_signature(identity.seed_view(), removal_payload(f)))
                ==> verify_removal_spec(#[trigger] resp.removals@[i]@, identity.public_key()) == Ok::<RemovalFieldsView, DecodeErrorView>(f)
        }),
        post_rows@.len() == 0 ==> resp.next_post_cursor is None,
        post_rows@.len() > 0 ==> ({
            let last = post_rows@[page_len(post_rows@.len()) - 1];
            opt_string_chars(resp.next_post_cursor) == Some(cursor_text(last.created_at as int, last.origin_post_id@))
        }),
        removal_rows@.len() == 0 ==> resp.next_removal_cursor is None,
        removal_rows@.len() > 0 ==> ({
            let last = removal_rows@[page_len(removal_rows@.len()) - 1];
            opt_string_chars(resp.next_removal_cursor) == Some(cursor_text(last.removed_at as int, last.post_id@))
        }),
{
    let own = identity.pubkey();
    let ghost ownv = identity.public_key();
    let ghost seed = identity.seed_view();
    let limit: usize = EVENTS_PAGE_LIMIT as usize;
    let np: usize = if post_rows.len() <= limit { post_rows.len() } else { limit };
    let ghost window = post_rows@.take(np as int);
    let mut posts: Vec<PostEvent> = Vec::new();
    let ghost mut kept: Seq<PostStreamRow> = Seq::empty();
    let mut i: usize = 0;
    while i < np
        invariant
            np <= post_rows@.len(),
            np <= 200,
            window == post_rows@.take(np as int),
            i <= np,
            own@ == ownv,
            ownv == identity.public_key(),
            seed == identity.seed_view(),
            kept == own_post_rows(ownv, window.take(i as int)),
            posts@.len() == kept.len(),
            posts@.len() <= i,
            forall|j: int| 0 <= j < post_rows@.len() ==> #[trigger] post_fields_encodable(stream_row_fields(post_rows@[j])),
            forall|j: int| 0 <= j < posts@.len() ==> #[trigger] posts@[j]@ == post_event_spec(seed, stream_row_fields(kept[j])),
            forall|j: int| 0 <= j < posts@.len() ==> b64url_decode(#[trigger] posts@[j].origin_server_id@) == Some(ownv),
            forall|j: int| 0 <= j < posts@.len() ==> ({
                let f = stream_row_fields(kept[j]);
                post_fields_sized(f)
                    && ed25519_strict_accepts(ownv, post_payload(f), ed25519_signature(seed, post_payload(f)))
                    ==> verify_post_spec(#[trigger] posts@[j]@, ownv) == Ok::<PostFieldsView, DecodeErrorView>(f)
            }),
        decreases np - i,
    {
        let r = &post_rows[i];
        proof {
            assert(window.take(i as int + 1).drop_last() =~= window.take(i as int));
            assert(window.take(i as int + 1).last() == post_rows@[i as int]);
        }
        if bytes_eq(r.origin_server_id.as_slice(), own) {
            let thread_origin: &[u8] = match &r.thread_origin_server_id {
                Some(t) => t.as_slice(),
                None => r.origin_server_id.as_slice(),
            };
            let f = PostEventFields {
                board_id: r.board_id.as_str(),
                thread_id: r.thread_id.as_slice(),
                thread_origin_server_id: thread_origin,
                thread_title: r.thread_title.as_str(),
                origin_server_id: r.origin_server_id.as_slice(),
                origin_post_id: r.origin_post_id.as_slice(),
                body: r.body.as_str(),
                created_at: r.created_at,
                author_pubkey: opt_vec_slice(&r.author_pubkey),
                author_signature: opt_vec_slice(&r.author_signature),
            };
            assert(f@ == stream_row_fields(post_rows@[i as int]));
            assert(post_fields_encodable(stream_row_fields(post_rows@[i as int])));
            let e = build_post_event(identity, &f);
            let ghost before = posts@;
            posts.push(e);
            proof {
                kept = kept.push(post_rows@[i as int]);
                assert(forall|j: int| 0 <= j < before.len() ==> posts@[j] == before[j]);
            }
        }
        i = i + 1;
    }
    proof {
        assert(window.take(np as int) =~= window);
        assert(np == page_len(post_rows@.len()));
    }
    let nr: usize = if removal_rows.len() <= limit { removal_rows.len() } else { limit };
    let mut removals: Vec<RemovalEvent> = Vec::new();
    let mut k: usize = 0;
    while k < nr
        invariant
            nr <= removal_rows@.len(),
            k <= nr,
            removals@.len() == k,
            own@ == identity.public_key(),
            own@.len() == 32,
            forall|j: int| 0 <= j < removal_rows@.len() ==> {
                let r = #[trigger] removal_rows@[j];
                b64_fits(r.post_id@.len()) && julian_day_in_range(r.removed_at as int)
            },
            forall|j: int| 0 <= j < k ==> #[trigger] removals@[j]@ == removal_event_spec(identity.seed_view(), removal_row_fields(identity.public_key(), removal_rows@[j])),
            forall|j: int| 0 <= j < k ==> b64url_decode(#[trigger] removals@[j].origin_server_id@) == Some(identity.public_key()),
            forall|j: int| 0 <= j < k ==> ({
                let f = removal_row_fields(identity.public_key(), removal_rows@[j]);
                f.origin_post_id.len() == 16
                    && ed25519_strict_accepts(identity.public_key(), removal_payload(f), ed25519_signature(identity.seed_view(), removal_payload(f)))
                    ==> verify_removal_spec(#[trigger] removals@[j]@, identity.public_key()) == Ok::<RemovalFieldsView, DecodeErrorView>(f)
            }),
        decreases nr - k,
    {
        let r = &removal_rows[k];
        let f = RemovalEventFields {
            origin_server_id: own.as_slice(),
            origin_post_id: r.post_id.as_slice(),
            reason: r.reason.as_str(),
            removed_at: r.removed_at,
        };
        let ghost rr = removal_rows@[k as int];
        assert(b64_fits(rr.post_id@.len()) && julian_day_in_range(rr.removed_at as int));
        assert(f@ == removal_row_fields(identity.public_key(), rr));
        let e = build_removal_event(identity, &f);
        removals.push(e);
        k = k + 1;
    }
    let next_post_cursor = if np == 0 {
        None
    } else {
        let last = &post_rows[np - 1];
        assert(post_fields_encodable(stream_row_fields(post_rows@[np - 1])));
        Some(encode_cursor(last.created_at, last.origin_post_id.as_slice()))
    };
    let next_removal_cursor = if nr == 0 {
        None
    } else {
        let last = &removal_rows[nr - 1];
        let ghost rl = removal_rows@[nr - 1];
        assert(b64_fits(rl.post_id@.len()));
        Some(encode_cursor(last.removed_at, last.post_id.as_slice()))
    };
    proof {
        lemma_own_post_rows(ownv, window);
    }
    EventsResponse { posts, removals, next_post_cursor, next_removal_cursor }
}

} // verus!
