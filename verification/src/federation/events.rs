//! Wire format for federated events: posts and removals.
//!
//! Both event kinds carry a protocol version and a constitution version
//! and are signed by the originating server's Ed25519 key over a
//! domain-tagged canonical byte encoding with explicit length prefixes.
//! Receivers re-derive the bytes from the received fields and verify.

use super::constitution;
use super::identity::{ed25519_signature, ed25519_strict_accepts, server_signature_check, verify_server_signature, Identity};
use crate::bytes::{extend_bytes, push_be32, be32, str_eq};
use crate::ids::{b64, b64url_decode, b64url_encode, unb64, vec_to_array};
use crate::time::{julian_day_in_range, JulianDay};
use vstd::prelude::*;
use vstd::string::StringExecFns;
use vstd::utf8::encode_utf8;

verus! {

/// Protocol identifier carried by every event.
pub const PROTOCOL_VERSION: &'static str = "lethe-fed-v1";

/// Domain tag of a post event's signed bytes: `lethe-fed-post-v1\0`.
pub open spec fn post_domain() -> Seq<u8> {
    seq![108u8, 101, 116, 104, 101, 45, 102, 101, 100, 45, 112, 111, 115, 116, 45, 118, 49, 0]
}

/// Domain tag of a removal event's signed bytes: `lethe-fed-removal-v1\0`.
pub open spec fn removal_domain() -> Seq<u8> {
    seq![108u8, 101, 116, 104, 101, 45, 102, 101, 100, 45, 114, 101, 109, 111, 118, 97, 108, 45, 118, 49, 0]
}

fn push_post_domain(buf: &mut Vec<u8>)
    ensures
        final(buf)@ == old(buf)@ + post_domain(),
{
    let d: [u8; 18] = [108, 101, 116, 104, 101, 45, 102, 101, 100, 45, 112, 111, 115, 116, 45, 118, 49, 0];
    extend_bytes(buf, &d);
    assert(d@ =~= post_domain());
}

fn push_removal_domain(buf: &mut Vec<u8>)
    ensures
        final(buf)@ == old(buf)@ + removal_domain(),
{
    let d: [u8; 21] = [108, 101, 116, 104, 101, 45, 102, 101, 100, 45, 114, 101, 109, 111, 118, 97, 108, 45, 118, 49, 0];
    extend_bytes(buf, &d);
    assert(d@ =~= removal_domain());
}

/// A length-prefixed byte field: the length as 4 big-endian bytes
/// (truncated to 32 bits), then the bytes.
pub open spec fn bytes_field(b: Seq<u8>) -> Seq<u8> {
    be32(b.len() as u32) + b
}

/// A length-prefixed string field over the UTF-8 bytes.
pub open spec fn str_field(s: Seq<char>) -> Seq<u8> {
    bytes_field(encode_utf8(s))
}

/// An optional byte field: a 0 byte when absent, else a 1 byte and the
/// length-prefixed bytes.
pub open spec fn opt_bytes_field(b: Option<Seq<u8>>) -> Seq<u8> {
    match b {
        None => seq![0u8],
        Some(b) => seq![1u8] + bytes_field(b),
    }
}

/// A date field: the Julian day as 4 big-endian bytes.
pub open spec fn date_field(d: i32) -> Seq<u8> {
    be32(d as u32)
}

/// Appends a length-prefixed string.
pub fn write_str(buf: &mut Vec<u8>, s: &str)
    ensures
        final(buf)@ == old(buf)@ + str_field(s@),
{
    let bytes = s.as_bytes();
    push_be32(buf, bytes.len() as u32);
    extend_bytes(buf, bytes);
    assert(buf@ =~= old(buf)@ + str_field(s@));
}

/// Appends length-prefixed bytes.
pub fn write_bytes(buf: &mut Vec<u8>, b: &[u8])
    ensures
        final(buf)@ == old(buf)@ + bytes_field(b@),
{
    push_be32(buf, b.len() as u32);
    extend_bytes(buf, b);
    assert(buf@ =~= old(buf)@ + bytes_field(b@));
}

/// Appends an optional byte field.
pub fn write_opt_bytes(buf: &mut Vec<u8>, b: Option<&[u8]>)
    ensures
        final(buf)@ == old(buf)@ + opt_bytes_field(opt_view(b)),
{
    match b {
        None => {
            buf.push(0);
            assert(buf@ =~= old(buf)@ + opt_bytes_field(opt_view(b)));
        },
        Some(b) => {
            buf.push(1);
            write_bytes(buf, b);
            assert(buf@ =~= old(buf)@ + opt_bytes_field(opt_view(Some(b))));
        },
    }
}

/// Appends a date as its big-endian Julian day.
pub fn write_date(buf: &mut Vec<u8>, d: JulianDay)
    ensures
        final(buf)@ == old(buf)@ + date_field(d),
{
    push_be32(buf, d as u32);
}

/// The bytes of an optional slice.
pub open spec fn opt_view(b: Option<&[u8]>) -> Option<Seq<u8>> {
    match b {
        Some(s) => Some(s@),
        None => None,
    }
}

/// The fields of a post event, as the signed encoding sees them.
pub struct PostFieldsView {
    pub board_id: Seq<char>,
    pub thread_id: Seq<u8>,
    pub thread_origin_server_id: Seq<u8>,
    pub thread_title: Seq<char>,
    pub origin_server_id: Seq<u8>,
    pub origin_post_id: Seq<u8>,
    pub body: Seq<char>,
    pub created_at: i32,
    pub author_pubkey: Option<Seq<u8>>,
    pub author_signature: Option<Seq<u8>>,
}

/// The fields of a removal event, as the signed encoding sees them.
pub struct RemovalFieldsView {
    pub origin_server_id: Seq<u8>,
    pub origin_post_id: Seq<u8>,
    pub reason: Seq<char>,
    pub removed_at: i32,
}

/// Concrete fields for a post event.
pub struct PostEventFields<'a> {
    pub board_id: &'a str,
    pub thread_id: &'a [u8],
    pub thread_origin_server_id: &'a [u8],
    pub thread_title: &'a str,
    pub origin_server_id: &'a [u8],
    pub origin_post_id: &'a [u8],
    pub body: &'a str,
    pub created_at: JulianDay,
    pub author_pubkey: Option<&'a [u8]>,
    pub author_signature: Option<&'a [u8]>,
}

impl<'a> View for PostEventFields<'a> {
    type V = PostFieldsView;

    open spec fn view(&self) -> PostFieldsView {
        PostFieldsView {
            board_id: self.board_id@,
            thread_id: self.thread_id@,
            thread_origin_server_id: self.thread_origin_server_id@,
            thread_title: self.thread_title@,
            origin_server_id: self.origin_server_id@,
            origin_post_id: self.origin_post_id@,
            body: self.body@,
            created_at: self.created_at,
            author_pubkey: opt_view(self.author_pubkey),
            author_signature: opt_view(self.author_signature),
        }
    }
}

/// Concrete fields for a removal event.
pub struct RemovalEventFields<'a> {
    pub origin_server_id: &'a [u8],
    pub origin_post_id: &'a [u8],
    pub reason: &'a str,
    pub removed_at: JulianDay,
}

impl<'a> View for RemovalEventFields<'a> {
    type V = RemovalFieldsView;

    open spec fn view(&self) -> RemovalFieldsView {
        RemovalFieldsView {
            origin_server_id: self.origin_server_id@,
            origin_post_id: self.origin_post_id@,
            reason: self.reason@,
            removed_at: self.removed_at,
        }
    }
}

/// The signed bytes of a post event.
pub open spec fn post_payload(f: PostFieldsView) -> Seq<u8> {
    post_domain()
        + str_field(PROTOCOL_VERSION@)
        + str_field(constitution::VERSION@)
        + str_field(f.board_id)
        + bytes_field(f.thread_id)
        + bytes_field(f.thread_origin_server_id)
        + str_field(f.thread_title)
        + bytes_field(f.origin_server_id)
        + bytes_field(f.origin_post_id)
        + str_field(f.body)
        + date_field(f.created_at)
        + opt_bytes_field(f.author_pubkey)
        + opt_bytes_field(f.author_signature)
}

/// The signed bytes of a removal event.
pub open spec fn removal_payload(f: RemovalFieldsView) -> Seq<u8> {
    removal_domain()
        + str_field(PROTOCOL_VERSION@)
        + str_field(constitution::VERSION@)
        + bytes_field(f.origin_server_id)
        + bytes_field(f.origin_post_id)
        + str_field(f.reason)
        + date_field(f.removed_at)
}

/// The canonical signed bytes of a post event.
pub fn canonical_post_payload(f: &PostEventFields<'_>) -> (buf: Vec<u8>)
    ensures
        buf@ == post_payload(f@),
{
    let mut buf: Vec<u8> = Vec::new();
    push_post_domain(&mut buf);
    write_str(&mut buf, PROTOCOL_VERSION);
    write_str(&mut buf, constitution::VERSION);
    write_str(&mut buf, f.board_id);
    write_bytes(&mut buf, f.thread_id);
    write_bytes(&mut buf, f.thread_origin_server_id);
    write_str(&mut buf, f.thread_title);
    write_bytes(&mut buf, f.origin_server_id);
    write_bytes(&mut buf, f.origin_post_id);
    write_str(&mut buf, f.body);
    write_date(&mut buf, f.created_at);
    write_opt_bytes(&mut buf, f.author_pubkey);
    write_opt_bytes(&mut buf, f.author_signature);
    assert(buf@ =~= post_payload(f@));
    buf
}

/// The canonical signed bytes of a removal event.
pub fn canonical_removal_payload(f: &RemovalEventFields<'_>) -> (buf: Vec<u8>)
    ensures
        buf@ == removal_payload(f@),
{
    let mut buf: Vec<u8> = Vec::new();
    push_removal_domain(&mut buf);
    write_str(&mut buf, PROTOCOL_VERSION);
    write_str(&mut buf, constitution::VERSION);
    write_bytes(&mut buf, f.origin_server_id);
    write_bytes(&mut buf, f.origin_post_id);
    write_str(&mut buf, f.reason);
    write_date(&mut buf, f.removed_at);
    assert(buf@ =~= removal_payload(f@));
    buf
}

/// The ISO-8601 text (`YYYY-MM-DD`) of a date, as the `time` crate
/// formats it with `[year]-[month]-[day]`.
pub uninterp spec fn iso_date_text(d: int) -> Seq<char>;

/// The date the `time` crate parses from a text with
/// `[year]-[month]-[day]`, as a Julian day; `None` when it does not parse.
pub uninterp spec fn iso_date_parse(text: Seq<char>) -> Option<int>;

/// Calls `time::Date::format` with the description `[year]-[month]-[day]`.
/// Claimed: the text is the named function of the date, and parsing it
/// with the same description gives the date back.
#[verifier::external_body]
pub fn format_date(d: JulianDay) -> (text: String)
    requires
        julian_day_in_range(d as int),
    ensures
        text@ == iso_date_text(d as int),
        iso_date_parse(text@) == Some(d as int),
{
    let fmt = ::time::format_description::parse("[year]-[month]-[day]").expect("date format");
    ::time::Date::from_julian_day(d).expect("date range").format(&fmt).expect("date format")
}

/// Calls `time::Date::parse` with the description `[year]-[month]-[day]`.
/// Claimed: the result is the named parse of the text, and any parsed
/// date is a representable one.
#[verifier::external_body]
fn parse_iso_date(text: &str) -> (r: Option<JulianDay>)
    ensures
        match r {
            Some(d) => iso_date_parse(text@) == Some(d as int) && julian_day_in_range(d as int),
            None => iso_date_parse(text@) is None,
        },
{
    let fmt = ::time::format_description::parse("[year]-[month]-[day]").expect("date format");
    ::time::Date::parse(text, &fmt).ok().map(|d| d.to_julian_day())
}

/// A signed copy of a public post.
pub struct PostEvent {
    pub protocol_version: String,
    pub constitution_version: String,
    pub board_id: String,
    /// 16 bytes, base64url no-pad.
    pub thread_id: String,
    /// 32 bytes: the server that originated the thread.
    pub thread_origin_server_id: String,
    pub thread_title: String,
    /// 32 bytes: the server that originated the post.
    pub origin_server_id: String,
    /// 16 bytes: the post id assigned by the origin server.
    pub origin_post_id: String,
    pub body: String,
    /// ISO-8601 date (`YYYY-MM-DD`).
    pub created_at: String,
    pub author_pubkey: Option<String>,
    pub author_signature: Option<String>,
    /// 64 bytes: the origin server's signature over the canonical payload.
    pub server_signature: String,
}

/// The text of a post event.
pub struct PostEventView {
    pub protocol_version: Seq<char>,
    pub constitution_version: Seq<char>,
    pub board_id: Seq<char>,
    pub thread_id: Seq<char>,
    pub thread_origin_server_id: Seq<char>,
    pub thread_title: Seq<char>,
    pub origin_server_id: Seq<char>,
    pub origin_post_id: Seq<char>,
    pub body: Seq<char>,
    pub created_at: Seq<char>,
    pub author_pubkey: Option<Seq<char>>,
    pub author_signature: Option<Seq<char>>,
    pub server_signature: Seq<char>,
}

/// The characters of an optional string.
pub open spec fn opt_string_view(s: Option<String>) -> Option<Seq<char>> {
    match s {
        Some(s) => Some(s@),
        None => None,
    }
}

impl View for PostEvent {
    type V = PostEventView;

    open spec fn view(&self) -> PostEventView {
        PostEventView {
            protocol_version: self.protocol_version@,
            constitution_version: self.constitution_version@,
            board_id: self.board_id@,
            thread_id: self.thread_id@,
            thread_origin_server_id: self.thread_origin_server_id@,
            thread_title: self.thread_title@,
            origin_server_id: self.origin_server_id@,
            origin_post_id: self.origin_post_id@,
            body: self.body@,
            created_at: self.created_at@,
            author_pubkey: opt_string_view(self.author_pubkey),
            author_signature: opt_string_view(self.author_signature),
            server_signature: self.server_signature@,
        }
    }
}

/// A signed takedown of a previously accepted post.
pub struct RemovalEvent {
    pub protocol_version: String,
    pub constitution_version: String,
    /// 32 bytes.
    pub origin_server_id: String,
    /// 16 bytes: the targeted post's `origin_post_id`.
    pub origin_post_id: String,
    pub reason: String,
    /// ISO-8601 date (`YYYY-MM-DD`).
    pub removed_at: String,
    /// 64 bytes.
    pub server_signature: String,
}

/// The text of a removal event.
pub struct RemovalEventView {
    pub protocol_version: Seq<char>,
    pub constitution_version: Seq<char>,
    pub origin_server_id: Seq<char>,
    pub origin_post_id: Seq<char>,
    pub reason: Seq<char>,
    pub removed_at: Seq<char>,
    pub server_signature: Seq<char>,
}

impl View for RemovalEvent {
    type V = RemovalEventView;

    open spec fn view(&self) -> RemovalEventView {
        RemovalEventView {
            protocol_version: self.protocol_version@,
            constitution_version: self.constitution_version@,
            origin_server_id: self.origin_server_id@,
            origin_post_id: self.origin_post_id@,
            reason: self.reason@,
            removed_at: self.removed_at@,
            server_signature: self.server_signature@,
        }
    }
}

/// What `/api/federation/events` returns. Cursors are opaque to peers.
pub struct EventsResponse {
    pub posts: Vec<PostEvent>,
    pub removals: Vec<RemovalEvent>,
    pub next_post_cursor: Option<String>,
    pub next_removal_cursor: Option<String>,
}

impl Default for EventsResponse {
    fn default() -> (r: Self)
        ensures
            r.posts@.len() == 0,
            r.removals@.len() == 0,
            r.next_post_cursor is None,
            r.next_removal_cursor is None,
    {
        EventsResponse { posts: Vec::new(), removals: Vec::new(), next_post_cursor: None, next_removal_cursor: None }
    }
}

/// Whether a byte string's base64 text fits in memory.
pub open spec fn b64_fits(n: nat) -> bool {
    (n / 3) * 4 + 3 <= usize::MAX
}

/// The base64 text of an optional byte string.
pub open spec fn opt_b64(b: Option<Seq<u8>>) -> Option<Seq<char>> {
    match b {
        Some(b) => Some(b64url_encode(b)),
        None => None,
    }
}

/// Whether every byte field of a post event can be encoded.
pub open spec fn post_fields_encodable(f: PostFieldsView) -> bool {
    &&& b64_fits(f.thread_id.len())
    &&& b64_fits(f.thread_origin_server_id.len())
    &&& b64_fits(f.origin_server_id.len())
    &&& b64_fits(f.origin_post_id.len())
    &&& (f.author_pubkey matches Some(b) ==> b64_fits(b.len()))
    &&& (f.author_signature matches Some(b) ==> b64_fits(b.len()))
    &&& julian_day_in_range(f.created_at as int)
}

/// The post event a server with `seed` publishes for `f`.
pub open spec fn post_event_spec(seed: Seq<u8>, f: PostFieldsView) -> PostEventView {
    PostEventView {
        protocol_version: PROTOCOL_VERSION@,
        constitution_version: constitution::VERSION@,
        board_id: f.board_id,
        thread_id: b64url_encode(f.thread_id),
        thread_origin_server_id: b64url_encode(f.thread_origin_server_id),
        thread_title: f.thread_title,
        origin_server_id: b64url_encode(f.origin_server_id),
        origin_post_id: b64url_encode(f.origin_post_id),
        body: f.body,
        created_at: iso_date_text(f.created_at as int),
        author_pubkey: opt_b64(f.author_pubkey),
        author_signature: opt_b64(f.author_signature),
        server_signature: b64url_encode(ed25519_signature(seed, post_payload(f))),
    }
}

/// The removal event a server with `seed` publishes for `f`.
pub open spec fn removal_event_spec(seed: Seq<u8>, f: RemovalFieldsView) -> RemovalEventView {
    RemovalEventView {
        protocol_version: PROTOCOL_VERSION@,
        constitution_version: constitution::VERSION@,
        origin_server_id: b64url_encode(f.origin_server_id),
        origin_post_id: b64url_encode(f.origin_post_id),
        reason: f.reason,
        removed_at: iso_date_text(f.removed_at as int),
        server_signature: b64url_encode(ed25519_signature(seed, removal_payload(f))),
    }
}

fn opt_b64_exec(b: Option<&[u8]>) -> (r: Option<String>)
    requires
        b matches Some(s) ==> b64_fits(s@.len()),
    ensures
        opt_string_view(r) == opt_b64(opt_view(b)),
        opt_view(b) matches Some(x) ==> b64url_decode(b64url_encode(x)) == Some(x),
{
    match b {
        Some(s) => Some(b64(s)),
        None => None,
    }
}

/// The field sizes a receiver insists on.
pub open spec fn post_fields_sized(f: PostFieldsView) -> bool {
    &&& f.thread_id.len() == 16
    &&& f.thread_origin_server_id.len() == 32
    &&& f.origin_server_id.len() == 32
    &&& f.origin_post_id.len() == 16
    &&& (f.author_pubkey matches Some(b) ==> b.len() == 32)
    &&& (f.author_signature matches Some(b) ==> b.len() == 64)
}

/// Builds and signs the post event for `f`.
///
/// A receiver that pulls the event from this server gets `f` back
/// unchanged, provided the fields have the sizes it insists on, the
/// origin is this server, and the signature passes strict verification.
pub fn build_post_event(identity: &Identity, f: &PostEventFields<'_>) -> (e: PostEvent)
    requires
        post_fields_encodable(f@),
    ensures
        e@ == post_event_spec(identity.seed_view(), f@),
        b64url_decode(e@.origin_server_id) == Some(f@.origin_server_id),
        post_fields_sized(f@) && f@.origin_server_id == identity.public_key()
            && ed25519_strict_accepts(identity.public_key(), post_payload(f@), ed25519_signature(identity.seed_view(), post_payload(f@)))
            ==> verify_post_spec(e@, identity.public_key()) == Ok::<PostFieldsView, DecodeErrorView>(f@),
{
    let _ = identity.pubkey();
    let payload = canonical_post_payload(f);
    let sig = identity.sign(payload.as_slice());
    let author_pubkey = opt_b64_exec(f.author_pubkey);
    let author_signature = opt_b64_exec(f.author_signature);
    let e = PostEvent {
        protocol_version: String::from_str(PROTOCOL_VERSION),
        constitution_version: String::from_str(constitution::VERSION),
        board_id: String::from_str(f.board_id),
        thread_id: b64(f.thread_id),
        thread_origin_server_id: b64(f.thread_origin_server_id),
        thread_title: String::from_str(f.thread_title),
        origin_server_id: b64(f.origin_server_id),
        origin_post_id: b64(f.origin_post_id),
        body: String::from_str(f.body),
        created_at: format_date(f.created_at),
        author_pubkey,
        author_signature,
        server_signature: b64(&sig),
    };
    proof {
        let fv = f@;
        if post_fields_sized(fv) && fv.origin_server_id == identity.public_key()
            && ed25519_strict_accepts(identity.public_key(), post_payload(fv), ed25519_signature(identity.seed_view(), post_payload(fv))) {
            let ev = e@;
            assert(fixed_spec(ev.thread_id, 16, "thread_id"@) == Ok::<Seq<u8>, DecodeErrorView>(fv.thread_id));
            assert(fixed_spec(ev.thread_origin_server_id, 32, "thread_origin_server_id"@) == Ok::<Seq<u8>, DecodeErrorView>(fv.thread_origin_server_id));
            assert(fixed_spec(ev.origin_server_id, 32, "origin_server_id"@) == Ok::<Seq<u8>, DecodeErrorView>(fv.origin_server_id));
            assert(fixed_spec(ev.origin_post_id, 16, "origin_post_id"@) == Ok::<Seq<u8>, DecodeErrorView>(fv.origin_post_id));
            assert(fixed_spec(ev.server_signature, 64, "server_signature"@) == Ok::<Seq<u8>, DecodeErrorView>(sig@));
            assert(opt_fixed_spec(ev.author_pubkey, 32, "author_pubkey"@) == Ok::<Option<Seq<u8>>, DecodeErrorView>(fv.author_pubkey));
            assert(opt_fixed_spec(ev.author_signature, 64, "author_signature"@) == Ok::<Option<Seq<u8>>, DecodeErrorView>(fv.author_signature));
            assert(iso_date_parse(ev.created_at) == Some(fv.created_at as int));
            let g = PostFieldsView {
                board_id: ev.board_id,
                thread_id: fv.thread_id,
                thread_origin_server_id: fv.thread_origin_server_id,
                thread_title: ev.thread_title,
                origin_server_id: fv.origin_server_id,
                origin_post_id: fv.origin_post_id,
                body: ev.body,
                created_at: (fv.created_at as int) as i32,
                author_pubkey: fv.author_pubkey,
                author_signature: fv.author_signature,
            };
            assert(g == fv);
            assert(server_signature_check(fv.origin_server_id, sig@, post_payload(fv)) is Ok);
        }
    }
    e
}

/// Whether every byte field of a removal event can be encoded.
pub open spec fn removal_fields_encodable(f: RemovalFieldsView) -> bool {
    &&& b64_fits(f.origin_server_id.len())
    &&& b64_fits(f.origin_post_id.len())
    &&& julian_day_in_range(f.removed_at as int)
}

/// Builds and signs the removal event for `f`.
///
/// A receiver gets `f` back unchanged, provided the ids have the sizes
/// it insists on, the origin is this server, and the signature passes
/// strict verification.
pub fn build_removal_event(identity: &Identity, f: &RemovalEventFields<'_>) -> (e: RemovalEvent)
    requires
        removal_fields_encodable(f@),
    ensures
        e@ == removal_event_spec(identity.seed_view(), f@),
        b64url_decode(e@.origin_server_id) == Some(f@.origin_server_id),
        f@.origin_server_id.len() == 32 && f@.origin_post_id.len() == 16 && f@.origin_server_id == identity.public_key()
            && ed25519_strict_accepts(identity.public_key(), removal_payload(f@), ed25519_signature(identity.seed_view(), removal_payload(f@)))
            ==> verify_removal_spec(e@, identity.public_key()) == Ok::<RemovalFieldsView, DecodeErrorView>(f@),
{
    let _ = identity.pubkey();
    let payload = canonical_removal_payload(f);
    let sig = identity.sign(payload.as_slice());
    RemovalEvent {
        protocol_version: String::from_str(PROTOCOL_VERSION),
        constitution_version: String::from_str(constitution::VERSION),
        origin_server_id: b64(f.origin_server_id),
        origin_post_id: b64(f.origin_post_id),
        reason: String::from_str(f.reason),
        removed_at: format_date(f.removed_at),
        server_signature: b64(&sig),
    }
}

/// Why a received event was refused.
#[derive(Debug)]
pub enum DecodeError {
    /// A base64 field did not decode; names the field.
    Base64(&'static str),
    /// A decoded field had the wrong byte length; names the field.
    Length(&'static str),
    /// The date did not parse.
    Date,
    /// The event's protocol version is not ours; carries what it said.
    Protocol(String),
    /// Wrong signer, or the signature does not verify.
    Signature,
}

/// A decode error, with its texts as characters.
pub enum DecodeErrorView {
    Base64(Seq<char>),
    Length(Seq<char>),
    Date,
    Protocol(Seq<char>),
    Signature,
}

impl View for DecodeError {
    type V = DecodeErrorView;

    open spec fn view(&self) -> DecodeErrorView {
        match self {
            DecodeError::Base64(f) => DecodeErrorView::Base64(f@),
            DecodeError::Length(f) => DecodeErrorView::Length(f@),
            DecodeError::Date => DecodeErrorView::Date,
            DecodeError::Protocol(p) => DecodeErrorView::Protocol(p@),
            DecodeError::Signature => DecodeErrorView::Signature,
        }
    }
}

impl DecodeError {
    /// The message of this error.
    pub fn message(&self) -> (m: String)
        ensures
            m@ == decode_error_message(self@),
    {
        match self {
            DecodeError::Base64(f) => String::from_str("base64 decode failed: ").concat(f),
            DecodeError::Length(f) => String::from_str("wrong byte length: ").concat(f),
            DecodeError::Date => String::from_str("date parse failed"),
            DecodeError::Protocol(p) => String::from_str("protocol_version mismatch: got ").concat(p.as_str()),
            DecodeError::Signature => String::from_str("signature does not verify"),
        }
    }
}

/// The message of a decode error.
pub open spec fn decode_error_message(e: DecodeErrorView) -> Seq<char> {
    match e {
        DecodeErrorView::Base64(f) => "base64 decode failed: "@ + f,
        DecodeErrorView::Length(f) => "wrong byte length: "@ + f,
        DecodeErrorView::Date => "date parse failed"@,
        DecodeErrorView::Protocol(p) => "protocol_version mismatch: got "@ + p,
        DecodeErrorView::Signature => "signature does not verify"@,
    }
}

/// Decoding a base64 field that must hold exactly `n` bytes.
pub open spec fn fixed_spec(text: Seq<char>, n: nat, field: Seq<char>) -> Result<Seq<u8>, DecodeErrorView> {
    match b64url_decode(text) {
        None => Err(DecodeErrorView::Base64(field)),
        Some(b) => if b.len() == n { Ok(b) } else { Err(DecodeErrorView::Length(field)) },
    }
}

/// Decodes a base64 field that must hold exactly `N` bytes.
pub fn decode_fixed<const N: usize>(text: &str, field: &'static str) -> (r: Result<[u8; N], DecodeError>)
    ensures
        match r {
            Ok(a) => fixed_spec(text@, N as nat, field@) == Ok::<Seq<u8>, DecodeErrorView>(a@),
            Err(e) => fixed_spec(text@, N as nat, field@) == Err::<Seq<u8>, DecodeErrorView>(e@),
        },
{
    let v = match unb64(text) {
        Ok(v) => v,
        Err(_) => return Err(DecodeError::Base64(field)),
    };
    match vec_to_array::<N>(v) {
        Some(a) => Ok(a),
        None => Err(DecodeError::Length(field)),
    }
}

/// Parses an ISO-8601 date.
pub fn parse_date(text: &str) -> (r: Result<JulianDay, DecodeError>)
    ensures
        match r {
            Ok(d) => iso_date_parse(text@) == Some(d as int) && julian_day_in_range(d as int),
            Err(e) => iso_date_parse(text@) is None && e@ == DecodeErrorView::Date,
        },
{
    match parse_iso_date(text) {
        Some(d) => Ok(d),
        None => Err(DecodeError::Date),
    }
}

/// A verified, decoded post event.
pub struct DecodedPost {
    pub board_id: String,
    pub thread_id: [u8; 16],
    pub thread_origin_server_id: [u8; 32],
    pub thread_title: String,
    pub origin_server_id: [u8; 32],
    pub origin_post_id: [u8; 16],
    pub body: String,
    pub created_at: JulianDay,
    pub author_pubkey: Option<[u8; 32]>,
    pub author_signature: Option<[u8; 64]>,
}

/// The bytes of an optional array.
pub open spec fn opt_array_view<const N: usize>(a: Option<[u8; N]>) -> Option<Seq<u8>> {
    match a {
        Some(a) => Some(a@),
        None => None,
    }
}

impl View for DecodedPost {
    type V = PostFieldsView;

    open spec fn view(&self) -> PostFieldsView {
        PostFieldsView {
            board_id: self.board_id@,
            thread_id: self.thread_id@,
            thread_origin_server_id: self.thread_origin_server_id@,
            thread_title: self.thread_title@,
            origin_server_id: self.origin_server_id@,
            origin_post_id: self.origin_post_id@,
            body: self.body@,
            created_at: self.created_at,
            author_pubkey: opt_array_view(self.author_pubkey),
            author_signature: opt_array_view(self.author_signature),
        }
    }
}

/// A verified, decoded removal event.
pub struct DecodedRemoval {
    pub origin_server_id: [u8; 32],
    pub origin_post_id: [u8; 16],
    pub reason: String,
    pub removed_at: JulianDay,
}

impl View for DecodedRemoval {
    type V = RemovalFieldsView;

    open spec fn view(&self) -> RemovalFieldsView {
        RemovalFieldsView {
            origin_server_id: self.origin_server_id@,
            origin_post_id: self.origin_post_id@,
            reason: self.reason@,
            removed_at: self.removed_at,
        }
    }
}

/// Decoding an optional base64 field of exactly `n` bytes.
pub open spec fn opt_fixed_spec(text: Option<Seq<char>>, n: nat, field: Seq<char>) -> Result<Option<Seq<u8>>, DecodeErrorView> {
    match text {
        None => Ok(None),
        Some(t) => match fixed_spec(t, n, field) {
            Ok(b) => Ok(Some(b)),
            Err(e) => Err(e),
        },
    }
}

/// The signature check at the end of decoding: the claimed origin must
/// be the peer we pulled from, and its strict signature must verify.
pub open spec fn signed_by(origin: Seq<u8>, expected: Seq<u8>, sig: Seq<u8>, payload: Seq<u8>) -> bool {
    origin == expected && server_signature_check(origin, sig, payload) is Ok
}

/// What verifying a received post event gives, with `expected` the
/// public key of the peer it came from.
pub open spec fn verify_post_spec(e: PostEventView, expected: Seq<u8>) -> Result<PostFieldsView, DecodeErrorView> {
    if e.protocol_version != PROTOCOL_VERSION@ {
        Err(DecodeErrorView::Protocol(e.protocol_version))
    } else {
        match fixed_spec(e.thread_id, 16, "thread_id"@) {
            Err(x) => Err(x),
            Ok(thread_id) => match fixed_spec(e.thread_origin_server_id, 32, "thread_origin_server_id"@) {
                Err(x) => Err(x),
                Ok(thread_origin) => match fixed_spec(e.origin_server_id, 32, "origin_server_id"@) {
                    Err(x) => Err(x),
                    Ok(origin) => match fixed_spec(e.origin_post_id, 16, "origin_post_id"@) {
                        Err(x) => Err(x),
                        Ok(post_id) => match fixed_spec(e.server_signature, 64, "server_signature"@) {
                            Err(x) => Err(x),
                            Ok(sig) => match opt_fixed_spec(e.author_pubkey, 32, "author_pubkey"@) {
                                Err(x) => Err(x),
                                Ok(apk) => match opt_fixed_spec(e.author_signature, 64, "author_signature"@) {
                                    Err(x) => Err(x),
                                    Ok(asig) => match iso_date_parse(e.created_at) {
                                        None => Err(DecodeErrorView::Date),
                                        Some(d) => {
                                            let f = PostFieldsView {
                                                board_id: e.board_id,
                                                thread_id,
                                                thread_origin_server_id: thread_origin,
                                                thread_title: e.thread_title,
                                                origin_server_id: origin,
                                                origin_post_id: post_id,
                                                body: e.body,
                                                created_at: d as i32,
                                                author_pubkey: apk,
                                                author_signature: asig,
                                            };
                                            if signed_by(origin, expected, sig, post_payload(f)) {
                                                Ok(f)
                                            } else {
                                                Err(DecodeErrorView::Signature)
                                            }
                                        },
                                    },
                                },
                            },
                        },
                    },
                },
            },
        }
    }
}

/// What verifying a received removal event gives.
pub open spec fn verify_removal_spec(e: RemovalEventView, expected: Seq<u8>) -> Result<RemovalFieldsView, DecodeErrorView> {
    if e.protocol_version != PROTOCOL_VERSION@ {
        Err(DecodeErrorView::Protocol(e.protocol_version))
    } else {
        match fixed_spec(e.origin_server_id, 32, "origin_server_id"@) {
            Err(x) => Err(x),
            Ok(origin) => match fixed_spec(e.origin_post_id, 16, "origin_post_id"@) {
                Err(x) => Err(x),
                Ok(post_id) => match fixed_spec(e.server_signature, 64, "server_signature"@) {
                    Err(x) => Err(x),
                    Ok(sig) => match iso_date_parse(e.removed_at) {
                        None => Err(DecodeErrorView::Date),
                        Some(d) => {
                            let f = RemovalFieldsView {
                                origin_server_id: origin,
                                origin_post_id: post_id,
                                reason: e.reason,
                                removed_at: d as i32,
                            };
                            if signed_by(origin, expected, sig, removal_payload(f)) {
                                Ok(f)
                            } else {
                                Err(DecodeErrorView::Signature)
                            }
                        },
                    },
                },
            },
        }
    }
}

fn opt_decode_fixed<const N: usize>(text: &Option<String>, field: &'static str) -> (r: Result<Option<[u8; N]>, DecodeError>)
    ensures
        match r {
            Ok(a) => opt_fixed_spec(opt_string_view(*text), N as nat, field@) == Ok::<Option<Seq<u8>>, DecodeErrorView>(opt_array_view(a)),
            Err(e) => opt_fixed_spec(opt_string_view(*text), N as nat, field@) == Err::<Option<Seq<u8>>, DecodeErrorView>(e@),
        },
{
    match text {
        None => Ok(None),
        Some(s) => match decode_fixed::<N>(s.as_str(), field) {
            Ok(a) => Ok(Some(a)),
            Err(e) => Err(e),
        },
    }
}

fn opt_slice<const N: usize>(a: &Option<[u8; N]>) -> (r: Option<&[u8]>)
    ensures
        opt_view(r) == opt_array_view(*a),
{
    match a {
        Some(x) => Some(x.as_slice()),
        None => None,
    }
}

/// Decodes and verifies a post event pulled from the peer whose public
/// key is `expected_signer`. An event signed by anyone else is refused.
pub fn verify_post_event(e: &PostEvent, expected_signer: &[u8; 32]) -> (r: Result<DecodedPost, DecodeError>)
    ensures
        match r {
            Ok(d) => verify_post_spec(e@, expected_signer@) == Ok::<PostFieldsView, DecodeErrorView>(d@),
            Err(x) => verify_post_spec(e@, expected_signer@) == Err::<PostFieldsView, DecodeErrorView>(x@),
        },
{
    if !str_eq(e.protocol_version.as_str(), PROTOCOL_VERSION) {
        return Err(DecodeError::Protocol(e.protocol_version.clone()));
    }
    let thread_id = decode_fixed::<16>(e.thread_id.as_str(), "thread_id")?;
    let thread_origin_server_id = decode_fixed::<32>(e.thread_origin_server_id.as_str(), "thread_origin_server_id")?;
    let origin_server_id = decode_fixed::<32>(e.origin_server_id.as_str(), "origin_server_id")?;
    let origin_post_id = decode_fixed::<16>(e.origin_post_id.as_str(), "origin_post_id")?;
    let server_signature = decode_fixed::<64>(e.server_signature.as_str(), "server_signature")?;
    let author_pubkey = opt_decode_fixed::<32>(&e.author_pubkey, "author_pubkey")?;
    let author_signature = opt_decode_fixed::<64>(&e.author_signature, "author_signature")?;
    let created_at = parse_date(e.created_at.as_str())?;

    if !crate::bytes::bytes_eq(&origin_server_id, expected_signer) {
        return Err(DecodeError::Signature);
    }

    let fields = PostEventFields {
        board_id: e.board_id.as_str(),
        thread_id: &thread_id,
        thread_origin_server_id: &thread_origin_server_id,
        thread_title: e.thread_title.as_str(),
        origin_server_id: &origin_server_id,
        origin_post_id: &origin_post_id,
        body: e.body.as_str(),
        created_at,
        author_pubkey: opt_slice(&author_pubkey),
        author_signature: opt_slice(&author_signature),
    };
    let payload = canonical_post_payload(&fields);
    if verify_server_signature(&origin_server_id, &server_signature, payload.as_slice()).is_err() {
        return Err(DecodeError::Signature);
    }

    Ok(DecodedPost {
        board_id: e.board_id.clone(),
        thread_id,
        thread_origin_server_id,
        thread_title: e.thread_title.clone(),
        origin_server_id,
        origin_post_id,
        body: e.body.clone(),
        created_at,
        author_pubkey,
        author_signature,
    })
}

/// Decodes and verifies a removal event pulled from the peer whose public
/// key is `expected_signer`.
pub fn verify_removal_event(e: &RemovalEvent, expected_signer: &[u8; 32]) -> (r: Result<DecodedRemoval, DecodeError>)
    ensures
        match r {
            Ok(d) => verify_removal_spec(e@, expected_signer@) == Ok::<RemovalFieldsView, DecodeErrorView>(d@),
            Err(x) => verify_removal_spec(e@, expected_signer@) == Err::<RemovalFieldsView, DecodeErrorView>(x@),
        },
{
    if !str_eq(e.protocol_version.as_str(), PROTOCOL_VERSION) {
        return Err(DecodeError::Protocol(e.protocol_version.clone()));
    }
    let origin_server_id = decode_fixed::<32>(e.origin_server_id.as_str(), "origin_server_id")?;
    let origin_post_id = decode_fixed::<16>(e.origin_post_id.as_str(), "origin_post_id")?;
    let server_signature = decode_fixed::<64>(e.server_signature.as_str(), "server_signature")?;
    let removed_at = parse_date(e.removed_at.as_str())?;

    if !crate::bytes::bytes_eq(&origin_server_id, expected_signer) {
        return Err(DecodeError::Signature);
    }

    let fields = RemovalEventFields {
        origin_server_id: &origin_server_id,
        origin_post_id: &origin_post_id,
        reason: e.reason.as_str(),
        removed_at,
    };
    let payload = canonical_removal_payload(&fields);
    if verify_server_signature(&origin_server_id, &server_signature, payload.as_slice()).is_err() {
        return Err(DecodeError::Signature);
    }

    Ok(DecodedRemoval {
        origin_server_id,
        origin_post_id,
        reason: e.reason.clone(),
        removed_at,
    })
}

} // verus!
