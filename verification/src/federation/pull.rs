//! Decisions of the pull worker: the stored per-peer cursor, the URL it
//! fetches, and what it admits of a peer's events before local
//! moderation and the database see them.

use super::events::{
    verify_post_event, verify_post_spec, verify_removal_event, verify_removal_spec, DecodeError,
    DecodeErrorView, DecodedPost, DecodedRemoval, PostEvent, PostFieldsView, RemovalEvent,
    RemovalFieldsView,
};
use super::identity::{ed25519_accepts, ed25519_point_decodes, ed25519_verify_plain, Ed25519Rejection};
use crate::ids::{b64url_decode, unb64, vec_to_array};
use crate::text::push_char;
use vstd::prelude::*;
use vstd::string::StringExecFns;
use vstd::utf8::encode_utf8;

verus! {

/// User-Agent of every outbound pull: the protocol version only, the
/// same on every server whatever its build.
pub const USER_AGENT: &'static str = "Lethe-Federation/lethe-fed-v1";

/// A peer's stored cursor: one opaque sub-cursor per event kind.
pub struct StoredCursor {
    pub post: Option<String>,
    pub removal: Option<String>,
}

/// The text of a stored cursor.
pub struct StoredCursorView {
    pub post: Option<Seq<char>>,
    pub removal: Option<Seq<char>>,
}

/// The characters of an optional string.
pub open spec fn opt_chars(s: Option<String>) -> Option<Seq<char>> {
    match s {
        Some(s) => Some(s@),
        None => None,
    }
}

impl View for StoredCursor {
    type V = StoredCursorView;

    open spec fn view(&self) -> StoredCursorView {
        StoredCursorView { post: opt_chars(self.post), removal: opt_chars(self.removal) }
    }
}

impl Default for StoredCursor {
    fn default() -> (c: Self)
        ensures
            c.post is None,
            c.removal is None,
    {
        StoredCursor { post: None, removal: None }
    }
}

/// The first of two options that is present (`Option::or`).
pub open spec fn or_else(a: Option<Seq<char>>, b: Option<Seq<char>>) -> Option<Seq<char>> {
    match a {
        Some(x) => Some(x),
        None => b,
    }
}

impl StoredCursor {
    /// The cursor after a pull: each kind moves to the cursor the peer
    /// handed back, and stays where it was when the peer handed none.
    pub fn advance(self, next_post: Option<String>, next_removal: Option<String>) -> (c: StoredCursor)
        ensures
            c@.post == or_else(opt_chars(next_post), self@.post),
            c@.removal == or_else(opt_chars(next_removal), self@.removal),
    {
        let post = match next_post {
            Some(p) => Some(p),
            None => self.post,
        };
        let removal = match next_removal {
            Some(r) => Some(r),
            None => self.removal,
        };
        StoredCursor { post, removal }
    }
}

/// Counters of one pull cycle.
pub struct PullStats {
    pub peers_visited: usize,
    pub posts_accepted: usize,
    pub posts_rejected: usize,
    pub removals_applied: usize,
}

impl Default for PullStats {
    fn default() -> (s: Self)
        ensures
            s.peers_visited == 0,
            s.posts_accepted == 0,
            s.posts_rejected == 0,
            s.removals_applied == 0,
    {
        PullStats { peers_visited: 0, posts_accepted: 0, posts_rejected: 0, removals_applied: 0 }
    }
}

impl PullStats {
    /// Adds the counts of one visited peer.
    pub fn record_peer(&mut self, accepted: usize, rejected: usize, removals: usize)
        requires
            old(self).peers_visited + 1 <= usize::MAX,
            old(self).posts_accepted + accepted <= usize::MAX,
            old(self).posts_rejected + rejected <= usize::MAX,
            old(self).removals_applied + removals <= usize::MAX,
        ensures
            final(self).peers_visited == old(self).peers_visited + 1,
            final(self).posts_accepted == old(self).posts_accepted + accepted,
            final(self).posts_rejected == old(self).posts_rejected + rejected,
            final(self).removals_applied == old(self).removals_applied + removals,
    {
        self.peers_visited = self.peers_visited + 1;
        self.posts_accepted = self.posts_accepted + accepted;
        self.posts_rejected = self.posts_rejected + rejected;
        self.removals_applied = self.removals_applied + removals;
    }
}

/// A stored peer key as an array, or `None` when it is not 32 bytes (such
/// a peer is skipped).
pub fn peer_pubkey(stored: &Vec<u8>) -> (r: Option<[u8; 32]>)
    ensures
        match r {
            Some(a) => stored@.len() == 32 && a@ == stored@,
            None => stored@.len() != 32,
        },
{
    vec_to_array::<32>(stored.clone())
}

/// Bytes that percent-encoding leaves as they are: `A-Z a-z 0-9 - _ .`.
pub open spec fn url_unreserved(b: u8) -> bool {
    ||| 65 <= b <= 90
    ||| 97 <= b <= 122
    ||| 48 <= b <= 57
    ||| b == 45
    ||| b == 95
    ||| b == 46
}

/// Upper-case hexadecimal digit of a nibble.
pub open spec fn hex_upper(n: u8) -> char {
    if n < 10 { (48 + n) as char } else { (55 + n) as char }
}

/// The encoding of one byte: itself, or `%` and two upper-case hex digits.
pub open spec fn url_byte(b: u8) -> Seq<char> {
    if url_unreserved(b) {
        seq![b as char]
    } else {
        seq!['%', hex_upper(b / 16), hex_upper(b % 16)]
    }
}

/// Percent-encoding of a byte string.
pub open spec fn url_encode_bytes(bs: Seq<u8>) -> Seq<char>
    decreases bs.len(),
{
    if bs.len() == 0 {
        Seq::empty()
    } else {
        url_encode_bytes(bs.drop_last()) + url_byte(bs.last())
    }
}

fn hex_upper_exec(n: u8) -> (c: char)
    requires
        n < 16,
    ensures
        c == hex_upper(n),
{
    if n < 10 { (48 + n) as char } else { (55 + n) as char }
}

/// Percent-encodes the UTF-8 bytes of `s`, keeping `A-Z a-z 0-9 - _ .`.
pub fn urlencode(s: &str) -> (r: String)
    ensures
        r@ == url_encode_bytes(encode_utf8(s@)),
{
    let bytes = s.as_bytes();
    let mut r = String::new();
    let mut i: usize = 0;
    while i < bytes.len()
        invariant
            i <= bytes@.len(),
            bytes@ == encode_utf8(s@),
            r@ == url_encode_bytes(bytes@.take(i as int)),
        decreases bytes@.len() - i,
    {
        let b = bytes[i];
        proof {
            assert(bytes@.take(i as int + 1).drop_last() =~= bytes@.take(i as int));
        }
        if (65 <= b && b <= 90) || (97 <= b && b <= 122) || (48 <= b && b <= 57) || b == 45 || b == 95 || b == 46 {
            push_char(&mut r, b as char);
        } else {
            push_char(&mut r, '%');
            push_char(&mut r, hex_upper_exec(b / 16));
            push_char(&mut r, hex_upper_exec(b % 16));
        }
        i = i + 1;
        assert(r@ =~= url_encode_bytes(bytes@.take(i as int)));
    }
    assert(bytes@.take(i as int) =~= bytes@);
    r
}

/// `s` without its trailing `/` characters (`trim_end_matches('/')`).
pub open spec fn trim_slashes(s: Seq<char>) -> Seq<char>
    decreases s.len(),
{
    if s.len() > 0 && s.last() == '/' {
        trim_slashes(s.drop_last())
    } else {
        s
    }
}

/// The query string of a pull.
pub open spec fn pull_query(post: Option<Seq<char>>, removal: Option<Seq<char>>) -> Seq<char> {
    match (post, removal) {
        (None, None) => Seq::empty(),
        (Some(p), None) => "?since_post="@ + url_encode_bytes(encode_utf8(p)),
        (None, Some(r)) => "?since_removal="@ + url_encode_bytes(encode_utf8(r)),
        (Some(p), Some(r)) => "?since_post="@ + url_encode_bytes(encode_utf8(p)) + "&since_removal="@
            + url_encode_bytes(encode_utf8(r)),
    }
}

/// The URL a pull fetches from a peer.
pub open spec fn pull_url(endpoint: Seq<char>, c: StoredCursorView) -> Seq<char> {
    trim_slashes(endpoint) + "/api/federation/events"@ + pull_query(c.post, c.removal)
}

/// Whether `t` occurs in `s` as a run of consecutive characters.
pub open spec fn occurs_in(t: Seq<char>, s: Seq<char>) -> bool {
    exists|i: int| 0 <= i && i + t.len() <= s.len() && #[trigger] s.subrange(i, i + t.len()) == t
}

/// Percent-encoded text holds no `=`, so it cannot end or start a query
/// parameter of its own.
proof fn lemma_url_encoding_has_no_equals(bs: Seq<u8>)
    ensures
        forall|k: int| 0 <= k < url_encode_bytes(bs).len() ==> url_encode_bytes(bs)[k] != '=',
    decreases bs.len(),
{
    if bs.len() > 0 {
        lemma_url_encoding_has_no_equals(bs.drop_last());
        let a = url_encode_bytes(bs.drop_last());
        let b = bs.last();
        let e = url_byte(b);
        assert(hex_upper(b / 16) != '=' && hex_upper(b % 16) != '=');
        if url_unreserved(b) {
            assert(b != 61);
            assert((b as char) as int == b as int);
        }
        assert forall|k: int| 0 <= k < e.len() implies e[k] != '=' by {}
        assert forall|k: int| 0 <= k < (a + e).len() implies (a + e)[k] != '=' by {
            if k >= a.len() {
                assert((a + e)[k] == e[k - a.len()]);
            }
        }
    }
}

proof fn lemma_no_post_param(er: Seq<char>)
    requires
        forall|k: int| 0 <= k < er.len() ==> er[k] != '=',
    ensures
        !occurs_in("since_post="@, "?since_removal="@ + er),
{
    reveal_strlit("since_post=");
    reveal_strlit("?since_removal=");
    let t = "since_post="@;
    let q = "?since_removal="@ + er;
    assert forall|i: int| 0 <= i && i + t.len() <= q.len() implies #[trigger] q.subrange(i, i + t.len()) != t by {
        if q.subrange(i, i + t.len()) == t {
            assert(q[i + 10] == t[10]);
            assert(q[i] == t[0]);
            if i + 10 >= 15 {
                assert(q[i + 10] == er[i + 10 - 15]);
            } else {
                assert(i == 0 || i == 1 || i == 2 || i == 3 || i == 4);
            }
        }
    }
}

proof fn lemma_no_removal_param(ep: Seq<char>)
    requires
        forall|k: int| 0 <= k < ep.len() ==> ep[k] != '=',
    ensures
        !occurs_in("since_removal="@, "?since_post="@ + ep),
{
    reveal_strlit("since_removal=");
    reveal_strlit("?since_post=");
    let t = "since_removal="@;
    let q = "?since_post="@ + ep;
    assert forall|i: int| 0 <= i && i + t.len() <= q.len() implies #[trigger] q.subrange(i, i + t.len()) != t by {
        if q.subrange(i, i + t.len()) == t {
            assert(q[i + 13] == t[13]);
            assert(q[i + 13] == ep[i + 13 - 12]);
        }
    }
}

/// The pull URL is the peer's endpoint (trailing slashes dropped) and the
/// stream path, then a query that names exactly the cursors that are
/// stored: `since_post=` with the percent-encoded post cursor whenever
/// there is one and never otherwise, and likewise `since_removal=`.
pub proof fn lemma_pull_url_names_present_cursors(endpoint: Seq<char>, c: StoredCursorView)
    ensures
        ({
            let base = trim_slashes(endpoint) + "/api/federation/events"@;
            let url = pull_url(endpoint, c);
            let q = url.skip(base.len() as int);
            &&& base.len() <= url.len()
            &&& url.subrange(0, base.len() as int) == base
            &&& (c.post matches Some(p) ==> occurs_in("since_post="@ + url_encode_bytes(encode_utf8(p)), q))
            &&& (c.post is None ==> !occurs_in("since_post="@, q))
            &&& (c.removal matches Some(r) ==> occurs_in("since_removal="@ + url_encode_bytes(encode_utf8(r)), q))
            &&& (c.removal is None ==> !occurs_in("since_removal="@, q))
            &&& (q.len() == 0 <==> (c.post is None && c.removal is None))
        }),
{
    reveal_strlit("?since_post=");
    reveal_strlit("?since_removal=");
    reveal_strlit("&since_removal=");
    reveal_strlit("since_post=");
    reveal_strlit("since_removal=");
    let base = trim_slashes(endpoint) + "/api/federation/events"@;
    let url = pull_url(endpoint, c);
    let q = pull_query(c.post, c.removal);
    assert(url.subrange(0, base.len() as int) =~= base);
    assert(url.skip(base.len() as int) =~= q);
    match (c.post, c.removal) {
        (None, None) => {},
        (Some(p), None) => {
            let ep = url_encode_bytes(encode_utf8(p));
            let t = "since_post="@ + ep;
            assert(q.subrange(1, 1 + t.len() as int) =~= t);
            lemma_url_encoding_has_no_equals(encode_utf8(p));
            lemma_no_removal_param(ep);
        },
        (None, Some(r)) => {
            let er = url_encode_bytes(encode_utf8(r));
            let t = "since_removal="@ + er;
            assert(q.subrange(1, 1 + t.len() as int) =~= t);
            lemma_url_encoding_has_no_equals(encode_utf8(r));
            lemma_no_post_param(er);
        },
        (Some(p), Some(r)) => {
            let ep = url_encode_bytes(encode_utf8(p));
            let er = url_encode_bytes(encode_utf8(r));
            let tp = "since_post="@ + ep;
            let tr = "since_removal="@ + er;
            assert(q.subrange(1, 1 + tp.len() as int) =~= tp);
            let j: int = 13 + ep.len() as int;
            assert(q.subrange(j, j + tr.len() as int) =~= tr);
        },
    }
}

/// `s` without its trailing `/` characters.
pub fn trim_end_slashes(s: &str) -> (r: String)
    ensures
        r@ == trim_slashes(s@),
{
    let v = crate::text::chars_of(s);
    let mut n = v.len();
    assert(v@.take(n as int) =~= v@);
    while n > 0 && v[n - 1] == '/'
        invariant
            n <= v@.len(),
            trim_slashes(v@.take(n as int)) == trim_slashes(v@),
        decreases n,
    {
        assert(v@.take(n as int).drop_last() =~= v@.take(n as int - 1));
        n = n - 1;
    }
    assert(trim_slashes(v@.take(n as int)) == v@.take(n as int));
    let mut r = String::new();
    let mut i: usize = 0;
    while i < n
        invariant
            i <= n <= v@.len(),
            r@ == v@.take(i as int),
        decreases n - i,
    {
        push_char(&mut r, v[i]);
        i = i + 1;
        assert(r@ =~= v@.take(i as int));
    }
    assert(r@ == trim_slashes(s@));
    r
}

/// The URL of a peer's event stream, resuming from `cursor`.
pub fn build_url(endpoint: &str, cursor: &StoredCursor) -> (url: String)
    ensures
        url@ == pull_url(endpoint@, cursor@),
{
    let base = trim_end_slashes(endpoint);
    let url = base.concat("/api/federation/events");
    let q = match (&cursor.post, &cursor.removal) {
        (None, None) => String::new(),
        (Some(p), None) => String::from_str("?since_post=").concat(urlencode(p.as_str()).as_str()),
        (None, Some(r)) => String::from_str("?since_removal=").concat(urlencode(r.as_str()).as_str()),
        (Some(p), Some(r)) => String::from_str("?since_post=")
            .concat(urlencode(p.as_str()).as_str())
            .concat("&since_removal=")
            .concat(urlencode(r.as_str()).as_str()),
    };
    let out = url.concat(q.as_str());
    proof {
        assert(q@ =~= pull_query(cursor@.post, cursor@.removal));
        assert(out@ =~= pull_url(endpoint@, cursor@));
    }
    out
}

/// What decoding a 32-byte base64 field gives.
pub open spec fn decode_32_spec(s: Seq<char>) -> Result<Seq<u8>, Seq<char>> {
    match b64url_decode(s) {
        None => Err("base64"@),
        Some(b) => if b.len() == 32 { Ok(b) } else { Err("length"@) },
    }
}

/// Decodes a 32-byte base64 field.
pub fn base64_decode_32(s: &str) -> (r: Result<[u8; 32], &'static str>)
    ensures
        match r {
            Ok(a) => decode_32_spec(s@) == Ok::<Seq<u8>, Seq<char>>(a@),
            Err(e) => decode_32_spec(s@) == Err::<Seq<u8>, Seq<char>>(e@),
        },
{
    let v = match unb64(s) {
        Ok(v) => v,
        Err(_) => return Err("base64"),
    };
    match vec_to_array::<32>(v) {
        Some(a) => Ok(a),
        None => Err("length"),
    }
}

/// Why an event of a peer was not taken in.
pub enum IngestError {
    /// A base64 field would not decode to its size.
    Field(&'static str),
    /// The event failed decoding or signature verification.
    Decode(DecodeError),
}

/// The view of an ingest failure.
pub enum IngestErrorView {
    Field(Seq<char>),
    Decode(DecodeErrorView),
}

impl View for IngestError {
    type V = IngestErrorView;

    open spec fn view(&self) -> IngestErrorView {
        match self {
            IngestError::Field(m) => IngestErrorView::Field(m@),
            IngestError::Decode(e) => IngestErrorView::Decode(e@),
        }
    }
}

/// What the worker makes of a post event before moderation.
pub enum PostAdmission {
    /// The event is this server's own post come back through a peer.
    OwnPost,
    /// The event verified; these are its fields.
    Verified(DecodedPost),
}

/// What happens to a post event pulled from the peer `expected`:
/// refused when its origin is no 32-byte key; dropped when the origin is
/// this server; otherwise verified against the peer's key.
pub open spec fn admit_post_spec(e: super::events::PostEventView, expected: Seq<u8>, own: Seq<u8>)
    -> Result<Option<PostFieldsView>, IngestErrorView> {
    match decode_32_spec(e.origin_server_id) {
        Err(m) => Err(IngestErrorView::Field(m)),
        Ok(origin) => if origin == own {
            Ok(None)
        } else {
            match verify_post_spec(e, expected) {
                Ok(f) => Ok(Some(f)),
                Err(d) => Err(IngestErrorView::Decode(d)),
            }
        },
    }
}

/// What a puller takes in from a peer always names that peer as its
/// origin and carries a signature that verifies under the peer's key:
/// a peer cannot pass off events as another server's.
pub proof fn lemma_admitted_posts_come_from_the_peer(e: super::events::PostEventView, expected: Seq<u8>, own: Seq<u8>)
    requires
        admit_post_spec(e, expected, own) matches Ok(Some(_)),
    ensures
        admit_post_spec(e, expected, own) matches Ok(Some(f)) && f.origin_server_id == expected
            && super::identity::server_signature_check(expected, super::events::fixed_spec(e.server_signature, 64, "server_signature"@)->Ok_0, super::events::post_payload(f)) is Ok,
{
}

/// A post event that verifies against the peer it was pulled from is
/// taken in with exactly the verified fields by every server other than
/// that peer. With `build_post_event`, which states that a published
/// event verifies to its fields, this carries a post unchanged from the
/// server that wrote it to the servers that pull it.
pub proof fn lemma_verified_posts_are_admitted(e: super::events::PostEventView, expected: Seq<u8>, own: Seq<u8>)
    requires
        verify_post_spec(e, expected) is Ok,
        own != expected,
    ensures
        admit_post_spec(e, expected, own) == Ok::<Option<PostFieldsView>, IngestErrorView>(Some(verify_post_spec(e, expected)->Ok_0)),
{
}

/// Likewise, a removal event that verifies is taken in with its fields
/// and the signature it carried.
pub proof fn lemma_verified_removals_are_admitted(e: super::events::RemovalEventView, expected: Seq<u8>)
    requires
        verify_removal_spec(e, expected) is Ok,
    ensures
        admit_removal_spec(e, expected) matches Ok((f, sig)) && f == verify_removal_spec(e, expected)->Ok_0 && sig.len() == 64,
{
}

/// Removals a puller takes in are likewise the peer's own, signed by it.
pub proof fn lemma_admitted_removals_come_from_the_peer(e: super::events::RemovalEventView, expected: Seq<u8>)
    requires
        admit_removal_spec(e, expected) is Ok,
    ensures
        admit_removal_spec(e, expected) matches Ok((f, sig)) && f.origin_server_id == expected
            && super::identity::server_signature_check(expected, sig, super::events::removal_payload(f)) is Ok,
{
}

/// What checking a pulled post's author signature answers: the key must
/// decode, then the signature must verify (not in strict mode).
pub open spec fn author_check_spec(pubkey: Seq<u8>, sig: Seq<u8>, msg: Seq<u8>) -> Result<(), Seq<char>> {
    if !ed25519_point_decodes(pubkey) {
        Err("bad pubkey"@)
    } else if !ed25519_accepts(pubkey, msg, sig) {
        Err("verify failed"@)
    } else {
        Ok(())
    }
}

/// Checks the author signature of a pulled post over its canonical
/// payload. A failure drops the post but does not discredit the peer:
/// the server signature already authenticated its origin.
pub fn ed25519_verify(pubkey: &[u8; 32], sig: &[u8; 64], msg: &[u8]) -> (r: Result<(), &'static str>)
    ensures
        match r {
            Ok(()) => author_check_spec(pubkey@, sig@, msg@) == Ok::<(), Seq<char>>(()),
            Err(m) => author_check_spec(pubkey@, sig@, msg@) == Err::<(), Seq<char>>(m@),
        },
{
    match ed25519_verify_plain(pubkey, sig, msg) {
        Ok(()) => Ok(()),
        Err(Ed25519Rejection::Key) => Err("bad pubkey"),
        Err(Ed25519Rejection::Signature) => Err("verify failed"),
    }
}

/// Admits a post event pulled from the peer with key `expected_signer`.
/// The author signature, moderation and storage come after this.
pub fn admit_post_event(evt: &PostEvent, expected_signer: &[u8; 32], self_pubkey: &[u8; 32]) -> (r: Result<PostAdmission, IngestError>)
    ensures
        match r {
            Ok(PostAdmission::OwnPost) => admit_post_spec(evt@, expected_signer@, self_pubkey@) == Ok::<Option<PostFieldsView>, IngestErrorView>(None),
            Ok(PostAdmission::Verified(d)) => admit_post_spec(evt@, expected_signer@, self_pubkey@) == Ok::<Option<PostFieldsView>, IngestErrorView>(Some(d@)),
            Err(e) => admit_post_spec(evt@, expected_signer@, self_pubkey@) == Err::<Option<PostFieldsView>, IngestErrorView>(e@),
        },
{
    let claimed = match base64_decode_32(evt.origin_server_id.as_str()) {
        Ok(a) => a,
        Err(m) => return Err(IngestError::Field(m)),
    };
    if crate::bytes::bytes_eq(&claimed, self_pubkey) {
        return Ok(PostAdmission::OwnPost);
    }
    match verify_post_event(evt, expected_signer) {
        Ok(d) => Ok(PostAdmission::Verified(d)),
        Err(e) => Err(IngestError::Decode(e)),
    }
}

/// What happens to a removal event pulled from the peer `expected`: it
/// must verify, and its signature must decode to 64 bytes, which are
/// kept for later audit.
pub open spec fn admit_removal_spec(e: super::events::RemovalEventView, expected: Seq<u8>)
    -> Result<(RemovalFieldsView, Seq<u8>), IngestErrorView> {
    match verify_removal_spec(e, expected) {
        Err(d) => Err(IngestErrorView::Decode(d)),
        Ok(f) => match b64url_decode(e.server_signature) {
            None => Err(IngestErrorView::Field("base64"@)),
            Some(s) => if s.len() == 64 { Ok((f, s)) } else { Err(IngestErrorView::Field("removal signature length"@)) },
        },
    }
}

/// Admits a removal event pulled from the peer with key `expected_signer`,
/// returning its fields and the server signature to store with it.
pub fn admit_removal_event(evt: &RemovalEvent, expected_signer: &[u8; 32]) -> (r: Result<(DecodedRemoval, [u8; 64]), IngestError>)
    ensures
        match r {
            Ok((d, s)) => admit_removal_spec(evt@, expected_signer@) == Ok::<(RemovalFieldsView, Seq<u8>), IngestErrorView>((d@, s@)),
            Err(e) => admit_removal_spec(evt@, expected_signer@) == Err::<(RemovalFieldsView, Seq<u8>), IngestErrorView>(e@),
        },
{
    let decoded = match verify_removal_event(evt, expected_signer) {
        Ok(d) => d,
        Err(e) => return Err(IngestError::Decode(e)),
    };
    let v = match unb64(evt.server_signature.as_str()) {
        Ok(v) => v,
        Err(_) => return Err(IngestError::Field("base64")),
    };
    match vec_to_array::<64>(v) {
        Some(s) => Ok((decoded, s)),
        None => Err(IngestError::Field("removal signature length")),
    }
}

} // verus!
