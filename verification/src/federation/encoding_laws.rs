//! Properties of the canonical event encoding: the two event kinds never
//! share signed bytes, and the length-prefixed encoding is unambiguous,
//! so a signature over it binds every field.

use super::events::{bytes_field, date_field, opt_bytes_field, post_domain, post_payload, removal_domain, removal_payload, str_field, PostFieldsView, RemovalFieldsView};
use crate::bytes::be32;
use vstd::prelude::*;
use vstd::seq_lib::lemma_concat_associative;
use vstd::utf8::{encode_utf8, encode_utf8_decode_utf8};

verus! {

/// Whether every variable-length field of a post event is shorter than
/// 2^32 bytes, the most a 4-byte length prefix can count.
pub open spec fn post_fields_fit(f: PostFieldsView) -> bool {
    &&& encode_utf8(f.board_id).len() < 0x1_0000_0000
    &&& f.thread_id.len() < 0x1_0000_0000
    &&& f.thread_origin_server_id.len() < 0x1_0000_0000
    &&& encode_utf8(f.thread_title).len() < 0x1_0000_0000
    &&& f.origin_server_id.len() < 0x1_0000_0000
    &&& f.origin_post_id.len() < 0x1_0000_0000
    &&& encode_utf8(f.body).len() < 0x1_0000_0000
    &&& (f.author_pubkey matches Some(b) ==> b.len() < 0x1_0000_0000)
    &&& (f.author_signature matches Some(b) ==> b.len() < 0x1_0000_0000)
}

/// Whether every variable-length field of a removal event is shorter than 2^32 bytes.
pub open spec fn removal_fields_fit(f: RemovalFieldsView) -> bool {
    &&& f.origin_server_id.len() < 0x1_0000_0000
    &&& f.origin_post_id.len() < 0x1_0000_0000
    &&& encode_utf8(f.reason).len() < 0x1_0000_0000
}

proof fn lemma_be32_injective(m: u32, n: u32)
    requires
        be32(m) == be32(n),
    ensures
        m == n,
{
    assert(be32(m)[0] == be32(n)[0]);
    assert(be32(m)[1] == be32(n)[1]);
    assert(be32(m)[2] == be32(n)[2]);
    assert(be32(m)[3] == be32(n)[3]);
    assert(m == n) by (bit_vector)
        requires
            (m >> 24u32) as u8 == (n >> 24u32) as u8,
            ((m >> 16u32) & 0xff) as u8 == ((n >> 16u32) & 0xff) as u8,
            ((m >> 8u32) & 0xff) as u8 == ((n >> 8u32) & 0xff) as u8,
            (m & 0xff) as u8 == (n & 0xff) as u8;
}

/// Peels one length-prefixed field off the front of two equal strings.
proof fn lemma_peel_bytes(a: Seq<u8>, b: Seq<u8>, r1: Seq<u8>, r2: Seq<u8>)
    requires
        bytes_field(a) + r1 == bytes_field(b) + r2,
        a.len() < 0x1_0000_0000,
        b.len() < 0x1_0000_0000,
    ensures
        a == b,
        r1 == r2,
{
    let x = bytes_field(a) + r1;
    let y = bytes_field(b) + r2;
    assert(x.subrange(0, 4) =~= be32(a.len() as u32));
    assert(y.subrange(0, 4) =~= be32(b.len() as u32));
    lemma_be32_injective(a.len() as u32, b.len() as u32);
    assert(a.len() == b.len());
    let n = a.len() as int;
    assert(x.subrange(4, 4 + n) =~= a);
    assert(y.subrange(4, 4 + n) =~= b);
    assert(x.subrange(4 + n, x.len() as int) =~= r1);
    assert(y.subrange(4 + n, y.len() as int) =~= r2);
}

proof fn lemma_peel_str(a: Seq<char>, b: Seq<char>, r1: Seq<u8>, r2: Seq<u8>)
    requires
        str_field(a) + r1 == str_field(b) + r2,
        encode_utf8(a).len() < 0x1_0000_0000,
        encode_utf8(b).len() < 0x1_0000_0000,
    ensures
        a == b,
        r1 == r2,
{
    lemma_peel_bytes(encode_utf8(a), encode_utf8(b), r1, r2);
    encode_utf8_decode_utf8(a);
    encode_utf8_decode_utf8(b);
}

proof fn lemma_peel_opt(a: Option<Seq<u8>>, b: Option<Seq<u8>>, r1: Seq<u8>, r2: Seq<u8>)
    requires
        opt_bytes_field(a) + r1 == opt_bytes_field(b) + r2,
        a matches Some(x) ==> x.len() < 0x1_0000_0000,
        b matches Some(x) ==> x.len() < 0x1_0000_0000,
    ensures
        a == b,
        r1 == r2,
{
    let x = opt_bytes_field(a) + r1;
    let y = opt_bytes_field(b) + r2;
    assert(x[0] == y[0]);
    match (a, b) {
        (None, None) => {
            assert(x.subrange(1, x.len() as int) =~= r1);
            assert(y.subrange(1, y.len() as int) =~= r2);
        },
        (Some(p), Some(q)) => {
            assert(x.subrange(1, x.len() as int) =~= bytes_field(p) + r1);
            assert(y.subrange(1, y.len() as int) =~= bytes_field(q) + r2);
            lemma_peel_bytes(p, q, r1, r2);
        },
        (None, Some(_)) => {
            assert(x[0] == 0u8);
            assert(y[0] == 1u8);
        },
        (Some(_), None) => {
            assert(x[0] == 1u8);
            assert(y[0] == 0u8);
        },
    }
}

proof fn lemma_peel_date(a: i32, b: i32, r1: Seq<u8>, r2: Seq<u8>)
    requires
        date_field(a) + r1 == date_field(b) + r2,
    ensures
        a == b,
        r1 == r2,
{
    let x = date_field(a) + r1;
    let y = date_field(b) + r2;
    assert(x.subrange(0, 4) =~= be32(a as u32));
    assert(y.subrange(0, 4) =~= be32(b as u32));
    lemma_be32_injective(a as u32, b as u32);
    assert(a == b) by (bit_vector)
        requires
            a as u32 == b as u32;
    assert(x.subrange(4, x.len() as int) =~= r1);
    assert(y.subrange(4, y.len() as int) =~= r2);
}

/// The post payload with its fields nested to the right, so that each
/// field can be peeled off the front.
spec fn post_tail(f: PostFieldsView) -> Seq<u8> {
    str_field(f.board_id) + (bytes_field(f.thread_id) + (bytes_field(f.thread_origin_server_id)
        + (str_field(f.thread_title) + (bytes_field(f.origin_server_id) + (bytes_field(f.origin_post_id)
        + (str_field(f.body) + (date_field(f.created_at) + (opt_bytes_field(f.author_pubkey)
        + opt_bytes_field(f.author_signature)))))))))
}

spec fn post_head() -> Seq<u8> {
    post_domain() + str_field(super::events::PROTOCOL_VERSION@) + str_field(super::constitution::VERSION@)
}

proof fn lemma_post_payload_shape(f: PostFieldsView)
    ensures
        post_payload(f) == post_head() + post_tail(f),
{
    let h = post_head();
    let a = str_field(f.board_id);
    let b = bytes_field(f.thread_id);
    let c = bytes_field(f.thread_origin_server_id);
    let d = str_field(f.thread_title);
    let e = bytes_field(f.origin_server_id);
    let g = bytes_field(f.origin_post_id);
    let i = str_field(f.body);
    let j = date_field(f.created_at);
    let k = opt_bytes_field(f.author_pubkey);
    let l = opt_bytes_field(f.author_signature);
    lemma_concat_associative(h + a + b + c + d + e + g + i + j, k, l);
    lemma_concat_associative(h + a + b + c + d + e + g + i, j, k + l);
    lemma_concat_associative(h + a + b + c + d + e + g, i, j + (k + l));
    lemma_concat_associative(h + a + b + c + d + e, g, i + (j + (k + l)));
    lemma_concat_associative(h + a + b + c + d, e, g + (i + (j + (k + l))));
    lemma_concat_associative(h + a + b + c, d, e + (g + (i + (j + (k + l)))));
    lemma_concat_associative(h + a + b, c, d + (e + (g + (i + (j + (k + l))))));
    lemma_concat_associative(h + a, b, c + (d + (e + (g + (i + (j + (k + l)))))));
    lemma_concat_associative(h, a, b + (c + (d + (e + (g + (i + (j + (k + l))))))));
}

/// The signed bytes of a post event determine every one of its fields:
/// two post events with the same signed bytes are the same event.
pub proof fn lemma_post_payload_injective(f: PostFieldsView, g: PostFieldsView)
    requires
        post_fields_fit(f),
        post_fields_fit(g),
        post_payload(f) == post_payload(g),
    ensures
        f == g,
{
    lemma_post_payload_shape(f);
    lemma_post_payload_shape(g);
    let h = post_head();
    assert(post_tail(f) =~= (h + post_tail(f)).subrange(h.len() as int, (h + post_tail(f)).len() as int));
    assert(post_tail(g) =~= (h + post_tail(g)).subrange(h.len() as int, (h + post_tail(g)).len() as int));
    assert(post_tail(f) == post_tail(g));
    let t1 = bytes_field(f.thread_id) + (bytes_field(f.thread_origin_server_id)
        + (str_field(f.thread_title) + (bytes_field(f.origin_server_id) + (bytes_field(f.origin_post_id)
        + (str_field(f.body) + (date_field(f.created_at) + (opt_bytes_field(f.author_pubkey)
        + opt_bytes_field(f.author_signature))))))));
    let u1 = bytes_field(g.thread_id) + (bytes_field(g.thread_origin_server_id)
        + (str_field(g.thread_title) + (bytes_field(g.origin_server_id) + (bytes_field(g.origin_post_id)
        + (str_field(g.body) + (date_field(g.created_at) + (opt_bytes_field(g.author_pubkey)
        + opt_bytes_field(g.author_signature))))))));
    lemma_peel_str(f.board_id, g.board_id, t1, u1);
    let t2 = bytes_field(f.thread_origin_server_id)
        + (str_field(f.thread_title) + (bytes_field(f.origin_server_id) + (bytes_field(f.origin_post_id)
        + (str_field(f.body) + (date_field(f.created_at) + (opt_bytes_field(f.author_pubkey)
        + opt_bytes_field(f.author_signature)))))));
    let u2 = bytes_field(g.thread_origin_server_id)
        + (str_field(g.thread_title) + (bytes_field(g.origin_server_id) + (bytes_field(g.origin_post_id)
        + (str_field(g.body) + (date_field(g.created_at) + (opt_bytes_field(g.author_pubkey)
        + opt_bytes_field(g.author_signature)))))));
    lemma_peel_bytes(f.thread_id, g.thread_id, t2, u2);
    let t3 = str_field(f.thread_title) + (bytes_field(f.origin_server_id) + (bytes_field(f.origin_post_id)
        + (str_field(f.body) + (date_field(f.created_at) + (opt_bytes_field(f.author_pubkey)
        + opt_bytes_field(f.author_signature))))));
    let u3 = str_field(g.thread_title) + (bytes_field(g.origin_server_id) + (bytes_field(g.origin_post_id)
        + (str_field(g.body) + (date_field(g.created_at) + (opt_bytes_field(g.author_pubkey)
        + opt_bytes_field(g.author_signature))))));
    lemma_peel_bytes(f.thread_origin_server_id, g.thread_origin_server_id, t3, u3);
    let t4 = bytes_field(f.origin_server_id) + (bytes_field(f.origin_post_id)
        + (str_field(f.body) + (date_field(f.created_at) + (opt_bytes_field(f.author_pubkey)
        + opt_bytes_field(f.author_signature)))));
    let u4 = bytes_field(g.origin_server_id) + (bytes_field(g.origin_post_id)
        + (str_field(g.body) + (date_field(g.created_at) + (opt_bytes_field(g.author_pubkey)
        + opt_bytes_field(g.author_signature)))));
    lemma_peel_str(f.thread_title, g.thread_title, t4, u4);
    let t5 = bytes_field(f.origin_post_id)
        + (str_field(f.body) + (date_field(f.created_at) + (opt_bytes_field(f.author_pubkey)
        + opt_bytes_field(f.author_signature))));
    let u5 = bytes_field(g.origin_post_id)
        + (str_field(g.body) + (date_field(g.created_at) + (opt_bytes_field(g.author_pubkey)
        + opt_bytes_field(g.author_signature))));
    lemma_peel_bytes(f.origin_server_id, g.origin_server_id, t5, u5);
    let t6 = str_field(f.body) + (date_field(f.created_at) + (opt_bytes_field(f.author_pubkey)
        + opt_bytes_field(f.author_signature)));
    let u6 = str_field(g.body) + (date_field(g.created_at) + (opt_bytes_field(g.author_pubkey)
        + opt_bytes_field(g.author_signature)));
    lemma_peel_bytes(f.origin_post_id, g.origin_post_id, t6, u6);
    let t7 = date_field(f.created_at) + (opt_bytes_field(f.author_pubkey) + opt_bytes_field(f.author_signature));
    let u7 = date_field(g.created_at) + (opt_bytes_field(g.author_pubkey) + opt_bytes_field(g.author_signature));
    lemma_peel_str(f.body, g.body, t7, u7);
    let t8 = opt_bytes_field(f.author_pubkey) + opt_bytes_field(f.author_signature);
    let u8s = opt_bytes_field(g.author_pubkey) + opt_bytes_field(g.author_signature);
    lemma_peel_date(f.created_at, g.created_at, t8, u8s);
    lemma_peel_opt(f.author_pubkey, g.author_pubkey, opt_bytes_field(f.author_signature), opt_bytes_field(g.author_signature));
    lemma_peel_opt(f.author_signature, g.author_signature, Seq::empty(), Seq::empty());
    assert(opt_bytes_field(f.author_signature) + Seq::<u8>::empty() =~= opt_bytes_field(f.author_signature));
    assert(opt_bytes_field(g.author_signature) + Seq::<u8>::empty() =~= opt_bytes_field(g.author_signature));
}

proof fn lemma_removal_payload_shape(f: RemovalFieldsView)
    ensures
        removal_payload(f) == removal_head() + (bytes_field(f.origin_server_id)
            + (bytes_field(f.origin_post_id) + (str_field(f.reason) + date_field(f.removed_at)))),
{
    let h = removal_head();
    let a = bytes_field(f.origin_server_id);
    let b = bytes_field(f.origin_post_id);
    let c = str_field(f.reason);
    let d = date_field(f.removed_at);
    lemma_concat_associative(h + a + b, c, d);
    lemma_concat_associative(h + a, b, c + d);
    lemma_concat_associative(h, a, b + (c + d));
}

spec fn removal_head() -> Seq<u8> {
    removal_domain() + str_field(super::events::PROTOCOL_VERSION@) + str_field(super::constitution::VERSION@)
}

/// The signed bytes of a removal event determine every one of its fields.
pub proof fn lemma_removal_payload_injective(f: RemovalFieldsView, g: RemovalFieldsView)
    requires
        removal_fields_fit(f),
        removal_fields_fit(g),
        removal_payload(f) == removal_payload(g),
    ensures
        f == g,
{
    lemma_removal_payload_shape(f);
    lemma_removal_payload_shape(g);
    let h = removal_head();
    let tf = bytes_field(f.origin_server_id) + (bytes_field(f.origin_post_id) + (str_field(f.reason) + date_field(f.removed_at)));
    let tg = bytes_field(g.origin_server_id) + (bytes_field(g.origin_post_id) + (str_field(g.reason) + date_field(g.removed_at)));
    assert(tf =~= (h + tf).subrange(h.len() as int, (h + tf).len() as int));
    assert(tg =~= (h + tg).subrange(h.len() as int, (h + tg).len() as int));
    lemma_peel_bytes(f.origin_server_id, g.origin_server_id,
        bytes_field(f.origin_post_id) + (str_field(f.reason) + date_field(f.removed_at)),
        bytes_field(g.origin_post_id) + (str_field(g.reason) + date_field(g.removed_at)));
    lemma_peel_bytes(f.origin_post_id, g.origin_post_id,
        str_field(f.reason) + date_field(f.removed_at), str_field(g.reason) + date_field(g.removed_at));
    lemma_peel_str(f.reason, g.reason, date_field(f.removed_at), date_field(g.removed_at));
    lemma_peel_date(f.removed_at, g.removed_at, Seq::empty(), Seq::empty());
    assert(date_field(f.removed_at) + Seq::<u8>::empty() =~= date_field(f.removed_at));
    assert(date_field(g.removed_at) + Seq::<u8>::empty() =~= date_field(g.removed_at));
}

/// A post event and a removal event never sign the same bytes: the
/// domain tags differ, so a signature over one cannot be replayed as
/// the other.
pub proof fn lemma_domains_separate(f: PostFieldsView, g: RemovalFieldsView)
    ensures
        post_payload(f) != removal_payload(g),
{
    lemma_post_payload_shape(f);
    lemma_removal_payload_shape(g);
    let p = post_payload(f);
    let r = removal_payload(g);
    assert(p[10] == post_domain()[10]);
    assert(r[10] == removal_domain()[10]);
    assert(post_domain()[10] == 112u8);
    assert(removal_domain()[10] == 114u8);
}

} // verus!
