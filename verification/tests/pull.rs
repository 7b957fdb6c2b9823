use lethe_server::federation::events::{build_post_event, build_removal_event, DecodeError, PostEventFields, RemovalEventFields};
use lethe_server::federation::identity::Identity;
use lethe_server::federation::pull::{
    admit_post_event, admit_removal_event, base64_decode_32, build_url, peer_pubkey, urlencode, IngestError,
    PostAdmission, PullStats, StoredCursor, USER_AGENT,
};

#[test]
fn user_agent_is_protocol_version_only() {
    assert_eq!(USER_AGENT, "Lethe-Federation/lethe-fed-v1");
    assert!(!USER_AGENT.contains("0.1.0"), "UA must not embed the crate version",);
    assert!(!USER_AGENT.contains("reqwest"), "UA must not embed the reqwest version",);
}

#[test]
fn urlencode_keeps_unreserved_and_escapes_the_rest() {
    assert_eq!(urlencode("2460000.AAAA-_"), "2460000.AAAA-_");
    assert_eq!(urlencode("a b/c"), "a%20b%2Fc");
    assert_eq!(urlencode("ü"), "%C3%BC");
    assert_eq!(urlencode(""), "");
}

#[test]
fn build_url_trims_slashes_and_adds_cursors() {
    let none = StoredCursor::default();
    assert_eq!(build_url("https://peer.example//", &none), "https://peer.example/api/federation/events");
    let both = StoredCursor { post: Some("1.a".to_string()), removal: Some("2 b".to_string()) };
    assert_eq!(
        build_url("https://peer.example/", &both),
        "https://peer.example/api/federation/events?since_post=1.a&since_removal=2%20b"
    );
    let rem = StoredCursor { post: None, removal: Some("3.c".to_string()) };
    assert_eq!(build_url("http://p", &rem), "http://p/api/federation/events?since_removal=3.c");
}

#[test]
fn cursor_advances_only_where_the_peer_sent_one() {
    let c = StoredCursor { post: Some("old-p".to_string()), removal: Some("old-r".to_string()) };
    let c = c.advance(Some("new-p".to_string()), None);
    assert_eq!(c.post.as_deref(), Some("new-p"));
    assert_eq!(c.removal.as_deref(), Some("old-r"));
}

#[test]
fn stats_add_up() {
    let mut s = PullStats::default();
    s.record_peer(2, 1, 3);
    s.record_peer(1, 0, 0);
    assert_eq!((s.peers_visited, s.posts_accepted, s.posts_rejected, s.removals_applied), (2, 3, 1, 3));
}

#[test]
fn malformed_peer_keys_are_skipped() {
    assert!(peer_pubkey(&vec![1u8; 31]).is_none());
    assert_eq!(peer_pubkey(&vec![7u8; 32]), Some([7u8; 32]));
}

#[test]
fn decode_32_names_its_failure() {
    assert_eq!(base64_decode_32("***"), Err("base64"));
    assert_eq!(base64_decode_32("AAAA"), Err("length"));
    let k = lethe_server::ids::b64(&[9u8; 32]);
    assert_eq!(base64_decode_32(&k), Ok([9u8; 32]));
}

fn post_fields<'a>(origin: &'a [u8; 32], tid: &'a [u8; 16], pid: &'a [u8; 16]) -> PostEventFields<'a> {
    PostEventFields {
        board_id: "general",
        thread_id: tid,
        thread_origin_server_id: origin,
        thread_title: "hello",
        origin_server_id: origin,
        origin_post_id: pid,
        body: "first post",
        created_at: 2461169,
        author_pubkey: None,
        author_signature: None,
    }
}

#[test]
fn own_posts_coming_back_are_dropped() {
    let me = Identity::from_seed([1u8; 32]);
    let peer = Identity::from_seed([2u8; 32]);
    let tid = [3u8; 16];
    let pid = [4u8; 16];
    let mine = build_post_event(&me, &post_fields(me.pubkey(), &tid, &pid));
    assert!(matches!(admit_post_event(&mine, peer.pubkey(), me.pubkey()), Ok(PostAdmission::OwnPost)));
    let theirs = build_post_event(&peer, &post_fields(peer.pubkey(), &tid, &pid));
    match admit_post_event(&theirs, peer.pubkey(), me.pubkey()) {
        Ok(PostAdmission::Verified(d)) => assert_eq!(d.body, "first post"),
        _ => panic!("a peer's own post must verify"),
    }
    // The same event pulled from someone else is refused.
    let third = Identity::from_seed([5u8; 32]);
    assert!(matches!(
        admit_post_event(&theirs, third.pubkey(), me.pubkey()),
        Err(IngestError::Decode(DecodeError::Signature))
    ));
}

#[test]
fn removals_keep_their_signature() {
    let peer = Identity::from_seed([2u8; 32]);
    let pid = [4u8; 16];
    let f = RemovalEventFields { origin_server_id: peer.pubkey(), origin_post_id: &pid, reason: "spam", removed_at: 2461169 };
    let e = build_removal_event(&peer, &f);
    let (d, sig) = match admit_removal_event(&e, peer.pubkey()) {
        Ok(x) => x,
        Err(_) => panic!("removal must verify"),
    };
    assert_eq!(d.reason, "spam");
    assert_eq!(lethe_server::ids::b64(&sig), e.server_signature);
}
