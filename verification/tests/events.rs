use ed25519_dalek::{Signer, SigningKey};
use lethe_server::db::federation::PostStreamRow;
use lethe_server::db::post_removals::RemovalRow;
use lethe_server::federation::events::{
    build_post_event, build_removal_event, canonical_post_payload, canonical_removal_payload, format_date,
    parse_date, verify_post_event, verify_removal_event, DecodeError, PostEvent, PostEventFields,
    RemovalEventFields, PROTOCOL_VERSION,
};
use lethe_server::federation::identity::Identity;
use lethe_server::federation::route::{encode_cursor, events_response, events_rows_fit, parse_cursor, EVENTS_PAGE_LIMIT};
use lethe_server::ids::b64;
use rand::RngCore as _;

fn rand_bytes<const N: usize>() -> [u8; N] {
    let mut b = [0u8; N];
    rand::thread_rng().fill_bytes(&mut b);
    b
}

fn may_8_2026() -> i32 {
    time::Date::from_calendar_date(2026, time::Month::May, 8).unwrap().to_julian_day()
}

#[test]
fn round_trip_post_event_signs_and_verifies() {
    let seed: [u8; 32] = rand_bytes();
    let sk = SigningKey::from_bytes(&seed);
    let pubkey = sk.verifying_key().to_bytes();

    let thread_id: [u8; 16] = rand_bytes();
    let post_id: [u8; 16] = rand_bytes();
    let f = PostEventFields {
        board_id: "general",
        thread_id: &thread_id,
        thread_origin_server_id: &pubkey,
        thread_title: "hello",
        origin_server_id: &pubkey,
        origin_post_id: &post_id,
        body: "first post",
        created_at: may_8_2026(),
        author_pubkey: None,
        author_signature: None,
    };
    let payload = canonical_post_payload(&f);
    let sig = sk.sign(&payload).to_bytes();

    let evt = PostEvent {
        protocol_version: PROTOCOL_VERSION.to_string(),
        constitution_version: lethe_server::federation::constitution::VERSION.to_string(),
        board_id: f.board_id.to_string(),
        thread_id: b64(f.thread_id),
        thread_origin_server_id: b64(f.thread_origin_server_id),
        thread_title: f.thread_title.to_string(),
        origin_server_id: b64(f.origin_server_id),
        origin_post_id: b64(f.origin_post_id),
        body: f.body.to_string(),
        created_at: format_date(f.created_at),
        author_pubkey: None,
        author_signature: None,
        server_signature: b64(&sig),
    };
    let decoded = verify_post_event(&evt, &pubkey).expect("verify");
    assert_eq!(decoded.body, "first post");
    assert_eq!(decoded.thread_id, thread_id);

    // Wrong expected signer fails verification.
    let other: [u8; 32] = rand_bytes();
    assert!(verify_post_event(&evt, &other).is_err());
}

#[test]
fn dates_are_iso_and_parse_back() {
    assert_eq!(format_date(may_8_2026()), "2026-05-08");
    assert_eq!(parse_date("2026-05-08").ok(), Some(may_8_2026()));
    assert!(matches!(parse_date("08/05/2026"), Err(DecodeError::Date)));
}

#[test]
fn a_built_event_verifies_to_its_fields() {
    let id = Identity::from_seed([11u8; 32]);
    let tid = [1u8; 16];
    let pid = [2u8; 16];
    let apk = [3u8; 32];
    let asig = [4u8; 64];
    let f = PostEventFields {
        board_id: "science_tech",
        thread_id: &tid,
        thread_origin_server_id: id.pubkey(),
        thread_title: "t",
        origin_server_id: id.pubkey(),
        origin_post_id: &pid,
        body: "body text",
        created_at: 2461169,
        author_pubkey: Some(&apk),
        author_signature: Some(&asig),
    };
    let e = build_post_event(&id, &f);
    let d = verify_post_event(&e, id.pubkey()).ok().expect("verify");
    assert_eq!(d.board_id, "science_tech");
    assert_eq!(d.origin_post_id, pid);
    assert_eq!(d.created_at, 2461169);
    assert_eq!(d.author_pubkey, Some(apk));
    assert_eq!(d.author_signature, Some(asig));

    // Tampering with the body breaks the signature.
    let mut t = e;
    t.body.push('!');
    assert!(matches!(verify_post_event(&t, id.pubkey()), Err(DecodeError::Signature)));
}

#[test]
fn protocol_mismatch_is_reported_with_what_was_sent() {
    let id = Identity::from_seed([11u8; 32]);
    let pid = [2u8; 16];
    let f = RemovalEventFields { origin_server_id: id.pubkey(), origin_post_id: &pid, reason: "r", removed_at: 2461169 };
    let mut e = build_removal_event(&id, &f);
    assert_eq!(verify_removal_event(&e, id.pubkey()).ok().map(|d| d.reason), Some("r".to_string()));
    e.protocol_version = "lethe-fed-v0".to_string();
    match verify_removal_event(&e, id.pubkey()) {
        Err(DecodeError::Protocol(p)) => assert_eq!(p, "lethe-fed-v0"),
        _ => panic!("expected a protocol error"),
    }
}

#[test]
fn post_and_removal_payloads_are_domain_separated() {
    let k = [5u8; 32];
    let p = [6u8; 16];
    let post = canonical_post_payload(&PostEventFields {
        board_id: "",
        thread_id: &p,
        thread_origin_server_id: &k,
        thread_title: "",
        origin_server_id: &k,
        origin_post_id: &p,
        body: "",
        created_at: 0,
        author_pubkey: None,
        author_signature: None,
    });
    let removal = canonical_removal_payload(&RemovalEventFields { origin_server_id: &k, origin_post_id: &p, reason: "", removed_at: 0 });
    assert!(post.starts_with(b"lethe-fed-post-v1\0"));
    assert!(removal.starts_with(b"lethe-fed-removal-v1\0"));
    assert_ne!(post, removal);
}

#[test]
fn cursors_round_trip() {
    let id = [0xabu8; 16];
    let c = encode_cursor(2460000, &id);
    assert!(c.starts_with("2460000."));
    assert_eq!(parse_cursor(Some(&c)), Ok(Some((2460000, id.to_vec()))));
    assert_eq!(parse_cursor(None), Ok(None));
    assert_eq!(parse_cursor(Some("")), Ok(None));
    assert_eq!(parse_cursor(Some("2460000")), Err(()));
    assert_eq!(parse_cursor(Some("x.AAAA")), Err(()));
    assert_eq!(parse_cursor(Some("99999999.AAAAAAAAAAAAAAAAAAAAAA")), Err(()));
    assert_eq!(parse_cursor(Some("2460000.AAAA")), Err(()));
    assert_eq!(parse_cursor(Some("+2460000.AAAAAAAAAAAAAAAAAAAAAA")), Ok(Some((2460000, vec![0u8; 16]))));
}

#[test]
fn the_event_stream_signs_each_row_and_points_past_the_last() {
    let id = Identity::from_seed([7u8; 32]);
    let own = *id.pubkey();
    let rows = vec![
        PostStreamRow {
            board_id: "general".to_string(),
            thread_id: vec![1u8; 16],
            thread_origin_server_id: None,
            thread_title: "t".to_string(),
            origin_server_id: own.to_vec(),
            origin_post_id: vec![2u8; 16],
            body: "one".to_string(),
            created_at: 2461000,
            author_pubkey: None,
            author_signature: None,
        },
        PostStreamRow {
            board_id: "general".to_string(),
            thread_id: vec![1u8; 16],
            thread_origin_server_id: Some(vec![9u8; 32]),
            thread_title: "t".to_string(),
            origin_server_id: own.to_vec(),
            origin_post_id: vec![3u8; 16],
            body: "two".to_string(),
            created_at: 2461001,
            author_pubkey: None,
            author_signature: None,
        },
    ];
    let removals = vec![RemovalRow {
        post_id: vec![2u8; 16],
        reason: "spam".to_string(),
        scope: "global".to_string(),
        removed_at: 2461002,
        origin_server_id: None,
        origin_signature: None,
    }];
    let resp = events_response(&id, &rows, &removals);
    assert_eq!(resp.posts.len(), 2);
    assert_eq!(resp.posts[0].thread_origin_server_id, b64(&own));
    assert_eq!(resp.posts[1].thread_origin_server_id, b64(&[9u8; 32]));
    assert_eq!(resp.posts[1].body, "two");
    assert_eq!(resp.removals.len(), 1);
    assert_eq!(resp.removals[0].origin_server_id, b64(&own));
    assert_eq!(resp.next_post_cursor, Some(encode_cursor(2461001, &[3u8; 16])));
    assert_eq!(resp.next_removal_cursor, Some(encode_cursor(2461002, &[2u8; 16])));
    for p in &resp.posts {
        assert!(verify_post_event(p, &own).is_ok());
    }
    assert!(verify_removal_event(&resp.removals[0], &own).is_ok());

    let empty = events_response(&id, &vec![], &vec![]);
    assert!(empty.posts.is_empty() && empty.next_post_cursor.is_none() && empty.next_removal_cursor.is_none());
}

fn stream_row(origin: &[u8], n: u8) -> PostStreamRow {
    PostStreamRow {
        board_id: "general".to_string(),
        thread_id: vec![1u8; 16],
        thread_origin_server_id: None,
        thread_title: "t".to_string(),
        origin_server_id: origin.to_vec(),
        origin_post_id: vec![n; 16],
        body: format!("post {n}"),
        created_at: 2461000,
        author_pubkey: None,
        author_signature: None,
    }
}

#[test]
fn the_event_stream_serves_only_own_posts_up_to_the_page_limit() {
    let id = Identity::from_seed([8u8; 32]);
    let own = *id.pubkey();
    let mut rows = vec![stream_row(&own, 0), stream_row(&[5u8; 32], 1), stream_row(&own, 2)];
    assert!(events_rows_fit(&rows, &vec![]));
    let resp = events_response(&id, &rows, &vec![]);
    assert_eq!(resp.posts.len(), 2);
    assert_eq!(resp.posts[1].body, "post 2");
    for p in &resp.posts {
        assert_eq!(p.origin_server_id, b64(&own));
        assert!(verify_post_event(p, &own).is_ok());
    }
    assert_eq!(resp.next_post_cursor, Some(encode_cursor(2461000, &[2u8; 16])));

    let limit = EVENTS_PAGE_LIMIT as usize;
    rows = (0..limit + 5).map(|i| stream_row(&own, (i % 250) as u8)).collect();
    let resp = events_response(&id, &rows, &vec![]);
    assert_eq!(resp.posts.len(), limit);
    assert_eq!(resp.next_post_cursor, Some(encode_cursor(2461000, &[((limit - 1) % 250) as u8; 16])));

    let late = vec![RemovalRow {
        post_id: vec![2u8; 16],
        reason: "spam".to_string(),
        scope: "global".to_string(),
        removed_at: 99_999_999,
        origin_server_id: None,
        origin_signature: None,
    }];
    assert!(!events_rows_fit(&vec![], &late));
}
