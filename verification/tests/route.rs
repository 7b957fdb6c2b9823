use lethe_server::db::federation::Peer;
use lethe_server::error::AppError;
use lethe_server::federation::route::{
    admin_denial, backfill_cursor, backfill_cursor_at, bearer_token, check_add_peer, check_token_label,
    constant_time_eq, default_enabled, env_token_matches, new_admin_token, parse_events_query, peer_key, peer_view,
    revoke_outcome, set_enabled_outcome, token_insert_error, AddPeerReq, EventsQuery,
};
use lethe_server::ids::b64;

fn bad_request(r: Result<impl Sized, AppError>) -> &'static str {
    match r {
        Err(AppError::BadRequest(m)) => m,
        _ => panic!("expected a bad request"),
    }
}

#[test]
fn constant_time_eq_is_equality() {
    assert!(constant_time_eq(b"secret", b"secret"));
    assert!(!constant_time_eq(b"secret", b"secreT"));
    assert!(!constant_time_eq(b"secret", b"secret!"));
    assert!(constant_time_eq(b"", b""));
}

#[test]
fn bearer_tokens_are_taken_from_the_header() {
    assert_eq!(bearer_token(Some("Bearer abc")), "abc");
    assert_eq!(bearer_token(Some("Bearer ")), "");
    assert_eq!(bearer_token(Some("Basic abc")), "");
    assert_eq!(bearer_token(Some("bearer abc")), "");
    assert_eq!(bearer_token(None), "");
}

#[test]
fn env_token_needs_a_non_empty_exact_match() {
    assert!(env_token_matches(Some("tok"), "tok"));
    assert!(!env_token_matches(Some("tok"), "tok2"));
    assert!(!env_token_matches(Some(""), ""));
    assert!(!env_token_matches(None, "tok"));
}

#[test]
fn admin_denials_tell_how_to_recover() {
    assert!(matches!(admin_denial(false, false), AppError::Forbidden("admin token not configured")));
    assert!(matches!(admin_denial(true, false), AppError::Forbidden("bad admin token")));
    assert!(matches!(admin_denial(false, true), AppError::Forbidden("bad admin token")));
}

#[test]
fn adding_a_peer_checks_key_self_and_endpoint() {
    let own = [1u8; 32];
    let ok = AddPeerReq { server_pubkey: b64(&[2u8; 32]), endpoint: "https://p".to_string(), label: None };
    assert_eq!(check_add_peer(&ok, Some(&own)).ok(), Some([2u8; 32]));
    let me = AddPeerReq { server_pubkey: b64(&own), endpoint: "https://p".to_string(), label: None };
    assert_eq!(bad_request(check_add_peer(&me, Some(&own))), "cannot peer with self");
    assert!(check_add_peer(&me, None).is_ok());
    let bad = AddPeerReq { server_pubkey: "nope!".to_string(), endpoint: "https://p".to_string(), label: None };
    assert_eq!(bad_request(check_add_peer(&bad, Some(&own))), "server_pubkey");
    let empty = AddPeerReq { server_pubkey: b64(&[2u8; 32]), endpoint: String::new(), label: None };
    assert_eq!(bad_request(check_add_peer(&empty, Some(&own))), "endpoint length");
    let long = AddPeerReq { server_pubkey: b64(&[2u8; 32]), endpoint: "x".repeat(1025), label: None };
    assert_eq!(bad_request(check_add_peer(&long, Some(&own))), "endpoint length");
    let edge = AddPeerReq { server_pubkey: b64(&[2u8; 32]), endpoint: "x".repeat(1024), label: None };
    assert!(check_add_peer(&edge, Some(&own)).is_ok());
    assert_eq!(bad_request(peer_key(&b64(&[0u8; 31]))), "server_pubkey");
}

#[test]
fn token_labels_are_one_to_sixty_four_bytes() {
    assert!(check_token_label("ops").is_ok());
    assert_eq!(bad_request(check_token_label("")), "label length");
    assert_eq!(bad_request(check_token_label(&"é".repeat(33))), "label length");
    assert!(check_token_label(&"é".repeat(32)).is_ok());
}

#[test]
fn minted_tokens_are_43_characters() {
    let t = new_admin_token();
    assert_eq!(t.len(), 43);
    assert_ne!(t, new_admin_token());
}

#[test]
fn backfill_starts_at_the_horizon_with_a_zero_id() {
    assert!(backfill_cursor_at(2460000, 0).is_none());
    assert!(backfill_cursor_at(2460000, -5).is_none());
    let c = backfill_cursor_at(2460000, 30).expect("cursor");
    assert_eq!(c.post.as_deref(), Some("2459970.AAAAAAAAAAAAAAAAAAAAAA"));
    assert_eq!(c.removal, c.post);
    assert!(backfill_cursor(30).is_some());
    assert!(backfill_cursor(0).is_none());
}

#[test]
fn events_query_names_the_bad_cursor() {
    let q = EventsQuery { since_post: Some("garbage".to_string()), since_removal: None };
    assert_eq!(bad_request(parse_events_query(&q)), "since_post cursor");
    let q = EventsQuery { since_post: None, since_removal: Some("1.x".to_string()) };
    assert_eq!(bad_request(parse_events_query(&q)), "since_removal cursor");
    let q = EventsQuery { since_post: None, since_removal: None };
    assert!(matches!(parse_events_query(&q), Ok((None, None))));
}

#[test]
fn outcomes_of_admin_writes() {
    assert!(matches!(revoke_outcome(0), Err(AppError::NotFound)));
    assert!(matches!(revoke_outcome(2), Ok(2)));
    assert!(matches!(set_enabled_outcome(false), Err(AppError::NotFound)));
    assert!(set_enabled_outcome(true).is_ok());
    assert!(matches!(token_insert_error(sqlx::Error::RowNotFound), AppError::Db(_)));
    assert!(!default_enabled());
}

#[test]
fn peers_are_listed_with_base64_keys() {
    let p = Peer { server_pubkey: vec![0u8; 32], endpoint: "https://p".to_string(), label: Some("x".to_string()), last_cursor: None, enabled: true };
    let v = peer_view(p);
    assert_eq!(v.server_pubkey, "AAAAAAAAAAAAAAAAAAAAAAAAAAAAAAAAAAAAAAAAAAA");
    assert_eq!(v.endpoint, "https://p");
    assert_eq!(v.label.as_deref(), Some("x"));
    assert!(v.enabled);
}
