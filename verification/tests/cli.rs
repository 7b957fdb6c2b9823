use lethe_server::cli::{base_url, pad_right, peer_line, require_token, token_line};
use lethe_server::federation::route::{PeerView, TokenView};

#[test]
fn padding_matches_format_width() {
    assert_eq!(pad_right("ab", 5), format!("{:5}", "ab"));
    assert_eq!(pad_right("abcdef", 3), "abcdef");
    assert_eq!(pad_right("é", 3), format!("{:3}", "é"));
}

#[test]
fn peer_and_token_lines() {
    let p = PeerView { server_pubkey: "KEY".to_string(), endpoint: "https://p".to_string(), label: None, enabled: false };
    assert_eq!(peer_line(&p), format!("{:9}  {:24}  {}  {}", "disabled", "-", "https://p", "KEY"));
    let p = PeerView { server_pubkey: "KEY".to_string(), endpoint: "https://p".to_string(), label: Some("node".to_string()), enabled: true };
    assert_eq!(peer_line(&p), format!("{:9}  {:24}  {}  {}", "enabled", "node", "https://p", "KEY"));
    let t = TokenView { label: "ops".to_string(), created_at: "2026-05-08".to_string(), revoked_at: Some("2026-06-01".to_string()) };
    assert_eq!(token_line(&t), format!("{:24} {:24} {}", "ops", "2026-05-08", "revoked 2026-06-01"));
    let t = TokenView { label: "ops".to_string(), created_at: "2026-05-08".to_string(), revoked_at: None };
    assert!(token_line(&t).ends_with(" active"));
}

#[test]
fn url_and_token_are_required() {
    assert_eq!(base_url(Some("https://x//".to_string())).ok().as_deref(), Some("https://x"));
    assert_eq!(base_url(None).err(), Some("LETHE_ADMIN_URL not set (or pass --url)"));
    assert_eq!(require_token(None), Err("LETHE_ADMIN_TOKEN not set"));
    assert_eq!(require_token(Some("t")), Ok("t"));
}
