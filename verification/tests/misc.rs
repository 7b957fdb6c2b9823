use lethe_server::db::posts::{post_view, shown_pubkey, PostRow};
use lethe_server::logic::rooms::invite_info_of;
use lethe_server::moderation::rules::with_duplicate_check;
use lethe_server::moderation::Reason;
use lethe_server::crypto::{bytes_less, verify_ed25519, CryptoError};
use lethe_server::federation::pull::ed25519_verify;
use lethe_server::csp::headers;
use lethe_server::db::admin_tokens::hash;
use lethe_server::db::feed::boards_for;
use lethe_server::db::moderation::LogEntry;
use lethe_server::db::post_removals::Scope;
use lethe_server::db::posts::tombstone_body;
use lethe_server::db::retention::{min_interval, sweep_interval_secs};
use lethe_server::decimal::{int_to_text, parse_i32};
use lethe_server::federation::identity::{
    hex, identity_from_seed_file, legacy_seed, verify_server_signature, Identity, SeedFileProblem,
};
use lethe_server::federation::info::{build, manifest_sha256, moderation_summary, BuildStamp};
use lethe_server::ids::{b64, random_invite_code, unb64, unb64_array};
use lethe_server::routes::feed::{feed_cursor, FeedSort};
use lethe_server::routes::pages::{categories, moderation_entry, room_create_from, selected_category, selected_sort, RoomNewQuery};
use lethe_server::routes::posts::ListQuery;
use lethe_server::time::{julian_day_valid, today_utc, MAX_JULIAN_DAY, MIN_JULIAN_DAY};

#[test]
fn security_headers_are_all_set() {
    let h = headers();
    assert_eq!(h.len(), 7);
    assert_eq!(h[0].0, "content-security-policy");
    assert!(h[0].1.contains("script-src 'self'"));
    assert!(h[0].1.contains("object-src 'none'"));
    assert_eq!(h[3], ("x-frame-options", "DENY"));
    assert_eq!(h[6], ("cross-origin-resource-policy", "same-origin"));
}

#[test]
fn decimal_text_round_trips() {
    for n in [0, 7, -7, 2460000, i32::MAX, i32::MIN] {
        let t = int_to_text(n);
        assert_eq!(t, n.to_string());
        assert_eq!(parse_i32(&t.chars().collect()), Some(n));
    }
    assert_eq!(parse_i32(&"2147483648".chars().collect()), None);
    assert_eq!(parse_i32(&"-2147483649".chars().collect()), None);
    assert_eq!(parse_i32(&"+12".chars().collect()), Some(12));
    assert_eq!(parse_i32(&"-".chars().collect()), None);
    assert_eq!(parse_i32(&"1a".chars().collect()), None);
    assert_eq!(parse_i32(&"".chars().collect()), None);
}

#[test]
fn base64_is_url_safe_and_unpadded() {
    assert_eq!(b64(&[0xfb, 0xff]), "-_8");
    assert_eq!(unb64("-_8").ok(), Some(vec![0xfb, 0xff]));
    assert!(unb64("-_8=").is_err());
    assert_eq!(unb64_array::<2>("-_8"), Ok([0xfb, 0xff]));
    assert_eq!(unb64_array::<3>("-_8"), Err("wrong byte length"));
    assert_eq!(unb64_array::<3>("*"), Err("invalid base64"));
    let code = random_invite_code();
    assert_eq!(code.len(), 22);
    assert_ne!(code, random_invite_code());
    assert!(code.chars().all(|c| c.is_ascii_alphanumeric() || c == '-' || c == '_'));
    let id = unb64(&code).expect("invite codes decode");
    assert_eq!(id.len(), 16);
    assert_eq!(b64(&id), code);
}

#[test]
fn identities_sign_what_they_verify() {
    let id = Identity::from_seed([42u8; 32]);
    let sig = id.sign(b"message");
    assert_eq!(verify_server_signature(id.pubkey(), &sig, b"message"), Ok(()));
    assert!(verify_server_signature(id.pubkey(), &sig, b"massage").is_err());
    assert!(verify_server_signature(&id.pubkey()[..31], &sig, b"message").is_err());
    assert_eq!(verify_ed25519(id.pubkey(), &sig, b"message"), Ok(()));
    assert_eq!(verify_ed25519(id.pubkey(), &sig[..63], b"message"), Err(CryptoError::BadSignature));
    assert_eq!(verify_ed25519(&id.pubkey()[..3], &sig, b"message"), Err(CryptoError::BadPubkey));
    assert_eq!(verify_ed25519(id.pubkey(), &sig, b"other"), Err(CryptoError::VerifyFailed));
    let same = Identity::from_seed([42u8; 32]);
    assert_eq!(same.pubkey(), id.pubkey());
    let dbg = id.debug_text();
    assert!(dbg.contains(&hex(id.pubkey())));
    assert!(!dbg.contains(&hex(&[42u8; 32])));
}

#[test]
fn hex_is_lower_case() {
    assert_eq!(hex(&[0x00, 0xab, 0xff]), "00abff");
    assert_eq!(hex(&[]), "");
}

#[test]
fn seed_files_must_be_private_and_exact() {
    assert!(identity_from_seed_file(0o600, &vec![1u8; 32]).is_ok());
    assert!(matches!(identity_from_seed_file(0o644, &vec![1u8; 32]), Err(SeedFileProblem::Insecure { mode: 0o644 })));
    assert!(matches!(
        identity_from_seed_file(0o100600, &vec![1u8; 31]),
        Err(SeedFileProblem::BadLength { actual: 31, expected: 32 })
    ));
    assert_eq!(legacy_seed(None), Ok(None));
    assert_eq!(legacy_seed(Some(None)), Ok(None));
    assert_eq!(legacy_seed(Some(Some(vec![3u8; 32]))), Ok(Some([3u8; 32])));
    assert_eq!(legacy_seed(Some(Some(vec![3u8; 5]))), Err(5));
}

#[test]
fn info_document() {
    let stamp = BuildStamp { code_version: "0.1.0", code_commit: "abc123", constitution_hash: "ff" };
    let i = build(&[0u8; 32], "baseline".to_string(), None, None, &stamp);
    assert_eq!(i.server_pubkey, "AAAAAAAAAAAAAAAAAAAAAAAAAAAAAAAAAAAAAAAAAAA");
    assert_eq!(i.protocol_version, "lethe-fed-v1");
    assert_eq!(i.constitution_version, "v1");
    assert_eq!(i.code_commit, "abc123");
    assert_eq!(moderation_summary(None), "baseline");
    assert_eq!(moderation_summary(Some("stricter".to_string())), "stricter");
    assert_eq!(manifest_sha256(b"abc"), "ba7816bf8f01cfea414140de5dae2223b00361a396177a9cb410ff61f20015ad");
}

#[test]
fn token_hash_is_sha256_of_the_text() {
    assert_eq!(hex(&hash("abc")), "ba7816bf8f01cfea414140de5dae2223b00361a396177a9cb410ff61f20015ad");
}

#[test]
fn feed_boards_by_category() {
    assert_eq!(boards_for(None), vec!["government", "economy", "science_tech", "all_other"]);
    assert_eq!(boards_for(Some("economy")), vec!["economy"]);
    assert!(boards_for(Some("general")).is_empty());
}

#[test]
fn feed_cursor_parts_come_together() {
    assert!(matches!(feed_cursor(None, None), Ok(None)));
    match feed_cursor(Some("2026-05-08T00:00:00Z"), Some("AAAA")) {
        Ok(Some((n, id))) => {
            assert_eq!(n, 1_778_198_400_000_000_000);
            assert_eq!(id, vec![0u8; 3]);
        },
        _ => panic!("cursor should parse"),
    }
    assert!(matches!(feed_cursor(Some("yesterday"), Some("AAAA")), Err(lethe_server::error::AppError::BadRequest("cursor_ts must be ISO-8601"))));
    assert!(matches!(feed_cursor(Some("2026-05-08T00:00:00Z"), None), Err(lethe_server::error::AppError::BadRequest("cursor_ts and cursor_id come together"))));
    assert_eq!(FeedSort::default(), FeedSort::LastComment);
}

#[test]
fn page_selections() {
    assert_eq!(categories().len(), 4);
    assert_eq!(categories()[2].label, "Science & Tech");
    assert_eq!(selected_category(Some("economy".to_string())), "economy");
    assert_eq!(selected_category(Some("general".to_string())), "");
    assert_eq!(selected_category(None), "");
    assert_eq!(selected_sort(Some("newest")), "newest");
    assert_eq!(selected_sort(Some("oldest")), "last_comment");
    assert_eq!(selected_sort(None), "last_comment");
    assert_eq!(room_create_from(RoomNewQuery { from: None }), "");
    assert_eq!(room_create_from(RoomNewQuery { from: Some("abc".to_string()) }), "abc");
    assert_eq!(ListQuery::default().since_seq, 0);
}

#[test]
fn moderation_log_lines() {
    let e = moderation_entry(LogEntry {
        id: vec![0u8; 16],
        board_id: None,
        body_hash: vec![0xffu8; 32],
        reason: "spam_too_short".to_string(),
        decided_at: time::Date::from_calendar_date(2026, time::Month::May, 8).unwrap().to_julian_day(),
    });
    assert_eq!(e.id_short, "AAAAAAAA");
    assert_eq!(e.body_hash_short, "____________");
    assert_eq!(e.board_id, "—");
    assert_eq!(e.decided_at, "2026-05-08");
}

#[test]
fn small_facts() {
    assert_eq!(tombstone_body("spam"), "[removed: spam]");
    assert_eq!(Scope::Global.as_str(), "global");
    assert_eq!(Scope::Local.as_str(), "local");
    assert_eq!(min_interval(), 60);
    assert!(julian_day_valid(MIN_JULIAN_DAY) && julian_day_valid(MAX_JULIAN_DAY));
    assert!(!julian_day_valid(MAX_JULIAN_DAY + 1));
    assert!(julian_day_valid(today_utc()));
    assert_eq!(time::Date::from_julian_day(MAX_JULIAN_DAY).unwrap(), time::Date::from_calendar_date(9999, time::Month::December, 31).unwrap());
    assert_eq!(time::Date::from_julian_day(MIN_JULIAN_DAY).unwrap(), time::Date::from_calendar_date(-9999, time::Month::January, 1).unwrap());
}

#[test]
fn listed_posts_hide_what_they_should() {
    let own = [7u8; 32];
    let row = |removal: Option<&str>, origin: Option<Vec<u8>>| PostRow {
        id: vec![1u8; 16],
        seq: 3,
        body: "hello".to_string(),
        created_at: 2461000,
        pubkey: Some(vec![2u8; 32]),
        removal_reason: removal.map(|r| r.to_string()),
        origin_server_id: origin,
        origin_server_label: Some("peer".to_string()),
    };
    let removed = row(Some("spam"), None);
    assert!(shown_pubkey(&removed).is_none());
    let v = post_view(removed, &own, None);
    assert_eq!(v.body, "[removed: spam]");
    assert!(v.pubkey.is_none());
    assert!(v.origin_server_id.is_none());

    let local = post_view(row(None, Some(own.to_vec())), &own, Some(1));
    assert_eq!(local.body, "hello");
    assert_eq!(local.pubkey, Some(b64(&[2u8; 32])));
    assert_eq!(local.signer_first_seq, Some(1));
    assert!(local.origin_server_id.is_none() && local.origin_server_label.is_none());

    let remote = post_view(row(None, Some(vec![9u8; 32])), &own, None);
    assert_eq!(remote.origin_server_id, Some(b64(&[9u8; 32])));
    assert_eq!(remote.origin_server_label.as_deref(), Some("peer"));
    assert_eq!(remote.post_id, b64(&[1u8; 16]));
}

#[test]
fn invites_describe_their_room() {
    let i = invite_info_of(&vec![1u8; 16], &None, &Some(vec![vec![2u8; 32], vec![3u8; 32]]));
    assert_eq!(i.room_id, b64(&[1u8; 16]));
    assert!(i.origin_thread.is_none());
    assert!(i.restricted);
    assert_eq!(i.allowlist_thread_pubkeys, Some(vec![b64(&[2u8; 32]), b64(&[3u8; 32])]));
    let open = invite_info_of(&vec![1u8; 16], &Some(vec![4u8; 16]), &None);
    assert!(!open.restricted);
    assert_eq!(open.origin_thread, Some(b64(&[4u8; 16])));
}

#[test]
fn duplicates_count_only_when_no_rule_fired() {
    assert_eq!(with_duplicate_check(None, true), Some(Reason::SpamDuplicate));
    assert_eq!(with_duplicate_check(None, false), None);
    assert_eq!(with_duplicate_check(Some(Reason::MalwareLink), true), Some(Reason::MalwareLink));
}

#[test]
fn a_fresh_identity_round_trips_through_its_seed() {
    let id = Identity::generate();
    let again = Identity::from_seed(id.seed_bytes());
    assert_eq!(again.pubkey(), id.pubkey());
    assert_ne!(Identity::generate().pubkey(), id.pubkey());
}

#[test]
fn author_signatures_of_pulled_posts_verify_without_strict_mode() {
    let id = Identity::from_seed([43u8; 32]);
    let sig = id.sign(b"payload");
    assert_eq!(ed25519_verify(id.pubkey(), &sig, b"payload"), Ok(()));
    assert_eq!(ed25519_verify(id.pubkey(), &sig, b"other"), Err("verify failed"));
    let bad_point = (0u8..=255)
        .map(|b| {
            let mut k = [0u8; 32];
            k[0] = b;
            k[1] = 7;
            k
        })
        .find(|k| verify_server_signature(k, &sig, b"payload") == Err("bad server pubkey"))
        .expect("some 32 bytes are not a curve point");
    assert_eq!(ed25519_verify(&bad_point, &sig, b"payload"), Err("bad pubkey"));
}

#[test]
fn ring_keys_compare_as_byte_strings() {
    assert!(bytes_less(&[1, 2], &[1, 3]));
    assert!(bytes_less(&[1, 2], &[1, 2, 0]));
    assert!(!bytes_less(&[1, 2], &[1, 2]));
    assert!(!bytes_less(&[2], &[1, 9, 9]));
    assert!(!bytes_less(&[], &[]));
    assert!(bytes_less(&[], &[0]));
    let keys = [vec![3u8; 32], vec![1u8; 32], vec![3u8; 31], vec![]];
    for a in &keys {
        for b in &keys {
            assert_eq!(bytes_less(a, b), a < b);
        }
    }
}

#[test]
fn retention_sweeps_are_at_least_a_minute_apart() {
    assert_eq!(sweep_interval_secs(0), 60);
    assert_eq!(sweep_interval_secs(59), 60);
    assert_eq!(sweep_interval_secs(60), 60);
    assert_eq!(sweep_interval_secs(3600), 3600);
    assert_eq!(sweep_interval_secs(min_interval() as u64 - 1), min_interval() as u64);
}
