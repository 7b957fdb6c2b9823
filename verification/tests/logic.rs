use lethe_server::error::AppError;
use lethe_server::ids::b64;
use lethe_server::logic::posts::{
    check_delete_fields, check_delete_owner, check_pow, check_reply_target, check_thread_gate, check_vouch_room,
    check_vouch_roster, decode_author_claim, decode_vouch, delete_outcome, expiry_date, thread_claim, CreatePostReq,
    CreateThreadReq, DeletePostReq, VouchPayload,
};
use lethe_server::logic::reports::{check_report_pow, check_report_reason, check_report_target};
use lethe_server::logic::rooms::{
    allowlist_applies, check_create_room, check_join_keys, check_join_proof_at, check_message, check_rekey_wraps,
    check_room_cap, check_wrap, check_wrap_coverage, decode_pubkey, rekey_error, replay_outcome, wrap_outcome,
    CreateRoomReq, JoinRoomReq, RekeyWrap, SendMessageReq, WrapKeyReq,
};
use lethe_server::logic::{check_fresh, check_window};

fn bad(r: Result<impl Sized, AppError>) -> &'static str {
    match r {
        Err(AppError::BadRequest(m)) => m,
        _ => panic!("expected a bad request"),
    }
}

fn forbidden(r: Result<impl Sized, AppError>) -> &'static str {
    match r {
        Err(AppError::Forbidden(m)) => m,
        _ => panic!("expected a refusal"),
    }
}

fn conflict(r: Result<impl Sized, AppError>) -> &'static str {
    match r {
        Err(AppError::Conflict(m)) => m,
        _ => panic!("expected a conflict"),
    }
}

fn thread_req() -> CreateThreadReq {
    CreateThreadReq {
        board_id: "general".to_string(),
        title: "a title".to_string(),
        body: "a body".to_string(),
        pow_nonce: b64(b"nonce"),
        thread_id: None,
        pubkey: None,
        signature: None,
        vouch: None,
        expires_in_days: None,
    }
}

#[test]
fn thread_gate_checks_lengths_then_pow() {
    let r = thread_req();
    assert_eq!(check_thread_gate(&r, 0).ok(), Some(b"nonce".to_vec()));
    let mut t = thread_req();
    t.title = String::new();
    assert_eq!(bad(check_thread_gate(&t, 0)), "title length");
    let mut t = thread_req();
    t.title = "x".repeat(257);
    assert_eq!(bad(check_thread_gate(&t, 0)), "title length");
    let mut t = thread_req();
    t.body = "x".repeat(16 * 1024 + 1);
    assert_eq!(bad(check_thread_gate(&t, 0)), "body length");
    let mut t = thread_req();
    t.pow_nonce = "***".to_string();
    assert_eq!(bad(check_thread_gate(&t, 0)), "pow_nonce b64");
    assert_eq!(bad(check_thread_gate(&thread_req(), 64)), "insufficient pow");
    assert_eq!(bad(check_pow(b"t", "b", &b64(b"n"), 250)), "insufficient pow");
}

#[test]
fn thread_identity_rules() {
    let c = thread_claim(&thread_req()).ok().expect("claim");
    assert_eq!(c.thread_id.len(), 16);
    assert!(c.author.is_none());

    let mut t = thread_req();
    t.thread_id = Some(b64(&[5u8; 16]));
    t.pubkey = Some(b64(&[1u8; 32]));
    t.signature = Some(b64(&[2u8; 64]));
    let c = thread_claim(&t).ok().expect("claim");
    assert_eq!(c.thread_id, vec![5u8; 16]);
    assert_eq!(c.author, Some((vec![1u8; 32], vec![2u8; 64])));

    let mut t = thread_req();
    t.pubkey = Some(b64(&[1u8; 32]));
    t.signature = Some(b64(&[2u8; 64]));
    assert_eq!(bad(thread_claim(&t)), "thread_id required when claiming OP identity");

    let mut t = thread_req();
    t.pubkey = Some(b64(&[1u8; 32]));
    assert_eq!(bad(thread_claim(&t)), "pubkey/signature must come together");

    let mut t = thread_req();
    t.thread_id = Some(b64(&[5u8; 15]));
    assert_eq!(bad(thread_claim(&t)), "thread_id length");

    let mut t = thread_req();
    t.vouch = Some(vouch());
    assert_eq!(bad(thread_claim(&t)), "thread_id required when vouching");

    assert_eq!(bad(decode_author_claim(&Some("!".to_string()), &Some(b64(&[1u8; 64])))), "pubkey b64");
    assert_eq!(bad(decode_author_claim(&Some(b64(&[1u8; 32])), &Some("!".to_string()))), "signature b64");
}

#[test]
fn expiry_counts_days_from_today() {
    assert!(matches!(expiry_date(2460000, None), Ok(None)));
    assert!(matches!(expiry_date(2460000, Some(30)), Ok(Some(2460030))));
    assert!(matches!(expiry_date(2460000, Some(3650)), Ok(Some(2463650))));
    assert_eq!(bad(expiry_date(2460000, Some(0))), "expires_in_days out of range");
    assert_eq!(bad(expiry_date(2460000, Some(3651))), "expires_in_days out of range");
    assert_eq!(bad(expiry_date(5373484, Some(1))), "expires_in_days");
}

#[test]
fn replies_check_body_then_thread_id() {
    let r = CreatePostReq { body: "hi there".to_string(), pow_nonce: b64(b"n"), pubkey: None, signature: None, vouch: None };
    assert_eq!(check_reply_target(&b64(&[1u8; 16]), &r).ok(), Some(vec![1u8; 16]));
    assert_eq!(bad(check_reply_target("!!", &r)), "thread_id b64");
    let e = CreatePostReq { body: String::new(), pow_nonce: b64(b"n"), pubkey: None, signature: None, vouch: None };
    assert_eq!(bad(check_reply_target("!!", &e)), "body length");
}

#[test]
fn deletes_need_the_author_key() {
    let req = DeletePostReq { pubkey: b64(&[1u8; 32]), sig: b64(&[2u8; 64]), ts: 0 };
    let f = check_delete_fields(&b64(&[3u8; 16]), &req).ok().expect("fields");
    assert_eq!((f.post_id.len(), f.pubkey.len(), f.sig.len()), (16, 32, 64));
    assert_eq!(bad(check_delete_fields(&b64(&[3u8; 15]), &req)), "post_id length");
    let short = DeletePostReq { pubkey: b64(&[1u8; 31]), sig: b64(&[2u8; 64]), ts: 0 };
    assert_eq!(bad(check_delete_fields(&b64(&[3u8; 16]), &short)), "pubkey length");
    let nosig = DeletePostReq { pubkey: b64(&[1u8; 32]), sig: "*".to_string(), ts: 0 };
    assert_eq!(bad(check_delete_fields(&b64(&[3u8; 16]), &nosig)), "sig b64");

    let k = vec![1u8; 32];
    assert!(matches!(check_delete_owner(&None, &k), Err(AppError::NotFound)));
    assert_eq!(forbidden(check_delete_owner(&Some(None), &k)), "anonymous posts cannot be self-deleted");
    assert_eq!(forbidden(check_delete_owner(&Some(Some(vec![9u8; 32])), &k)), "pubkey does not match the post author");
    assert!(check_delete_owner(&Some(Some(k.clone())), &k).is_ok());
    assert_eq!(conflict(delete_outcome(false)), "post is already removed");
    assert!(delete_outcome(true).is_ok());
}

fn vouch() -> VouchPayload {
    VouchPayload {
        room_id: b64(&[1u8; 16]),
        roster_epoch: 3,
        ring: vec![b64(&[2u8; 32]), b64(&[3u8; 32])],
        key_image: b64(&[4u8; 32]),
        c0: b64(&[5u8; 32]),
        s: vec![b64(&[6u8; 32]), b64(&[7u8; 32])],
        creator_sig: b64(&[8u8; 64]),
    }
}

#[test]
fn vouches_decode_and_match_the_roster() {
    let d = decode_vouch(&vouch()).ok().expect("decode");
    assert_eq!(d.ring, vec![vec![2u8; 32], vec![3u8; 32]]);
    assert_eq!(d.s.len(), 2);

    let mut v = vouch();
    v.s.pop();
    assert_eq!(bad(decode_vouch(&v)), "vouch ring size");
    let mut v = vouch();
    v.ring.clear();
    v.s.clear();
    assert_eq!(bad(decode_vouch(&v)), "vouch ring size");
    let mut v = vouch();
    v.ring = (0..51).map(|_| b64(&[2u8; 32])).collect();
    v.s = (0..51).map(|_| b64(&[2u8; 32])).collect();
    assert_eq!(bad(decode_vouch(&v)), "vouch ring size");
    let mut v = vouch();
    v.ring[1] = b64(&[3u8; 31]);
    assert_eq!(bad(decode_vouch(&v)), "vouch ring pubkey length");
    let mut v = vouch();
    v.ring[0] = "!".to_string();
    v.ring[1] = b64(&[3u8; 31]);
    assert_eq!(bad(decode_vouch(&v)), "vouch ring b64");
    let mut v = vouch();
    v.key_image = b64(&[4u8; 3]);
    assert_eq!(bad(decode_vouch(&v)), "vouch key_image");
    let mut v = vouch();
    v.s[0] = "!".to_string();
    assert_eq!(bad(decode_vouch(&v)), "vouch s");
    let mut v = vouch();
    v.room_id = b64(&[1u8; 8]);
    assert_eq!(bad(decode_vouch(&v)), "vouch room_id length");

    assert_eq!(bad(check_vouch_room(None, 3)), "vouch room not found");
    assert_eq!(forbidden(check_vouch_room(Some((false, 3)), 3)), "vouching is not enabled for that room");
    assert_eq!(conflict(check_vouch_room(Some((true, 4)), 3)), "vouch cites a stale roster epoch");
    assert!(check_vouch_room(Some((true, 3)), 3).is_ok());

    assert_eq!(conflict(check_vouch_roster(&None, &d)), "roster epoch missing");
    let roster = Some((vec![vec![2u8; 32], vec![3u8; 32]], vec![8u8; 64]));
    assert!(check_vouch_roster(&roster, &d).is_ok());
    let stale = Some((vec![vec![2u8; 32]], vec![8u8; 64]));
    assert_eq!(forbidden(check_vouch_roster(&stale, &d)), "vouch ring does not match the signed roster");
}

#[test]
fn report_reasons_are_trimmed_and_bounded() {
    assert_eq!(check_report_target(&b64(&[1u8; 16])).ok(), Some(vec![1u8; 16]));
    assert_eq!(bad(check_report_target(&b64(&[1u8; 17]))), "post_id length");
    assert_eq!(check_report_reason(&None).ok(), Some(None));
    assert_eq!(check_report_reason(&Some("   ".to_string())).ok(), Some(None));
    assert_eq!(check_report_reason(&Some("  spam \n".to_string())).ok(), Some(Some("spam".to_string())));
    assert_eq!(bad(check_report_reason(&Some("x".repeat(501)))), "reason length");
    assert!(check_report_reason(&Some(format!("  {}  ", "x".repeat(500)))).is_ok());
    assert!(check_report_pow(&[1u8; 16], &None, &b64(b"n"), 0).is_ok());
    assert_eq!(bad(check_report_pow(&[1u8; 16], &Some("r".to_string()), "!", 0)), "pow_nonce b64");
}

#[test]
fn signed_timestamps_must_be_within_a_minute() {
    assert!(check_window(1000, 940, "ts").is_ok());
    assert!(check_window(1000, 1060, "ts").is_ok());
    assert_eq!(bad(check_window(1000, 939, "ts")), "ts");
    assert_eq!(bad(check_window(1000, 1061, "ts")), "ts");
    assert_eq!(bad(check_window(i64::MAX, i64::MIN, "ts")), "ts");
    assert_eq!(bad(check_fresh(0, "ts outside ±60s window")), "ts outside ±60s window");
}

fn room_req() -> CreateRoomReq {
    CreateRoomReq {
        creator_box_pubkey: b64(&[1u8; 32]),
        creator_sig_pubkey: b64(&[2u8; 32]),
        wrapped_key_for_creator: b64(&[3u8; 80]),
        origin_thread: None,
        creator_thread_pubkey: None,
        provenance_sig: None,
        allowlist_thread_pubkeys: None,
    }
}

#[test]
fn room_creation_shapes() {
    let p = check_create_room(&room_req()).ok().expect("plan");
    assert!(p.origin_thread.is_none() && p.provenance.is_none());
    let mut r = room_req();
    r.origin_thread = Some(b64(&[4u8; 16]));
    assert!(check_create_room(&r).is_ok());
    r.creator_thread_pubkey = Some(b64(&[5u8; 32]));
    assert_eq!(bad(check_create_room(&r)), "creator_thread_pubkey and provenance_sig must come together with origin_thread");
    r.provenance_sig = Some(b64(&[6u8; 64]));
    let p = check_create_room(&r).ok().expect("plan");
    assert_eq!(p.provenance, Some((vec![5u8; 32], vec![6u8; 64])));
    r.provenance_sig = Some(b64(&[6u8; 63]));
    assert_eq!(bad(check_create_room(&r)), "provenance_sig length");
    let mut r = room_req();
    r.wrapped_key_for_creator = b64(&[3u8; 257]);
    assert_eq!(bad(check_create_room(&r)), "wrapped_key too large");
    let mut r = room_req();
    r.creator_sig_pubkey = b64(&[2u8; 33]);
    assert_eq!(bad(check_create_room(&r)), "creator_sig_pubkey");

    assert!(matches!(allowlist_applies(&None, false), Ok(false)));
    assert!(matches!(allowlist_applies(&Some(vec![]), false), Ok(false)));
    assert_eq!(bad(allowlist_applies(&Some(vec![b64(&[1u8; 32])]), false)), "allowlist requires origin_thread");
    assert!(matches!(allowlist_applies(&Some(vec![b64(&[1u8; 32])]), true), Ok(true)));
    assert_eq!(bad(decode_pubkey("AAAA", "k")), "k");
}

#[test]
fn restricted_invites_need_a_fresh_allowlisted_proof() {
    let allow = vec![vec![7u8; 32]];
    let req = JoinRoomReq {
        box_pubkey: b64(&[1u8; 32]),
        sig_pubkey: b64(&[2u8; 32]),
        proof_thread_pubkey: Some(b64(&[7u8; 32])),
        proof_ts: Some(1000),
        proof_sig: Some(b64(&[9u8; 64])),
    };
    assert!(check_join_keys(&req).is_ok());
    let (k, s, ts) = check_join_proof_at(&req, &allow, 1030).ok().expect("proof");
    assert_eq!((k, s.len(), ts), (vec![7u8; 32], 64, 1000));
    assert_eq!(bad(check_join_proof_at(&req, &allow, 1100)), "proof_ts outside ±60s window");
    assert_eq!(forbidden(check_join_proof_at(&req, &vec![vec![8u8; 32]], 1000)), "thread pubkey is not on this invite's allowlist");
    let mut r = JoinRoomReq { proof_ts: None, ..req };
    assert_eq!(forbidden(check_join_proof_at(&r, &allow, 1000)), "proof_ts required");
    r.proof_thread_pubkey = None;
    assert_eq!(forbidden(check_join_proof_at(&r, &allow, 1000)), "this invite is restricted; proof_thread_pubkey required");

    assert!(check_room_cap(false, 49).is_ok());
    assert_eq!(conflict(check_room_cap(false, 50)), "room is at the 50-member cap");
    assert!(check_room_cap(true, 50).is_ok());
}

#[test]
fn key_grants_and_messages() {
    let w = WrapKeyReq { for_box_pubkey: b64(&[1u8; 32]), inviter_box_pubkey: b64(&[2u8; 32]), wrapped_key: b64(&[3u8; 10]) };
    let g = check_wrap(&b64(&[9u8; 16]), &w).ok().expect("grant");
    assert_eq!(g.wrapped, vec![3u8; 10]);
    assert_eq!(bad(check_wrap("!", &w)), "room_id b64");
    assert_eq!(forbidden(wrap_outcome(false, true)), "inviter is not a member");
    assert_eq!(conflict(wrap_outcome(true, false)), "no pending member matches");
    assert!(wrap_outcome(true, true).is_ok());

    let m = SendMessageReq { sender_sig_pubkey: b64(&[1u8; 32]), nonce: b64(&[2u8; 24]), ciphertext: b64(&[3u8; 100]), sender_sig: b64(&[4u8; 64]) };
    assert!(check_message(&b64(&[9u8; 16]), &m).is_ok());
    let e = SendMessageReq { nonce: b64(&[2u8; 12]), ..m };
    assert_eq!(bad(check_message(&b64(&[9u8; 16]), &e)), "nonce length");
    let e = SendMessageReq { nonce: b64(&[2u8; 24]), ciphertext: String::new(), ..e };
    assert_eq!(bad(check_message(&b64(&[9u8; 16]), &e)), "ciphertext length");
    assert_eq!(conflict(replay_outcome(false)), "replay: this signature was already used");
}

#[test]
fn rekeys_cover_the_survivors() {
    let target = vec![9u8; 32];
    let ws = vec![
        RekeyWrap { for_box_pubkey: b64(&[1u8; 32]), wrapped_key: b64(&[5u8; 40]) },
        RekeyWrap { for_box_pubkey: b64(&[2u8; 32]), wrapped_key: b64(&[6u8; 40]) },
    ];
    let wraps = check_rekey_wraps(&ws, &target).ok().expect("wraps");
    assert_eq!(wraps[1], (vec![2u8; 32], vec![6u8; 40]));
    let bad_target = vec![RekeyWrap { for_box_pubkey: b64(&target), wrapped_key: b64(&[5u8; 40]) }];
    assert_eq!(bad(check_rekey_wraps(&bad_target, &target)), "cannot rewrap for the removed target");
    let empty = vec![RekeyWrap { for_box_pubkey: b64(&[1u8; 32]), wrapped_key: String::new() }];
    assert_eq!(bad(check_rekey_wraps(&empty, &target)), "wrapped_key length");

    let survivors = vec![vec![1u8; 32], vec![2u8; 32]];
    assert_eq!(check_wrap_coverage(&survivors, &wraps), Ok(()));
    assert_eq!(check_wrap_coverage(&survivors[..1].to_vec(), &wraps), Err("wrap count mismatch with surviving member count"));
    let others = vec![vec![1u8; 32], vec![3u8; 32]];
    assert_eq!(check_wrap_coverage(&others, &wraps), Err("wrap target is not a surviving member"));

    assert!(matches!(rekey_error(sqlx::Error::RowNotFound), AppError::Conflict("target is not a current member")));
    assert!(matches!(
        rekey_error(sqlx::Error::Protocol("wrap count mismatch".to_string())),
        AppError::BadRequest("new_wrapped_keys must cover every surviving member exactly")
    ));
    assert!(matches!(rekey_error(sqlx::Error::PoolTimedOut), AppError::Db(_)));
}

#[test]
fn coverage_refuses_a_survivor_named_twice() {
    // Two wraps for the same survivor match the count and name only
    // survivors, but leave the other survivor on the old key: refused.
    let survivors = vec![vec![1u8; 32], vec![2u8; 32]];
    let doubled = vec![(vec![1u8; 32], vec![5u8; 40]), (vec![1u8; 32], vec![6u8; 40])];
    assert_eq!(check_wrap_coverage(&survivors, &doubled), Err("wrap target is named twice"));
    let swapped = vec![(vec![2u8; 32], vec![5u8; 40]), (vec![1u8; 32], vec![6u8; 40])];
    assert_eq!(check_wrap_coverage(&survivors, &swapped), Ok(()));
}
