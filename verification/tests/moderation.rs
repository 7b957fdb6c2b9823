use lethe_server::logic::posts::reason_static;
use lethe_server::moderation::rules::{evaluate as rules_evaluate, has_blocklisted_host, is_link_density_spam, malware_host_blocklist};
use lethe_server::moderation::{body_hash, evaluate, verdict_from, NoopClassifier, Reason, Verdict};

#[test]
fn link_density_triggers_at_threshold() {
    let spam = "buy now https://a https://b https://c https://d";
    assert!(is_link_density_spam(spam));
}

#[test]
fn link_density_lets_a_chatty_post_through() {
    let ok =
        "I read a great article about anonymous publishing yesterday and \
         wanted to share what I thought about it https://example.com/post";
    assert!(!is_link_density_spam(ok));
}

#[test]
fn three_links_are_never_link_spam() {
    assert!(!is_link_density_spam("https://a https://b http://c"));
}

#[test]
fn reason_codes_are_stable() {
    assert_eq!(Reason::SpamDuplicate.code(), "spam_duplicate");
    assert_eq!(Reason::SpamLinkDensity.code(), "spam_link_density");
    assert_eq!(Reason::SpamTooShort.code(), "spam_too_short");
    assert_eq!(Reason::MalwareLink.code(), "malware_link");
    assert_eq!(Reason::HarassmentOrHate.code(), "harassment_or_hate");
    assert_eq!(Reason::AiClassifier.code(), "ai_classifier");
}

#[test]
fn rejection_messages_name_the_code() {
    assert_eq!(reason_static(Reason::SpamLinkDensity), "rejected: spam_link_density");
    assert_eq!(reason_static(Reason::AiClassifier), "rejected: ai_classifier");
}

#[test]
fn short_bodies_are_spam_before_anything_else() {
    assert_eq!(rules_evaluate("  hi  "), Some(Reason::SpamTooShort));
    assert_eq!(rules_evaluate("hey"), None);
    assert_eq!(
        rules_evaluate("buy now https://a https://b https://c https://d"),
        Some(Reason::SpamLinkDensity)
    );
}

#[test]
fn empty_blocklist_flags_nothing() {
    assert!(malware_host_blocklist().is_empty());
    assert!(!has_blocklisted_host("visit http://evil.example now"));
}

#[test]
fn rules_win_over_the_classifier() {
    assert_eq!(verdict_from(Some(Reason::SpamTooShort), Some(Reason::AiClassifier)), Verdict::Reject(Reason::SpamTooShort));
    assert_eq!(verdict_from(None, Some(Reason::AiClassifier)), Verdict::Reject(Reason::AiClassifier));
    assert_eq!(verdict_from(None, None), Verdict::Allow);
    assert_eq!(evaluate(None, "a fine post", &NoopClassifier), Verdict::Allow);
    assert_eq!(evaluate(Some(Reason::MalwareLink), "x", &NoopClassifier), Verdict::Reject(Reason::MalwareLink));
}

#[test]
fn body_hash_is_sha256() {
    let h = body_hash("abc");
    assert_eq!(
        lethe_server::federation::identity::hex(&h),
        "ba7816bf8f01cfea414140de5dae2223b00361a396177a9cb410ff61f20015ad"
    );
}
