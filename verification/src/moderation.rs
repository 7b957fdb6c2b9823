//! Public-content moderation: the deterministic pre-insert rules, the
//! pluggable classifier hook, and the verdict they produce.

use crate::hashing::{sha256, sha256_spec};
use vstd::prelude::*;

pub mod rules;
use vstd::utf8::encode_utf8;

verus! {

/// What to do with a submission.
#[derive(Debug, Clone, Copy, PartialEq, Eq, Structural)]
pub enum Verdict {
    Allow,
    Reject(Reason),
}

/// Short, stable, machine-readable reason codes.
#[derive(Debug, Clone, Copy, PartialEq, Eq, Structural)]
pub enum Reason {
    SpamDuplicate,
    SpamLinkDensity,
    SpamTooShort,
    MalwareLink,
    HarassmentOrHate,
    AiClassifier,
}

/// The code the public moderation log shows for each reason.
pub open spec fn reason_code(r: Reason) -> Seq<char> {
    match r {
        Reason::SpamDuplicate => "spam_duplicate"@,
        Reason::SpamLinkDensity => "spam_link_density"@,
        Reason::SpamTooShort => "spam_too_short"@,
        Reason::MalwareLink => "malware_link"@,
        Reason::HarassmentOrHate => "harassment_or_hate"@,
        Reason::AiClassifier => "ai_classifier"@,
    }
}

impl Reason {
    /// The stable code of this reason.
    pub fn code(&self) -> (c: &'static str)
        ensures
            c@ == reason_code(*self),
    {
        match self {
            Reason::SpamDuplicate => "spam_duplicate",
            Reason::SpamLinkDensity => "spam_link_density",
            Reason::SpamTooShort => "spam_too_short",
            Reason::MalwareLink => "malware_link",
            Reason::HarassmentOrHate => "harassment_or_hate",
            Reason::AiClassifier => "ai_classifier",
        }
    }
}

/// The hook a content classifier implements. `Some(reason)` rejects the
/// body, `None` allows it. A classifier is a function of the body: the
/// same body always gets the same answer.
pub trait Classifier {
    /// What the classifier answers for a body.
    spec fn classifies(&self, body: Seq<char>) -> Option<Reason>;

    fn classify(&self, body: &str) -> (r: Option<Reason>)
        ensures
            r == self.classifies(body@);
}

/// The default classifier: allows everything. No model runs until an
/// operator plugs one in.
pub struct NoopClassifier;

impl Classifier for NoopClassifier {
    open spec fn classifies(&self, body: Seq<char>) -> Option<Reason> {
        None
    }

    fn classify(&self, _body: &str) -> (r: Option<Reason>) {
        None
    }
}

/// The verdict of the full pipeline, given what the rules and the
/// classifier returned: a rule hit wins, then a classifier hit.
pub open spec fn verdict_spec(rules: Option<Reason>, classified: Option<Reason>) -> Verdict {
    match rules {
        Some(r) => Verdict::Reject(r),
        None => match classified {
            Some(r) => Verdict::Reject(r),
            None => Verdict::Allow,
        },
    }
}

/// Combines the rule outcome and the classifier outcome.
pub fn verdict_from(rules: Option<Reason>, classified: Option<Reason>) -> (v: Verdict)
    ensures
        v == verdict_spec(rules, classified),
{
    match rules {
        Some(r) => Verdict::Reject(r),
        None => match classified {
            Some(r) => Verdict::Reject(r),
            None => Verdict::Allow,
        },
    }
}

/// Runs the classifier stage after the rules: the classifier is consulted
/// only when no rule fired.
pub fn evaluate<C: Classifier + ?Sized>(rules: Option<Reason>, body: &str, cls: &C) -> (v: Verdict)
    ensures
        rules matches Some(r) ==> v == Verdict::Reject(r),
        rules is None ==> v == verdict_spec(None, cls.classifies(body@)),
{
    match rules {
        Some(r) => Verdict::Reject(r),
        None => {
            let classified = cls.classify(body);
            verdict_from(None, classified)
        },
    }
}

/// SHA-256 of a body, used for the moderation log and duplicate detection.
pub fn body_hash(body: &str) -> (h: [u8; 32])
    ensures
        h@ == sha256_spec(encode_utf8(body@)),
{
    sha256(body.as_bytes())
}

} // verus!
