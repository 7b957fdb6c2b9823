//! Deterministic pre-insert rules.

use super::Reason;
use crate::text::{chars_of, is_ascii_ws, trim_spec, trimmed_chars};
use vstd::prelude::*;

verus! {

/// Bodies shorter than this many characters (after trimming) are junk.
pub const MIN_BODY_CHARS: usize = 3;

/// At least this many link tokens...
pub const LINK_DENSITY_LINK_COUNT: usize = 4;

/// ...and fewer than this many non-link characters make a post spam.
pub const LINK_DENSITY_TEXT_BUDGET: usize = 80;

/// One past the end of the whitespace-free run that starts at `i`.
pub open spec fn token_end(s: Seq<char>, i: int) -> int
    decreases s.len() - i,
{
    if i >= s.len() || i < 0 {
        if i < 0 { 0 } else { s.len() as int }
    } else if is_ascii_ws(s[i]) {
        i
    } else {
        token_end(s, i + 1)
    }
}

/// The tokens of `s[i..]` split on ASCII whitespace
/// (`str::split_ascii_whitespace`).
pub open spec fn tokens_from(s: Seq<char>, i: int) -> Seq<Seq<char>>
    decreases s.len() - i, 1int,
{
    if i < 0 || i >= s.len() {
        Seq::empty()
    } else if is_ascii_ws(s[i]) {
        tokens_from(s, i + 1)
    } else {
        let e = token_end(s, i);
        if e <= i || e > s.len() {
            Seq::empty()
        } else {
            seq![s.subrange(i, e)] + tokens_from(s, e)
        }
    }
}

/// The whitespace-separated tokens of `s`.
pub open spec fn tokens(s: Seq<char>) -> Seq<Seq<char>> {
    tokens_from(s, 0)
}

pub open spec fn starts_with(t: Seq<char>, p: Seq<char>) -> bool {
    t.len() >= p.len() && t.subrange(0, p.len() as int) == p
}

pub open spec fn http_prefix() -> Seq<char> {
    seq!['h', 't', 't', 'p', ':', '/', '/']
}

pub open spec fn https_prefix() -> Seq<char> {
    seq!['h', 't', 't', 'p', 's', ':', '/', '/']
}

/// A token that looks like a URL.
pub open spec fn is_link(t: Seq<char>) -> bool {
    starts_with(t, http_prefix()) || starts_with(t, https_prefix())
}

/// A token counts as a link exactly when it begins with `http://` or
/// with `https://`; no other token does.
pub proof fn lemma_links_are_http_or_https(t: Seq<char>)
    ensures
        is_link(t) <==> (
            (t.len() >= 7 && t[0] == 'h' && t[1] == 't' && t[2] == 't' && t[3] == 'p' && t[4] == ':' && t[5] == '/' && t[6] == '/')
            || (t.len() >= 8 && t[0] == 'h' && t[1] == 't' && t[2] == 't' && t[3] == 'p' && t[4] == 's' && t[5] == ':' && t[6] == '/' && t[7] == '/')
        ),
{
    if t.len() >= 7 && t[0] == 'h' && t[1] == 't' && t[2] == 't' && t[3] == 'p' && t[4] == ':' && t[5] == '/' && t[6] == '/' {
        assert(t.subrange(0, 7) =~= http_prefix());
    }
    if t.len() >= 8 && t[0] == 'h' && t[1] == 't' && t[2] == 't' && t[3] == 'p' && t[4] == 's' && t[5] == ':' && t[6] == '/' && t[7] == '/' {
        assert(t.subrange(0, 8) =~= https_prefix());
    }
}

/// How many of the tokens are links.
pub open spec fn link_count(ts: Seq<Seq<char>>) -> nat
    decreases ts.len(),
{
    if ts.len() == 0 {
        0
    } else {
        (if is_link(ts[0]) { 1nat } else { 0nat }) + link_count(ts.drop_first())
    }
}

/// How many characters the non-link tokens hold.
pub open spec fn text_chars(ts: Seq<Seq<char>>) -> nat
    decreases ts.len(),
{
    if ts.len() == 0 {
        0
    } else {
        (if is_link(ts[0]) { 0nat } else { ts[0].len() }) + text_chars(ts.drop_first())
    }
}

/// The link-density rule: many links and little else.
pub open spec fn link_density_spam(body: Seq<char>) -> bool {
    link_count(tokens(body)) >= LINK_DENSITY_LINK_COUNT
        && text_chars(tokens(body)) < LINK_DENSITY_TEXT_BUDGET
}

proof fn lemma_token_end(s: Seq<char>, i: int)
    requires
        0 <= i <= s.len(),
    ensures
        i <= token_end(s, i) <= s.len(),
        forall|k: int| i <= k < token_end(s, i) ==> !is_ascii_ws(s[k]),
        token_end(s, i) < s.len() ==> is_ascii_ws(s[token_end(s, i)]),
    decreases s.len() - i,
{
    if i < s.len() && !is_ascii_ws(s[i]) {
        lemma_token_end(s, i + 1);
    }
}

proof fn lemma_counts_cons(t: Seq<char>, rest: Seq<Seq<char>>)
    ensures
        link_count(seq![t] + rest) == (if is_link(t) { 1nat } else { 0nat }) + link_count(rest),
        text_chars(seq![t] + rest) == (if is_link(t) { 0nat } else { t.len() }) + text_chars(rest),
{
    assert((seq![t] + rest).drop_first() =~= rest);
}

fn has_prefix(t: &Vec<char>, start: usize, end: usize, p: &[char]) -> (r: bool)
    requires
        start <= end <= t@.len(),
    ensures
        r == starts_with(t@.subrange(start as int, end as int), p@),
{
    if end - start < p.len() {
        return false;
    }
    let mut k: usize = 0;
    while k < p.len()
        invariant
            k <= p@.len(),
            start + p@.len() <= end <= t@.len(),
            forall|m: int| 0 <= m < k ==> t@[start + m] == p@[m],
        decreases p@.len() - k,
    {
        if t[start + k] != p[k] {
            assert(t@.subrange(start as int, end as int).subrange(0, p@.len() as int)[k as int] != p@[k as int]);
            return false;
        }
        k = k + 1;
    }
    assert(t@.subrange(start as int, end as int).subrange(0, p@.len() as int) =~= p@);
    true
}

/// Whether the body has many links and almost no other text.
pub fn is_link_density_spam(body: &str) -> (spam: bool)
    ensures
        spam == link_density_spam(body@),
{
    let s = chars_of(body);
    let n = s.len();
    let http: [char; 7] = ['h', 't', 't', 'p', ':', '/', '/'];
    let https: [char; 8] = ['h', 't', 't', 'p', 's', ':', '/', '/'];
    assert(http@ =~= http_prefix());
    assert(https@ =~= https_prefix());
    let mut links: usize = 0;
    let mut text: usize = 0;
    let mut i: usize = 0;
    while i < n
        invariant
            n == s@.len(),
            s@ == body@,
            i <= n,
            http@ == http_prefix(),
            https@ == https_prefix(),
            links + link_count(tokens_from(s@, i as int)) == link_count(tokens(s@)),
            text + text_chars(tokens_from(s@, i as int)) == text_chars(tokens(s@)),
            links <= i,
            text <= i,
        decreases n - i,
    {
        if is_ascii_whitespace(s[i]) {
            i = i + 1;
        } else {
            let start = i;
            let mut j = i;
            while j < n && !is_ascii_whitespace(s[j])
                invariant
                    n == s@.len(),
                    start <= j <= n,
                    token_end(s@, start as int) == token_end(s@, j as int),
                decreases n - j,
            {
                j = j + 1;
            }
            proof {
                lemma_token_end(s@, start as int);
                lemma_counts_cons(s@.subrange(start as int, j as int), tokens_from(s@, j as int));
            }
            let link = has_prefix(&s, start, j, &http) || has_prefix(&s, start, j, &https);
            if link {
                links = links + 1;
            } else {
                text = text + (j - start);
            }
            i = j;
        }
    }
    links >= LINK_DENSITY_LINK_COUNT && text < LINK_DENSITY_TEXT_BUDGET
}

fn is_ascii_whitespace(c: char) -> (r: bool)
    ensures
        r == is_ascii_ws(c),
{
    c == ' ' || c == '\t' || c == '\n' || c == '\x0C' || c == '\r'
}

/// ASCII-lowercase of one character (`char::to_ascii_lowercase`).
pub open spec fn ascii_lower(c: char) -> char {
    if 'A' <= c && c <= 'Z' { ((c as u32) + 32) as char } else { c }
}

/// ASCII-lowercase of a string (`str::to_ascii_lowercase`).
pub open spec fn ascii_lower_seq(s: Seq<char>) -> Seq<char> {
    Seq::new(s.len(), |i: int| ascii_lower(s[i]))
}

/// Whether `needle` occurs in `hay` as a contiguous run.
pub open spec fn contains_run(hay: Seq<char>, needle: Seq<char>) -> bool {
    exists|k: int| 0 <= k && k + needle.len() <= hay.len() && #[trigger] hay.subrange(k, k + needle.len()) == needle
}

/// Host substrings that always reject. Empty by default; operators extend it.
pub open spec fn malware_host_blocklist_spec() -> Seq<Seq<char>> {
    Seq::empty()
}

/// The host blocklist.
pub fn malware_host_blocklist() -> (list: Vec<&'static str>)
    ensures
        list@.len() == malware_host_blocklist_spec().len(),
        forall|i: int| 0 <= i < list@.len() ==> list@[i]@ == malware_host_blocklist_spec()[i],
{
    Vec::new()
}

/// The blocklist rule: the lowercased body contains a listed host.
pub open spec fn blocklisted(body: Seq<char>) -> bool {
    exists|i: int| 0 <= i < malware_host_blocklist_spec().len()
        && contains_run(ascii_lower_seq(body), #[trigger] malware_host_blocklist_spec()[i])
}

fn to_ascii_lower(c: char) -> (r: char)
    ensures
        r == ascii_lower(c),
{
    if 'A' <= c && c <= 'Z' {
        let b: u8 = (c as u8) + 32;
        b as char
    } else {
        c
    }
}

pub(crate) fn lowercase_chars(s: &Vec<char>) -> (r: Vec<char>)
    ensures
        r@ == ascii_lower_seq(s@),
{
    let mut r: Vec<char> = Vec::new();
    let mut i: usize = 0;
    while i < s.len()
        invariant
            i <= s@.len(),
            r@ == ascii_lower_seq(s@).take(i as int),
        decreases s@.len() - i,
    {
        r.push(to_ascii_lower(s[i]));
        i = i + 1;
        assert(r@ =~= ascii_lower_seq(s@).take(i as int));
    }
    assert(r@ =~= ascii_lower_seq(s@));
    r
}

fn run_at(hay: &Vec<char>, k: usize, needle: &Vec<char>) -> (r: bool)
    requires
        k + needle@.len() <= hay@.len(),
    ensures
        r == (hay@.subrange(k as int, k + needle@.len()) == needle@),
{
    let hay_len = hay.len();
    let mut m: usize = 0;
    while m < needle.len()
        invariant
            hay_len == hay@.len(),
            m <= needle@.len(),
            k + needle@.len() <= hay@.len(),
            forall|q: int| 0 <= q < m ==> hay@[k + q] == needle@[q],
        decreases needle@.len() - m,
    {
        assert(k + m < hay@.len());
        let idx = k + m;
        if hay[idx] != needle[m] {
            assert(hay@.subrange(k as int, k + needle@.len())[m as int] != needle@[m as int]);
            return false;
        }
        m = m + 1;
    }
    assert(hay@.subrange(k as int, k + needle@.len()) =~= needle@);
    true
}

fn contains_chars(hay: &Vec<char>, needle: &Vec<char>) -> (r: bool)
    ensures
        r == contains_run(hay@, needle@),
{
    if needle.len() > hay.len() {
        return false;
    }
    let last = hay.len() - needle.len();
    let mut k: usize = 0;
    while k < last
        invariant
            needle@.len() <= hay@.len(),
            last == hay@.len() - needle@.len(),
            k <= last,
            forall|q: int| 0 <= q < k ==> #[trigger] hay@.subrange(q, q + needle@.len()) != needle@,
        decreases last - k,
    {
        if run_at(hay, k, needle) {
            return true;
        }
        k = k + 1;
    }
    if run_at(hay, last, needle) {
        return true;
    }
    proof {
        assert forall|q: int| 0 <= q && q + needle@.len() <= hay@.len() implies
            #[trigger] hay@.subrange(q, q + needle@.len()) != needle@ by {
            assert(q <= k);
        }
    }
    false
}

/// Whether the lowercased body contains a blocklisted host.
pub fn has_blocklisted_host(body: &str) -> (hit: bool)
    ensures
        hit == blocklisted(body@),
{
    let list = malware_host_blocklist();
    if list.len() == 0 {
        return false;
    }
    let lower = lowercase_chars(&chars_of(body));
    let mut i: usize = 0;
    while i < list.len()
        invariant
            i <= list@.len(),
            list@.len() == malware_host_blocklist_spec().len(),
            forall|q: int| 0 <= q < list@.len() ==> list@[q]@ == malware_host_blocklist_spec()[q],
            lower@ == ascii_lower_seq(body@),
            forall|q: int| 0 <= q < i ==> !contains_run(lower@, malware_host_blocklist_spec()[q]),
        decreases list@.len() - i,
    {
        let h = chars_of(list[i]);
        if contains_chars(&lower, &h) {
            return true;
        }
        i = i + 1;
    }
    false
}

/// The severity and category bits of `rustrict`'s analysis of a text.
pub uninterp spec fn rustrict_analysis(text: Seq<char>) -> u32;

/// Calls `rustrict::Censor::from_str(body).analyze()` and returns the
/// bits of the resulting `Type`. Claimed: the bits are a function of the
/// text alone (the default word list, no customisation).
#[verifier::external_body]
#[allow(deprecated)]
fn censor_analysis_bits(body: &str) -> (bits: u32)
    ensures
        bits == rustrict_analysis(body@),
{
    rustrict::Censor::from_str(body).analyze().bits()
}

/// `rustrict::Type::SEVERE`: the high-severity bit of every category.
pub const TYPE_SEVERE: u32 = 0b0_100_100_100_100_100_100;
/// `rustrict::Type::OFFENSIVE`: slurs and hate speech, any severity.
pub const TYPE_OFFENSIVE: u32 = 0b0_000_000_000_000_111_000;
/// `rustrict::Type::MEAN`: targeted harassment, any severity.
pub const TYPE_MEAN: u32 = 0b0_000_000_111_000_000_000;

/// Severe, and offensive or mean (`Type::is` tests for a shared bit).
pub open spec fn severe_harassment_bits(bits: u32) -> bool {
    (bits & TYPE_SEVERE) != 0 && ((bits & TYPE_OFFENSIVE) != 0 || (bits & TYPE_MEAN) != 0)
}

/// The harassment rule: `rustrict` rates the body severe and offensive
/// or mean. Profanity alone passes.
pub fn is_severe_harassment(body: &str) -> (hit: bool)
    ensures
        hit == severe_harassment_bits(rustrict_analysis(body@)),
{
    let bits = censor_analysis_bits(body);
    (bits & TYPE_SEVERE) != 0 && ((bits & TYPE_OFFENSIVE) != 0 || (bits & TYPE_MEAN) != 0)
}

/// The outcome of the rules that need no database, in the order the
/// pipeline applies them.
pub open spec fn static_rules(body: Seq<char>) -> Option<Reason> {
    if trim_spec(body).len() < MIN_BODY_CHARS {
        Some(Reason::SpamTooShort)
    } else if blocklisted(body) {
        Some(Reason::MalwareLink)
    } else if link_density_spam(body) {
        Some(Reason::SpamLinkDensity)
    } else if severe_harassment_bits(rustrict_analysis(body)) {
        Some(Reason::HarassmentOrHate)
    } else {
        None
    }
}

/// Runs the deterministic rules. The remaining rule, a duplicate of a
/// post in the same board within 24 hours, needs the database and is
/// checked by the caller only when this returns `None`.
pub fn evaluate(body: &str) -> (r: Option<Reason>)
    ensures
        r == static_rules(body@),
{
    let trimmed = trimmed_chars(&chars_of(body));
    if trimmed.len() < MIN_BODY_CHARS {
        return Some(Reason::SpamTooShort);
    }
    if has_blocklisted_host(body) {
        return Some(Reason::MalwareLink);
    }
    if is_link_density_spam(body) {
        return Some(Reason::SpamLinkDensity);
    }
    if is_severe_harassment(body) {
        return Some(Reason::HarassmentOrHate);
    }
    None
}

/// The rules' outcome once the database has said whether the body
/// repeats a post of the same board from the last 24 hours: a static rule
/// wins; otherwise a repeat is `SpamDuplicate`.
pub open spec fn rules_outcome_spec(static_outcome: Option<Reason>, duplicate: bool) -> Option<Reason> {
    match static_outcome {
        Some(r) => Some(r),
        None => if duplicate { Some(Reason::SpamDuplicate) } else { None },
    }
}

/// Completes the rules with the duplicate check.
pub fn with_duplicate_check(static_outcome: Option<Reason>, duplicate: bool) -> (r: Option<Reason>)
    ensures
        r == rules_outcome_spec(static_outcome, duplicate),
{
    match static_outcome {
        Some(r) => Some(r),
        None => if duplicate { Some(Reason::SpamDuplicate) } else { None },
    }
}

} // verus!
