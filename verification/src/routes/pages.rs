//! What the server-rendered pages show. Each page loads one script from
//! `/static/js`; the strict content security policy forbids inline
//! script, so the pages themselves carry data only.

use crate::db::moderation::LogEntry;
use crate::federation::events::{format_date, iso_date_text};
use crate::ids::{b64, b64url_encode};
use crate::text::{chars_of, push_char};
use crate::time::julian_day_in_range;
use vstd::prelude::*;

verus! {

/// Query of the room-creation page: the thread it starts from, if any.
pub struct RoomNewQuery {
    pub from: Option<String>,
}

/// The thread a room-creation page starts from; empty for none.
pub fn room_create_from(q: RoomNewQuery) -> (from: String)
    ensures
        q.from matches Some(f) ==> from == f,
        q.from is None ==> from@.len() == 0,
{
    match q.from {
        Some(f) => f,
        None => String::new(),
    }
}

/// Query of the front page.
pub struct FeedPageQuery {
    pub cat: Option<String>,
    pub sort: Option<String>,
}

/// A feed tab: its category slug and label.
pub struct CategoryEntry {
    pub slug: String,
    pub label: &'static str,
}

/// The feed tabs, in order, as `(slug, label)`.
pub open spec fn categories_spec() -> Seq<(Seq<char>, Seq<char>)> {
    seq![
        ("government"@, "Government"@),
        ("economy"@, "Economy"@),
        ("science_tech"@, "Science & Tech"@),
        ("all_other"@, "All other"@),
    ]
}

/// The feed tabs.
pub fn categories() -> (c: Vec<CategoryEntry>)
    ensures
        c@.len() == categories_spec().len(),
        forall|i: int| 0 <= i < c@.len() ==> (#[trigger] c@[i].slug@, c@[i].label@) == categories_spec()[i],
{
    let mut c: Vec<CategoryEntry> = Vec::new();
    c.push(CategoryEntry { slug: String::from_str("government"), label: "Government" });
    c.push(CategoryEntry { slug: String::from_str("economy"), label: "Economy" });
    c.push(CategoryEntry { slug: String::from_str("science_tech"), label: "Science & Tech" });
    c.push(CategoryEntry { slug: String::from_str("all_other"), label: "All other" });
    assert forall|i: int| 0 <= i < c@.len() implies (#[trigger] c@[i].slug@, c@[i].label@) == categories_spec()[i] by {
        if i == 0 {} else if i == 1 {} else if i == 2 {} else {}
    }
    c
}

/// The selected tab: the requested category when it is a tab's slug,
/// else empty (all categories).
pub open spec fn selected_category_spec(cat: Option<Seq<char>>) -> Seq<char> {
    match cat {
        Some(c) => if exists|i: int| 0 <= i < categories_spec().len() && categories_spec()[i].0 == c { c } else { Seq::empty() },
        None => Seq::empty(),
    }
}

/// The selected tab of the front page.
pub fn selected_category(cat: Option<String>) -> (s: String)
    ensures
        s@ == selected_category_spec(match cat { Some(c) => Some(c@), None => None }),
{
    let c = match cat {
        Some(c) => c,
        None => return String::new(),
    };
    let cats = categories();
    let mut i: usize = 0;
    while i < cats.len()
        invariant
            i <= cats@.len(),
            cat == Some(c),
            cats@.len() == categories_spec().len(),
            forall|k: int| 0 <= k < cats@.len() ==> (#[trigger] cats@[k].slug@, cats@[k].label@) == categories_spec()[k],
            forall|k: int| 0 <= k < i ==> categories_spec()[k].0 != c@,
        decreases cats@.len() - i,
    {
        if crate::bytes::str_eq(cats[i].slug.as_str(), c.as_str()) {
            assert((cats@[i as int].slug@, cats@[i as int].label@) == categories_spec()[i as int]);
            return c;
        }
        assert((cats@[i as int].slug@, cats@[i as int].label@) == categories_spec()[i as int]);
        i = i + 1;
    }
    String::new()
}

/// The selected ordering: `newest` when asked for, else `last_comment`.
pub fn selected_sort(sort: Option<&str>) -> (s: &'static str)
    ensures
        (sort matches Some(x) && x@ == "newest"@) ==> s@ == "newest"@,
        !(sort matches Some(x) && x@ == "newest"@) ==> s@ == "last_comment"@,
{
    match sort {
        Some(x) => {
            if crate::bytes::str_eq(x, "newest") {
                "newest"
            } else {
                "last_comment"
            }
        },
        None => "last_comment",
    }
}

/// One line of the public moderation log page.
pub struct ModerationEntry {
    pub id_short: String,
    pub board_id: String,
    pub body_hash_short: String,
    pub reason: String,
    pub decided_at: String,
}

fn prefix(s: &String, n: usize) -> (p: String)
    requires
        n <= s@.len(),
    ensures
        p@ == s@.take(n as int),
{
    let v = chars_of(s.as_str());
    let mut out = String::new();
    let mut i: usize = 0;
    while i < n
        invariant
            i <= n <= v@.len(),
            out@ == v@.take(i as int),
        decreases n - i,
    {
        push_char(&mut out, v[i]);
        i = i + 1;
        assert(out@ =~= v@.take(i as int));
    }
    out
}

/// How the moderation log shows a decision: the first 8 characters of the
/// id and 12 of the body hash in base64, the board (`—` for none), the
/// reason, and the day.
pub fn moderation_entry(r: LogEntry) -> (e: ModerationEntry)
    requires
        r.id@.len() == 16,
        r.body_hash@.len() == 32,
        julian_day_in_range(r.decided_at as int),
    ensures
        e.id_short@ == b64url_encode(r.id@).take(8),
        e.body_hash_short@ == b64url_encode(r.body_hash@).take(12),
        r.board_id matches Some(b) ==> e.board_id == b,
        r.board_id is None ==> e.board_id@ == "—"@,
        e.reason == r.reason,
        e.decided_at@ == iso_date_text(r.decided_at as int),
{
    let id_text = b64(r.id.as_slice());
    let hash_text = b64(r.body_hash.as_slice());
    let id_short = prefix(&id_text, 8);
    let body_hash_short = prefix(&hash_text, 12);
    let board_id = match r.board_id {
        Some(b) => b,
        None => String::from_str("—"),
    };
    ModerationEntry { id_short, board_id, body_hash_short, reason: r.reason, decided_at: format_date(r.decided_at) }
}

} // verus!
