//! The front-page feed: threads across the feed's boards, optionally of
//! one category, newest activity or newest thread first.

use vstd::prelude::*;

verus! {

/// The boards the front-page feed shows, in tab order. The legacy
/// `general` board stays reachable at `/b/general` but has no tab.
pub open spec fn feed_boards_spec() -> Seq<Seq<char>> {
    seq!["government"@, "economy"@, "science_tech"@, "all_other"@]
}

/// The boards of the front-page feed.
pub fn feed_board_list() -> (l: Vec<&'static str>)
    ensures
        l@.len() == feed_boards_spec().len(),
        forall|i: int| 0 <= i < l@.len() ==> #[trigger] l@[i]@ == feed_boards_spec()[i],
{
    let l = vec!["government", "economy", "science_tech", "all_other"];
    assert forall|i: int| 0 <= i < l@.len() implies #[trigger] l@[i]@ == feed_boards_spec()[i] by {
        if i == 0 {} else if i == 1 {} else if i == 2 {} else {}
    }
    l
}

/// The texts of a list of string slices.
pub open spec fn str_views(l: Seq<&'static str>) -> Seq<Seq<char>> {
    l.map_values(|s: &'static str| s@)
}

/// The boards a feed query reads: all feed boards, the one board a known
/// category names, or none for an unknown category.
pub open spec fn boards_for_spec(category: Option<Seq<char>>) -> Seq<Seq<char>> {
    match category {
        None => feed_boards_spec(),
        Some(c) => if feed_boards_spec().contains(c) { seq![c] } else { Seq::empty() },
    }
}

/// The boards a feed query reads.
pub fn boards_for(category: Option<&str>) -> (l: Vec<&'static str>)
    ensures
        str_views(l@) == boards_for_spec(match category { Some(c) => Some(c@), None => None }),
{
    let all = feed_board_list();
    assert(str_views(all@) =~= feed_boards_spec());
    match category {
        None => all,
        Some(c) => {
            let mut i: usize = 0;
            while i < all.len()
                invariant
                    i <= all@.len(),
                    category == Some(c),
                    str_views(all@) == feed_boards_spec(),
                    forall|j: int| 0 <= j < i ==> feed_boards_spec()[j] != c@,
                decreases all@.len() - i,
            {
                if crate::bytes::str_eq(all[i], c) {
                    let mut out: Vec<&'static str> = Vec::new();
                    out.push(all[i]);
                    assert(feed_boards_spec()[i as int] == c@);
                    assert(feed_boards_spec().contains(c@));
                    assert(str_views(out@) =~= seq![c@]);
                    return out;
                }
                assert(str_views(all@)[i as int] == all@[i as int]@);
                i = i + 1;
            }
            let out: Vec<&'static str> = Vec::new();
            assert(!feed_boards_spec().contains(c@));
            assert(str_views(out@) =~= Seq::<Seq<char>>::empty());
            out
        },
    }
}

} // verus!
