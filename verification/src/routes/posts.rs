//! Query of the post listing.

use vstd::prelude::*;

verus! {

/// Query of `GET /api/threads/:id/posts`: posts after `since_seq`
/// (0, the default, lists from the start).
pub struct ListQuery {
    pub since_seq: i32,
}

impl Default for ListQuery {
    fn default() -> (q: Self)
        ensures
            q.since_seq == 0,
    {
        ListQuery { since_seq: 0 }
    }
}

} // verus!
