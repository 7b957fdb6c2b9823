//! Thread listing rows.

use vstd::prelude::*;

verus! {

/// A thread as the board page lists it.
pub struct ThreadListItem {
    pub id: Vec<u8>,
    pub title: String,
}

} // verus!
