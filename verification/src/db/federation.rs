//! Federation peers and the outgoing event stream rows.

use crate::time::JulianDay;
use vstd::prelude::*;

verus! {

/// A federation peer as stored.
pub struct Peer {
    pub server_pubkey: Vec<u8>,
    pub endpoint: String,
    pub label: Option<String>,
    pub last_cursor: Option<Vec<u8>>,
    pub enabled: bool,
}

/// One locally originated post, as the event stream reads it.
pub struct PostStreamRow {
    pub board_id: String,
    pub thread_id: Vec<u8>,
    pub thread_origin_server_id: Option<Vec<u8>>,
    pub thread_title: String,
    pub origin_server_id: Vec<u8>,
    pub origin_post_id: Vec<u8>,
    pub body: String,
    pub created_at: JulianDay,
    pub author_pubkey: Option<Vec<u8>>,
    pub author_signature: Option<Vec<u8>>,
}

} // verus!
