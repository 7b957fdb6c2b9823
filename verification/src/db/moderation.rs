//! The public moderation log.

use crate::time::JulianDay;
use vstd::prelude::*;

verus! {

/// One moderation decision: which board, the body's hash, the reason code.
pub struct LogEntry {
    pub id: Vec<u8>,
    pub board_id: Option<String>,
    pub body_hash: Vec<u8>,
    pub reason: String,
    pub decided_at: JulianDay,
}

} // verus!
