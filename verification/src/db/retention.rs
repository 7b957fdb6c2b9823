//! Retention: public threads and room messages older than their board's
//! or room's retention window are deleted; counts only are reported.

use vstd::prelude::*;

verus! {

/// How many rows one sweep deleted.
#[derive(Debug, Default, Clone, Copy)]
pub struct RetentionStats {
    pub threads_deleted: u64,
    pub room_messages_deleted: u64,
    pub request_nonces_deleted: u64,
}

/// Smallest sleep allowed between sweeps, in seconds.
pub fn min_interval() -> (secs: i64)
    ensures
        secs == 60,
{
    60
}

/// The sleep between sweeps for a requested interval in seconds: never
/// less than `min_interval()`, so a misconfigured caller cannot
/// busy-loop the database.
pub fn sweep_interval_secs(requested: u64) -> (secs: u64)
    ensures
        secs == if requested < 60 { 60 } else { requested },
        secs >= 60,
        requested >= 60 ==> secs == requested,
{
    let floor = min_interval();
    if requested < floor as u64 {
        floor as u64
    } else {
        requested
    }
}

/// Age past which a replay nonce is pruned, in seconds: ten times the
/// freshness window of signed requests.
pub fn nonce_retention() -> (secs: i64)
    ensures
        secs == 600,
{
    600
}

} // verus!
