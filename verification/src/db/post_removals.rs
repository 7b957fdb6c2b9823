//! Post-facto takedowns: a removal substitutes a tombstone for the body
//! in the read path without deleting the row.

use crate::time::JulianDay;
use vstd::prelude::*;

verus! {

/// Where a removal applies: this server only, or every peer too.
#[derive(Debug, Clone, Copy, PartialEq, Eq, Structural)]
pub enum Scope {
    Local,
    Global,
}

impl Scope {
    /// The stored form of the scope.
    pub fn as_str(self) -> (s: &'static str)
        ensures
            s@ == (match self {
                Scope::Local => "local"@,
                Scope::Global => "global"@,
            }),
    {
        match self {
            Scope::Local => "local",
            Scope::Global => "global",
        }
    }
}

/// A removal to record.
pub struct NewRemoval<'a> {
    pub post_id: &'a [u8],
    pub reason: &'a str,
    pub scope: Scope,
    pub origin_server_id: Option<&'a [u8]>,
    pub origin_signature: Option<&'a [u8]>,
    pub removed_at: JulianDay,
}

/// A stored removal.
pub struct RemovalRow {
    pub post_id: Vec<u8>,
    pub reason: String,
    pub scope: String,
    pub removed_at: JulianDay,
    pub origin_server_id: Option<Vec<u8>>,
    pub origin_signature: Option<Vec<u8>>,
}

} // verus!
