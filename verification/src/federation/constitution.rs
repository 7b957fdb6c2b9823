//! The identifier of the moderation constitution this server runs under.

use vstd::prelude::*;

verus! {

/// Identifier reported on the wire and in `/api/federation/info`.
pub const VERSION: &'static str = "v1";

} // verus!
