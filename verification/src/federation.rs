//! Federation of the public forum: server identity, the signed event wire
//! format, the event-stream and peer-management endpoints' logic, and the
//! pull worker's decisions.

pub mod constitution;
pub mod encoding_laws;
pub mod events;
pub mod identity;
pub mod info;
pub mod pull;
pub mod route;

pub use identity::Identity;
