//! Row and record types of the database layer. The queries themselves
//! run outside this library; these are the values they read and write.

pub mod feed;
pub mod federation;
pub mod post_removals;
pub mod posts;
pub mod retention;
pub mod admin_tokens;
pub mod moderation;
pub mod threads;
