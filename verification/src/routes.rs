//! What the HTTP routes decide on their own: query defaults, the feed's
//! cursor, and how pages present stored rows.

pub mod feed;
pub mod pages;
pub mod posts;
