//! Lethe server library: the verified core of an anonymous board and
//! end-to-end-encrypted room server.

pub mod bytes;
pub mod cli;
pub mod config;
pub mod crypto;
pub mod csp;
pub mod db;
pub mod decimal;
pub mod error;
pub mod federation;
pub mod hashing;
pub mod ids;
pub mod logic;
pub mod moderation;
pub mod pow;
pub mod routes;
pub mod text;
pub mod time;
