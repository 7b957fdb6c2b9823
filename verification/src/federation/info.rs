//! What `GET /api/federation/info` reports: the code and the moderation
//! floor a server runs, in one document.
//!
//! Peers and users can read the server key, the protocol and constitution
//! versions with the constitution's hash, the build's version and commit,
//! and a note on whether local moderation is at the floor or stricter.
//! The commit is checkable only by reading source; there is no build
//! attestation.

use super::events::PROTOCOL_VERSION;
use super::identity::{hex, hex_spec};
use crate::hashing::{sha256, sha256_spec};
use crate::ids::{b64, b64url_encode};
use vstd::prelude::*;

verus! {

/// What the build stamps into the binary.
pub struct BuildStamp {
    pub code_version: &'static str,
    pub code_commit: &'static str,
    /// Hex SHA-256 of the constitution text this build carries.
    pub constitution_hash: &'static str,
}

/// The document of `GET /api/federation/info`.
pub struct InfoResponse {
    pub server_pubkey: String,
    pub protocol_version: &'static str,
    pub constitution_version: &'static str,
    pub constitution_hash: &'static str,
    pub code_version: &'static str,
    pub code_commit: &'static str,
    pub local_moderation_summary: String,
    pub operator_label: Option<String>,
    /// SHA-256 of the signed release manifest the operator configured;
    /// `None` means no signed manifest, which peers that insist on
    /// attested releases refuse.
    pub release_manifest_sha256: Option<String>,
}

/// Builds the info document.
pub fn build(
    server_pubkey: &[u8; 32],
    local_moderation_summary: String,
    operator_label: Option<String>,
    release_manifest_sha256: Option<String>,
    stamp: &BuildStamp,
) -> (r: InfoResponse)
    ensures
        r.server_pubkey@ == b64url_encode(server_pubkey@),
        r.protocol_version@ == PROTOCOL_VERSION@,
        r.constitution_version@ == super::constitution::VERSION@,
        r.constitution_hash == stamp.constitution_hash,
        r.code_version == stamp.code_version,
        r.code_commit == stamp.code_commit,
        r.local_moderation_summary == local_moderation_summary,
        r.operator_label == operator_label,
        r.release_manifest_sha256 == release_manifest_sha256,
{
    InfoResponse {
        server_pubkey: b64(server_pubkey),
        protocol_version: PROTOCOL_VERSION,
        constitution_version: super::constitution::VERSION,
        constitution_hash: stamp.constitution_hash,
        code_version: stamp.code_version,
        code_commit: stamp.code_commit,
        local_moderation_summary,
        operator_label,
        release_manifest_sha256,
    }
}

/// The summary reported when the operator configured none.
pub fn moderation_summary(configured: Option<String>) -> (s: String)
    ensures
        configured matches Some(c) ==> s == c,
        configured is None ==> s@ == "baseline"@,
{
    match configured {
        Some(c) => c,
        None => String::from_str("baseline"),
    }
}

/// Lower-case hex SHA-256 of a file's bytes, as the release manifest is
/// identified.
pub fn manifest_sha256(bytes: &[u8]) -> (s: String)
    ensures
        s@ == hex_spec(sha256_spec(bytes@)),
{
    let d = sha256(bytes);
    hex(&d)
}

} // verus!
