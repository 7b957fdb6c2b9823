//! Persistent server identity (Ed25519 keypair) and verification of
//! signatures made by other servers' keys.

use crate::bytes::slice_to_array;
use crate::text::push_char;
use ed25519_dalek::Signer as _;
use vstd::prelude::*;

verus! {

/// Length of an identity seed file.
pub const SEED_LEN: usize = 32;

/// Whether `ed25519_dalek::VerifyingKey::from_bytes` accepts 32 bytes as
/// a compressed Edwards point.
pub uninterp spec fn ed25519_point_decodes(pubkey: Seq<u8>) -> bool;

/// Whether `VerifyingKey::verify_strict` accepts `sig` over `msg` for the
/// key decoded from `pubkey`.
pub uninterp spec fn ed25519_strict_accepts(pubkey: Seq<u8>, msg: Seq<u8>, sig: Seq<u8>) -> bool;

/// Whether `VerifyingKey::verify` (the `Verifier` impl, without the
/// strict checks) accepts `sig` over `msg` for the key decoded from
/// `pubkey`.
pub uninterp spec fn ed25519_accepts(pubkey: Seq<u8>, msg: Seq<u8>, sig: Seq<u8>) -> bool;

/// The public key `ed25519_dalek` derives from a 32-byte seed.
pub uninterp spec fn ed25519_public_of_seed(seed: Seq<u8>) -> Seq<u8>;

/// The Ed25519 signature over `msg` made with the key of a 32-byte seed.
pub uninterp spec fn ed25519_signature(seed: Seq<u8>, msg: Seq<u8>) -> Seq<u8>;

/// Which half of a strict verification rejected.
#[derive(Debug, Clone, Copy, PartialEq, Eq, Structural)]
pub enum Ed25519Rejection {
    /// The public key is not a valid point.
    Key,
    /// The key is valid but the signature does not verify.
    Signature,
}

/// Calls `VerifyingKey::from_bytes` and then `verify_strict` of
/// `ed25519_dalek`. Claimed: `Key` exactly when the point does not
/// decode, `Ok` exactly when it decodes and strict verification accepts;
/// both are functions of the bytes alone.
#[verifier::external_body]
pub(crate) fn ed25519_verify_strict(pubkey: &[u8; 32], sig: &[u8; 64], msg: &[u8]) -> (r: Result<(), Ed25519Rejection>)
    ensures
        match r {
            Ok(()) => ed25519_point_decodes(pubkey@) && ed25519_strict_accepts(pubkey@, msg@, sig@),
            Err(Ed25519Rejection::Key) => !ed25519_point_decodes(pubkey@),
            Err(Ed25519Rejection::Signature) => ed25519_point_decodes(pubkey@) && !ed25519_strict_accepts(pubkey@, msg@, sig@),
        },
{
    let vk = match ed25519_dalek::VerifyingKey::from_bytes(pubkey) {
        Ok(vk) => vk,
        Err(_) => return Err(Ed25519Rejection::Key),
    };
    vk.verify_strict(msg, &ed25519_dalek::Signature::from_bytes(sig)).map_err(|_| Ed25519Rejection::Signature)
}

/// Calls `VerifyingKey::from_bytes` and then `Verifier::verify` of
/// `ed25519_dalek`. Claimed: `Key` exactly when the point does not
/// decode, `Ok` exactly when it decodes and verification accepts; both
/// are functions of the bytes alone.
#[verifier::external_body]
pub(crate) fn ed25519_verify_plain(pubkey: &[u8; 32], sig: &[u8; 64], msg: &[u8]) -> (r: Result<(), Ed25519Rejection>)
    ensures
        match r {
            Ok(()) => ed25519_point_decodes(pubkey@) && ed25519_accepts(pubkey@, msg@, sig@),
            Err(Ed25519Rejection::Key) => !ed25519_point_decodes(pubkey@),
            Err(Ed25519Rejection::Signature) => ed25519_point_decodes(pubkey@) && !ed25519_accepts(pubkey@, msg@, sig@),
        },
{
    let vk = match ed25519_dalek::VerifyingKey::from_bytes(pubkey) {
        Ok(vk) => vk,
        Err(_) => return Err(Ed25519Rejection::Key),
    };
    ed25519_dalek::Verifier::verify(&vk, msg, &ed25519_dalek::Signature::from_bytes(sig)).map_err(|_| Ed25519Rejection::Signature)
}

/// Calls `SigningKey::from_bytes(seed).verifying_key().to_bytes()`.
/// Claimed: the result is the named public key of the seed, and it is
/// the compression of a real curve point, so it decodes again.
#[verifier::external_body]
fn ed25519_public_key(seed: &[u8; 32]) -> (pk: [u8; 32])
    ensures
        pk@ == ed25519_public_of_seed(seed@),
        ed25519_point_decodes(pk@),
{
    ed25519_dalek::SigningKey::from_bytes(seed).verifying_key().to_bytes()
}

/// Calls `SigningKey::from_bytes(seed).sign(msg).to_bytes()`. Claimed:
/// the (deterministic) signature is the named function of seed and message.
#[verifier::external_body]
fn ed25519_sign(seed: &[u8; 32], msg: &[u8]) -> (sig: [u8; 64])
    ensures
        sig@ == ed25519_signature(seed@, msg@),
{
    ed25519_dalek::SigningKey::from_bytes(seed).sign(msg).to_bytes()
}

/// This server's federation identity: the seed and the public key
/// derived from it.
pub struct Identity {
    pubkey: [u8; 32],
    seed: [u8; 32],
}

impl Identity {
    #[verifier::type_invariant]
    spec fn key_matches_seed(self) -> bool {
        &&& self.pubkey@ == ed25519_public_of_seed(self.seed@)
        &&& ed25519_point_decodes(self.pubkey@)
    }

    /// The secret seed the identity is derived from.
    pub closed spec fn seed_view(&self) -> Seq<u8> {
        self.seed@
    }

    /// The identity's public key.
    pub open spec fn public_key(&self) -> Seq<u8> {
        ed25519_public_of_seed(self.seed_view())
    }

    /// The identity of a 32-byte seed.
    pub fn from_seed(seed: [u8; 32]) -> (id: Identity)
        ensures
            id.seed_view() == seed@,
    {
        let pubkey = ed25519_public_key(&seed);
        Identity { pubkey, seed }
    }

    /// A fresh identity from a random seed, for a first boot. Whatever
    /// the seed, the identity's public key is derived from it and is a
    /// valid curve point that verifiers accept as a key.
    pub fn generate() -> (id: Identity)
        ensures
            ed25519_point_decodes(id.public_key()),
    {
        let id = Identity::from_seed(crate::ids::random_32());
        proof {
            use_type_invariant(&id);
        }
        id
    }

    /// The seed, for writing the key file.
    pub fn seed_bytes(&self) -> (s: [u8; 32])
        ensures
            s@ == self.seed_view(),
    {
        self.seed
    }

    /// The server's public key.
    pub fn pubkey(&self) -> (pk: &[u8; 32])
        ensures
            pk@ == self.public_key(),
            ed25519_point_decodes(pk@),
    {
        proof {
            use_type_invariant(self);
        }
        &self.pubkey
    }

    /// Signs `msg` with the server key.
    pub fn sign(&self, msg: &[u8]) -> (sig: [u8; 64])
        ensures
            sig@ == ed25519_signature(self.seed_view(), msg@),
    {
        ed25519_sign(&self.seed, msg)
    }
}

/// What `verify_server_signature` answers for a key, signature and message.
pub open spec fn server_signature_check(pubkey: Seq<u8>, sig: Seq<u8>, msg: Seq<u8>) -> Result<(), Seq<char>> {
    if pubkey.len() != 32 {
        Err("bad server pubkey"@)
    } else if sig.len() != 64 {
        Err("bad signature"@)
    } else if !ed25519_point_decodes(pubkey) {
        Err("bad server pubkey"@)
    } else if !ed25519_strict_accepts(pubkey, msg, sig) {
        Err("signature does not verify"@)
    } else {
        Ok(())
    }
}

/// Verifies an Ed25519 signature made by some peer's server key, in
/// strict mode (no malleable variants, no weak keys).
pub fn verify_server_signature(server_pubkey: &[u8], signature: &[u8], msg: &[u8]) -> (r: Result<(), &'static str>)
    ensures
        match r {
            Ok(()) => server_signature_check(server_pubkey@, signature@, msg@) == Ok::<(), Seq<char>>(()),
            Err(e) => server_signature_check(server_pubkey@, signature@, msg@) == Err::<(), Seq<char>>(e@),
        },
{
    let pk: [u8; 32] = match slice_to_array::<32>(server_pubkey) {
        Some(a) => a,
        None => return Err("bad server pubkey"),
    };
    let sig: [u8; 64] = match slice_to_array::<64>(signature) {
        Some(a) => a,
        None => return Err("bad signature"),
    };
    match ed25519_verify_strict(&pk, &sig, msg) {
        Ok(()) => Ok(()),
        Err(Ed25519Rejection::Key) => Err("bad server pubkey"),
        Err(Ed25519Rejection::Signature) => Err("signature does not verify"),
    }
}

/// The lowercase hexadecimal digit of a nibble.
pub open spec fn hex_digit(n: u8) -> char {
    if n < 10 { ((48 + n) as u8) as char } else { ((87 + n) as u8) as char }
}

/// Two lowercase hex digits per byte.
pub open spec fn hex_spec(bytes: Seq<u8>) -> Seq<char>
    decreases bytes.len(),
{
    if bytes.len() == 0 {
        Seq::empty()
    } else {
        seq![hex_digit(bytes[0] / 16), hex_digit(bytes[0] % 16)] + hex_spec(bytes.drop_first())
    }
}

fn nibble_char(n: u8) -> (c: char)
    requires
        n < 16,
    ensures
        c == hex_digit(n),
{
    if n < 10 { (48 + n) as char } else { (87 + n) as char }
}

proof fn lemma_hex_spec_push(bytes: Seq<u8>, i: int)
    requires
        0 <= i < bytes.len(),
    ensures
        hex_spec(bytes.take(i + 1)) == hex_spec(bytes.take(i)) + seq![hex_digit(bytes[i] / 16), hex_digit(bytes[i] % 16)],
    decreases i,
{
    if i == 0 {
        assert(bytes.take(1).drop_first() =~= Seq::<u8>::empty());
        assert(hex_spec(bytes.take(0)) =~= Seq::<char>::empty());
        assert(hex_spec(Seq::<u8>::empty()) =~= Seq::<char>::empty());
    } else {
        lemma_hex_spec_push(bytes.drop_first(), i - 1);
        assert(bytes.take(i + 1).drop_first() =~= bytes.drop_first().take(i));
        assert(bytes.take(i).drop_first() =~= bytes.drop_first().take(i - 1));
        assert(bytes.take(i + 1)[0] == bytes[0]);
        assert(bytes.take(i)[0] == bytes[0]);
        assert(bytes.drop_first()[i - 1] == bytes[i]);
    }
}

/// Lowercase hex encoding, used to show the public key in debug output.
pub fn hex(bytes: &[u8]) -> (s: String)
    ensures
        s@ == hex_spec(bytes@),
{
    let mut s = String::new();
    let mut i: usize = 0;
    while i < bytes.len()
        invariant
            i <= bytes@.len(),
            s@ == hex_spec(bytes@.take(i as int)),
        decreases bytes@.len() - i,
    {
        let b = bytes[i];
        proof {
            lemma_hex_spec_push(bytes@, i as int);
        }
        push_char(&mut s, nibble_char(b / 16));
        push_char(&mut s, nibble_char(b % 16));
        i = i + 1;
        assert(s@ =~= hex_spec(bytes@.take(i as int)));
    }
    assert(bytes@.take(i as int) =~= bytes@);
    s
}

impl Identity {
    /// How the identity shows in debug output: the public key only, never
    /// the seed.
    pub fn debug_text(&self) -> (s: String)
        ensures
            s@ == "Identity { pubkey: "@ + hex_spec(self.public_key()) + " }"@,
    {
        let pk = self.pubkey();
        let mut s = String::from_str("Identity { pubkey: ");
        let h = hex(pk);
        s.append(h.as_str());
        s.append(" }");
        s
    }
}

/// Why a seed file was refused.
#[derive(Debug, Clone, Copy, PartialEq, Eq, Structural)]
pub enum SeedFileProblem {
    /// Group or other permission bits are set.
    Insecure { mode: u32 },
    /// The file does not hold exactly 32 bytes.
    BadLength { actual: usize, expected: usize },
}

/// The checks a seed file must pass: owner-only permissions, then exactly
/// 32 bytes.
pub open spec fn seed_file_check(mode: u32, bytes: Seq<u8>) -> Result<Seq<u8>, SeedFileProblem> {
    if (mode & 0o777u32) & 0o077u32 != 0 {
        Err(SeedFileProblem::Insecure { mode: mode & 0o777u32 })
    } else if bytes.len() != SEED_LEN {
        Err(SeedFileProblem::BadLength { actual: bytes.len() as usize, expected: SEED_LEN })
    } else {
        Ok(bytes)
    }
}

/// Checks the permission bits and contents of a seed file and returns the
/// identity it holds.
pub fn identity_from_seed_file(mode: u32, bytes: &Vec<u8>) -> (r: Result<Identity, SeedFileProblem>)
    ensures
        match r {
            Ok(id) => seed_file_check(mode, bytes@) == Ok::<Seq<u8>, SeedFileProblem>(id.seed_view()),
            Err(e) => seed_file_check(mode, bytes@) == Err::<Seq<u8>, SeedFileProblem>(e),
        },
{
    let perms = mode & 0o777u32;
    if perms & 0o077u32 != 0 {
        return Err(SeedFileProblem::Insecure { mode: perms });
    }
    match slice_to_array::<32>(bytes.as_slice()) {
        Some(seed) => Ok(Identity::from_seed(seed)),
        None => Err(SeedFileProblem::BadLength { actual: bytes.len(), expected: SEED_LEN }),
    }
}

/// What a legacy `server_privkey` row yields: no row or a NULL column
/// means nothing to migrate; a 32-byte value is the seed; any other
/// length is refused with that length.
pub open spec fn legacy_seed_spec(row: Option<Option<Seq<u8>>>) -> Result<Option<Seq<u8>>, nat> {
    match row {
        Some(Some(seed)) => if seed.len() == SEED_LEN { Ok(Some(seed)) } else { Err(seed.len()) },
        _ => Ok(None),
    }
}

/// The bytes of a legacy row.
pub open spec fn legacy_row_view(row: Option<Option<Vec<u8>>>) -> Option<Option<Seq<u8>>> {
    match row {
        Some(Some(v)) => Some(Some(v@)),
        Some(None) => Some(None),
        None => None,
    }
}

/// Interprets the legacy seed column read from the database.
pub fn legacy_seed(row: Option<Option<Vec<u8>>>) -> (r: Result<Option<[u8; 32]>, usize>)
    ensures
        match r {
            Ok(Some(a)) => legacy_seed_spec(legacy_row_view(row)) == Ok::<Option<Seq<u8>>, nat>(Some(a@)),
            Ok(None) => legacy_seed_spec(legacy_row_view(row)) == Ok::<Option<Seq<u8>>, nat>(None),
            Err(n) => legacy_seed_spec(legacy_row_view(row)) == Err::<Option<Seq<u8>>, nat>(n as nat),
        },
{
    match row {
        Some(Some(seed)) => {
            let n = seed.len();
            match slice_to_array::<32>(seed.as_slice()) {
                Some(a) => Ok(Some(a)),
                None => Err(n),
            }
        },
        _ => Ok(None),
    }
}

} // verus!
