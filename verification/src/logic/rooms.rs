//! Room logic: provenance, member-only writes, opaque blob storage. The
//! server never sees plaintext or an unwrapped room key; it checks the
//! shape of what clients send and who may send it.

use super::{b64_field, check_window, decode_field, decode_sized, in_window, opt_text, sized_field, unix_now};
use super::posts::{byte_lists, texts};
use crate::error::{AppError, AppErrorView};
use vstd::prelude::*;

verus! {

/// Length of every public key.
pub const PUBKEY_LEN: usize = 32;

/// Length of every signature.
pub const SIG_LEN: usize = 64;

/// Length of a message nonce.
pub const NONCE_LEN: usize = 24;

/// Largest message ciphertext, in bytes.
pub const MAX_CIPHERTEXT: usize = 65536;

/// Largest wrapped room key, in bytes.
pub const MAX_WRAPPED_KEY: usize = 256;

/// Most members a room holds at once. Removed members do not count;
/// joining again with the same box key does not add one.
pub const MAX_ROOM_MEMBERS: i64 = 50;

/// A public key field: 32 bytes of base64, else `400 label`.
pub open spec fn pubkey_field(text: Seq<char>, label: Seq<char>) -> Result<Seq<u8>, AppErrorView> {
    sized_field(text, PUBKEY_LEN as nat, label, label)
}

/// Decodes a public key field.
pub fn decode_pubkey(text: &str, label: &'static str) -> (r: Result<Vec<u8>, AppError>)
    ensures
        match r {
            Ok(k) => pubkey_field(text@, label@) == Ok::<Seq<u8>, AppErrorView>(k@),
            Err(e) => pubkey_field(text@, label@) == Err::<Seq<u8>, AppErrorView>(e@),
        },
{
    decode_sized(text, PUBKEY_LEN, label, label)
}

/// Body of `POST /api/rooms`.
pub struct CreateRoomReq {
    pub creator_box_pubkey: String,
    pub creator_sig_pubkey: String,
    pub wrapped_key_for_creator: String,
    pub origin_thread: Option<String>,
    pub creator_thread_pubkey: Option<String>,
    pub provenance_sig: Option<String>,
    pub allowlist_thread_pubkeys: Option<Vec<String>>,
}

/// Reply to a room creation.
pub struct CreateRoomResp {
    pub room_id: String,
    pub invite_code: String,
}

/// What a room creation asks for, decoded.
pub struct CreateRoomPlan {
    pub creator_box: Vec<u8>,
    pub creator_sig: Vec<u8>,
    pub wrapped: Vec<u8>,
    pub origin_thread: Option<Vec<u8>>,
    /// The thread key and its signature over the origin thread, when the
    /// creator attests where the room came from.
    pub provenance: Option<(Vec<u8>, Vec<u8>)>,
}

/// The bytes of a room-creation plan.
pub struct CreateRoomPlanView {
    pub creator_box: Seq<u8>,
    pub creator_sig: Seq<u8>,
    pub wrapped: Seq<u8>,
    pub origin_thread: Option<Seq<u8>>,
    pub provenance: Option<(Seq<u8>, Seq<u8>)>,
}

/// The bytes of an optional vector.
pub open spec fn opt_bytes_view(v: Option<Vec<u8>>) -> Option<Seq<u8>> {
    match v {
        Some(v) => Some(v@),
        None => None,
    }
}

impl View for CreateRoomPlan {
    type V = CreateRoomPlanView;

    open spec fn view(&self) -> CreateRoomPlanView {
        CreateRoomPlanView {
            creator_box: self.creator_box@,
            creator_sig: self.creator_sig@,
            wrapped: self.wrapped@,
            origin_thread: opt_bytes_view(self.origin_thread),
            provenance: match self.provenance {
                Some((k, s)) => Some((k@, s@)),
                None => None,
            },
        }
    }
}

/// A wrapped key of at most `MAX_WRAPPED_KEY` bytes.
pub open spec fn wrapped_field(text: Seq<char>) -> Result<Seq<u8>, AppErrorView> {
    match b64_field(text, "wrapped b64"@) {
        Err(e) => Err(e),
        Ok(w) => if w.len() > MAX_WRAPPED_KEY { Err(AppErrorView::BadRequest("wrapped_key too large"@)) } else { Ok(w) },
    }
}

fn decode_wrapped(text: &str) -> (r: Result<Vec<u8>, AppError>)
    ensures
        match r {
            Ok(w) => wrapped_field(text@) == Ok::<Seq<u8>, AppErrorView>(w@),
            Err(e) => wrapped_field(text@) == Err::<Seq<u8>, AppErrorView>(e@),
        },
{
    let w = decode_field(text, "wrapped b64")?;
    if w.len() > MAX_WRAPPED_KEY {
        return Err(AppError::BadRequest("wrapped_key too large"));
    }
    Ok(w)
}

/// What a room creation's fields decode to. The provenance attestation is
/// all or nothing: a thread key and a signature come together, and only
/// with an origin thread; an origin thread alone pins the room to it.
pub open spec fn create_room_spec(req: CreateRoomReq) -> Result<CreateRoomPlanView, AppErrorView> {
    match pubkey_field(req.creator_box_pubkey@, "creator_box_pubkey"@) {
        Err(e) => Err(e),
        Ok(creator_box) => match pubkey_field(req.creator_sig_pubkey@, "creator_sig_pubkey"@) {
            Err(e) => Err(e),
            Ok(creator_sig) => match wrapped_field(req.wrapped_key_for_creator@) {
                Err(e) => Err(e),
                Ok(wrapped) => {
                    let origin = match opt_text(req.origin_thread) {
                        None => Ok(None),
                        Some(t) => match b64_field(t, "origin_thread b64"@) {
                            Err(e) => Err(e),
                            Ok(b) => Ok(Some(b)),
                        },
                    };
                    match origin {
                        Err(e) => Err(e),
                        Ok(origin_thread) => {
                            let tpk = match opt_text(req.creator_thread_pubkey) {
                                None => Ok(None),
                                Some(t) => match pubkey_field(t, "creator_thread_pubkey"@) {
                                    Err(e) => Err(e),
                                    Ok(b) => Ok(Some(b)),
                                },
                            };
                            match tpk {
                                Err(e) => Err(e),
                                Ok(thread_pk) => {
                                    let psig = match opt_text(req.provenance_sig) {
                                        None => Ok(None),
                                        Some(t) => match sized_field(t, SIG_LEN as nat, "provenance_sig b64"@, "provenance_sig length"@) {
                                            Err(e) => Err(e),
                                            Ok(b) => Ok(Some(b)),
                                        },
                                    };
                                    match psig {
                                        Err(e) => Err(e),
                                        Ok(sig) => {
                                            let provenance = match (thread_pk, sig) {
                                                (Some(k), Some(s)) => Some((k, s)),
                                                _ => None,
                                            };
                                            if (origin_thread is Some && thread_pk is Some && sig is Some)
                                                || (thread_pk is None && sig is None) {
                                                Ok(CreateRoomPlanView { creator_box, creator_sig, wrapped, origin_thread, provenance })
                                            } else {
                                                Err(AppErrorView::BadRequest("creator_thread_pubkey and provenance_sig must come together with origin_thread"@))
                                            }
                                        },
                                    }
                                },
                            }
                        },
                    }
                },
            },
        },
    }
}

/// Decodes and checks the fields of a room creation. What the database
/// and the provenance signature say is checked after this.
pub fn check_create_room(req: &CreateRoomReq) -> (r: Result<CreateRoomPlan, AppError>)
    ensures
        match r {
            Ok(p) => create_room_spec(*req) == Ok::<CreateRoomPlanView, AppErrorView>(p@),
            Err(e) => create_room_spec(*req) == Err::<CreateRoomPlanView, AppErrorView>(e@),
        },
{
    let creator_box = decode_pubkey(req.creator_box_pubkey.as_str(), "creator_box_pubkey")?;
    let creator_sig = decode_pubkey(req.creator_sig_pubkey.as_str(), "creator_sig_pubkey")?;
    let wrapped = decode_wrapped(req.wrapped_key_for_creator.as_str())?;
    let origin_thread = match &req.origin_thread {
        Some(t) => Some(decode_field(t.as_str(), "origin_thread b64")?),
        None => None,
    };
    let thread_pk = match &req.creator_thread_pubkey {
        Some(t) => Some(decode_pubkey(t.as_str(), "creator_thread_pubkey")?),
        None => None,
    };
    let sig = match &req.provenance_sig {
        Some(t) => Some(decode_sized(t.as_str(), SIG_LEN, "provenance_sig b64", "provenance_sig length")?),
        None => None,
    };
    let ok_shape = (origin_thread.is_some() && thread_pk.is_some() && sig.is_some())
        || (thread_pk.is_none() && sig.is_none());
    if !ok_shape {
        return Err(AppError::BadRequest("creator_thread_pubkey and provenance_sig must come together with origin_thread"));
    }
    let provenance = match (thread_pk, sig) {
        (Some(k), Some(s)) => Some((k, s)),
        _ => None,
    };
    Ok(CreateRoomPlan { creator_box, creator_sig, wrapped, origin_thread, provenance })
}

/// Whether an invitee allowlist applies: none or an empty one leaves the
/// invite open; a non-empty one needs an origin thread, whose signers
/// are the only ones it can name.
pub open spec fn allowlist_spec(list: Option<Seq<Seq<char>>>, has_origin_thread: bool) -> Result<bool, AppErrorView> {
    match list {
        None => Ok(false),
        Some(l) => if l.len() == 0 {
            Ok(false)
        } else if !has_origin_thread {
            Err(AppErrorView::BadRequest("allowlist requires origin_thread"@))
        } else {
            Ok(true)
        },
    }
}

/// The texts of an optional list of strings.
pub open spec fn opt_texts(l: Option<Vec<String>>) -> Option<Seq<Seq<char>>> {
    match l {
        Some(l) => Some(texts(l@)),
        None => None,
    }
}

/// Decides whether a room's allowlist applies. Its entries are then
/// decoded with `decode_pubkey` and checked against the thread one by one.
pub fn allowlist_applies(list: &Option<Vec<String>>, has_origin_thread: bool) -> (r: Result<bool, AppError>)
    ensures
        match r {
            Ok(b) => allowlist_spec(opt_texts(*list), has_origin_thread) == Ok::<bool, AppErrorView>(b),
            Err(e) => allowlist_spec(opt_texts(*list), has_origin_thread) == Err::<bool, AppErrorView>(e@),
        },
{
    match list {
        None => Ok(false),
        Some(l) => {
            if l.len() == 0 {
                Ok(false)
            } else if !has_origin_thread {
                Err(AppError::BadRequest("allowlist requires origin_thread"))
            } else {
                Ok(true)
            }
        },
    }
}

/// Body of `POST /api/rooms/join/:invite`.
pub struct JoinRoomReq {
    pub box_pubkey: String,
    pub sig_pubkey: String,
    pub proof_thread_pubkey: Option<String>,
    pub proof_ts: Option<i64>,
    pub proof_sig: Option<String>,
}

/// The joiner's box and signing keys.
pub open spec fn join_keys_spec(req: JoinRoomReq) -> Result<(Seq<u8>, Seq<u8>), AppErrorView> {
    match pubkey_field(req.box_pubkey@, "box_pubkey"@) {
        Err(e) => Err(e),
        Ok(b) => match pubkey_field(req.sig_pubkey@, "sig_pubkey"@) {
            Err(e) => Err(e),
            Ok(s) => Ok((b, s)),
        },
    }
}

/// Decodes the joiner's keys.
pub fn check_join_keys(req: &JoinRoomReq) -> (r: Result<(Vec<u8>, Vec<u8>), AppError>)
    ensures
        match r {
            Ok((b, s)) => join_keys_spec(*req) == Ok::<(Seq<u8>, Seq<u8>), AppErrorView>((b@, s@)),
            Err(e) => join_keys_spec(*req) == Err::<(Seq<u8>, Seq<u8>), AppErrorView>(e@),
        },
{
    let b = decode_pubkey(req.box_pubkey.as_str(), "box_pubkey")?;
    let s = decode_pubkey(req.sig_pubkey.as_str(), "sig_pubkey")?;
    Ok((b, s))
}

/// The proof a restricted invite asks of a joiner, before its signature
/// is checked: a thread key on the allowlist, a timestamp within a minute
/// of `now`, and a 64-byte signature.
pub open spec fn join_proof_spec(req: JoinRoomReq, allowlist: Seq<Seq<u8>>, now: i64) -> Result<(Seq<u8>, Seq<u8>, i64), AppErrorView> {
    match (req.proof_thread_pubkey, req.proof_ts, req.proof_sig) {
        (None, _, _) => Err(AppErrorView::Forbidden("this invite is restricted; proof_thread_pubkey required"@)),
        (Some(_), None, _) => Err(AppErrorView::Forbidden("proof_ts required"@)),
        (Some(_), Some(_), None) => Err(AppErrorView::Forbidden("proof_sig required"@)),
        (Some(pk), Some(ts), Some(sig)) => match pubkey_field(pk@, "proof_thread_pubkey"@) {
            Err(e) => Err(e),
            Ok(k) => match sized_field(sig@, SIG_LEN as nat, "proof_sig b64"@, "proof_sig length"@) {
                Err(e) => Err(e),
                Ok(s) => if !in_window(now as int, ts as int) {
                    Err(AppErrorView::BadRequest("proof_ts outside ±60s window"@))
                } else if !allowlist.contains(k) {
                    Err(AppErrorView::Forbidden("thread pubkey is not on this invite's allowlist"@))
                } else {
                    Ok((k, s, ts))
                },
            },
        },
    }
}

/// Whether a list of byte strings holds `k`.
pub fn list_contains(list: &Vec<Vec<u8>>, k: &[u8]) -> (r: bool)
    ensures
        r == byte_lists(list@).contains(k@),
{
    let mut i: usize = 0;
    while i < list.len()
        invariant
            i <= list@.len(),
            forall|j: int| 0 <= j < i ==> list@[j]@ != k@,
        decreases list@.len() - i,
    {
        if crate::bytes::bytes_eq(list[i].as_slice(), k) {
            assert(byte_lists(list@)[i as int] == k@);
            return true;
        }
        i = i + 1;
    }
    proof {
        if byte_lists(list@).contains(k@) {
            let j = choose|j: int| 0 <= j < byte_lists(list@).len() && byte_lists(list@)[j] == k@;
            assert(list@[j]@ == k@);
        }
    }
    false
}

/// Checks the proof of a restricted invite against the clock reading
/// `now`. The signature over the invite and the joiner's box key is
/// verified after this.
pub fn check_join_proof_at(req: &JoinRoomReq, allowlist: &Vec<Vec<u8>>, now: i64) -> (r: Result<(Vec<u8>, Vec<u8>, i64), AppError>)
    ensures
        match r {
            Ok((k, s, ts)) => join_proof_spec(*req, byte_lists(allowlist@), now) == Ok::<(Seq<u8>, Seq<u8>, i64), AppErrorView>((k@, s@, ts)),
            Err(e) => join_proof_spec(*req, byte_lists(allowlist@), now) == Err::<(Seq<u8>, Seq<u8>, i64), AppErrorView>(e@),
        },
{
    let pk = match &req.proof_thread_pubkey {
        Some(p) => p,
        None => return Err(AppError::Forbidden("this invite is restricted; proof_thread_pubkey required")),
    };
    let ts = match req.proof_ts {
        Some(t) => t,
        None => return Err(AppError::Forbidden("proof_ts required")),
    };
    let sig = match &req.proof_sig {
        Some(s) => s,
        None => return Err(AppError::Forbidden("proof_sig required")),
    };
    let k = decode_pubkey(pk.as_str(), "proof_thread_pubkey")?;
    let s = decode_sized(sig.as_str(), SIG_LEN, "proof_sig b64", "proof_sig length")?;
    check_window(now, ts, "proof_ts outside ±60s window")?;
    if !list_contains(allowlist, k.as_slice()) {
        return Err(AppError::Forbidden("thread pubkey is not on this invite's allowlist"));
    }
    Ok((k, s, ts))
}

/// `check_join_proof_at` against the server clock now.
pub fn check_join_proof(req: &JoinRoomReq, allowlist: &Vec<Vec<u8>>) -> (r: Result<(Vec<u8>, Vec<u8>, i64), AppError>)
    ensures
        match r {
            Ok((k, s, ts)) => exists|now: i64| join_proof_spec(*req, byte_lists(allowlist@), now) == Ok::<(Seq<u8>, Seq<u8>, i64), AppErrorView>((k@, s@, ts)),
            Err(e) => exists|now: i64| join_proof_spec(*req, byte_lists(allowlist@), now) == Err::<(Seq<u8>, Seq<u8>, i64), AppErrorView>(e@),
        },
{
    let now = unix_now();
    check_join_proof_at(req, allowlist, now)
}

/// Whether one more member may join: a member joining again always may
/// (it adds no row); anyone else only below the cap.
pub open spec fn may_join(already_member: bool, active_members: i64) -> bool {
    already_member || active_members < MAX_ROOM_MEMBERS
}

/// Enforces the room size cap.
pub fn check_room_cap(already_member: bool, active_members: i64) -> (r: Result<(), AppError>)
    ensures
        r is Ok <==> may_join(already_member, active_members),
        r matches Err(e) ==> e@ == AppErrorView::Conflict("room is at the 50-member cap"@),
{
    if !already_member && active_members >= MAX_ROOM_MEMBERS {
        return Err(AppError::Conflict("room is at the 50-member cap"));
    }
    Ok(())
}

/// Joins never take a room past its cap: from at most `MAX_ROOM_MEMBERS`
/// active members, an allowed join leaves at most that many, whether the
/// joiner is new or already a member.
pub proof fn lemma_join_keeps_cap(already_member: bool, active_members: i64)
    requires
        0 <= active_members <= MAX_ROOM_MEMBERS,
        may_join(already_member, active_members),
    ensures
        (if already_member { active_members as int } else { active_members + 1 }) <= MAX_ROOM_MEMBERS,
{
}

/// What an invite link tells a visitor before joining.
pub struct InviteInfo {
    pub room_id: String,
    pub origin_thread: Option<String>,
    /// Whether joining needs a proof from an allowlisted thread key.
    pub restricted: bool,
    pub allowlist_thread_pubkeys: Option<Vec<String>>,
}

/// The base64 texts of a list of byte strings.
pub open spec fn b64_list(l: Seq<Seq<u8>>) -> Seq<Seq<char>> {
    l.map_values(|b: Seq<u8>| crate::ids::b64url_encode(b))
}

/// Describes an invite: the room, the thread it is pinned to, and the
/// allowlist, if any, all as base64.
pub fn invite_info_of(room_id: &Vec<u8>, origin_thread: &Option<Vec<u8>>, allowlist: &Option<Vec<Vec<u8>>>) -> (i: InviteInfo)
    requires
        crate::federation::events::b64_fits(room_id@.len()),
        origin_thread matches Some(t) ==> crate::federation::events::b64_fits(t@.len()),
        allowlist matches Some(l) ==> forall|k: int| 0 <= k < l@.len() ==> crate::federation::events::b64_fits(#[trigger] l@[k]@.len()),
    ensures
        i.room_id@ == crate::ids::b64url_encode(room_id@),
        i.restricted == allowlist is Some,
        match origin_thread {
            Some(t) => i.origin_thread matches Some(s) && s@ == crate::ids::b64url_encode(t@),
            None => i.origin_thread is None,
        },
        match allowlist {
            Some(l) => i.allowlist_thread_pubkeys matches Some(v) && texts(v@) == b64_list(byte_lists(l@)),
            None => i.allowlist_thread_pubkeys is None,
        },
{
    let origin = match origin_thread {
        Some(t) => Some(crate::ids::b64(t.as_slice())),
        None => None,
    };
    let list = match allowlist {
        Some(l) => {
            let mut out: Vec<String> = Vec::new();
            let mut k: usize = 0;
            while k < l.len()
                invariant
                    k <= l@.len(),
                    out@.len() == k,
                    forall|j: int| 0 <= j < l@.len() ==> crate::federation::events::b64_fits(#[trigger] l@[j]@.len()),
                    texts(out@) == b64_list(byte_lists(l@)).take(k as int),
                decreases l@.len() - k,
            {
                let ghost before = out@;
                let t = crate::ids::b64(l[k].as_slice());
                let ghost tv = t@;
                out.push(t);
                assert(texts(out@) =~= b64_list(byte_lists(l@)).take(k as int + 1)) by {
                    assert forall|i: int| 0 <= i < k + 1 implies #[trigger] texts(out@)[i] == b64_list(byte_lists(l@))[i] by {
                        if i < k {
                            assert(out@[i] == before[i]);
                            assert(texts(before)[i] == b64_list(byte_lists(l@)).take(k as int)[i]);
                        } else {
                            assert(out@[i]@ == tv);
                            assert(byte_lists(l@)[i] == l@[i]@);
                        }
                    }
                }
                k = k + 1;
            }
            assert(b64_list(byte_lists(l@)).take(k as int) =~= b64_list(byte_lists(l@)));
            Some(out)
        },
        None => None,
    };
    InviteInfo { room_id: crate::ids::b64(room_id.as_slice()), origin_thread: origin, restricted: allowlist.is_some(), allowlist_thread_pubkeys: list }
}

/// Body of `POST /api/rooms/:id/wrap`.
pub struct WrapKeyReq {
    pub for_box_pubkey: String,
    pub inviter_box_pubkey: String,
    pub wrapped_key: String,
}

/// What granting a wrapped key names: room, recipient, inviter, key.
pub open spec fn wrap_spec(room_id: Seq<char>, req: WrapKeyReq) -> Result<(Seq<u8>, Seq<u8>, Seq<u8>, Seq<u8>), AppErrorView> {
    match b64_field(room_id, "room_id b64"@) {
        Err(e) => Err(e),
        Ok(r) => match pubkey_field(req.for_box_pubkey@, "for_box_pubkey"@) {
            Err(e) => Err(e),
            Ok(f) => match pubkey_field(req.inviter_box_pubkey@, "inviter_box_pubkey"@) {
                Err(e) => Err(e),
                Ok(i) => match wrapped_field(req.wrapped_key@) {
                    Err(e) => Err(e),
                    Ok(w) => Ok((r, f, i, w)),
                },
            },
        },
    }
}

/// A decoded key grant.
pub struct WrapGrant {
    pub room_id: Vec<u8>,
    pub for_box: Vec<u8>,
    pub inviter: Vec<u8>,
    pub wrapped: Vec<u8>,
}

/// Decodes a key grant. Then the inviter must be a member, and a pending
/// member must match.
pub fn check_wrap(room_id_b64: &str, req: &WrapKeyReq) -> (r: Result<WrapGrant, AppError>)
    ensures
        match r {
            Ok(g) => wrap_spec(room_id_b64@, *req) == Ok::<(Seq<u8>, Seq<u8>, Seq<u8>, Seq<u8>), AppErrorView>((g.room_id@, g.for_box@, g.inviter@, g.wrapped@)),
            Err(e) => wrap_spec(room_id_b64@, *req) == Err::<(Seq<u8>, Seq<u8>, Seq<u8>, Seq<u8>), AppErrorView>(e@),
        },
{
    let room_id = decode_field(room_id_b64, "room_id b64")?;
    let for_box = decode_pubkey(req.for_box_pubkey.as_str(), "for_box_pubkey")?;
    let inviter = decode_pubkey(req.inviter_box_pubkey.as_str(), "inviter_box_pubkey")?;
    let wrapped = decode_wrapped(req.wrapped_key.as_str())?;
    Ok(WrapGrant { room_id, for_box, inviter, wrapped })
}

/// What the database's answers to a key grant mean.
pub fn wrap_outcome(inviter_is_member: bool, granted: bool) -> (r: Result<(), AppError>)
    ensures
        !inviter_is_member ==> (r matches Err(e) && e@ == AppErrorView::Forbidden("inviter is not a member"@)),
        inviter_is_member && !granted ==> (r matches Err(e) && e@ == AppErrorView::Conflict("no pending member matches"@)),
        inviter_is_member && granted ==> r is Ok,
{
    if !inviter_is_member {
        return Err(AppError::Forbidden("inviter is not a member"));
    }
    if !granted {
        return Err(AppError::Conflict("no pending member matches"));
    }
    Ok(())
}

/// A fresh wrap of the new room key for one surviving member.
pub struct RekeyWrap {
    pub for_box_pubkey: String,
    pub wrapped_key: String,
}

/// Body of a request to remove a member and rekey the room.
pub struct RemoveMemberReq {
    pub remover_sig_pubkey: String,
    pub sig: String,
    pub target_box_pubkey: String,
    pub ts: i64,
    pub new_wrapped_keys: Vec<RekeyWrap>,
}

/// Reply to a removal: the room's epoch after the rekey.
pub struct RemoveMemberResp {
    pub current_epoch: i32,
}

/// The signed fields of a removal: the remover's key, its signature, and
/// the target's box key.
pub open spec fn remove_fields_spec(req: RemoveMemberReq) -> Result<(Seq<u8>, Seq<u8>, Seq<u8>), AppErrorView> {
    match pubkey_field(req.remover_sig_pubkey@, "remover_sig_pubkey"@) {
        Err(e) => Err(e),
        Ok(k) => match sized_field(req.sig@, SIG_LEN as nat, "sig b64"@, "sig length"@) {
            Err(e) => Err(e),
            Ok(s) => match pubkey_field(req.target_box_pubkey@, "target_box_pubkey"@) {
                Err(e) => Err(e),
                Ok(t) => Ok((k, s, t)),
            },
        },
    }
}

/// Decoded signed fields of a removal.
pub struct RemoveFields {
    pub remover: Vec<u8>,
    pub sig: Vec<u8>,
    pub target: Vec<u8>,
}

/// Decodes the signed fields of a removal.
pub fn check_remove_fields(req: &RemoveMemberReq) -> (r: Result<RemoveFields, AppError>)
    ensures
        match r {
            Ok(f) => remove_fields_spec(*req) == Ok::<(Seq<u8>, Seq<u8>, Seq<u8>), AppErrorView>((f.remover@, f.sig@, f.target@)),
            Err(e) => remove_fields_spec(*req) == Err::<(Seq<u8>, Seq<u8>, Seq<u8>), AppErrorView>(e@),
        },
{
    let remover = decode_pubkey(req.remover_sig_pubkey.as_str(), "remover_sig_pubkey")?;
    let sig = decode_sized(req.sig.as_str(), SIG_LEN, "sig b64", "sig length")?;
    let target = decode_pubkey(req.target_box_pubkey.as_str(), "target_box_pubkey")?;
    Ok(RemoveFields { remover, sig, target })
}

/// One rekey wrap: a recipient other than the removed target, and a
/// wrapped key of 1 to `MAX_WRAPPED_KEY` bytes.
pub open spec fn rekey_wrap_spec(w: RekeyWrap, target: Seq<u8>) -> Result<(Seq<u8>, Seq<u8>), AppErrorView> {
    match pubkey_field(w.for_box_pubkey@, "for_box_pubkey"@) {
        Err(e) => Err(e),
        Ok(k) => if k == target {
            Err(AppErrorView::BadRequest("cannot rewrap for the removed target"@))
        } else {
            match b64_field(w.wrapped_key@, "wrapped_key b64"@) {
                Err(e) => Err(e),
                Ok(v) => if v.len() == 0 || v.len() > MAX_WRAPPED_KEY {
                    Err(AppErrorView::BadRequest("wrapped_key length"@))
                } else {
                    Ok((k, v))
                },
            }
        },
    }
}

/// Checking the wraps of a rekey in order; the first failure is the error.
pub open spec fn rekey_wraps_spec(ws: Seq<RekeyWrap>, target: Seq<u8>) -> Result<Seq<(Seq<u8>, Seq<u8>)>, AppErrorView>
    decreases ws.len(),
{
    if ws.len() == 0 {
        Ok(Seq::empty())
    } else {
        match rekey_wraps_spec(ws.drop_last(), target) {
            Err(e) => Err(e),
            Ok(v) => match rekey_wrap_spec(ws.last(), target) {
                Err(e) => Err(e),
                Ok(p) => Ok(v.push(p)),
            },
        }
    }
}

proof fn lemma_rekey_prefix_err(ws: Seq<RekeyWrap>, k: int, target: Seq<u8>)
    requires
        0 <= k <= ws.len(),
        rekey_wraps_spec(ws.take(k), target) is Err,
    ensures
        rekey_wraps_spec(ws, target) == rekey_wraps_spec(ws.take(k), target),
    decreases ws.len(),
{
    if k == ws.len() {
        assert(ws.take(k) =~= ws);
    } else {
        assert(ws.drop_last().take(k) =~= ws.take(k));
        lemma_rekey_prefix_err(ws.drop_last(), k, target);
    }
}

/// The bytes of decoded wraps.
pub open spec fn wraps_view(v: Seq<(Vec<u8>, Vec<u8>)>) -> Seq<(Seq<u8>, Seq<u8>)> {
    v.map_values(|p: (Vec<u8>, Vec<u8>)| (p.0@, p.1@))
}

/// Decodes and checks the wraps of a rekey.
pub fn check_rekey_wraps(ws: &Vec<RekeyWrap>, target: &[u8]) -> (r: Result<Vec<(Vec<u8>, Vec<u8>)>, AppError>)
    ensures
        match r {
            Ok(v) => rekey_wraps_spec(ws@, target@) == Ok::<Seq<(Seq<u8>, Seq<u8>)>, AppErrorView>(wraps_view(v@)),
            Err(e) => rekey_wraps_spec(ws@, target@) == Err::<Seq<(Seq<u8>, Seq<u8>)>, AppErrorView>(e@),
        },
{
    let mut out: Vec<(Vec<u8>, Vec<u8>)> = Vec::new();
    let mut i: usize = 0;
    assert(ws@.take(0) =~= Seq::<RekeyWrap>::empty());
    assert(wraps_view(out@) =~= Seq::<(Seq<u8>, Seq<u8>)>::empty());
    while i < ws.len()
        invariant
            i <= ws@.len(),
            rekey_wraps_spec(ws@.take(i as int), target@) == Ok::<Seq<(Seq<u8>, Seq<u8>)>, AppErrorView>(wraps_view(out@)),
        decreases ws@.len() - i,
    {
        let ghost pre = ws@.take(i as int + 1);
        assert(pre.drop_last() =~= ws@.take(i as int));
        assert(pre.last() == ws@[i as int]);
        let w = &ws[i];
        let k = match decode_pubkey(w.for_box_pubkey.as_str(), "for_box_pubkey") {
            Ok(k) => k,
            Err(e) => {
                proof { lemma_rekey_prefix_err(ws@, i as int + 1, target@); }
                return Err(e);
            },
        };
        if crate::bytes::bytes_eq(k.as_slice(), target) {
            proof { lemma_rekey_prefix_err(ws@, i as int + 1, target@); }
            return Err(AppError::BadRequest("cannot rewrap for the removed target"));
        }
        let v = match decode_field(w.wrapped_key.as_str(), "wrapped_key b64") {
            Ok(v) => v,
            Err(e) => {
                proof { lemma_rekey_prefix_err(ws@, i as int + 1, target@); }
                return Err(e);
            },
        };
        if v.len() == 0 || v.len() > MAX_WRAPPED_KEY {
            proof { lemma_rekey_prefix_err(ws@, i as int + 1, target@); }
            return Err(AppError::BadRequest("wrapped_key length"));
        }
        let ghost before = out@;
        let ghost pv = (k@, v@);
        out.push((k, v));
        assert(wraps_view(out@) =~= wraps_view(before).push(pv));
        i = i + 1;
    }
    assert(ws@.take(i as int) =~= ws@);
    Ok(out)
}

/// The recipients named by decoded wraps.
pub open spec fn wrap_targets(v: Seq<(Vec<u8>, Vec<u8>)>) -> Seq<Seq<u8>> {
    v.map_values(|p: (Vec<u8>, Vec<u8>)| p.0@)
}

/// What the rekey transaction accepts once the target is removed: one
/// wrap per surviving member, each for a surviving member, no member
/// named twice.
pub open spec fn coverage_spec(survivors: Seq<Seq<u8>>, targets: Seq<Seq<u8>>) -> Result<(), Seq<char>> {
    if survivors.len() != targets.len() {
        Err("wrap count mismatch with surviving member count"@)
    } else if exists|i: int| 0 <= i < targets.len() && !survivors.contains(#[trigger] targets[i]) {
        Err("wrap target is not a surviving member"@)
    } else if !targets.no_duplicates() {
        Err("wrap target is named twice"@)
    } else {
        Ok(())
    }
}

/// Whether the recipient of wrap `i` was already named by an earlier wrap.
fn named_earlier(wraps: &Vec<(Vec<u8>, Vec<u8>)>, i: usize) -> (r: bool)
    requires
        i < wraps@.len(),
    ensures
        r == exists|j: int| 0 <= j < i && #[trigger] wrap_targets(wraps@)[j] == wrap_targets(wraps@)[i as int],
{
    let mut j: usize = 0;
    while j < i
        invariant
            i < wraps@.len(),
            j <= i,
            forall|k: int| 0 <= k < j ==> #[trigger] wrap_targets(wraps@)[k] != wrap_targets(wraps@)[i as int],
        decreases i - j,
    {
        if crate::bytes::bytes_eq(wraps[j].0.as_slice(), wraps[i].0.as_slice()) {
            assert(wrap_targets(wraps@)[j as int] == wrap_targets(wraps@)[i as int]);
            return true;
        }
        j = j + 1;
    }
    false
}

/// Checks the wraps of a rekey against the members that survive it.
/// When it passes, the wraps name every surviving member exactly once
/// and no one else: no survivor keeps the old key.
pub fn check_wrap_coverage(survivors: &Vec<Vec<u8>>, wraps: &Vec<(Vec<u8>, Vec<u8>)>) -> (r: Result<(), &'static str>)
    ensures
        match r {
            Ok(()) => coverage_spec(byte_lists(survivors@), wrap_targets(wraps@)) == Ok::<(), Seq<char>>(()),
            Err(m) => coverage_spec(byte_lists(survivors@), wrap_targets(wraps@)) == Err::<(), Seq<char>>(m@),
        },
        r is Ok ==> wrap_targets(wraps@).no_duplicates()
            && wrap_targets(wraps@).to_set() == byte_lists(survivors@).to_set(),
{
    if survivors.len() != wraps.len() {
        return Err("wrap count mismatch with surviving member count");
    }
    let mut i: usize = 0;
    while i < wraps.len()
        invariant
            i <= wraps@.len(),
            survivors@.len() == wraps@.len(),
            forall|j: int| 0 <= j < i ==> byte_lists(survivors@).contains(#[trigger] wrap_targets(wraps@)[j]),
        decreases wraps@.len() - i,
    {
        if !list_contains(survivors, wraps[i].0.as_slice()) {
            proof {
                let t = wrap_targets(wraps@);
                assert(t[i as int] == wraps@[i as int].0@);
                assert(!byte_lists(survivors@).contains(t[i as int]));
                assert(byte_lists(survivors@).len() == t.len());
                assert(exists|j: int| 0 <= j < t.len() && !byte_lists(survivors@).contains(#[trigger] t[j]));
            }
            return Err("wrap target is not a surviving member");
        }
        i = i + 1;
    }
    let ghost t = wrap_targets(wraps@);
    assert(byte_lists(survivors@).len() == t.len());
    assert(!exists|j: int| 0 <= j < t.len() && !byte_lists(survivors@).contains(#[trigger] t[j]));
    let mut i: usize = 0;
    while i < wraps.len()
        invariant
            i <= wraps@.len(),
            t == wrap_targets(wraps@),
            byte_lists(survivors@).len() == t.len(),
            forall|j: int| 0 <= j < t.len() ==> byte_lists(survivors@).contains(#[trigger] t[j]),
            forall|a: int, b: int| 0 <= a < i && 0 <= b < i && a != b ==> #[trigger] t[a] != #[trigger] t[b],
        decreases wraps@.len() - i,
    {
        if named_earlier(wraps, i) {
            proof {
                let j = choose|j: int| 0 <= j < i && #[trigger] t[j] == t[i as int];
                assert(t[j] == t[i as int]);
                assert(!t.no_duplicates());
            }
            return Err("wrap target is named twice");
        }
        i = i + 1;
    }
    assert(t.no_duplicates());
    proof {
        lemma_coverage_exact(byte_lists(survivors@), t);
    }
    Ok(())
}

/// Passing the coverage check means the wraps cover every surviving
/// member exactly: each recipient is named once, the survivors are
/// distinct, and the recipients are exactly the survivors, so no one
/// keeps an old key and no one else gets the new one.
pub proof fn lemma_coverage_exact(survivors: Seq<Seq<u8>>, targets: Seq<Seq<u8>>)
    requires
        coverage_spec(survivors, targets) is Ok,
    ensures
        targets.no_duplicates(),
        survivors.no_duplicates(),
        targets.to_set() == survivors.to_set(),
{
    broadcast use vstd::seq_lib::seq_to_set_is_finite;
    assert(survivors.len() == targets.len());
    assert forall|x: Seq<u8>| targets.to_set().contains(x) implies survivors.to_set().contains(x) by {
        let i = choose|i: int| 0 <= i < targets.len() && targets[i] == x;
        assert(survivors.contains(targets[i]));
    }
    assert(targets.to_set().subset_of(survivors.to_set()));
    targets.unique_seq_to_set();
    survivors.lemma_cardinality_of_set();
    vstd::set_lib::lemma_len_subset(targets.to_set(), survivors.to_set());
    survivors.lemma_no_dup_set_cardinality();
    vstd::set_lib::lemma_subset_equality(targets.to_set(), survivors.to_set());
}

/// How the rekey transaction failed.
pub enum RekeyFailure {
    /// The target is not a current member.
    RowNotFound,
    /// The wraps do not cover the survivors.
    Protocol,
    /// Anything else.
    Other,
}

/// Tells the variants of a `sqlx::Error` apart, one arm each.
#[verifier::external_body]
fn rekey_failure_kind(e: &sqlx::Error) -> (k: RekeyFailure) {
    match e {
        sqlx::Error::RowNotFound => RekeyFailure::RowNotFound,
        sqlx::Error::Protocol(_) => RekeyFailure::Protocol,
        _ => RekeyFailure::Other,
    }
}

/// The client error for a failure of a given kind.
pub fn rekey_error_of(kind: RekeyFailure, e: sqlx::Error) -> (r: AppError)
    ensures
        kind is RowNotFound ==> r@ == AppErrorView::Conflict("target is not a current member"@),
        kind is Protocol ==> r@ == AppErrorView::BadRequest("new_wrapped_keys must cover every surviving member exactly"@),
        kind is Other ==> r@ == AppErrorView::Db,
{
    match kind {
        RekeyFailure::RowNotFound => AppError::Conflict("target is not a current member"),
        RekeyFailure::Protocol => AppError::BadRequest("new_wrapped_keys must cover every surviving member exactly"),
        RekeyFailure::Other => AppError::Db(e),
    }
}

/// The client error for a failed rekey transaction.
pub fn rekey_error(e: sqlx::Error) -> (r: AppError)
    ensures
        r@ == AppErrorView::Conflict("target is not a current member"@)
            || r@ == AppErrorView::BadRequest("new_wrapped_keys must cover every surviving member exactly"@)
            || r@ == AppErrorView::Db,
{
    let k = rekey_failure_kind(&e);
    rekey_error_of(k, e)
}

/// Body of `POST /api/rooms/:id/messages`.
pub struct SendMessageReq {
    pub sender_sig_pubkey: String,
    pub nonce: String,
    pub ciphertext: String,
    pub sender_sig: String,
}

/// What a message carries: a 24-byte nonce, 1 to `MAX_CIPHERTEXT` bytes
/// of ciphertext, and the sender's 64-byte signature.
pub open spec fn message_spec(room_id: Seq<char>, req: SendMessageReq) -> Result<(Seq<u8>, Seq<u8>, Seq<u8>, Seq<u8>, Seq<u8>), AppErrorView> {
    match b64_field(room_id, "room_id b64"@) {
        Err(e) => Err(e),
        Ok(r) => match pubkey_field(req.sender_sig_pubkey@, "sender_sig_pubkey"@) {
            Err(e) => Err(e),
            Ok(s) => match sized_field(req.nonce@, NONCE_LEN as nat, "nonce b64"@, "nonce length"@) {
                Err(e) => Err(e),
                Ok(n) => match b64_field(req.ciphertext@, "ciphertext b64"@) {
                    Err(e) => Err(e),
                    Ok(c) => if c.len() == 0 || c.len() > MAX_CIPHERTEXT {
                        Err(AppErrorView::BadRequest("ciphertext length"@))
                    } else {
                        match sized_field(req.sender_sig@, SIG_LEN as nat, "sender_sig b64"@, "sender_sig length"@) {
                            Err(e) => Err(e),
                            Ok(g) => Ok((r, s, n, c, g)),
                        }
                    },
                },
            },
        },
    }
}

/// A decoded message.
pub struct MessageFields {
    pub room_id: Vec<u8>,
    pub sender: Vec<u8>,
    pub nonce: Vec<u8>,
    pub ciphertext: Vec<u8>,
    pub sender_sig: Vec<u8>,
}

/// Decodes a message. The sender must then be a member, and the
/// signature must verify.
pub fn check_message(room_id_b64: &str, req: &SendMessageReq) -> (r: Result<MessageFields, AppError>)
    ensures
        match r {
            Ok(m) => message_spec(room_id_b64@, *req) == Ok::<(Seq<u8>, Seq<u8>, Seq<u8>, Seq<u8>, Seq<u8>), AppErrorView>((m.room_id@, m.sender@, m.nonce@, m.ciphertext@, m.sender_sig@)),
            Err(e) => message_spec(room_id_b64@, *req) == Err::<(Seq<u8>, Seq<u8>, Seq<u8>, Seq<u8>, Seq<u8>), AppErrorView>(e@),
        },
{
    let room_id = decode_field(room_id_b64, "room_id b64")?;
    let sender = decode_pubkey(req.sender_sig_pubkey.as_str(), "sender_sig_pubkey")?;
    let nonce = decode_sized(req.nonce.as_str(), NONCE_LEN, "nonce b64", "nonce length")?;
    let ciphertext = decode_field(req.ciphertext.as_str(), "ciphertext b64")?;
    if ciphertext.len() == 0 || ciphertext.len() > MAX_CIPHERTEXT {
        return Err(AppError::BadRequest("ciphertext length"));
    }
    let sender_sig = decode_sized(req.sender_sig.as_str(), SIG_LEN, "sender_sig b64", "sender_sig length")?;
    Ok(MessageFields { room_id, sender, nonce, ciphertext, sender_sig })
}

/// Body of an authenticated message listing.
pub struct ListMessagesReq {
    pub requester_sig_pubkey: String,
    pub sig: String,
    pub ts: i64,
    pub since: Option<String>,
}

/// The signed fields of a listing: the requester's key and signature.
pub open spec fn list_fields_spec(req: ListMessagesReq) -> Result<(Seq<u8>, Seq<u8>), AppErrorView> {
    match pubkey_field(req.requester_sig_pubkey@, "requester_sig_pubkey"@) {
        Err(e) => Err(e),
        Ok(k) => match sized_field(req.sig@, SIG_LEN as nat, "sig b64"@, "sig length"@) {
            Err(e) => Err(e),
            Ok(s) => Ok((k, s)),
        },
    }
}

/// Decodes the signed fields of a listing.
pub fn check_list_fields(req: &ListMessagesReq) -> (r: Result<(Vec<u8>, Vec<u8>), AppError>)
    ensures
        match r {
            Ok((k, s)) => list_fields_spec(*req) == Ok::<(Seq<u8>, Seq<u8>), AppErrorView>((k@, s@)),
            Err(e) => list_fields_spec(*req) == Err::<(Seq<u8>, Seq<u8>), AppErrorView>(e@),
        },
{
    let k = decode_pubkey(req.requester_sig_pubkey.as_str(), "requester_sig_pubkey")?;
    let s = decode_sized(req.sig.as_str(), SIG_LEN, "sig b64", "sig length")?;
    Ok((k, s))
}

/// A replayed signature: its nonce was already recorded.
pub fn replay_outcome(fresh: bool) -> (r: Result<(), AppError>)
    ensures
        fresh ==> r is Ok,
        !fresh ==> (r matches Err(e) && e@ == AppErrorView::Conflict("replay: this signature was already used"@)),
{
    if !fresh {
        return Err(AppError::Conflict("replay: this signature was already used"));
    }
    Ok(())
}

} // verus!
