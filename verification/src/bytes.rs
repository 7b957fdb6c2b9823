//! Byte-buffer building blocks for the canonical encodings.

use vstd::prelude::*;

verus! {

/// Appends `b` to `buf`.
pub fn extend_bytes(buf: &mut Vec<u8>, b: &[u8])
    ensures
        final(buf)@ == old(buf)@ + b@,
{
    let mut i: usize = 0;
    while i < b.len()
        invariant
            i <= b@.len(),
            buf@ == old(buf)@ + b@.take(i as int),
        decreases b@.len() - i,
    {
        buf.push(b[i]);
        i = i + 1;
        assert(buf@ =~= old(buf)@ + b@.take(i as int));
    }
    assert(b@.take(i as int) =~= b@);
}

/// Whether two byte strings are equal.
pub fn bytes_eq(a: &[u8], b: &[u8]) -> (r: bool)
    ensures
        r == (a@ == b@),
{
    if a.len() != b.len() {
        return false;
    }
    let mut i: usize = 0;
    while i < a.len()
        invariant
            i <= a@.len(),
            a@.len() == b@.len(),
            forall|k: int| 0 <= k < i ==> a@[k] == b@[k],
        decreases a@.len() - i,
    {
        if a[i] != b[i] {
            return false;
        }
        i = i + 1;
    }
    assert(a@ =~= b@);
    true
}

/// Whether two character strings are equal.
pub fn chars_eq(a: &Vec<char>, b: &Vec<char>) -> (r: bool)
    ensures
        r == (a@ == b@),
{
    if a.len() != b.len() {
        return false;
    }
    let mut i: usize = 0;
    while i < a.len()
        invariant
            i <= a@.len(),
            a@.len() == b@.len(),
            forall|k: int| 0 <= k < i ==> a@[k] == b@[k],
        decreases a@.len() - i,
    {
        if a[i] != b[i] {
            return false;
        }
        i = i + 1;
    }
    assert(a@ =~= b@);
    true
}

/// Whether two strings hold the same characters.
pub fn str_eq(a: &str, b: &str) -> (r: bool)
    ensures
        r == (a@ == b@),
{
    let va = crate::text::chars_of(a);
    let vb = crate::text::chars_of(b);
    chars_eq(&va, &vb)
}

/// The four bytes of `n`, most significant first (`u32::to_be_bytes`).
pub open spec fn be32(n: u32) -> Seq<u8> {
    seq![(n >> 24u32) as u8, ((n >> 16u32) & 0xff) as u8, ((n >> 8u32) & 0xff) as u8, (n & 0xff) as u8]
}

/// Appends the big-endian bytes of `n`.
pub fn push_be32(buf: &mut Vec<u8>, n: u32)
    ensures
        final(buf)@ == old(buf)@ + be32(n),
{
    buf.push((n >> 24u32) as u8);
    buf.push(((n >> 16u32) & 0xff) as u8);
    buf.push(((n >> 8u32) & 0xff) as u8);
    buf.push((n & 0xff) as u8);
    assert(buf@ =~= old(buf)@ + be32(n));
}

/// Copies a slice into an array of `N` bytes (`TryFrom<&[u8]>`), or
/// `None` when the length is not `N`.
#[verifier::external_body]
pub(crate) fn slice_to_array<const N: usize>(s: &[u8]) -> (r: Option<[u8; N]>)
    ensures
        match r {
            Some(a) => s@.len() == N && a@ == s@,
            None => s@.len() != N,
        },
{
    s.try_into().ok()
}

} // verus!
