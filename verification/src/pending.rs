use vstd::prelude::*;

verus! {

/// Capacity of the bridge's pending-line buffer, in bytes.
pub const PENDING_CAPACITY: usize = 256;

/// The pending-line buffer of the AT bridge: the bytes the user has typed
/// since the last flush, held in a fixed-capacity heapless vector as the
/// firmware keeps it. The buffer is opaque here; `pending_bytes` names its
/// contents, and the wrappers below say how each operation moves them.
#[verifier::external_body]
pub struct PendingBuf {
    inner: heapless::Vec<u8, 256>,
}

/// The bytes the pending-line buffer holds, oldest first.
pub uninterp spec fn pending_bytes(b: PendingBuf) -> Seq<u8>;

/// Relies on heapless::Vec::new: a fresh vector is empty.
#[verifier::external_body]
pub(crate) fn pending_new() -> (b: PendingBuf)
    ensures
        pending_bytes(b) == Seq::<u8>::empty(),
{
    PendingBuf { inner: heapless::Vec::new() }
}

/// Relies on heapless::Vec::len: the number of stored bytes.
#[verifier::external_body]
pub(crate) fn pending_len(b: &PendingBuf) -> (n: usize)
    ensures
        n == pending_bytes(*b).len(),
{
    b.inner.len()
}

/// Relies on heapless::Vec::push: below capacity it appends the byte and
/// returns Ok; the capacity bound is required here so the push cannot be
/// refused.
#[verifier::external_body]
pub(crate) fn pending_push(b: &mut PendingBuf, x: u8)
    requires
        pending_bytes(*old(b)).len() < PENDING_CAPACITY,
    ensures
        pending_bytes(*final(b)) == pending_bytes(*old(b)).push(x),
{
    let _ = b.inner.push(x);
}

/// Relies on heapless::Vec::clear: removes every byte.
#[verifier::external_body]
pub(crate) fn pending_clear(b: &mut PendingBuf)
    ensures
        pending_bytes(*final(b)) == Seq::<u8>::empty(),
{
    b.inner.clear();
}

/// Relies on heapless::Vec::as_slice: the stored bytes in order, copied out.
#[verifier::external_body]
pub(crate) fn pending_contents(b: &PendingBuf) -> (v: Vec<u8>)
    ensures
        v@ == pending_bytes(*b),
{
    b.inner.as_slice().to_vec()
}

} // verus!
