//! Trusted view of `bytes::BytesMut`, the byte container used for the
//! adapter's receive and send buffers.
//!
//! The buffer type itself comes from the `bytes` crate; Verus sees it only
//! through the declarations below. `bm_view` names the bytes a buffer holds,
//! and each wrapper states, over that name, what the called method does to
//! them.

use vstd::prelude::*;
use bytes::BytesMut;

verus! {

#[verifier::external_type_specification]
#[verifier::external_body]
pub struct ExBytesMut(BytesMut);

/// The bytes a `BytesMut` holds, in order.
pub uninterp spec fn bm_view(b: BytesMut) -> Seq<u8>;

/// Relies on `bytes::BytesMut::with_capacity`: the returned buffer has
/// length zero (and at least the asked-for capacity, which no contract here
/// needs).
#[verifier::external_body]
pub fn bm_with_capacity(capacity: usize) -> (b: BytesMut)
    ensures
        bm_view(b) == Seq::<u8>::empty(),
{
    BytesMut::with_capacity(capacity)
}

/// Relies on `bytes::BytesMut::clear`: sets the length to zero.
#[verifier::external_body]
pub fn bm_clear(b: &mut BytesMut)
    ensures
        bm_view(*final(b)) == Seq::<u8>::empty(),
{
    b.clear()
}

/// Relies on `bytes::BytesMut::extend_from_slice`: appends the given bytes.
/// The precondition keeps the new length within `isize::MAX`, under which
/// the underlying reservation cannot fail.
#[verifier::external_body]
pub fn bm_extend(b: &mut BytesMut, extend: &[u8])
    requires
        bm_view(*old(b)).len() + extend@.len() < 0x8000_0000_0000_0000,
    ensures
        bm_view(*final(b)) == bm_view(*old(b)) + extend@,
{
    b.extend_from_slice(extend)
}

/// Relies on `bytes::BytesMut`'s `Deref` to `[u8]`: the held bytes as a
/// slice.
#[verifier::external_body]
pub fn bm_slice(b: &BytesMut) -> (s: &[u8])
    ensures
        s@ == bm_view(*b),
{
    &b[..]
}

} // verus!
