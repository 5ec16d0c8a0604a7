//! The payload of a message travels through the transport as a
//! [`bytes::Bytes`] buffer, an immutable byte sequence shared by reference
//! counting. The buffer is opaque to the verifier; [`bytes_view`] names the
//! byte sequence it holds, and the wrappers below state how the operations
//! the transport uses relate to that sequence.

use vstd::prelude::*;

verus! {

#[verifier::external_type_specification]
#[verifier::external_body]
pub struct ExBytes(bytes::Bytes);

/// The sequence of bytes a [`bytes::Bytes`] buffer holds.
pub uninterp spec fn bytes_view(b: bytes::Bytes) -> Seq<u8>;

/// Relies on `From<Vec<u8>> for bytes::Bytes`: the buffer holds exactly the
/// bytes of the vector, in order.
#[verifier::external_body]
pub(crate) fn bytes_from_vec(v: Vec<u8>) -> (r: bytes::Bytes)
    ensures
        bytes_view(r) == v@,
{
    bytes::Bytes::from(v)
}

/// Relies on `Deref<Target = [u8]> for bytes::Bytes`: the dereferenced slice
/// is the buffer's bytes in order, which `to_vec` copies one for one.
#[verifier::external_body]
pub(crate) fn bytes_to_vec(b: &bytes::Bytes) -> (r: Vec<u8>)
    ensures
        r@ == bytes_view(*b),
{
    b.to_vec()
}

/// Relies on `Clone for bytes::Bytes`: a clone shares the same underlying
/// buffer, so it holds the same bytes.
#[verifier::external_body]
pub(crate) fn bytes_clone(b: &bytes::Bytes) -> (r: bytes::Bytes)
    ensures
        bytes_view(r) == bytes_view(*b),
{
    b.clone()
}

} // verus!
