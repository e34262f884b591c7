//! Blocks of bytes as the backend takes them: `bytes::Bytes`.
//!
//! Verus cannot look inside a `Bytes`. This module gives its contents a name and
//! states, without proof, what the few operations used here do to them.

use bytes::Bytes;
use vstd::prelude::*;

verus! {

#[verifier::external_type_specification]
#[verifier::external_body]
pub struct ExBytes(bytes::Bytes);

/// The bytes that a `Bytes` holds, first to last.
pub uninterp spec fn contents(block: Bytes) -> Seq<u8>;

/// `Bytes::len` returns the number of bytes held.
pub assume_specification[ Bytes::len ](block: &Bytes) -> (n: usize)
    ensures
        n == contents(*block).len(),
;

/// `Bytes::from(Vec<u8>)` takes the vector over: the result holds the vector's
/// bytes in the same order.
#[verifier::external_body]
pub(crate) fn from_vec(bytes: Vec<u8>) -> (block: Bytes)
    ensures
        contents(block) == bytes@,
{
    Bytes::from(bytes)
}

/// `<Bytes as AsRef<[u8]>>::as_ref` lends the bytes held as a slice.
#[verifier::external_body]
pub(crate) fn as_slice(block: &Bytes) -> (bytes: &[u8])
    ensures
        bytes@ == contents(*block),
{
    block.as_ref()
}

} // verus!
