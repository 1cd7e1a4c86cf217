//! Values of the store: byte buffers of the `bytes` crate, seen in contracts
//! as the sequence of bytes that they hold.

use bytes::Bytes;
use vstd::prelude::*;

verus! {

/// `bytes::Bytes`, a cheaply cloneable buffer of bytes. The verifier carries
/// it through without looking inside.
#[verifier::external_type_specification]
#[verifier::external_body]
pub struct ExBytes(bytes::Bytes);

/// The bytes that a buffer holds, in order.
pub uninterp spec fn bytes_content(value: Bytes) -> Seq<u8>;

/// `Bytes::clone` gives a second handle on the same bytes. Believed, not
/// proved.
pub assume_specification[ <Bytes as Clone>::clone ](value: &Bytes) -> (copy: Bytes)
    ensures
        bytes_content(copy) == bytes_content(*value),
;

/// `Bytes::as_ref`: the buffer's bytes as a slice, all of them and in order.
/// Believed, not proved.
#[verifier::external_body]
pub(crate) fn bytes_as_slice(value: &Bytes) -> (slice: &[u8])
    ensures
        slice@ == bytes_content(*value),
{
    value.as_ref()
}

} // verus!
