//! Values that can be written into a buffer.

use crate::buf::{buffer_contents, can_hold};
use bytes::BytesMut;
use vstd::prelude::*;

verus! {

/// A value with one encoding as bytes.
pub trait Writeable {
    /// The bytes that stand for this value.
    spec fn encoding(&self) -> Seq<u8>;

    /// Appends the encoding of this value to `bf`.
    fn write_to(&self, bf: &mut BytesMut)
        requires
            can_hold(buffer_contents(*old(bf)).len() + self.encoding().len()),
        ensures
            buffer_contents(*final(bf)) == buffer_contents(*old(bf)) + self.encoding(),
    ;

    /// The number of bytes that [`Writeable::write_to`] appends.
    fn len(&self) -> (n: usize)
        requires
            self.encoding().len() <= usize::MAX,
        ensures
            n == self.encoding().len(),
    ;
}

} // verus!
