//! Byte buffers of the `bytes` crate, as far as row encoding uses them.

use bytes::{Bytes, BytesMut};
use vstd::prelude::*;

verus! {

/// `bytes::BytesMut`, a growable byte buffer. Nothing is known of a value
/// but what `written` says of it.
#[verifier::external_type_specification]
#[verifier::external_body]
pub struct ExBytesMut(bytes::BytesMut);

/// `bytes::Bytes`, an immutable byte buffer. Nothing is known of a value but
/// what `frozen` says of it.
#[verifier::external_type_specification]
#[verifier::external_body]
pub struct ExBytes(bytes::Bytes);

/// The bytes a growable buffer holds, first to last.
pub uninterp spec fn written(buf: BytesMut) -> Seq<u8>;

/// The bytes a frozen buffer holds, first to last.
pub uninterp spec fn frozen(buf: Bytes) -> Seq<u8>;

/// `BytesMut::with_capacity` returns a buffer that holds no bytes, whatever
/// room it has set aside. It allocates as `Vec::with_capacity` does, which
/// gives up above `isize::MAX` bytes.
pub assume_specification[ BytesMut::with_capacity ](capacity: usize) -> (buf: BytesMut)
    requires
        capacity <= isize::MAX,
    ensures
        written(buf) == Seq::<u8>::empty(),
;

/// `BytesMut::split` hands out everything the buffer holds and leaves the
/// buffer empty.
pub assume_specification[ BytesMut::split ](buf: &mut BytesMut) -> (taken: BytesMut)
    ensures
        written(taken) == written(*old(buf)),
        written(*final(buf)) == Seq::<u8>::empty(),
;

/// `BytesMut::freeze` turns the buffer into an immutable one with the same
/// bytes.
pub assume_specification[ BytesMut::freeze ](buf: BytesMut) -> (bytes: Bytes)
    ensures
        frozen(bytes) == written(buf),
;

/// `BytesMut::clear` removes every byte from the buffer.
pub assume_specification[ BytesMut::clear ](buf: &mut BytesMut)
    ensures
        written(*final(buf)) == Seq::<u8>::empty(),
;

} // verus!
