//! The `bytes` crate as the rest of the library sees it.
//!
//! Everything here is a statement about code of another crate that is believed, not proved. A
//! [`bytes::Bytes`] and a [`bytes::BytesMut`] are opaque; [`bytes_of`] and [`buffer_of`] name the
//! octets they hold, and each operation says what it does to those.

use crate::byteorder::{be16, be32};
use bytes::{Buf, BufMut};
use vstd::prelude::*;

verus! {

#[verifier::external_type_specification]
#[verifier::external_body]
pub struct ExBytes(bytes::Bytes);

#[verifier::external_type_specification]
#[verifier::external_body]
pub struct ExBytesMut(bytes::BytesMut);

/// The octets that a [`bytes::Bytes`] holds.
pub uninterp spec fn bytes_of(b: bytes::Bytes) -> Seq<u8>;

/// The octets that a [`bytes::BytesMut`] holds.
pub uninterp spec fn buffer_of(b: bytes::BytesMut) -> Seq<u8>;

/// `Bytes::new` holds nothing.
pub assume_specification[ bytes::Bytes::new ]() -> (b: bytes::Bytes)
    ensures
        bytes_of(b) == Seq::<u8>::empty(),
;

/// `Bytes::len` is the number of octets held.
pub assume_specification[ bytes::Bytes::len ](b: &bytes::Bytes) -> (n: usize)
    ensures
        n == bytes_of(*b).len(),
;

/// `Bytes::is_empty` tells if no octet is held.
pub assume_specification[ bytes::Bytes::is_empty ](b: &bytes::Bytes) -> (r: bool)
    ensures
        r == (bytes_of(*b).len() == 0),
;

/// `<Bytes as Deref>::deref` is the slice of all octets held.
#[verifier::external_body]
pub(crate) fn bytes_slice(b: &bytes::Bytes) -> (s: &[u8])
    ensures
        s@ == bytes_of(*b),
{
    &b[..]
}

/// `<Bytes as Buf>::advance` drops the first `n` octets. It panics if there are fewer.
#[verifier::external_body]
pub(crate) fn bytes_advance(b: &mut bytes::Bytes, n: usize)
    requires
        n <= bytes_of(*old(b)).len(),
    ensures
        bytes_of(*final(b)) == bytes_of(*old(b)).skip(n as int),
{
    b.advance(n)
}

/// `BytesMut::new` holds nothing.
pub assume_specification[ bytes::BytesMut::new ]() -> (b: bytes::BytesMut)
    ensures
        buffer_of(b) == Seq::<u8>::empty(),
;

/// `BytesMut::zeroed` holds `len` zeros. It panics if so many octets cannot be allocated at all.
pub assume_specification[ bytes::BytesMut::zeroed ](len: usize) -> (b: bytes::BytesMut)
    requires
        len <= isize::MAX,
    ensures
        buffer_of(b) == Seq::<u8>::new(len as nat, |i: int| 0u8),
;

/// `<BytesMut as Clone>::clone` holds the same octets.
pub assume_specification[ <bytes::BytesMut as Clone>::clone ](b: &bytes::BytesMut) -> (r:
    bytes::BytesMut)
    ensures
        buffer_of(r) == buffer_of(*b),
;

/// `BytesMut::len` is the number of octets held.
pub assume_specification[ bytes::BytesMut::len ](b: &bytes::BytesMut) -> (n: usize)
    ensures
        n == buffer_of(*b).len(),
;

/// `BytesMut::split_to` takes the first `at` octets out and leaves the others. It panics if there
/// are fewer.
pub assume_specification[ bytes::BytesMut::split_to ](b: &mut bytes::BytesMut, at: usize) -> (r:
    bytes::BytesMut)
    requires
        at <= buffer_of(*old(b)).len(),
    ensures
        buffer_of(r) == buffer_of(*old(b)).take(at as int),
        buffer_of(*final(b)) == buffer_of(*old(b)).skip(at as int),
;

/// `BytesMut::freeze` keeps the octets.
pub assume_specification[ bytes::BytesMut::freeze ](b: bytes::BytesMut) -> (r: bytes::Bytes)
    ensures
        bytes_of(r) == buffer_of(b),
;

/// `BytesMut::extend_from_slice` adds the octets of the slice at the end. It panics if they cannot
/// be allocated at all.
pub assume_specification[ bytes::BytesMut::extend_from_slice ](
    b: &mut bytes::BytesMut,
    data: &[u8],
)
    requires
        buffer_of(*old(b)).len() + data@.len() <= isize::MAX,
    ensures
        buffer_of(*final(b)) == buffer_of(*old(b)) + data@,
;

/// `<BytesMut as Deref>::deref` is the slice of all octets held.
#[verifier::external_body]
pub(crate) fn buffer_slice(b: &bytes::BytesMut) -> (s: &[u8])
    ensures
        s@ == buffer_of(*b),
{
    &b[..]
}

/// `<BytesMut as DerefMut>::deref_mut` is the slice of all octets held: what is written to it is
/// held afterwards.
#[verifier::external_body]
pub(crate) fn buffer_slice_mut(b: &mut bytes::BytesMut) -> (s: &mut [u8])
    ensures
        s@ == buffer_of(*old(b)),
        final(s)@ == buffer_of(*final(b)),
{
    &mut b[..]
}

/// `<BytesMut as BufMut>::put_u8` adds one octet at the end. It panics if it cannot be allocated at
/// all.
#[verifier::external_body]
pub(crate) fn put_u8(b: &mut bytes::BytesMut, x: u8)
    requires
        buffer_of(*old(b)).len() + 1 <= isize::MAX,
    ensures
        buffer_of(*final(b)) == buffer_of(*old(b)) + seq![x],
{
    b.put_u8(x)
}

/// `<BytesMut as BufMut>::put_u16` adds the two octets of a number, most significant first. It
/// panics if they cannot be allocated at all.
#[verifier::external_body]
pub(crate) fn put_u16(b: &mut bytes::BytesMut, x: u16)
    requires
        buffer_of(*old(b)).len() + 2 <= isize::MAX,
    ensures
        buffer_of(*final(b)) == buffer_of(*old(b)) + be16(x),
{
    b.put_u16(x)
}

/// `<BytesMut as BufMut>::put_u32` adds the four octets of a number, most significant first. It
/// panics if they cannot be allocated at all.
#[verifier::external_body]
pub(crate) fn put_u32(b: &mut bytes::BytesMut, x: u32)
    requires
        buffer_of(*old(b)).len() + 4 <= isize::MAX,
    ensures
        buffer_of(*final(b)) == buffer_of(*old(b)) + be32(x),
{
    b.put_u32(x)
}

/// `<BytesMut as Buf>::get_u8` takes the first octet out. It panics if there is none.
#[verifier::external_body]
pub(crate) fn get_u8(b: &mut bytes::BytesMut) -> (x: u8)
    requires
        buffer_of(*old(b)).len() >= 1,
    ensures
        x == buffer_of(*old(b))[0],
        buffer_of(*final(b)) == buffer_of(*old(b)).skip(1),
{
    b.get_u8()
}

/// `<BytesMut as Buf>::get_u16` takes the first two octets out, as a number with the most
/// significant first. It panics if there are fewer.
#[verifier::external_body]
pub(crate) fn get_u16(b: &mut bytes::BytesMut) -> (x: u16)
    requires
        buffer_of(*old(b)).len() >= 2,
    ensures
        be16(x) == buffer_of(*old(b)).take(2),
        buffer_of(*final(b)) == buffer_of(*old(b)).skip(2),
{
    b.get_u16()
}

/// `<BytesMut as Buf>::get_u32` takes the first four octets out, as a number with the most
/// significant first. It panics if there are fewer.
#[verifier::external_body]
pub(crate) fn get_u32(b: &mut bytes::BytesMut) -> (x: u32)
    requires
        buffer_of(*old(b)).len() >= 4,
    ensures
        be32(x) == buffer_of(*old(b)).take(4),
        buffer_of(*final(b)) == buffer_of(*old(b)).skip(4),
{
    b.get_u32()
}

} // verus!
