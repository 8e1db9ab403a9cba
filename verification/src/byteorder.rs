//! Numbers as octets in network order.

use vstd::prelude::*;
use zerocopy::big_endian::{U16, U32};

verus! {

/// The two octets of `x`, most significant first.
pub open spec fn be16(x: u16) -> Seq<u8> {
    seq![(x / 256) as u8, (x % 256) as u8]
}

/// The number whose octets, most significant first, are the first two of `s`.
pub open spec fn from_be16(s: Seq<u8>) -> u16 {
    (s[0] * 256 + s[1]) as u16
}

/// The four octets of `x`, most significant first.
pub open spec fn be32(x: u32) -> Seq<u8> {
    seq![(x / 16777216) as u8, (x / 65536 % 256) as u8, (x / 256 % 256) as u8, (x % 256) as u8]
}

/// The number whose octets, most significant first, are the first four of `s`.
pub open spec fn from_be32(s: Seq<u8>) -> u32 {
    (s[0] * 16777216 + s[1] * 65536 + s[2] * 256 + s[3]) as u32
}

/// Two octets and the number they stand for determine each other.
pub proof fn lemma_be16(x: u16, s: Seq<u8>)
    ensures
        be16(x).len() == 2,
        from_be16(be16(x)) == x,
        s.len() == 2 ==> be16(from_be16(s)) == s,
{
    if s.len() == 2 {
        assert(be16(from_be16(s)) =~= s);
    }
}

proof fn lemma_be32_of_number(x: u32)
    ensures
        from_be32(be32(x)) == x,
{
    assert(x / 16777216 < 256 && x / 16777216 * 16777216 + x / 65536 % 256 * 65536 + x / 256 % 256
        * 256 + x % 256 == x) by (bit_vector);
}

proof fn lemma_be32_of_octets(s: Seq<u8>)
    requires
        s.len() == 4,
    ensures
        be32(from_be32(s)) == s,
{
    let (a, b, c, d) = (s[0] as int, s[1] as int, s[2] as int, s[3] as int);
    let n = from_be32(s) as int;
    assert(n == a * 16777216 + b * 65536 + c * 256 + d);
    assert(n % 256 == d);
    assert(n / 256 == a * 65536 + b * 256 + c);
    assert(n / 256 % 256 == c);
    assert(n / 65536 == a * 256 + b);
    assert(n / 65536 % 256 == b);
    assert(n / 16777216 == a);
    assert(be32(from_be32(s)) =~= s);
}

/// Four octets and the number they stand for determine each other.
pub proof fn lemma_be32(x: u32, s: Seq<u8>)
    ensures
        be32(x).len() == 4,
        from_be32(be32(x)) == x,
        s.len() == 4 ==> be32(from_be32(s)) == s,
{
    lemma_be32_of_number(x);
    if s.len() == 4 {
        lemma_be32_of_octets(s);
    }
}

/// `zerocopy::big_endian::U16::new` stores a number with its most significant octet first.
#[verifier::external_body]
pub(crate) fn u16_to_be(x: u16) -> (b: [u8; 2])
    ensures
        b@ == be16(x),
{
    U16::new(x).into()
}

/// `zerocopy::big_endian::U16::get` reads a number that is stored with its most significant octet
/// first.
#[verifier::external_body]
pub(crate) fn u16_from_be(b: [u8; 2]) -> (x: u16)
    ensures
        x == from_be16(b@),
{
    U16::from_bytes(b).get()
}

/// `zerocopy::big_endian::U32::new` stores a number with its most significant octet first.
#[verifier::external_body]
pub(crate) fn u32_to_be(x: u32) -> (b: [u8; 4])
    ensures
        b@ == be32(x),
{
    U32::new(x).into()
}

/// `zerocopy::big_endian::U32::get` reads a number that is stored with its most significant octet
/// first.
#[verifier::external_body]
pub(crate) fn u32_from_be(b: [u8; 4]) -> (x: u32)
    ensures
        x == from_be32(b@),
{
    U32::from_bytes(b).get()
}

/// The most significant octet comes first.
pub proof fn law_most_significant_octet_first(x: u16, y: u32, s: Seq<u8>)
    ensures
        be16(x).len() == 2,
        be16(x)[0] * 256 + be16(x)[1] == x,
        be32(y).len() == 4,
        be32(y)[0] * 16777216 + be32(y)[1] * 65536 + be32(y)[2] * 256 + be32(y)[3] == y,
        s.len() >= 2 ==> from_be16(s) == s[0] * 256 + s[1],
        s.len() >= 4 ==> from_be32(s) == s[0] * 16777216 + s[1] * 65536 + s[2] * 256 + s[3],
{
    lemma_be32_of_number(y);
    assert(y / 16777216 < 256 && y / 16777216 * 16777216 + y / 65536 % 256 * 65536 + y / 256 % 256
        * 256 + y % 256 == y) by (bit_vector);
}

} // verus!
