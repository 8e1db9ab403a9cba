//! The twelve octets that start every message.

mod private;

use crate::byteorder::{
    be16, be32, from_be16, from_be32, law_most_significant_octet_first, lemma_be16, lemma_be32,
    u16_from_be, u16_to_be, u32_from_be, u32_to_be,
};
use crate::Either;
use private::Sealed;
use std::marker::PhantomData;
use vstd::prelude::*;

verus! {

/// The message frame header.
///
/// The type parameter says of what kind the message is; `()` if that is known only at run time.
#[derive(Debug, PartialEq, Eq)]
pub struct Header<T> {
    version: Version,
    tag: Tag,
    flags: Flags,
    stream_id: StreamId,
    length: Len,
    _marker: PhantomData<T>,
}

/// What a [`Header`] says, whatever its type parameter.
pub struct HeaderView {
    pub version: u8,
    pub tag: Tag,
    pub flags: u16,
    pub stream_id: u32,
    pub length: u32,
}

impl<T> View for Header<T> {
    type V = HeaderView;

    closed spec fn view(&self) -> HeaderView {
        HeaderView {
            version: self.version.0,
            tag: self.tag,
            flags: self.flags.0,
            stream_id: self.stream_id.0,
            length: self.length.0,
        }
    }
}

impl HeaderView {
    /// A header without flags, in the one protocol version there is.
    pub open spec fn plain(tag: Tag, stream_id: u32, length: u32) -> HeaderView {
        HeaderView { version: 0, tag, flags: 0, stream_id, length }
    }

    /// The same header with some more flags.
    pub open spec fn with(self, flags: u16) -> HeaderView {
        HeaderView { flags: self.flags | flags, ..self }
    }

    /// Does the header have all of these flags?
    pub open spec fn has(self, flags: u16) -> bool {
        self.flags & flags == flags
    }
}

impl<T> Clone for Header<T> {
    fn clone(&self) -> (h: Self)
        ensures
            h@ == self@,
    {
        Header {
            version: self.version,
            tag: self.tag,
            flags: self.flags,
            stream_id: self.stream_id,
            length: self.length,
            _marker: PhantomData,
        }
    }
}

impl<T> Header<T> {
    /// The kind of the message.
    pub fn tag(&self) -> (t: Tag)
        ensures
            t == self@.tag,
    {
        self.tag
    }

    /// The flags that are set.
    pub fn flags(&self) -> (f: Flags)
        ensures
            f.0 == self@.flags,
    {
        self.flags
    }

    /// The stream the message belongs to.
    pub fn stream_id(&self) -> (id: StreamId)
        ensures
            id.0 == self@.stream_id,
    {
        self.stream_id
    }

    /// The length field, which means something else for each kind of message.
    pub fn len(&self) -> (l: Len)
        ensures
            l.0 == self@.length,
    {
        self.length
    }

    /// Set the length field.
    pub fn set_len(&mut self, len: u32)
        ensures
            final(self)@ == (HeaderView { length: len, ..old(self)@ }),
    {
        self.length = Len(len)
    }

    /// Arbitrary type cast, use with caution.
    fn cast<U>(self) -> (h: Header<U>)
        ensures
            h@ == self@,
    {
        Header {
            version: self.version,
            tag: self.tag,
            flags: self.flags,
            stream_id: self.stream_id,
            length: self.length,
            _marker: PhantomData,
        }
    }

    /// Introduce this header to the right of a binary header type.
    pub(crate) fn right<U>(self) -> (h: Header<Either<U, T>>)
        ensures
            h@ == self@,
    {
        self.cast()
    }

    /// Introduce this header to the left of a binary header type.
    pub(crate) fn left<U>(self) -> (h: Header<Either<T, U>>)
        ensures
            h@ == self@,
    {
        self.cast()
    }

    /// Forget of what kind the message is.
    pub(crate) fn into_generic(self) -> (h: Header<()>)
        ensures
            h@ == self@,
    {
        self.cast()
    }
}

impl Header<()> {
    /// Assume that this is the header of a data frame.
    pub(crate) fn into_data(self) -> (h: Header<Data>)
        ensures
            h@ == self@,
    {
        self.cast()
    }

    /// Assume that this is the header of a window update.
    pub(crate) fn into_window_update(self) -> (h: Header<WindowUpdate>)
        ensures
            h@ == self@,
    {
        self.cast()
    }

    /// Assume that this is the header of a ping.
    pub(crate) fn into_ping(self) -> (h: Header<Ping>)
        ensures
            h@ == self@,
    {
        self.cast()
    }

    /// The header of a data frame, or the header itself if it is of another kind.
    pub(crate) fn try_into_data(self) -> (r: Result<Header<Data>, Header<()>>)
        ensures
            match r {
                Ok(h) => self@.tag == Tag::Data && h@ == self@,
                Err(h) => self@.tag != Tag::Data && h@ == self@,
            },
    {
        if self.tag == Tag::Data {
            Ok(self.into_data())
        } else {
            Err(self)
        }
    }
}

impl<T: HasSyn> Header<T> {
    /// Set the [`SYN`] flag.
    pub fn syn(&mut self)
        ensures
            final(self)@ == old(self)@.with(SYN),
    {
        self.flags.0 = self.flags.0 | SYN
    }
}

impl<T: HasAck> Header<T> {
    /// Set the [`ACK`] flag.
    pub fn ack(&mut self)
        ensures
            final(self)@ == old(self)@.with(ACK),
    {
        self.flags.0 = self.flags.0 | ACK
    }
}

impl<T: HasFin> Header<T> {
    /// Set the [`FIN`] flag.
    pub fn fin(&mut self)
        ensures
            final(self)@ == old(self)@.with(FIN),
    {
        self.flags.0 = self.flags.0 | FIN
    }
}

impl<T: HasRst> Header<T> {
    /// Set the [`RST`] flag.
    pub fn rst(&mut self)
        ensures
            final(self)@ == old(self)@.with(RST),
    {
        self.flags.0 = self.flags.0 | RST
    }
}

impl Header<Data> {
    /// Create a new data frame header.
    pub fn data(id: StreamId, len: u32) -> (h: Self)
        ensures
            h@ == HeaderView::plain(Tag::Data, id.0, len),
    {
        Header {
            version: Version(0),
            tag: Tag::Data,
            flags: Flags(0),
            stream_id: id,
            length: Len(len),
            _marker: PhantomData,
        }
    }

    /// The number of octets in the body.
    pub fn body_len(&self) -> (n: usize)
        ensures
            n == self@.length,
    {
        self.length.0 as usize
    }
}

impl Header<WindowUpdate> {
    /// Create a new window update frame header.
    pub fn window_update(id: StreamId, credit: u32) -> (h: Self)
        ensures
            h@ == HeaderView::plain(Tag::WindowUpdate, id.0, credit),
    {
        Header {
            version: Version(0),
            tag: Tag::WindowUpdate,
            flags: Flags(0),
            stream_id: id,
            length: Len(credit),
            _marker: PhantomData,
        }
    }

    /// The credit this window update grants to the remote.
    pub fn credit(&self) -> (n: u32)
        ensures
            n == self@.length,
    {
        self.length.0
    }
}

impl Header<Ping> {
    /// Create a new ping frame header.
    pub fn ping(nonce: u32) -> (h: Self)
        ensures
            h@ == HeaderView::plain(Tag::Ping, CONNECTION_ID, nonce),
    {
        Header {
            version: Version(0),
            tag: Tag::Ping,
            flags: Flags(0),
            stream_id: StreamId(CONNECTION_ID),
            length: Len(nonce),
            _marker: PhantomData,
        }
    }

    /// The nonce of this ping.
    pub fn nonce(&self) -> (n: u32)
        ensures
            n == self@.length,
    {
        self.length.0
    }
}

impl Header<GoAway> {
    /// Terminate the session without indicating an error to the remote.
    pub fn term() -> (h: Self)
        ensures
            h@ == HeaderView::plain(Tag::GoAway, CONNECTION_ID, 0),
    {
        Self::go_away(0)
    }

    /// Terminate the session indicating a protocol error to the remote.
    pub fn protocol_error() -> (h: Self)
        ensures
            h@ == HeaderView::plain(Tag::GoAway, CONNECTION_ID, 1),
    {
        Self::go_away(1)
    }

    /// Terminate the session indicating an internal error to the remote.
    pub fn internal_error() -> (h: Self)
        ensures
            h@ == HeaderView::plain(Tag::GoAway, CONNECTION_ID, 2),
    {
        Self::go_away(2)
    }

    fn go_away(code: u32) -> (h: Self)
        ensures
            h@ == HeaderView::plain(Tag::GoAway, CONNECTION_ID, code),
    {
        Header {
            version: Version(0),
            tag: Tag::GoAway,
            flags: Flags(0),
            stream_id: StreamId(CONNECTION_ID),
            length: Len(code),
            _marker: PhantomData,
        }
    }
}

/// Data message type.
#[derive(Clone, Copy, Debug)]
pub enum Data {
    /// Never made: the type alone is of use.
    Marker,
}

/// Window update message type.
#[derive(Clone, Copy, Debug)]
pub enum WindowUpdate {
    /// Never made: the type alone is of use.
    Marker,
}

/// Ping message type.
#[derive(Clone, Copy, Debug)]
pub enum Ping {
    /// Never made: the type alone is of use.
    Marker,
}

/// Go Away message type.
#[derive(Clone, Copy, Debug)]
pub enum GoAway {
    /// Never made: the type alone is of use.
    Marker,
}

/// Types which have a `syn` method.
pub trait HasSyn: Sealed {

}

impl HasSyn for Data {

}

impl HasSyn for WindowUpdate {

}

impl HasSyn for Ping {

}

impl<A: HasSyn, B: HasSyn> HasSyn for Either<A, B> {

}

/// Types which have an `ack` method.
pub trait HasAck: Sealed {

}

impl HasAck for Data {

}

impl HasAck for WindowUpdate {

}

impl HasAck for Ping {

}

impl<A: HasAck, B: HasAck> HasAck for Either<A, B> {

}

/// Types which have a `fin` method.
pub trait HasFin: Sealed {

}

impl HasFin for Data {

}

impl HasFin for WindowUpdate {

}

/// Types which have a `rst` method.
pub trait HasRst: Sealed {

}

impl HasRst for Data {

}

impl HasRst for WindowUpdate {

}

impl Sealed for Data {

}

impl Sealed for WindowUpdate {

}

impl Sealed for Ping {

}

impl Sealed for GoAway {

}

impl<A: Sealed, B: Sealed> Sealed for Either<A, B> {

}

/// A tag is the runtime representation of a message type.
#[derive(Copy, Clone, Debug, PartialEq, Eq, Structural)]
pub enum Tag {
    Data,
    WindowUpdate,
    Ping,
    GoAway,
}

impl Tag {
    /// The octet that stands for the tag.
    pub open spec fn octet(self) -> u8 {
        match self {
            Tag::Data => 0,
            Tag::WindowUpdate => 1,
            Tag::Ping => 2,
            Tag::GoAway => 3,
        }
    }

    /// The tag an octet stands for, if it stands for one.
    pub open spec fn of_octet(octet: u8) -> Option<Tag> {
        match octet {
            0 => Some(Tag::Data),
            1 => Some(Tag::WindowUpdate),
            2 => Some(Tag::Ping),
            3 => Some(Tag::GoAway),
            _ => None,
        }
    }

    /// The tag as an octet.
    pub fn to_octet(self) -> (octet: u8)
        ensures
            octet == self.octet(),
    {
        match self {
            Tag::Data => 0,
            Tag::WindowUpdate => 1,
            Tag::Ping => 2,
            Tag::GoAway => 3,
        }
    }

    /// The octet as a tag.
    pub fn from_octet(octet: u8) -> (t: Option<Tag>)
        ensures
            t == Self::of_octet(octet),
    {
        match octet {
            0 => Some(Tag::Data),
            1 => Some(Tag::WindowUpdate),
            2 => Some(Tag::Ping),
            3 => Some(Tag::GoAway),
            _ => None,
        }
    }
}

/// The protocol version a message corresponds to.
#[derive(Copy, Clone, Debug, PartialEq, Eq, Structural)]
pub struct Version(pub u8);

/// The message length.
#[derive(Copy, Clone, Debug, PartialEq, Eq, Structural)]
pub struct Len(pub u32);

impl Len {
    /// The length as a number.
    pub fn val(self) -> (n: u32)
        ensures
            n == self.0,
    {
        self.0
    }
}

/// The ID of the connection itself.
pub const CONNECTION_ID: u32 = 0;

/// The ID of a stream.
///
/// The value 0 denotes no particular stream but the whole session.
#[derive(Copy, Clone, Debug, PartialEq, Eq, PartialOrd, Ord, Hash, Structural)]
pub struct StreamId(pub u32);

impl StreamId {
    /// The ID with the given number.
    pub fn new(val: u32) -> (id: Self)
        ensures
            id.0 == val,
    {
        StreamId(val)
    }

    /// Are streams with this ID opened by the server?
    pub fn is_server(self) -> (r: bool)
        ensures
            r == (self.0 % 2 == 0),
    {
        self.0 % 2 == 0
    }

    /// Are streams with this ID opened by the client?
    pub fn is_client(self) -> (r: bool)
        ensures
            r == (self.0 % 2 == 1),
    {
        !self.is_server()
    }

    /// Does this ID denote the whole session?
    pub fn is_session(self) -> (r: bool)
        ensures
            r == (self.0 == CONNECTION_ID),
    {
        self.0 == CONNECTION_ID
    }

    /// The ID as a number.
    pub fn val(self) -> (n: u32)
        ensures
            n == self.0,
    {
        self.0
    }
}

/// Possible flags set on a message.
#[derive(Copy, Clone, Debug, PartialEq, Eq, Structural)]
pub struct Flags(pub u16);

impl Flags {
    /// Are all of the `other` flags set?
    pub fn contains(self, other: Flags) -> (r: bool)
        ensures
            r == (self.0 & other.0 == other.0),
    {
        self.0 & other.0 == other.0
    }

    /// All flags of either.
    pub fn and(self, other: Flags) -> (f: Flags)
        ensures
            f == Flags(self.0 | other.0),
    {
        Flags(self.0 | other.0)
    }

    /// The flags as a number.
    pub fn val(self) -> (n: u16)
        ensures
            n == self.0,
    {
        self.0
    }
}

/// Indicates the start of a new stream.
pub const SYN: u16 = 1;

/// Acknowledges the start of a new stream.
pub const ACK: u16 = 2;

/// Indicates the half-closing of a stream.
pub const FIN: u16 = 4;

/// Indicates an immediate stream reset.
pub const RST: u16 = 8;

/// The serialised header size in bytes.
pub const HEADER_SIZE: usize = 12;

/// Possible errors while decoding a message frame header.
#[derive(Copy, Clone, Debug, PartialEq, Eq, Structural)]
#[non_exhaustive]
pub enum HeaderDecodeError {
    /// Unknown version.
    Version(u8),
    /// An unknown frame type.
    Type(u8),
}

/// The octets of a header on the wire, all numbers in network order.
pub open spec fn header_octets(h: HeaderView) -> Seq<u8> {
    seq![h.version, h.tag.octet()] + be16(h.flags) + be32(h.stream_id) + be32(h.length)
}

/// The header that twelve octets on the wire stand for.
pub open spec fn parse_header(s: Seq<u8>) -> Result<HeaderView, HeaderDecodeError> {
    if s[0] != 0 {
        Err(HeaderDecodeError::Version(s[0]))
    } else {
        match Tag::of_octet(s[1]) {
            None => Err(HeaderDecodeError::Type(s[1])),
            Some(tag) => Ok(
                HeaderView {
                    version: 0,
                    tag,
                    flags: from_be16(s.subrange(2, 4)),
                    stream_id: from_be32(s.subrange(4, 8)),
                    length: from_be32(s.subrange(8, 12)),
                },
            ),
        }
    }
}

/// Encode a [`Header`] value.
pub fn encode<T>(hdr: &Header<T>) -> (buf: [u8; HEADER_SIZE])
    ensures
        buf@ == header_octets(hdr@),
{
    let f = u16_to_be(hdr.flags.0);
    let s = u32_to_be(hdr.stream_id.0);
    let n = u32_to_be(hdr.length.0);
    let buf: [u8; HEADER_SIZE] = [
        hdr.version.0,
        hdr.tag.to_octet(),
        f[0],
        f[1],
        s[0],
        s[1],
        s[2],
        s[3],
        n[0],
        n[1],
        n[2],
        n[3],
    ];
    assert(buf@ =~= header_octets(hdr@));
    buf
}

/// Decode a [`Header`] value.
pub fn decode(buf: &[u8; HEADER_SIZE]) -> (r: Result<Header<()>, HeaderDecodeError>)
    ensures
        match r {
            Ok(h) => parse_header(buf@) == Ok::<HeaderView, HeaderDecodeError>(h@),
            Err(e) => parse_header(buf@) == Err::<HeaderView, HeaderDecodeError>(e),
        },
{
    if buf[0] != 0 {
        return Err(HeaderDecodeError::Version(buf[0]));
    }
    let tag = match Tag::from_octet(buf[1]) {
        Some(tag) => tag,
        None => return Err(HeaderDecodeError::Type(buf[1])),
    };
    let f: [u8; 2] = [buf[2], buf[3]];
    let s: [u8; 4] = [buf[4], buf[5], buf[6], buf[7]];
    let n: [u8; 4] = [buf[8], buf[9], buf[10], buf[11]];
    assert(f@ =~= buf@.subrange(2, 4));
    assert(s@ =~= buf@.subrange(4, 8));
    assert(n@ =~= buf@.subrange(8, 12));
    Ok(
        Header {
            version: Version(0),
            tag,
            flags: Flags(u16_from_be(f)),
            stream_id: StreamId(u32_from_be(s)),
            length: Len(u32_from_be(n)),
            _marker: PhantomData,
        },
    )
}

/// Decoding gives back every header that was encoded, as long as it has the one version there is.
pub proof fn law_decode_after_encode(h: HeaderView)
    requires
        h.version == 0,
    ensures
        header_octets(h).len() == HEADER_SIZE,
        parse_header(header_octets(h)) == Ok::<HeaderView, HeaderDecodeError>(h),
{
    let s = header_octets(h);
    lemma_be16(h.flags, be16(h.flags));
    lemma_be32(h.stream_id, be32(h.stream_id));
    lemma_be32(h.length, be32(h.length));
    assert(s.subrange(2, 4) =~= be16(h.flags));
    assert(s.subrange(4, 8) =~= be32(h.stream_id));
    assert(s.subrange(8, 12) =~= be32(h.length));
}

/// Encoding gives back the very octets that were decoded.
pub proof fn law_encode_after_decode(s: Seq<u8>)
    requires
        s.len() == HEADER_SIZE,
        parse_header(s) is Ok,
    ensures
        header_octets(parse_header(s)->Ok_0) == s,
{
    lemma_be16(0, s.subrange(2, 4));
    lemma_be32(0, s.subrange(4, 8));
    lemma_be32(0, s.subrange(8, 12));
    assert(header_octets(parse_header(s)->Ok_0) =~= s);
}

/// Decoding twelve octets fails on an unknown version and on an unknown frame type, and on nothing
/// else.
pub proof fn law_decode_fails_only_on_version_and_type(s: Seq<u8>)
    requires
        s.len() == HEADER_SIZE,
    ensures
        parse_header(s) is Ok <==> s[0] == 0 && s[1] < 4,
        parse_header(s) == Err::<HeaderView, HeaderDecodeError>(HeaderDecodeError::Version(s[0]))
            <==> s[0] != 0,
        parse_header(s) == Err::<HeaderView, HeaderDecodeError>(HeaderDecodeError::Type(s[1]))
            <==> s[0] == 0 && s[1] >= 4,
{
}

/// Setting a flag sets it and leaves the three others alone.
pub proof fn law_flags_are_independent(h: HeaderView, f: u16, g: u16)
    requires
        f == SYN || f == ACK || f == FIN || f == RST,
        g == SYN || g == ACK || g == FIN || g == RST,
    ensures
        h.with(f).has(f),
        f != g ==> h.with(f).has(g) == h.has(g),
{
    let (x, a, b) = (h.flags, f, g);
    assert((x | a) & a == a) by (bit_vector);
    if f != g {
        assert(((x | a) & b == b) == (x & b == b)) by (bit_vector)
            requires
                a == 1 || a == 2 || a == 4 || a == 8,
                b == 1 || b == 2 || b == 4 || b == 8,
                a != b,
        ;
    }
}

/// A header starts without any flag.
pub proof fn law_plain_header_has_no_flag(tag: Tag, stream_id: u32, length: u32, f: u16)
    requires
        f == SYN || f == ACK || f == FIN || f == RST,
    ensures
        !HeaderView::plain(tag, stream_id, length).has(f),
{
    assert(0u16 & f == 0) by (bit_vector);
}

/// Where each part of a header is on the wire: the version, the kind, the flags, the stream and the
/// length, with the most significant octet of each number first.
pub proof fn law_header_layout(h: HeaderView)
    ensures
        ({
            let s = header_octets(h);
            &&& s.len() == 12
            &&& s[0] == h.version
            &&& s[1] == match h.tag {
                Tag::Data => 0u8,
                Tag::WindowUpdate => 1u8,
                Tag::Ping => 2u8,
                Tag::GoAway => 3u8,
            }
            &&& s[2] * 256 + s[3] == h.flags
            &&& s[4] * 16777216 + s[5] * 65536 + s[6] * 256 + s[7] == h.stream_id
            &&& s[8] * 16777216 + s[9] * 65536 + s[10] * 256 + s[11] == h.length
        }),
{
    law_most_significant_octet_first(h.flags, h.stream_id, Seq::empty());
    law_most_significant_octet_first(h.flags, h.length, Seq::empty());
}

/// Flags are told apart by their bits: each has one of its own.
pub proof fn law_flags_have_their_own_bits(h: HeaderView, f: u16)
    requires
        f == SYN || f == ACK || f == FIN || f == RST,
    ensures
        SYN == 1,
        ACK == 2,
        FIN == 4,
        RST == 8,
        h.has(f) <==> h.flags & f != 0,
        h.with(f).flags & !f == h.flags & !f,
        h.with(f) == (HeaderView { flags: h.with(f).flags, ..h }),
{
    let (x, a) = (h.flags, f);
    assert((x & a == a) == (x & a != 0) && (x | a) & !a == x & !a) by (bit_vector)
        requires
            a == 1 || a == 2 || a == 4 || a == 8,
    ;
}

} // verus!
