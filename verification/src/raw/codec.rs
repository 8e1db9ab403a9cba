//! Encoding and decoding of messages.

use crate::buffer::{
    buffer_of, bytes_of, get_u16, get_u32, get_u8, put_u16, put_u32, put_u8,
};
use crate::byteorder::{
    be16, be32, from_be16, from_be32, law_most_significant_octet_first, lemma_be16, lemma_be32,
};
use crate::error::{DecodeError, IoErrorKind};
use crate::frame::header::{header_octets, Flags, HeaderView, Len, StreamId, Tag, Version, HEADER_SIZE};
use crate::frame::{body_len, FrameView};
use crate::raw::header::{RawHeader, Type};
use crate::raw::RawFrame;
use crate::Config;
use bytes::{Bytes, BytesMut};
use tokio_util::codec::{BytesCodec, Decoder, Encoder};
use vstd::prelude::*;

verus! {

#[verifier::external_type_specification]
#[verifier::external_body]
pub struct ExBytesCodec(tokio_util::codec::BytesCodec);

#[verifier::external_type_specification]
#[verifier::external_body]
pub struct ExIoError(std::io::Error);

/// `BytesCodec::new` has no state.
pub assume_specification[ tokio_util::codec::BytesCodec::new ]() -> (c: BytesCodec)
;

/// `<BytesCodec as Encoder<Bytes>>::encode` adds the octets at the end, and never fails. It panics if
/// they cannot be allocated at all.
#[verifier::external_body]
fn encode_bytes(codec: &mut BytesCodec, data: Bytes, buf: &mut BytesMut) -> (r: Result<
    (),
    std::io::Error,
>)
    requires
        buffer_of(*old(buf)).len() + bytes_of(data).len() <= isize::MAX,
    ensures
        r is Ok,
        buffer_of(*final(buf)) == buffer_of(*old(buf)) + bytes_of(data),
{
    codec.encode(data, buf)
}

/// `<BytesCodec as Decoder>::decode` takes all octets out, if there are any, and never fails.
#[verifier::external_body]
fn decode_bytes(codec: &mut BytesCodec, buf: &mut BytesMut) -> (r: Result<
    Option<BytesMut>,
    std::io::Error,
>)
    ensures
        r is Ok,
        r->Ok_0 is Some <==> buffer_of(*old(buf)).len() > 0,
        r matches Ok(Some(b)) ==> buffer_of(b) == buffer_of(*old(buf)),
        buffer_of(*final(buf)).len() == 0,
{
    codec.decode(buf)
}

/// Encodes and decodes headers.
#[derive(Debug)]
pub struct HeaderCodec(());

/// The header at the start of some octets, whatever its version.
pub open spec fn raw_header(p: Seq<u8>) -> HeaderView {
    HeaderView {
        version: p[0],
        tag: Tag::of_octet(p[1])->Some_0,
        flags: from_be16(p.subrange(2, 4)),
        stream_id: from_be32(p.subrange(4, 8)),
        length: from_be32(p.subrange(8, 12)),
    }
}

/// Octets whose header is of a known kind start with the octets of that header, and a header is found
/// again in its octets.
proof fn lemma_raw_header(h: HeaderView, p: Seq<u8>)
    ensures
        p.len() >= HEADER_SIZE && Tag::of_octet(p[1]) is Some ==> header_octets(raw_header(p))
            == p.take(HEADER_SIZE as int),
        header_octets(h).len() == HEADER_SIZE,
        p.len() >= HEADER_SIZE && p.take(HEADER_SIZE as int) == header_octets(h) ==> raw_header(p)
            == h && Tag::of_octet(p[1]) == Some(h.tag),
{
    if p.len() >= HEADER_SIZE {
        lemma_be16(h.flags, p.subrange(2, 4));
        lemma_be32(h.stream_id, p.subrange(4, 8));
        lemma_be32(h.length, p.subrange(8, 12));
        if Tag::of_octet(p[1]) is Some {
            assert(header_octets(raw_header(p)) =~= p.take(HEADER_SIZE as int));
        }
        if p.take(HEADER_SIZE as int) == header_octets(h) {
            let s = p.take(HEADER_SIZE as int);
            assert(p[0] == s[0] && p[1] == s[1]);
            assert(p.subrange(2, 4) =~= s.subrange(2, 4));
            assert(p.subrange(4, 8) =~= s.subrange(4, 8));
            assert(p.subrange(8, 12) =~= s.subrange(8, 12));
            assert(s.subrange(2, 4) =~= be16(h.flags));
            assert(s.subrange(4, 8) =~= be32(h.stream_id));
            assert(s.subrange(8, 12) =~= be32(h.length));
        }
    }
}

/// What decoding a header makes of the octets `p`, and which of them it leaves.
///
/// The version is not looked at. A header of an unknown kind is left out.
pub open spec fn header_outcome(
    p: Seq<u8>,
    left: Seq<u8>,
    r: Result<Option<RawHeader>, DecodeError>,
) -> bool {
    if p.len() < HEADER_SIZE {
        left == p && r == Ok::<Option<RawHeader>, DecodeError>(None)
    } else if Tag::of_octet(p[1]) is None {
        &&& left == p.skip(HEADER_SIZE as int)
        &&& r == Err::<Option<RawHeader>, DecodeError>(DecodeError::Type(p[1]))
    } else {
        &&& left == p.skip(HEADER_SIZE as int)
        &&& r matches Ok(Some(h))
        &&& h@ == raw_header(p)
    }
}

impl HeaderCodec {
    /// A codec for headers.
    pub fn new() -> HeaderCodec {
        HeaderCodec(())
    }

    /// Add the octets of a header at the end.
    pub fn encode(&mut self, hdr: RawHeader, bytes: &mut BytesMut) -> (r: Result<(), IoErrorKind>)
        requires
            buffer_of(*old(bytes)).len() + HEADER_SIZE <= isize::MAX,
        ensures
            r is Ok,
            buffer_of(*final(bytes)) == buffer_of(*old(bytes)) + header_octets(hdr@),
    {
        put_u8(bytes, hdr.version.0);
        put_u8(bytes, hdr.typ.to_octet());
        put_u16(bytes, hdr.flags.0);
        put_u32(bytes, hdr.stream_id.val());
        put_u32(bytes, hdr.length.0);
        assert(buffer_of(*bytes) =~= buffer_of(*old(bytes)) + header_octets(hdr@));
        Ok(())
    }

    /// Take a header out.
    pub fn decode(&mut self, src: &mut BytesMut) -> (r: Result<Option<RawHeader>, DecodeError>)
        ensures
            header_outcome(buffer_of(*old(src)), buffer_of(*final(src)), r),
    {
        let ghost p = buffer_of(*src);
        if src.len() < HEADER_SIZE {
            return Ok(None);
        }
        let mut head = src.split_to(HEADER_SIZE);
        let version: u8 = get_u8(&mut head);
        let octet: u8 = get_u8(&mut head);
        let typ = match Type::from_octet(octet) {
            Some(typ) => typ,
            None => return Err(DecodeError::Type(octet)),
        };
        let flags: u16 = get_u16(&mut head);
        let stream_id: u32 = get_u32(&mut head);
        let length: u32 = get_u32(&mut head);
        let header = RawHeader {
            version: Version(version),
            typ,
            flags: Flags(flags),
            stream_id: StreamId::new(stream_id),
            length: Len(length),
        };
        proof {
            lemma_be16(flags, p.subrange(2, 4));
            lemma_be32(stream_id, p.subrange(4, 8));
            lemma_be32(length, p.subrange(8, 12));
            assert(be16(flags) =~= p.subrange(2, 4));
            assert(be32(stream_id) =~= p.subrange(4, 8));
            assert(be32(length) =~= p.subrange(8, 12));
        }
        Ok(Some(header))
    }
}

/// Encodes and decodes whole messages.
#[derive(Debug)]
pub struct FrameCodec {
    header_codec: HeaderCodec,
    body_codec: BytesCodec,
    header: Option<RawHeader>,
    max_buf_size: usize,
}

/// What decoding a message makes of the octets `p`, and which of them it leaves.
///
/// A header that is of an unknown kind, or that announces too large a body, is left out.
pub open spec fn raw_outcome(
    p: Seq<u8>,
    left: Seq<u8>,
    max: nat,
    r: Result<Option<RawFrame>, DecodeError>,
) -> bool {
    if p.len() < HEADER_SIZE {
        left == p && r == Ok::<Option<RawFrame>, DecodeError>(None)
    } else if Tag::of_octet(p[1]) is None {
        &&& left == p.skip(HEADER_SIZE as int)
        &&& r == Err::<Option<RawFrame>, DecodeError>(DecodeError::Type(p[1]))
    } else {
        let h = raw_header(p);
        let n = body_len(h);
        if n > max {
            &&& left == p.skip(HEADER_SIZE as int)
            &&& r == Err::<Option<RawFrame>, DecodeError>(DecodeError::FrameTooLarge(n as usize))
        } else if p.len() < HEADER_SIZE + n {
            left == p && r == Ok::<Option<RawFrame>, DecodeError>(None)
        } else {
            &&& left == p.skip(HEADER_SIZE + n)
            &&& r matches Ok(Some(f))
            &&& f@ == FrameView { header: h, body: p.subrange(HEADER_SIZE as int, HEADER_SIZE + n) }
        }
    }
}

impl FrameCodec {
    /// The largest body of a data frame that is decoded.
    pub closed spec fn max(self) -> nat {
        self.max_buf_size as nat
    }

    /// The header that was taken out of the input while its body is still missing.
    pub closed spec fn kept(self) -> Option<HeaderView> {
        match self.header {
            Some(h) => Some(h@),
            None => None,
        }
    }

    /// The octets that no message was made of yet: those of the header that is kept, and those in `src`.
    pub open spec fn pending(self, src: Seq<u8>) -> Seq<u8> {
        match self.kept() {
            Some(h) => header_octets(h) + src,
            None => src,
        }
    }

    /// A header is kept only if its message can still become complete.
    pub open spec fn wf(self) -> bool {
        self.kept() matches Some(h) ==> h.tag == Tag::Data && 0 < h.length <= self.max()
    }

    /// What decoding a message makes of the input `src`: the codec `after`, what is `left` of the
    /// input, and the result.
    ///
    /// Once the header of a message is complete it is taken out of the input, and it is kept until its
    /// body is complete too.
    pub open spec fn decoded(
        self,
        src: Seq<u8>,
        after: FrameCodec,
        left: Seq<u8>,
        r: Result<Option<RawFrame>, DecodeError>,
    ) -> bool {
        let p = self.pending(src);
        &&& after.wf()
        &&& after.max() == self.max()
        &&& raw_outcome(p, after.pending(left), self.max(), r)
        &&& if r matches Ok(None) && p.len() >= HEADER_SIZE {
            &&& after.kept() == Some(raw_header(p))
            &&& left == p.skip(HEADER_SIZE as int)
        } else {
            after.kept() is None
        }
    }

    /// A codec that is configured like this.
    pub fn new(cfg: &Config) -> (c: FrameCodec)
        ensures
            c.wf(),
            c.max() == cfg@.max_buffer_size,
            c.kept() is None,
    {
        FrameCodec {
            header_codec: HeaderCodec::new(),
            body_codec: BytesCodec::new(),
            header: None,
            max_buf_size: cfg.max_buffer_size,
        }
    }

    /// A codec with the default configuration.
    pub fn default() -> (c: FrameCodec)
        ensures
            c.wf(),
            c.max() == 1048576,
            c.kept() is None,
    {
        FrameCodec::new(&Config::default())
    }

    /// Add the octets of a message at the end.
    pub fn encode(&mut self, frame: RawFrame, bytes: &mut BytesMut) -> (r: Result<(), IoErrorKind>)
        requires
            old(self).wf(),
            buffer_of(*old(bytes)).len() + HEADER_SIZE + frame@.body.len() <= isize::MAX,
        ensures
            r is Ok,
            buffer_of(*final(bytes)) == buffer_of(*old(bytes)) + frame@.octets(),
            final(self).wf(),
            final(self).max() == old(self).max(),
            final(self).kept() == old(self).kept(),
    {
        proof {
            lemma_raw_header(frame.header@, Seq::empty());
        }
        if let Err(e) = self.header_codec.encode(frame.header, bytes) {
            return Err(e);
        }
        match encode_bytes(&mut self.body_codec, frame.body, bytes) {
            Ok(()) => {},
            Err(_) => return Err(IoErrorKind::Other),
        }
        assert(buffer_of(*bytes) =~= buffer_of(*old(bytes)) + frame@.octets());
        Ok(())
    }

    /// Take a message out.
    ///
    /// Returns `Ok(None)` if more data is needed.
    pub fn decode(&mut self, src: &mut BytesMut) -> (r: Result<Option<RawFrame>, DecodeError>)
        requires
            old(self).wf(),
        ensures
            old(self).decoded(buffer_of(*old(src)), *final(self), buffer_of(*final(src)), r),
    {
        let ghost p = self.pending(buffer_of(*src));
        let header = match self.header.take() {
            Some(header) => {
                proof {
                    lemma_raw_header(header@, p);
                    assert(p.take(HEADER_SIZE as int) =~= header_octets(header@));
                    assert(p.skip(HEADER_SIZE as int) =~= buffer_of(*src));
                }
                header
            },
            None => match self.header_codec.decode(src) {
                Ok(Some(header)) => header,
                Ok(None) => return Ok(None),
                Err(e) => return Err(e),
            },
        };
        proof {
            lemma_raw_header(header@, p);
            assert(p =~= header_octets(header@) + buffer_of(*src));
        }
        if header.typ != Type::Data || header.length.0 == 0 {
            assert(p.subrange(HEADER_SIZE as int, HEADER_SIZE as int) =~= Seq::<u8>::empty());
            return Ok(Some(RawFrame { header, body: Bytes::new() }));
        }
        let len: usize = header.length.0 as usize;
        if len > self.max_buf_size {
            return Err(DecodeError::FrameTooLarge(len));
        }
        if src.len() < len {
            self.header = Some(header);
            return Ok(None);
        }
        let ghost rest = buffer_of(*src);
        let mut body = src.split_to(len);
        assert(p.subrange(HEADER_SIZE as int, HEADER_SIZE + len) =~= rest.take(len as int));
        assert(p.skip(HEADER_SIZE + len) =~= rest.skip(len as int));
        match decode_bytes(&mut self.body_codec, &mut body) {
            Ok(Some(b)) => Ok(Some(RawFrame { header, body: b.freeze() })),
            Ok(None) => {
                self.header = Some(header);
                Ok(None)
            },
            Err(_) => Err(DecodeError::Io(IoErrorKind::Other)),
        }
    }
}

/// What is added to the input comes after what is pending.
pub proof fn law_pending_grows(c: FrameCodec, a: Seq<u8>, b: Seq<u8>)
    ensures
        c.pending(a + b) == c.pending(a) + b,
{
    assert(c.pending(a + b) =~= c.pending(a) + b);
}

/// Decoding what was encoded gives back the message, leaves just what follows it in the input, and
/// keeps nothing. If nothing follows, the input is empty afterwards.
///
/// This holds of a message of any version whose body is as long as its header says and not too large.
pub proof fn law_frame_identity(
    c: FrameCodec,
    f: FrameView,
    rest: Seq<u8>,
    after: FrameCodec,
    left: Seq<u8>,
    r: Result<Option<RawFrame>, DecodeError>,
)
    requires
        c.kept() is None,
        f.wf(),
        f.body.len() <= c.max(),
        c.decoded(f.octets() + rest, after, left, r),
    ensures
        r matches Ok(Some(g)) && g@ == f,
        left == rest,
        after.kept() is None,
{
    let p = f.octets() + rest;
    assert(header_octets(f.header).len() == HEADER_SIZE) by {
        lemma_raw_header(f.header, p);
    }
    assert(p.take(HEADER_SIZE as int) =~= header_octets(f.header));
    lemma_raw_header(f.header, p);
    assert(p.subrange(HEADER_SIZE as int, HEADER_SIZE + f.body.len()) =~= f.body);
    assert(p.skip(HEADER_SIZE + f.body.len()) =~= rest);
}

/// It makes no difference in how many pieces the input comes: if some input is not enough for a
/// message, decoding once more has come is like decoding all of it at once.
pub proof fn law_input_may_come_in_pieces(
    c: FrameCodec,
    a: Seq<u8>,
    b: Seq<u8>,
    between: FrameCodec,
    kept: Seq<u8>,
    after: FrameCodec,
    left: Seq<u8>,
    r: Result<Option<RawFrame>, DecodeError>,
)
    requires
        c.decoded(a, between, kept, Ok(None)),
        between.decoded(kept + b, after, left, r),
    ensures
        c.decoded(a + b, after, left, r),
{
    law_pending_grows(c, a, b);
    law_pending_grows(between, kept, b);
}

/// As long as any octet of a message is missing, more input is asked for. Once the rest has come,
/// wherever the input was split, the message is there and nothing is left of the input.
pub proof fn law_frame_may_come_in_pieces(
    c: FrameCodec,
    f: FrameView,
    a: Seq<u8>,
    b: Seq<u8>,
    between: FrameCodec,
    kept: Seq<u8>,
    first: Result<Option<RawFrame>, DecodeError>,
    after: FrameCodec,
    left: Seq<u8>,
    second: Result<Option<RawFrame>, DecodeError>,
)
    requires
        c.kept() is None,
        f.wf(),
        f.body.len() <= c.max(),
        a + b == f.octets(),
        b.len() > 0,
        c.decoded(a, between, kept, first),
        between.decoded(kept + b, after, left, second),
    ensures
        first == Ok::<Option<RawFrame>, DecodeError>(None),
        second matches Ok(Some(g)) && g@ == f,
        left == Seq::<u8>::empty(),
        after.kept() is None,
{
    let p = f.octets();
    lemma_raw_header(f.header, p);
    assert(p.take(HEADER_SIZE as int) =~= header_octets(f.header));
    assert(a =~= p.take(a.len() as int));
    if a.len() >= HEADER_SIZE {
        assert(a.take(HEADER_SIZE as int) =~= header_octets(f.header));
        lemma_raw_header(f.header, a);
    }
    law_input_may_come_in_pieces(c, a, b, between, kept, after, left, second);
    assert(a + b =~= p + Seq::<u8>::empty());
    law_frame_identity(c, f, Seq::empty(), after, left, second);
}

/// A header is taken out as soon as it is complete, whatever its version. An unknown kind is an error, and
/// no other.
pub proof fn law_header_is_taken_out(
    p: Seq<u8>,
    left: Seq<u8>,
    r: Result<Option<RawHeader>, DecodeError>,
)
    requires
        header_outcome(p, left, r),
    ensures
        p.len() < 12 ==> left == p && (r matches Ok(None)),
        p.len() >= 12 ==> left == p.skip(12),
        p.len() >= 12 && p[1] > 3 ==> (r matches Err(DecodeError::Type(t)) && t == p[1]),
        p.len() >= 12 && p[1] <= 3 ==> {
            &&& r matches Ok(Some(h))
            &&& h@.version == p[0]
            &&& h@.tag.octet() == p[1]
            &&& h@.flags == p[2] * 256 + p[3]
            &&& h@.stream_id == p[4] * 16777216 + p[5] * 65536 + p[6] * 256 + p[7]
            &&& h@.length == p[8] * 16777216 + p[9] * 65536 + p[10] * 256 + p[11]
        },
{
    if p.len() >= 12 {
        law_most_significant_octet_first(0, 0, p.subrange(2, 4));
        law_most_significant_octet_first(0, 0, p.subrange(4, 8));
        law_most_significant_octet_first(0, 0, p.subrange(8, 12));
    }
}

/// What can be decoded follows from the first octets of the input: an unknown kind is an error, and so is
/// a data frame with a larger body than allowed; the input goes on behind its header. A data frame is
/// there as soon as its body is, and other frames as soon as their header is.
pub proof fn law_header_tells_the_length(
    p: Seq<u8>,
    left: Seq<u8>,
    max: nat,
    r: Result<Option<RawFrame>, DecodeError>,
)
    requires
        raw_outcome(p, left, max, r),
    ensures
        p.len() < 12 ==> left == p && (r matches Ok(None)),
        p.len() >= 12 ==> {
            let length = p[8] * 16777216 + p[9] * 65536 + p[10] * 256 + p[11];
            if p[1] > 3 {
                &&& left == p.skip(12)
                &&& r matches Err(DecodeError::Type(t)) && t == p[1]
            } else if p[1] != 0 {
                &&& left == p.skip(12)
                &&& r matches Ok(Some(f)) && f@.body.len() == 0 && f@.header.length == length
            } else if length > max {
                &&& left == p.skip(12)
                &&& r matches Err(DecodeError::FrameTooLarge(n)) && n == length
            } else if p.len() < 12 + length {
                left == p && (r matches Ok(None))
            } else {
                &&& left == p.skip(12 + length)
                &&& r matches Ok(Some(f))
                &&& f@.body == p.subrange(12, 12 + length)
                &&& f@.header.length == length
            }
        },
{
    if p.len() >= 12 {
        law_most_significant_octet_first(0, 0, p.subrange(8, 12));
    }
}

} // verus!
