//! Messages.

pub mod buffered;
pub mod header;
pub mod io;

use crate::buffer::{buffer_of, buffer_slice, buffer_slice_mut, bytes_of};
use crate::frame::header::{
    header_octets, law_header_layout, parse_header, Data, GoAway, Header, HeaderView, Ping,
    StreamId, Tag, WindowUpdate, ACK, CONNECTION_ID, FIN, HEADER_SIZE,
};
use crate::frame::io::FrameDecodeError;
use crate::Either;
use bytes::{Bytes, BytesMut};
use std::num::TryFromIntError;
use vstd::prelude::*;

verus! {

/// A Yamux message frame consisting of header and body.
#[derive(Debug, PartialEq, Eq)]
pub struct Frame<T> {
    header: Header<T>,
    body: BytesMut,
}

/// What a [`Frame`] says, whatever its type parameter.
pub struct FrameView {
    pub header: HeaderView,
    pub body: Seq<u8>,
}

impl<T> View for Frame<T> {
    type V = FrameView;

    closed spec fn view(&self) -> FrameView {
        FrameView { header: self.header@, body: buffer_of(self.body) }
    }
}

impl FrameView {
    /// A frame without a body.
    pub open spec fn bare(header: HeaderView) -> FrameView {
        FrameView { header, body: Seq::empty() }
    }

    /// A data frame.
    pub open spec fn data(stream_id: u32, body: Seq<u8>) -> FrameView {
        FrameView { header: HeaderView::plain(Tag::Data, stream_id, body.len() as u32), body }
    }

    /// A window update.
    pub open spec fn window_update(stream_id: u32, credit: u32) -> FrameView {
        FrameView::bare(HeaderView::plain(Tag::WindowUpdate, stream_id, credit))
    }

    /// A message that ends the session.
    pub open spec fn go_away(code: u32) -> FrameView {
        FrameView::bare(HeaderView::plain(Tag::GoAway, CONNECTION_ID, code))
    }

    /// A message that closes one direction of a stream, and possibly acknowledges the stream.
    pub open spec fn close_stream(stream_id: u32, ack: bool) -> FrameView {
        let fin = HeaderView::plain(Tag::Data, stream_id, 0).with(FIN);
        FrameView::bare(
            if ack {
                fin.with(ACK)
            } else {
                fin
            },
        )
    }

    /// The same frame with some more flags.
    pub open spec fn with(self, flags: u16) -> FrameView {
        FrameView { header: self.header.with(flags), ..self }
    }

    /// The header of a data frame tells the length of its body; no other frame has a body.
    pub open spec fn wf(self) -> bool {
        self.body.len() == self.body_len()
    }

    /// The number of octets that follow the header.
    pub open spec fn body_len(self) -> nat {
        body_len(self.header)
    }

    /// The octets of the frame on the wire.
    pub open spec fn octets(self) -> Seq<u8> {
        header_octets(self.header) + self.body
    }
}

/// The number of octets that follow a header on the wire.
pub open spec fn body_len(h: HeaderView) -> nat {
    if h.tag == Tag::Data {
        h.length as nat
    } else {
        0
    }
}

impl<T> Clone for Frame<T> {
    fn clone(&self) -> (f: Self)
        ensures
            f@ == self@,
    {
        Frame { header: self.header.clone(), body: self.body.clone() }
    }
}

impl<T> Frame<T> {
    /// A frame that has this header and no body.
    pub(crate) fn no_body(header: Header<T>) -> (f: Self)
        ensures
            f@ == FrameView::bare(header@),
    {
        Frame { header, body: BytesMut::new() }
    }

    /// A frame that has this header and this body.
    pub(crate) fn from_parts(header: Header<T>, body: BytesMut) -> (f: Self)
        ensures
            f@ == (FrameView { header: header@, body: buffer_of(body) }),
    {
        Frame { header, body }
    }

    /// The header of the frame.
    pub fn header(&self) -> (h: &Header<T>)
        ensures
            h@ == self@.header,
    {
        &self.header
    }

    /// The header of the frame, to be changed.
    pub fn header_mut(&mut self) -> (h: &mut Header<T>)
        ensures
            h@ == old(self)@.header,
            final(self)@ == (FrameView { header: final(h)@, ..old(self)@ }),
    {
        &mut self.header
    }

    /// The octets of the frame on the wire: the header followed by the body.
    pub fn buffer(&self) -> (b: BytesMut)
        requires
            HEADER_SIZE + self@.body.len() <= isize::MAX,
        ensures
            buffer_of(b) == self@.octets(),
    {
        let mut b = BytesMut::new();
        let header = header::encode(&self.header);
        b.extend_from_slice(header.as_slice());
        b.extend_from_slice(buffer_slice(&self.body));
        assert(buffer_of(b) =~= self@.octets());
        b
    }

    /// Introduce this frame to the right of a binary frame type.
    pub(crate) fn right<U>(self) -> (f: Frame<Either<U, T>>)
        ensures
            f@ == self@,
    {
        Frame { header: self.header.right(), body: self.body }
    }

    /// Introduce this frame to the left of a binary frame type.
    pub(crate) fn left<U>(self) -> (f: Frame<Either<T, U>>)
        ensures
            f@ == self@,
    {
        Frame { header: self.header.left(), body: self.body }
    }

    /// Forget of what kind the message is.
    pub fn into_generic_frame(self) -> (f: Frame<()>)
        ensures
            f@ == self@,
    {
        Frame { header: self.header.into_generic(), body: self.body }
    }
}

impl Frame<()> {
    /// Make the frame that starts with the given header: a whole frame if it has no body, otherwise
    /// a data frame whose body is yet to be filled.
    ///
    /// A data frame whose body has more than `max_body_len` octets is an error.
    pub fn try_from_header_buffer(buffer: &[u8; HEADER_SIZE], max_body_len: usize) -> (r: Result<
        Either<Frame<()>, Frame<Data>>,
        FrameDecodeError,
    >)
        requires
            max_body_len <= isize::MAX,
        ensures
            match (parse_header(buffer@), r) {
                (Err(e), Err(FrameDecodeError::Header(e2))) => e == e2,
                (Ok(h), Err(FrameDecodeError::FrameTooLarge(n))) => {
                    &&& h.tag == Tag::Data
                    &&& h.length > max_body_len
                    &&& n == h.length
                },
                (Ok(h), Ok(Either::Left(f))) => h.tag != Tag::Data && f@ == FrameView::bare(h),
                (Ok(h), Ok(Either::Right(f))) => {
                    &&& h.tag == Tag::Data
                    &&& h.length <= max_body_len
                    &&& f@ == FrameView {
                        header: h,
                        body: Seq::new(h.length as nat, |i: int| 0u8),
                    }
                },
                _ => false,
            },
    {
        let header = match header::decode(buffer) {
            Ok(header) => header,
            Err(e) => return Err(FrameDecodeError::Header(e)),
        };
        match header.try_into_data() {
            Ok(data) => {
                if data.body_len() > max_body_len {
                    return Err(FrameDecodeError::FrameTooLarge(data.body_len()));
                }
                Ok(Either::Right(Frame::new(data)))
            },
            Err(other) => Ok(Either::Left(Frame::no_body(other))),
        }
    }

    /// Assume that this is a data frame.
    pub(crate) fn into_data(self) -> (f: Frame<Data>)
        ensures
            f@ == self@,
    {
        Frame { header: self.header.into_data(), body: self.body }
    }

    /// Assume that this is a window update.
    pub(crate) fn into_window_update(self) -> (f: Frame<WindowUpdate>)
        ensures
            f@ == self@,
    {
        Frame { header: self.header.into_window_update(), body: self.body }
    }

    /// Assume that this is a ping.
    pub(crate) fn into_ping(self) -> (f: Frame<Ping>)
        ensures
            f@ == self@,
    {
        Frame { header: self.header.into_ping(), body: self.body }
    }
}

impl Frame<Data> {
    /// A data frame with the given body, unless its length does not fit into the header.
    pub fn data(id: StreamId, b: &[u8]) -> (r: Result<Self, TryFromIntError>)
        requires
            b@.len() <= isize::MAX,
        ensures
            r is Ok <==> b@.len() <= u32::MAX,
            r matches Ok(f) ==> f@ == FrameView::data(id.0, b@) && f@.wf(),
    {
        let len: u32 = match u32::try_from(b.len()) {
            Ok(len) => len,
            Err(e) => return Err(e),
        };
        let mut body = BytesMut::new();
        body.extend_from_slice(b);
        assert(buffer_of(body) =~= b@);
        Ok(Frame { header: Header::data(id, len), body })
    }

    /// A data frame with this header and a body of zeros, as long as the header says.
    pub fn new(header: Header<Data>) -> (f: Self)
        requires
            header@.length <= isize::MAX,
        ensures
            f@ == (FrameView {
                header: header@,
                body: Seq::new(header@.length as nat, |i: int| 0u8),
            }),
    {
        let body = BytesMut::zeroed(header.body_len());
        Frame { header, body }
    }

    /// A frame that closes our direction of a stream, and acknowledges the stream if `ack`.
    pub fn close_stream(id: StreamId, ack: bool) -> (f: Self)
        ensures
            f@ == FrameView::close_stream(id.0, ack),
            f@.wf(),
    {
        let mut header = Header::data(id, 0);
        header.fin();
        if ack {
            header.ack()
        }
        let f = Frame::new(header);
        assert(f@.body =~= Seq::empty());
        f
    }

    /// The body of the frame.
    pub fn body(&self) -> (b: &[u8])
        ensures
            b@ == self@.body,
    {
        buffer_slice(&self.body)
    }

    /// The body of the frame, to be changed.
    pub fn body_mut(&mut self) -> (b: &mut [u8])
        ensures
            b@ == old(self)@.body,
            final(self)@ == (FrameView { body: final(b)@, ..old(self)@ }),
    {
        buffer_slice_mut(&mut self.body)
    }

    /// The number of octets in the body.
    pub fn body_len(&self) -> (n: u32)
        requires
            self@.body.len() <= u32::MAX,
        ensures
            n == self@.body.len(),
    {
        self.body.len() as u32
    }

    /// Keep the body only.
    pub fn into_body(self) -> (b: Bytes)
        ensures
            bytes_of(b) == self@.body,
    {
        self.body.freeze()
    }
}

impl Frame<WindowUpdate> {
    /// A frame that grants the remote more credit.
    pub fn window_update(id: StreamId, credit: u32) -> (f: Self)
        ensures
            f@ == FrameView::window_update(id.0, credit),
    {
        Frame::no_body(Header::window_update(id, credit))
    }
}

impl Frame<GoAway> {
    /// Terminate the session without indicating an error to the remote.
    pub fn term() -> (f: Self)
        ensures
            f@ == FrameView::go_away(0),
    {
        Frame::no_body(Header::term())
    }

    /// Terminate the session indicating a protocol error to the remote.
    pub fn protocol_error() -> (f: Self)
        ensures
            f@ == FrameView::go_away(1),
    {
        Frame::no_body(Header::protocol_error())
    }

    /// Terminate the session indicating an internal error to the remote.
    pub fn internal_error() -> (f: Self)
        ensures
            f@ == FrameView::go_away(2),
    {
        Frame::no_body(Header::internal_error())
    }
}

/// The octets of a frame are those of its header, followed by those of its body, whatever the frame.
pub proof fn law_frame_layout(f: FrameView)
    ensures
        f.octets().len() == 12 + f.body.len(),
        f.octets().take(12) == header_octets(f.header),
        f.octets().skip(12) == f.body,
        f.wf() <==> f.body.len() == if f.header.tag == Tag::Data {
            f.header.length as int
        } else {
            0
        },
{
    law_header_layout(f.header);
    assert(f.octets().take(12) =~= header_octets(f.header));
    assert(f.octets().skip(12) =~= f.body);
}

} // verus!
