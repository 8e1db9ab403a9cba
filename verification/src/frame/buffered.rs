//! Decoding frames from a buffer of octets.

use crate::buffer::{buffer_of, buffer_slice};
use crate::byteorder::law_most_significant_octet_first;
use crate::error::IoErrorKind;
use crate::frame::header::{
    self, header_octets, law_decode_after_encode, law_encode_after_decode, Header, Tag, HEADER_SIZE,
};
use crate::frame::io::{
    law_header_tells_the_length, law_read_after_write, law_write_after_read, parse_frame, progress,
    FrameDecodeError, Next, Progress, Read,
};
use crate::frame::{body_len, Frame, FrameView};
use bytes::BytesMut;
use vstd::prelude::*;

verus! {

/// When reading we ask for units of `BLOCKSIZE`.
pub const BLOCKSIZE: usize = 8192;

/// A reader of [`Frame`] values that buffers whatever it is given.
#[derive(Debug)]
pub struct Io {
    buffer: BytesMut,
    header: Option<Header<()>>,
    max_body_len: usize,
}

/// The number of octets that the frame at the start of `p` has.
pub open spec fn frame_len(p: Seq<u8>) -> nat {
    HEADER_SIZE as nat + body_len(parse_frame(p).header)
}

/// What decoding makes of the octets `p`, and which of them it leaves.
///
/// A header that cannot be decoded is left out.
pub open spec fn decode_outcome(
    p: Seq<u8>,
    left: Seq<u8>,
    max: nat,
    r: Result<Option<Frame<()>>, FrameDecodeError>,
) -> bool {
    match progress(p, max) {
        Progress::More(_) => r == Ok::<Option<Frame<()>>, FrameDecodeError>(None) && left == p,
        Progress::Invalid(e) => {
            &&& r == Err::<Option<Frame<()>>, FrameDecodeError>(e)
            &&& left == p.skip(HEADER_SIZE as int)
        },
        Progress::Complete => {
            &&& r matches Ok(Some(f))
            &&& f@ == parse_frame(p.take(frame_len(p) as int))
            &&& left == p.skip(frame_len(p) as int)
        },
    }
}

impl Io {
    /// The octets of which no frame was made yet.
    pub closed spec fn pending(self) -> Seq<u8> {
        match self.header {
            Some(h) => header_octets(h@) + buffer_of(self.buffer),
            None => buffer_of(self.buffer),
        }
    }

    /// The largest body of a data frame that is read.
    pub closed spec fn max(self) -> nat {
        self.max_body_len as nat
    }

    /// A header is kept only if its frame can still become complete.
    pub closed spec fn wf(self) -> bool {
        self.header matches Some(h) ==> {
            &&& h@.version == 0
            &&& h@.tag == Tag::Data
            &&& h@.length <= self.max_body_len
        }
    }

    /// A reader with nothing read yet.
    pub fn new(max_frame_body_len: usize) -> (io: Self)
        ensures
            io.wf(),
            io.pending() == Seq::<u8>::empty(),
            io.max() == max_frame_body_len,
    {
        Io { buffer: BytesMut::new(), header: None, max_body_len: max_frame_body_len }
    }

    /// The octets to write in order to send a frame.
    pub fn send<A>(frame: &Frame<A>) -> (b: BytesMut)
        requires
            HEADER_SIZE + frame@.body.len() <= isize::MAX,
        ensures
            buffer_of(b) == frame@.octets(),
    {
        frame.buffer()
    }

    /// Try to decode a [`Frame`] from the internal buffer.
    ///
    /// Returns `Ok(None)` if more data is needed, otherwise some
    /// frame or a decoding error.
    pub fn decode(&mut self) -> (r: Result<Option<Frame<()>>, FrameDecodeError>)
        requires
            old(self).wf(),
        ensures
            final(self).wf(),
            final(self).max() == old(self).max(),
            decode_outcome(old(self).pending(), final(self).pending(), old(self).max(), r),
    {
        let ghost p = self.pending();
        if self.header.is_none() {
            if self.buffer.len() < HEADER_SIZE {
                return Ok(None);
            }
            let head = self.buffer.split_to(HEADER_SIZE);
            let b = header_array(&head);
            assert(p.take(HEADER_SIZE as int) =~= b@);
            let header = match header::decode(&b) {
                Ok(header) => header,
                Err(e) => return Err(FrameDecodeError::Header(e)),
            };
            proof {
                law_encode_after_decode(b@);
            }
            if header.tag() != Tag::Data {
                assert(p.take(HEADER_SIZE as int).take(HEADER_SIZE as int) =~= b@);
                assert(p.take(HEADER_SIZE as int).skip(HEADER_SIZE as int) =~= Seq::<u8>::empty());
                return Ok(Some(Frame::no_body(header)));
            }
            let n = header.len().val() as usize;
            if n > self.max_body_len {
                return Err(FrameDecodeError::FrameTooLarge(n));
            }
            self.header = Some(header);
            assert(self.pending() =~= p);
        }
        if let Some(header) = self.header.take() {
            let n = header.len().val() as usize;
            proof {
                law_decode_after_encode(header@);
                assert(p.take(HEADER_SIZE as int) =~= header_octets(header@));
            }
            if n <= self.buffer.len() {
                let body = self.buffer.split_to(n);
                proof {
                    let q = p.take(frame_len(p) as int);
                    assert(q.take(HEADER_SIZE as int) =~= header_octets(header@));
                    assert(q.skip(HEADER_SIZE as int) =~= buffer_of(body));
                    assert(self.pending() =~= p.skip(frame_len(p) as int));
                }
                return Ok(Some(Frame::from_parts(header, body)));
            }
            self.header = Some(header);
            assert(self.pending() =~= p);
        }
        Ok(None)
    }

    /// Take note of what was read, and see what comes next.
    ///
    /// Any end of the input is unexpected.
    pub fn poll_next(&mut self, read: Read<'_>) -> (r: Next)
        requires
            old(self).wf(),
            read matches Read::Octets(s) ==> old(self).pending().len() + s@.len() <= isize::MAX,
        ensures
            final(self).wf(),
            final(self).max() == old(self).max(),
            match read {
                Read::Nothing => next_outcome(
                    old(self).pending(),
                    final(self).pending(),
                    old(self).max(),
                    r,
                ),
                Read::Octets(s) => next_outcome(
                    old(self).pending() + s@,
                    final(self).pending(),
                    old(self).max(),
                    r,
                ),
                Read::Eof => {
                    &&& final(self).pending() == old(self).pending()
                    &&& r == Next::Error(FrameDecodeError::Io(IoErrorKind::UnexpectedEof))
                },
                Read::Failed(k) => {
                    &&& final(self).pending() == old(self).pending()
                    &&& r == Next::Error(FrameDecodeError::Io(k))
                },
            },
    {
        match read {
            Read::Nothing => {},
            Read::Octets(s) => {
                self.buffer.extend_from_slice(s);
                assert(self.pending() =~= old(self).pending() + s@);
            },
            Read::Eof => {
                return Next::Error(FrameDecodeError::Io(IoErrorKind::UnexpectedEof));
            },
            Read::Failed(k) => return Next::Error(FrameDecodeError::Io(k)),
        }
        match self.decode() {
            Ok(Some(f)) => Next::Frame(f),
            Ok(None) => Next::Read(BLOCKSIZE),
            Err(e) => Next::Error(e),
        }
    }
}

/// What comes next when the octets `p` were read but not decoded.
pub open spec fn next_outcome(p: Seq<u8>, left: Seq<u8>, max: nat, r: Next) -> bool {
    match r {
        Next::Frame(f) => decode_outcome(p, left, max, Ok(Some(f))),
        Next::Read(n) => n == BLOCKSIZE && decode_outcome(p, left, max, Ok(None)),
        Next::Error(e) => decode_outcome(p, left, max, Err(e)),
        Next::End => false,
    }
}

/// The first octets of a buffer as an array.
fn header_array(b: &BytesMut) -> (a: [u8; HEADER_SIZE])
    requires
        buffer_of(*b).len() == HEADER_SIZE,
    ensures
        a@ == buffer_of(*b),
{
    let s = buffer_slice(b);
    let mut a: [u8; HEADER_SIZE] = [0u8; HEADER_SIZE];
    let mut i: usize = 0;
    while i < HEADER_SIZE
        invariant
            i <= HEADER_SIZE,
            s@.len() == HEADER_SIZE,
            a@.len() == HEADER_SIZE,
            forall|j: int| 0 <= j < i ==> a@[j] == s@[j],
        decreases HEADER_SIZE - i,
    {
        a[i] = s[i];
        i += 1;
    }
    assert(a@ =~= s@);
    a
}

/// The octets of some frames, one after the other.
pub open spec fn octets_of(frames: Seq<FrameView>) -> Seq<u8>
    decreases frames.len(),
{
    if frames.len() == 0 {
        Seq::empty()
    } else {
        frames[0].octets() + octets_of(frames.skip(1))
    }
}

/// The frames that are decoded from `p` until more octets are needed or an error occurs.
pub open spec fn frames_of(p: Seq<u8>, max: nat) -> Seq<FrameView>
    decreases p.len(),
{
    if progress(p, max) is Complete && frame_len(p) <= p.len() {
        seq![parse_frame(p.take(frame_len(p) as int))] + frames_of(
            p.skip(frame_len(p) as int),
            max,
        )
    } else {
        Seq::empty()
    }
}

/// Decoding takes the first frame out of what was sent, and leaves what follows it.
pub proof fn law_first_frame(f: FrameView, rest: Seq<u8>, max: nat)
    requires
        f.wf(),
        f.header.version == 0,
        f.body.len() <= max,
    ensures
        progress(f.octets() + rest, max) is Complete,
        frame_len(f.octets() + rest) == f.octets().len(),
        parse_frame((f.octets() + rest).take(f.octets().len() as int)) == f,
        (f.octets() + rest).skip(f.octets().len() as int) == rest,
{
    let p = f.octets() + rest;
    law_read_after_write(f, max, 0);
    law_decode_after_encode(f.header);
    assert(p.take(HEADER_SIZE as int) =~= header_octets(f.header));
    assert(p.take(f.octets().len() as int) =~= f.octets());
    assert(p.skip(f.octets().len() as int) =~= rest);
}

/// Decoding goes on with what follows the first frame.
proof fn lemma_frames_after_first(f: FrameView, rest: Seq<u8>, max: nat)
    requires
        f.wf(),
        f.header.version == 0,
        f.body.len() <= max,
    ensures
        frames_of(f.octets() + rest, max) == seq![f] + frames_of(rest, max),
{
    law_first_frame(f, rest, max);
}

/// Decoding gives back the frames that were sent, all of them and in the order in which they were
/// sent.
pub proof fn law_frames_after_octets(frames: Seq<FrameView>, max: nat)
    requires
        forall|i: int| #![trigger frames[i]]
            0 <= i < frames.len() ==> frames[i].wf() && frames[i].header.version == 0
                && frames[i].body.len() <= max,
    ensures
        frames_of(octets_of(frames), max) == frames,
    decreases frames.len(),
{
    if frames.len() > 0 {
        let rest = frames.skip(1);
        assert forall|i: int| #![trigger rest[i]] 0 <= i < rest.len() implies rest[i].wf()
            && rest[i].header.version == 0 && rest[i].body.len() <= max by {
            assert(rest[i] == frames[i + 1]);
        }
        law_frames_after_octets(rest, max);
        lemma_frames_after_first(frames[0], octets_of(rest), max);
        assert(seq![frames[0]] + rest =~= frames);
    } else {
        assert(frames =~= Seq::<FrameView>::empty());
        assert(frames_of(Seq::<u8>::empty(), max) == frames);
    }
}

/// A frame is taken out of what was read as soon as it is complete, and what follows it stays. As long as
/// it is not, nothing is taken out. Of what can never become a frame, the header is taken out.
pub proof fn law_complete_frames_are_taken_out(
    p: Seq<u8>,
    left: Seq<u8>,
    max: nat,
    r: Result<Option<Frame<()>>, FrameDecodeError>,
)
    requires
        decode_outcome(p, left, max, r),
    ensures
        (r matches Ok(Some(_))) <==> progress(p, max) is Complete,
        (r matches Ok(None)) <==> progress(p, max) is More,
        r matches Err(e) ==> progress(p, max) == Progress::Invalid(e) && left == p.skip(12),
        r matches Ok(None) ==> left == p,
        r matches Ok(Some(f)) ==> f@.wf() && f@.body.len() <= max && f@.header.version == 0 && p
            == f@.octets() + left,
{
    if let Ok(Some(f)) = r {
        law_header_tells_the_length(p, max);
        let n = frame_len(p) as int;
        let q = p.take(n);
        assert(q.take(HEADER_SIZE as int) =~= p.take(HEADER_SIZE as int));
        assert(p =~= q + p.skip(n));
        law_header_tells_the_length(q, max);
        law_most_significant_octet_first(0, 0, p.take(12).subrange(8, 12));
        law_write_after_read(q, max);
    }
}

/// A reader asks for more just when no frame is complete; what it reports is what it has decoded.
pub proof fn law_reader_goes_on(p: Seq<u8>, left: Seq<u8>, max: nat, r: Next)
    requires
        next_outcome(p, left, max, r),
    ensures
        r is Frame <==> progress(p, max) is Complete,
        r is Read <==> progress(p, max) is More,
        r matches Next::Error(e) ==> progress(p, max) == Progress::Invalid(e),
        r matches Next::Frame(f) ==> p == f@.octets() + left,
        r is Read ==> left == p,
        !(r is End),
{
    if let Next::Frame(f) = r {
        law_complete_frames_are_taken_out(p, left, max, Ok(Some(f)));
    }
}

} // verus!
