//! Reading and writing frames, octet by octet as they come and go.

use crate::buffer::{buffer_of, buffer_slice};
use crate::byteorder::law_most_significant_octet_first;
use crate::error::IoErrorKind;
use crate::frame::header::{
    header_octets, law_decode_after_encode, law_encode_after_decode, parse_header, Data,
    HeaderDecodeError, Tag, HEADER_SIZE,
};
use crate::frame::{body_len, Frame, FrameView};
use crate::Either;
use bytes::BytesMut;
use vstd::prelude::*;
use vstd::slice::slice_subrange;

verus! {

/// Possible errors while decoding a message frame.
#[derive(Copy, Clone, Debug, PartialEq, Eq, Structural)]
#[non_exhaustive]
pub enum FrameDecodeError {
    /// An I/O error.
    Io(IoErrorKind),
    /// Decoding the frame header failed.
    Header(HeaderDecodeError),
    /// A data frame body length is larger than the configured maximum.
    FrameTooLarge(usize),
}

impl From<HeaderDecodeError> for FrameDecodeError {
    fn from(e: HeaderDecodeError) -> (r: Self) {
        FrameDecodeError::Header(e)
    }
}

impl vstd::std_specs::convert::FromSpecImpl<HeaderDecodeError> for FrameDecodeError {
    open spec fn obeys_from_spec() -> bool {
        true
    }

    open spec fn from_spec(e: HeaderDecodeError) -> Self {
        FrameDecodeError::Header(e)
    }
}

/// What came of reading from the underlying resource.
pub enum Read<'a> {
    /// Nothing was read yet.
    Nothing,
    /// Some octets were read.
    Octets(&'a [u8]),
    /// There is nothing more to read.
    Eof,
    /// Reading failed.
    Failed(IoErrorKind),
}

/// What comes next on the reading side.
pub enum Next {
    /// At most that many octets are to be read.
    Read(usize),
    /// A frame is complete.
    Frame(Frame<()>),
    /// The input cannot be decoded.
    Error(FrameDecodeError),
    /// The input has ended between two frames.
    End,
}

/// What came of writing to the underlying resource.
pub enum Write {
    /// Nothing was written yet.
    Nothing,
    /// Some of the pending octets were written.
    Wrote(usize),
    /// Writing failed.
    Failed(IoErrorKind),
}

/// What comes next on the writing side.
#[derive(Debug, PartialEq, Eq)]
pub enum Ready {
    /// The next frame can be sent.
    Ready,
    /// The pending octets are to be written.
    Write,
    /// Nothing more can be written.
    Error(IoErrorKind),
}

/// How far some octets get in making up a frame.
pub enum Progress {
    /// That many octets are missing, before more can be said.
    More(nat),
    /// They can never become a frame.
    Invalid(FrameDecodeError),
    /// They are a frame.
    Complete,
}

/// How far the octets `p` get in making up a frame with a body of at most `max` octets.
pub open spec fn progress(p: Seq<u8>, max: nat) -> Progress {
    if p.len() < HEADER_SIZE {
        Progress::More((HEADER_SIZE - p.len()) as nat)
    } else {
        match parse_header(p.take(HEADER_SIZE as int)) {
            Err(e) => Progress::Invalid(FrameDecodeError::Header(e)),
            Ok(h) => if body_len(h) > max {
                Progress::Invalid(FrameDecodeError::FrameTooLarge(h.length as usize))
            } else if p.len() < HEADER_SIZE + body_len(h) {
                Progress::More((HEADER_SIZE + body_len(h) - p.len()) as nat)
            } else {
                Progress::Complete
            },
        }
    }
}

/// The frame that the octets `p` are.
pub open spec fn parse_frame(p: Seq<u8>) -> FrameView {
    FrameView {
        header: parse_header(p.take(HEADER_SIZE as int))->Ok_0,
        body: p.skip(HEADER_SIZE as int),
    }
}

/// The stages of reading a new `Frame`.
#[derive(Debug)]
enum ReadState {
    /// Reading the frame header.
    Header { offset: usize, buffer: [u8; HEADER_SIZE] },
    /// Reading the frame body.
    Body { frame: Frame<Data>, offset: usize },
}

impl ReadState {
    spec fn consumed(self) -> Seq<u8> {
        match self {
            ReadState::Header { offset, buffer } => buffer@.take(offset as int),
            ReadState::Body { frame, offset } => header_octets(frame@.header) + frame@.body.take(
                offset as int,
            ),
        }
    }

    spec fn wf(self, max: nat) -> bool {
        match self {
            ReadState::Header { offset, buffer } => offset <= HEADER_SIZE,
            ReadState::Body { frame, offset } => {
                &&& frame@.header.version == 0
                &&& frame@.header.tag == Tag::Data
                &&& frame@.wf()
                &&& frame@.body.len() <= max
                &&& offset <= frame@.body.len()
            },
        }
    }

    fn header() -> (s: Self)
        ensures
            s matches ReadState::Header { offset: 0, buffer } && buffer@ == Seq::new(
                HEADER_SIZE as nat,
                |i: int| 0u8,
            ),
            s.consumed() == Seq::<u8>::empty(),
    {
        let s = ReadState::Header { offset: 0, buffer: [0u8; HEADER_SIZE] };
        assert(s.consumed() =~= Seq::<u8>::empty());
        s
    }

    /// Is the stage such that only more octets, if any, can lead to the next?
    spec fn stable(self, max: nat) -> bool {
        &&& self.wf(max)
        &&& self matches ReadState::Header { offset, .. } ==> offset < HEADER_SIZE || progress(
            self.consumed(),
            max,
        ) is Invalid
        &&& progress(self.consumed(), max) !is Complete
    }

    /// The stage has room for just as many octets as are missing.
    proof fn lemma_room(self, max: nat)
        requires
            self.stable(max),
        ensures
            progress(self.consumed(), max) matches Progress::More(n) ==> match self {
                ReadState::Header { offset, .. } => offset + n == HEADER_SIZE,
                ReadState::Body { frame, offset } => offset + n == frame@.body.len(),
            },
            self.consumed().len() == 0 <==> (self matches ReadState::Header { offset: 0, .. }),
    {
        if let ReadState::Body { frame, offset } = self {
            law_decode_after_encode(frame@.header);
            assert(self.consumed().take(HEADER_SIZE as int) =~= header_octets(frame@.header));
        }
    }

    /// Add octets to the part of the frame that is being read.
    fn push(&mut self, s: &[u8], Ghost(max): Ghost<nat>)
        requires
            old(self).wf(max),
            match *old(self) {
                ReadState::Header { offset, .. } => offset + s@.len() <= HEADER_SIZE,
                ReadState::Body { frame, offset } => offset + s@.len() <= frame@.body.len(),
            },
        ensures
            final(self).wf(max),
            final(self).consumed() == old(self).consumed() + s@,
    {
        match self {
            ReadState::Header { offset, buffer } => {
                let start: usize = *offset;
                let ghost before = buffer@;
                let mut i: usize = 0;
                while i < s.len()
                    invariant
                        i <= s@.len(),
                        start + s@.len() <= HEADER_SIZE,
                        buffer@.len() == HEADER_SIZE,
                        before.len() == HEADER_SIZE,
                        forall|j: int| 0 <= j < start ==> buffer@[j] == before[j],
                        forall|j: int| 0 <= j < i ==> buffer@[start + j] == s@[j],
                    decreases s@.len() - i,
                {
                    buffer[start + i] = s[i];
                    i += 1;
                }
                *offset = start + s.len();
            },
            ReadState::Body { frame, offset } => {
                let start: usize = *offset;
                let body = frame.body_mut();
                let n: usize = body.len();
                let ghost before = body@;
                let mut i: usize = 0;
                while i < s.len()
                    invariant
                        i <= s@.len(),
                        start + s@.len() <= n,
                        before.len() == n,
                        body@.len() == n,
                        forall|j: int| 0 <= j < start ==> body@[j] == before[j],
                        forall|j: int| 0 <= j < i ==> body@[start + j] == s@[j],
                    decreases s@.len() - i,
                {
                    body[start + i] = s[i];
                    i += 1;
                }
                *offset = start + s.len();
            },
        }
        assert(self.consumed() =~= old(self).consumed() + s@);
    }

    /// Decode the header once all of it was read, and go on to the body if there is one.
    fn end_header(&mut self, max: usize) -> (r: Option<Next>)
        requires
            max <= isize::MAX,
            old(self).wf(max as nat),
        ensures
            r matches Some(next) ==> {
                &&& final(self).stable(max as nat)
                &&& read_outcome(old(self).consumed(), final(self).consumed(), max as nat, next)
            },
            r is None ==> {
                &&& (*final(self)) is Body
                &&& final(self).wf(max as nat)
                &&& final(self).consumed() == old(self).consumed()
            },
    {
        let ghost p = self.consumed();
        if let ReadState::Header { offset, buffer } = self {
            if *offset < HEADER_SIZE {
                return Some(Next::Read(HEADER_SIZE - *offset));
            }
            assert(p =~= buffer@);
            assert(p.take(HEADER_SIZE as int) =~= buffer@);
            assert(p.skip(HEADER_SIZE as int) =~= Seq::<u8>::empty());
            match Frame::try_from_header_buffer(buffer, max) {
                Err(e) => return Some(Next::Error(e)),
                Ok(Either::Left(frame)) => {
                    *self = ReadState::header();
                    return Some(Next::Frame(frame));
                },
                Ok(Either::Right(frame)) => {
                    proof {
                        law_encode_after_decode(p);
                    }
                    *self = ReadState::Body { frame, offset: 0 };
                    assert(self.consumed() =~= p);
                },
            }
        }
        None
    }

    /// Go on to the next stage of reading, as far as the octets that were read allow.
    fn advance(&mut self, max: usize) -> (r: Next)
        requires
            max <= isize::MAX,
            old(self).wf(max as nat),
        ensures
            final(self).stable(max as nat),
            read_outcome(old(self).consumed(), final(self).consumed(), max as nat, r),
    {
        let ghost p = self.consumed();
        if let Some(next) = self.end_header(max) {
            return next;
        }
        if let ReadState::Body { frame, offset } = self {
            proof {
                law_decode_after_encode(frame@.header);
                assert(p.take(HEADER_SIZE as int) =~= header_octets(frame@.header));
                assert(p.skip(HEADER_SIZE as int) =~= frame@.body.take(*offset as int));
            }
            let body_len = frame.header().body_len();
            if *offset < body_len {
                return Next::Read(body_len - *offset);
            }
        }
        let mut state = ReadState::header();
        std::mem::swap(self, &mut state);
        match state {
            ReadState::Body { frame, .. } => {
                assert(frame@.body.take(frame@.body.len() as int) =~= frame@.body);
                Next::Frame(frame.into_generic_frame())
            },
            ReadState::Header { .. } => Next::End,
        }
    }
}

/// The stages of writing a new `Frame`.
#[derive(Debug)]
enum WriteState {
    /// No frame is being written.
    Init,
    /// The octets from `offset` on are still to be written.
    Writing { buffer: BytesMut, offset: usize },
}

impl WriteState {
    spec fn unwritten(self) -> Seq<u8> {
        match self {
            WriteState::Init => Seq::empty(),
            WriteState::Writing { buffer, offset } => buffer_of(buffer).skip(offset as int),
        }
    }

    spec fn wf(self) -> bool {
        match self {
            WriteState::Init => true,
            WriteState::Writing { buffer, offset } => offset < buffer_of(buffer).len(),
        }
    }

    /// Take note that `n` octets were written, and tell if no more are left.
    fn wrote(&mut self, n: usize) -> (done: bool)
        requires
            old(self).wf(),
            0 < n <= old(self).unwritten().len(),
        ensures
            final(self).wf(),
            final(self).unwritten() == old(self).unwritten().skip(n as int),
            done == (n == old(self).unwritten().len()),
    {
        let mut done = false;
        match self {
            WriteState::Init => {},
            WriteState::Writing { buffer, offset } => {
                let len = buffer.len();
                *offset = *offset + n;
                done = *offset == len;
            },
        }
        if done {
            *self = WriteState::Init;
        }
        assert(self.unwritten() =~= old(self).unwritten().skip(n as int));
        done
    }
}

/// A reader and writer of [`Frame`] values.
#[derive(Debug)]
pub struct Io {
    read_state: ReadState,
    write_state: WriteState,
    max_body_len: usize,
}

impl Io {
    /// The octets that were read of a frame that is not complete.
    pub closed spec fn consumed(self) -> Seq<u8> {
        self.read_state.consumed()
    }

    /// The octets of a frame that are still to be written.
    pub closed spec fn unwritten(self) -> Seq<u8> {
        self.write_state.unwritten()
    }

    /// The largest body of a data frame that is read.
    pub closed spec fn max(self) -> nat {
        self.max_body_len as nat
    }

    /// A frame that is being read is not complete; one that is being written is not written yet.
    pub closed spec fn wf(self) -> bool {
        &&& self.max_body_len <= isize::MAX
        &&& self.read_state.stable(self.max())
        &&& self.write_state.wf()
    }

    /// A reader and writer with nothing read or written yet.
    pub fn new(max_frame_body_len: usize) -> (io: Self)
        requires
            max_frame_body_len <= isize::MAX,
        ensures
            io.wf(),
            io.consumed() == Seq::<u8>::empty(),
            io.unwritten() == Seq::<u8>::empty(),
            io.max() == max_frame_body_len,
    {
        Io {
            read_state: ReadState::header(),
            write_state: WriteState::Init,
            max_body_len: max_frame_body_len,
        }
    }

    /// The octets that are to be written next.
    pub fn pending(&self) -> (s: &[u8])
        requires
            self.wf(),
        ensures
            s@ == self.unwritten(),
    {
        match &self.write_state {
            WriteState::Init => {
                let none: &[u8] = &[];
                assert(none@ =~= Seq::<u8>::empty());
                none
            },
            WriteState::Writing { buffer, offset } => {
                let s = buffer_slice(buffer);
                let r = slice_subrange(s, *offset, s.len());
                assert(r@ =~= self.unwritten());
                r
            },
        }
    }

    /// Take note of what was written, and see if the next frame can be sent.
    ///
    /// A write that wrote nothing means that nothing more can be written.
    pub fn poll_ready(&mut self, write: Write) -> (r: Ready)
        requires
            old(self).wf(),
            write matches Write::Wrote(n) ==> old(self).unwritten().len() > 0 && n <= old(
                self,
            ).unwritten().len(),
        ensures
            final(self).wf(),
            final(self).consumed() == old(self).consumed(),
            final(self).max() == old(self).max(),
            write_outcome(old(self).unwritten(), write, final(self).unwritten(), r),
    {
        let n: usize = match write {
            Write::Nothing => {
                return match &self.write_state {
                    WriteState::Init => Ready::Ready,
                    WriteState::Writing { .. } => Ready::Write,
                };
            },
            Write::Failed(k) => return Ready::Error(k),
            Write::Wrote(n) => n,
        };
        if n == 0 {
            return Ready::Error(IoErrorKind::WriteZero);
        }
        if self.write_state.wrote(n) {
            Ready::Ready
        } else {
            Ready::Write
        }
    }

    /// Begin to write a frame.
    ///
    /// What is left of an earlier frame is not written any more: call this only if
    /// [`Io::poll_ready`] says so.
    pub fn start_send(&mut self, frame: &Frame<()>)
        requires
            old(self).wf(),
            HEADER_SIZE + frame@.body.len() <= isize::MAX,
        ensures
            final(self).wf(),
            final(self).unwritten() == frame@.octets(),
            final(self).consumed() == old(self).consumed(),
            final(self).max() == old(self).max(),
    {
        let buffer = frame.buffer();
        self.write_state = WriteState::Writing { buffer, offset: 0 };
        assert(self.unwritten() =~= frame@.octets());
    }

    /// Take note of what was read, and see what comes next.
    ///
    /// At most as many octets are to be read as [`Next::Read`] asked for.
    pub fn poll_next(&mut self, read: Read<'_>) -> (r: Next)
        requires
            old(self).wf(),
            !(read is Nothing) ==> progress(old(self).consumed(), old(self).max()) is More,
            read matches Read::Octets(s) ==> s@.len() <= progress(
                old(self).consumed(),
                old(self).max(),
            )->More_0,
        ensures
            final(self).wf(),
            final(self).unwritten() == old(self).unwritten(),
            final(self).max() == old(self).max(),
            match read {
                Read::Nothing => read_outcome(
                    old(self).consumed(),
                    final(self).consumed(),
                    old(self).max(),
                    r,
                ),
                Read::Octets(s) => read_outcome(
                    old(self).consumed() + s@,
                    final(self).consumed(),
                    old(self).max(),
                    r,
                ),
                Read::Eof => {
                    &&& final(self).consumed() == old(self).consumed()
                    &&& r == end_outcome(old(self).consumed())
                },
                Read::Failed(k) => {
                    &&& final(self).consumed() == old(self).consumed()
                    &&& r == Next::Error(FrameDecodeError::Io(k))
                },
            },
    {
        proof {
            self.read_state.lemma_room(self.max());
        }
        match read {
            Read::Nothing => {},
            Read::Octets(s) => self.read_state.push(s, Ghost(self.max_body_len as nat)),
            Read::Eof => {
                if let ReadState::Header { offset, .. } = &self.read_state {
                    if *offset == 0 {
                        return Next::End;
                    }
                }
                return Next::Error(FrameDecodeError::Io(IoErrorKind::UnexpectedEof));
            },
            Read::Failed(k) => return Next::Error(FrameDecodeError::Io(k)),
        }
        self.read_state.advance(self.max_body_len)
    }
}

/// What comes of what was written, when the octets `p` were to be written, and which of them are left.
pub open spec fn write_outcome(p: Seq<u8>, write: Write, left: Seq<u8>, r: Ready) -> bool {
    match write {
        Write::Nothing => {
            &&& left == p
            &&& r == if p.len() == 0 {
                Ready::Ready
            } else {
                Ready::Write
            }
        },
        Write::Wrote(0) => left == p && r == Ready::Error(IoErrorKind::WriteZero),
        Write::Wrote(n) => {
            &&& left == p.skip(n as int)
            &&& r == if n == p.len() {
                Ready::Ready
            } else {
                Ready::Write
            }
        },
        Write::Failed(k) => left == p && r == Ready::Error(k),
    }
}

/// What comes next if the input ends once the octets `p` of a frame were read.
pub open spec fn end_outcome(p: Seq<u8>) -> Next {
    if p.len() == 0 {
        Next::End
    } else {
        Next::Error(FrameDecodeError::Io(IoErrorKind::UnexpectedEof))
    }
}

/// What comes next once the octets `p` of a frame were read, and which of them are kept.
pub open spec fn read_outcome(p: Seq<u8>, kept: Seq<u8>, max: nat, r: Next) -> bool {
    match progress(p, max) {
        Progress::More(n) => kept == p && (r matches Next::Read(m) && m == n),
        Progress::Invalid(e) => kept == p && r == Next::Error(e),
        Progress::Complete => {
            &&& kept == Seq::<u8>::empty()
            &&& r matches Next::Frame(f)
            &&& f@ == parse_frame(p)
        },
    }
}

/// While the octets of a frame arrive, a reader never asks for more than is left of them; once all
/// of them have arrived, it has the frame that was written.
///
/// This holds of every frame whose body is as long as its header says and no longer than the reader
/// allows, and of every way to cut its octets into pieces.
pub proof fn law_read_after_write(f: FrameView, max: nat, k: int)
    requires
        f.wf(),
        f.header.version == 0,
        f.body.len() <= max,
        0 <= k <= f.octets().len(),
    ensures
        k < f.octets().len() ==> (progress(f.octets().take(k), max) matches Progress::More(n) && 0
            < n <= f.octets().len() - k),
        progress(f.octets(), max) is Complete,
        parse_frame(f.octets()) == f,
{
    law_decode_after_encode(f.header);
    let s = f.octets();
    assert(s.take(HEADER_SIZE as int) =~= header_octets(f.header));
    assert(s.skip(HEADER_SIZE as int) =~= f.body);
    if HEADER_SIZE <= k {
        assert(s.take(k).take(HEADER_SIZE as int) =~= header_octets(f.header));
    }
}

/// What a reader takes for a frame is a frame: its body is as long as its header says and no longer
/// than the reader allows, and its octets are those that were read, up to its end.
pub proof fn law_write_after_read(p: Seq<u8>, max: nat)
    requires
        progress(p, max) is Complete,
        p.len() == HEADER_SIZE + body_len(parse_frame(p).header),
    ensures
        parse_frame(p).wf(),
        parse_frame(p).header.version == 0,
        parse_frame(p).body.len() <= max,
        parse_frame(p).octets() == p,
{
    law_encode_after_decode(p.take(HEADER_SIZE as int));
    assert(parse_frame(p).octets() =~= p);
}

/// Everything is written, in order and once, and another frame can be sent just when nothing is left. A
/// write that wrote nothing, or that failed, is an error, and leaves everything to be written.
pub proof fn law_everything_is_written(p: Seq<u8>, write: Write, left: Seq<u8>, r: Ready)
    requires
        write_outcome(p, write, left, r),
        write matches Write::Wrote(n) ==> 0 < p.len() && n <= p.len(),
    ensures
        write matches Write::Wrote(n) ==> p == p.take(n as int) + left,
        !(write is Wrote) ==> left == p,
        !(r is Error) ==> (r is Ready <==> left.len() == 0),
        r is Error <==> {
            ||| write matches Write::Wrote(n) && n == 0
            ||| write is Failed
        },
        write matches Write::Wrote(n) ==> n == 0 ==> r == Ready::Error(IoErrorKind::WriteZero),
        write matches Write::Failed(k) ==> r == Ready::Error(k),
{
    if let Write::Wrote(n) = write {
        assert(p =~= p.take(n as int) + p.skip(n as int));
    }
}

/// The input may end between two frames, and nowhere else.
pub proof fn law_input_ends_between_frames(p: Seq<u8>)
    ensures
        end_outcome(p) is End <==> p.len() == 0,
        p.len() > 0 ==> (end_outcome(p) matches Next::Error(FrameDecodeError::Io(k)) && k
            == IoErrorKind::UnexpectedEof),
{
}

/// How much of a frame there is follows from its first octets: until there are twelve, the header is not
/// complete. An unknown version or kind, or a body that is larger than allowed, can never become a frame.
/// The body of a data frame is as long as the header says, and other frames have none.
pub proof fn law_header_tells_the_length(p: Seq<u8>, max: nat)
    ensures
        p.len() < 12 ==> (progress(p, max) matches Progress::More(n) && n == 12 - p.len()),
        p.len() >= 12 ==> {
            let length = p[8] * 16777216 + p[9] * 65536 + p[10] * 256 + p[11];
            if p[0] != 0 {
                progress(p, max) matches Progress::Invalid(
                    FrameDecodeError::Header(HeaderDecodeError::Version(v)),
                ) && v == p[0]
            } else if p[1] > 3 {
                progress(p, max) matches Progress::Invalid(
                    FrameDecodeError::Header(HeaderDecodeError::Type(t)),
                ) && t == p[1]
            } else if p[1] != 0 {
                progress(p, max) is Complete
            } else if length > max {
                progress(p, max) matches Progress::Invalid(FrameDecodeError::FrameTooLarge(n)) && n
                    == length
            } else if p.len() < 12 + length {
                progress(p, max) matches Progress::More(n) && n == 12 + length - p.len()
            } else {
                progress(p, max) is Complete
            }
        },
{
    if p.len() >= 12 {
        let s = p.take(12).subrange(8, 12);
        law_most_significant_octet_first(0, 0, s);
        assert(s[0] == p[8] && s[1] == p[9] && s[2] == p[10] && s[3] == p[11]);
    }
}

/// A reader asks for the octets that are missing, has the frame once none is, and reports what can never
/// become one. Until then it keeps what it has read.
pub proof fn law_reader_goes_on(p: Seq<u8>, kept: Seq<u8>, max: nat, r: Next)
    requires
        read_outcome(p, kept, max, r),
    ensures
        r is Read <==> progress(p, max) is More,
        r is Frame <==> progress(p, max) is Complete,
        r is Error <==> progress(p, max) is Invalid,
        !(r is End),
        r matches Next::Read(n) ==> progress(p, max)->More_0 == n,
        r matches Next::Error(e) ==> progress(p, max)->Invalid_0 == e,
        r is Frame ==> kept.len() == 0,
        !(r is Frame) ==> kept == p,
{
}

} // verus!
