//! Headers and frames on the wire.

use bytes::{Bytes, BytesMut};
use quickcheck::{Arbitrary, Gen, QuickCheck};
use yamux::error::{DecodeError, IoErrorKind};
use yamux::frame::buffered;
use yamux::frame::header::{
    self, Data, Flags, GoAway, Header, HeaderDecodeError, Len, Ping, StreamId, Tag, Version,
    WindowUpdate, ACK, CONNECTION_ID, FIN, HEADER_SIZE, RST, SYN,
};
use yamux::frame::io::{FrameDecodeError, Io, Next, Read, Ready, Write};
use yamux::frame::Frame;
use yamux::raw;
use yamux::raw::codec::{FrameCodec, HeaderCodec};
use yamux::raw::header::{RawHeader, Type, CODE_TERM, ECODE_INTERNAL, ECODE_PROTO};
use yamux::raw::RawFrame;
use yamux::{Config, Either};

/// Any frame, with a body of less than 4096 octets.
#[derive(Clone, Debug)]
struct AnyFrame {
    octets: Vec<u8>,
}

impl AnyFrame {
    fn frame(&self) -> Frame<()> {
        let mut head = [0u8; HEADER_SIZE];
        head.copy_from_slice(&self.octets[..HEADER_SIZE]);
        match Frame::try_from_header_buffer(&head, 4096).unwrap() {
            Either::Left(f) => f,
            Either::Right(mut f) => {
                f.body_mut().copy_from_slice(&self.octets[HEADER_SIZE..]);
                f.into_generic_frame()
            }
        }
    }

    fn body_len(&self) -> usize {
        self.octets.len() - HEADER_SIZE
    }
}

impl Arbitrary for AnyFrame {
    fn arbitrary(g: &mut Gen) -> Self {
        let tag = *g.choose(&[0u8, 1, 2, 3]).unwrap();
        let mut octets = vec![0, tag];
        octets.extend(u16::arbitrary(g).to_be_bytes());
        octets.extend(u32::arbitrary(g).to_be_bytes());
        if tag == 0 {
            let n = u32::arbitrary(g) % 4096;
            octets.extend(n.to_be_bytes());
            octets.extend((0..n).map(|_| u8::arbitrary(g)));
        } else {
            octets.extend(u32::arbitrary(g).to_be_bytes());
        }
        AnyFrame { octets }
    }
}

/// Write a frame, and read it again in pieces of the given size.
fn write_and_read(f: &AnyFrame, piece: usize) -> Option<Frame<()>> {
    let mut io = Io::new(f.body_len());
    assert_eq!(Ready::Ready, io.poll_ready(Write::Nothing));
    io.start_send(&f.frame());
    let mut written = Vec::new();
    while io.poll_ready(Write::Nothing) == Ready::Write {
        let n = piece.min(io.pending().len());
        written.extend_from_slice(&io.pending()[..n]);
        io.poll_ready(Write::Wrote(n));
    }
    assert_eq!(written, f.octets);
    let mut rest = &written[..];
    let mut next = io.poll_next(Read::Nothing);
    loop {
        match next {
            Next::Read(n) => {
                let (now, later) = rest.split_at(n.min(piece).min(rest.len()));
                rest = later;
                next = io.poll_next(Read::Octets(now));
            }
            Next::Frame(f) => return Some(f),
            Next::Error(_) | Next::End => return None,
        }
    }
}

#[test]
fn io_encode_decode_identity() {
    fn property(f: AnyFrame) -> bool {
        let mut b = buffered::Io::new(f.body_len());
        let octets = buffered::Io::send(&f.frame());
        let again = match b.poll_next(Read::Octets(&octets)) {
            Next::Frame(x) => x == f.frame(),
            _ => false,
        };
        write_and_read(&f, usize::MAX) == Some(f.frame()) && again
    }

    QuickCheck::new()
        .tests(10_000)
        .quickcheck(property as fn(AnyFrame) -> bool)
}

#[test]
fn frames_arrive_in_any_pieces() {
    fn property(f: AnyFrame, piece: usize) -> bool {
        write_and_read(&f, 1 + piece % 64) == Some(f.frame())
    }
    QuickCheck::new().quickcheck(property as fn(_, _) -> _)
}

#[test]
fn frames_arrive_in_order() {
    fn property(frames: Vec<AnyFrame>) -> bool {
        let mut io = buffered::Io::new(4096);
        let mut octets = Vec::new();
        for f in &frames {
            octets.extend_from_slice(&buffered::Io::send(&f.frame()))
        }
        let mut read = Vec::new();
        let mut next = io.poll_next(Read::Octets(&octets));
        while let Next::Frame(f) = next {
            read.push(f);
            next = io.poll_next(Read::Nothing);
        }
        matches!(next, Next::Read(8192)) && read == frames.iter().map(AnyFrame::frame).collect::<Vec<_>>()
    }
    QuickCheck::new().tests(50).quickcheck(property as fn(_) -> _)
}

#[test]
fn octets_of_a_header() {
    let mut h = Header::data(StreamId::new(0x01020304), 0x05060708);
    h.syn();
    h.fin();
    assert_eq!(
        [0, 0, 0, 5, 1, 2, 3, 4, 5, 6, 7, 8],
        header::encode(&h)
    );
    let h = Header::window_update(StreamId::new(3), 256);
    assert_eq!([0, 1, 0, 0, 0, 0, 0, 3, 0, 0, 1, 0], header::encode(&h));
    assert_eq!(256, h.credit());
    let mut h = Header::ping(7);
    h.ack();
    assert_eq!([0, 2, 0, 2, 0, 0, 0, 0, 0, 0, 0, 7], header::encode(&h));
    assert_eq!(7, h.nonce());
    assert_eq!(
        [0, 3, 0, 0, 0, 0, 0, 0, 0, 0, 0, 2],
        header::encode(&Header::internal_error())
    );
    assert_eq!(
        [0, 3, 0, 0, 0, 0, 0, 0, 0, 0, 0, 1],
        header::encode(&Header::protocol_error())
    );
    assert_eq!(
        [0, 3, 0, 0, 0, 0, 0, 0, 0, 0, 0, 0],
        header::encode(&Header::term())
    );
}

#[test]
fn header_of_octets() {
    let h = header::decode(&[0, 1, 0, 10, 0, 0, 1, 1, 0, 1, 0, 0]).unwrap();
    assert_eq!(Tag::WindowUpdate, h.tag());
    assert_eq!(10, h.flags().val());
    assert!(h.flags().contains(Flags(ACK)));
    assert!(h.flags().contains(Flags(RST)));
    assert!(!h.flags().contains(Flags(SYN)));
    assert_eq!(257, h.stream_id().val());
    assert_eq!(65536, h.len().val());
    assert_eq!(
        Err(HeaderDecodeError::Version(1)),
        header::decode(&[1, 9, 0, 0, 0, 0, 0, 0, 0, 0, 0, 0]).map(|_| ())
    );
    assert_eq!(
        Err(HeaderDecodeError::Type(4)),
        header::decode(&[0, 4, 0, 0, 0, 0, 0, 0, 0, 0, 0, 0]).map(|_| ())
    );
}

#[test]
fn flags_are_independent() {
    let mut h = Header::data(StreamId::new(1), 0);
    assert_eq!(0, h.flags().val());
    h.syn();
    assert_eq!(1, h.flags().val());
    h.ack();
    assert_eq!(3, h.flags().val());
    h.fin();
    assert_eq!(7, h.flags().val());
    h.rst();
    assert_eq!(15, h.flags().val());
    h.rst();
    assert_eq!(15, h.flags().val());
    assert_eq!(Flags(SYN | FIN), Flags(SYN).and(Flags(FIN)));
    h.set_len(99);
    assert_eq!(99, h.len().val());
}

#[test]
fn stream_identifiers() {
    assert!(StreamId::new(2).is_server() && !StreamId::new(2).is_client());
    assert!(StreamId::new(3).is_client() && !StreamId::new(3).is_server());
    assert!(StreamId::new(CONNECTION_ID).is_session());
    assert!(!StreamId::new(1).is_session());
}

#[test]
fn kinds_of_frames() {
    let f: Frame<Data> = Frame::data(StreamId::new(5), b"abc").unwrap();
    assert_eq!(b"abc", f.body());
    assert_eq!(3, f.body_len());
    assert_eq!(
        &[0, 0, 0, 0, 0, 0, 0, 5, 0, 0, 0, 3, b'a', b'b', b'c'],
        &f.buffer()[..]
    );
    assert_eq!(Bytes::from_static(b"abc"), f.into_body());
    let f: Frame<WindowUpdate> = Frame::window_update(StreamId::new(5), 9);
    assert_eq!(&[0, 1, 0, 0, 0, 0, 0, 5, 0, 0, 0, 9], &f.buffer()[..]);
    let f: Frame<Data> = Frame::close_stream(StreamId::new(5), false);
    assert_eq!(&[0, 0, 0, 4, 0, 0, 0, 5, 0, 0, 0, 0], &f.buffer()[..]);
    let f: Frame<Data> = Frame::close_stream(StreamId::new(5), true);
    assert_eq!(&[0, 0, 0, 6, 0, 0, 0, 5, 0, 0, 0, 0], &f.buffer()[..]);
    let f: Frame<GoAway> = Frame::protocol_error();
    assert_eq!(&[0, 3, 0, 0, 0, 0, 0, 0, 0, 0, 0, 1], &f.buffer()[..]);
    assert_eq!(f.buffer(), f.clone().buffer());
}

#[test]
fn body_is_filled_later() {
    let octets = [0, 0, 0, 0, 0, 0, 0, 5, 0, 0, 0, 3];
    match Frame::try_from_header_buffer(&octets, 3) {
        Ok(Either::Right(f)) => assert_eq!(&[0, 0, 0], f.body()),
        other => panic!("{:?}", other),
    }
    assert!(matches!(
        Frame::try_from_header_buffer(&octets, 2),
        Err(FrameDecodeError::FrameTooLarge(3))
    ));
    let octets = [0, 1, 0, 0, 0, 0, 0, 5, 0, 0, 0, 3];
    assert!(matches!(
        Frame::try_from_header_buffer(&octets, 0),
        Ok(Either::Left(_))
    ));
}

#[test]
fn reading_fails() {
    // The end between two frames is no error.
    let mut io = Io::new(16);
    assert!(matches!(io.poll_next(Read::Nothing), Next::Read(12)));
    assert!(matches!(io.poll_next(Read::Eof), Next::End));
    // The end within a frame is one.
    assert!(matches!(io.poll_next(Read::Octets(&[0, 0])), Next::Read(10)));
    assert!(matches!(
        io.poll_next(Read::Eof),
        Next::Error(FrameDecodeError::Io(IoErrorKind::UnexpectedEof))
    ));
    assert!(matches!(
        io.poll_next(Read::Failed(IoErrorKind::ConnectionReset)),
        Next::Error(FrameDecodeError::Io(IoErrorKind::ConnectionReset))
    ));
    // A body that is too large.
    assert!(matches!(
        io.poll_next(Read::Octets(&[0, 0, 0, 0, 0, 1, 0, 0, 0, 17])),
        Next::Error(FrameDecodeError::FrameTooLarge(17))
    ));
    let mut io = Io::new(16);
    assert!(matches!(
        io.poll_next(Read::Octets(&[7, 0, 0, 0, 0, 0, 0, 0, 0, 0, 0, 0])),
        Next::Error(FrameDecodeError::Header(HeaderDecodeError::Version(7)))
    ));
}

#[test]
fn buffered_reading_fails() {
    let mut io = buffered::Io::new(16);
    assert!(matches!(
        io.poll_next(Read::Eof),
        Next::Error(FrameDecodeError::Io(IoErrorKind::UnexpectedEof))
    ));
    assert!(matches!(
        io.poll_next(Read::Failed(IoErrorKind::Other)),
        Next::Error(FrameDecodeError::Io(IoErrorKind::Other))
    ));
    // A header that cannot be decoded is skipped.
    let mut octets = vec![0, 9, 0, 0, 0, 0, 0, 0, 0, 0, 0, 0];
    octets.extend([0, 0, 0, 0, 0, 0, 0, 1, 0, 0, 0, 17]);
    octets.extend([0, 0, 0, 0, 0, 0, 0, 1, 0, 0, 0, 1]);
    assert!(matches!(
        io.poll_next(Read::Octets(&octets)),
        Next::Error(FrameDecodeError::Header(HeaderDecodeError::Type(9)))
    ));
    assert!(matches!(
        io.decode(),
        Err(FrameDecodeError::FrameTooLarge(17))
    ));
    assert!(matches!(io.decode(), Ok(None)));
    match io.poll_next(Read::Octets(&[42])) {
        Next::Frame(f) => assert_eq!(f, Frame::data(StreamId::new(1), &[42]).unwrap().into_generic_frame()),
        _ => panic!(),
    }
}

#[test]
fn writing_fails() {
    let mut io = Io::new(16);
    io.start_send(&Frame::term().into_generic_frame());
    assert_eq!(12, io.pending().len());
    assert_eq!(Ready::Write, io.poll_ready(Write::Nothing));
    assert_eq!(
        Ready::Error(IoErrorKind::WriteZero),
        io.poll_ready(Write::Wrote(0))
    );
    assert_eq!(
        Ready::Error(IoErrorKind::ConnectionReset),
        io.poll_ready(Write::Failed(IoErrorKind::ConnectionReset))
    );
    assert_eq!(Ready::Write, io.poll_ready(Write::Wrote(11)));
    assert_eq!(&[0], io.pending());
    assert_eq!(Ready::Ready, io.poll_ready(Write::Wrote(1)));
    assert!(io.pending().is_empty());
}

/// Any message, whatever its version.
#[derive(Clone, Debug)]
struct AnyRaw {
    header: RawHeader,
}

impl AnyRaw {
    fn frame(&self) -> RawFrame {
        let body = if self.header.typ == Type::Data {
            Bytes::from(vec![0; self.header.length.0 as usize])
        } else {
            Bytes::new()
        };
        RawFrame {
            header: self.header,
            body,
        }
    }
}

impl Arbitrary for AnyRaw {
    fn arbitrary(g: &mut Gen) -> Self {
        let typ = *g
            .choose(&[Type::Data, Type::WindowUpdate, Type::Ping, Type::GoAway])
            .unwrap();
        AnyRaw {
            header: RawHeader {
                version: Version(u8::arbitrary(g)),
                typ,
                flags: Flags(u16::arbitrary(g)),
                stream_id: StreamId::new(u32::arbitrary(g)),
                length: Len(u16::arbitrary(g) as u32),
            },
        }
    }
}

#[test]
fn frame_identity() {
    fn property(f: AnyRaw) -> bool {
        let mut buf = BytesMut::with_capacity(12 + f.frame().body.len());
        let mut codec = FrameCodec::default();
        if codec.encode(f.frame(), &mut buf).is_err() {
            return false;
        }
        if let Ok(x) = codec.decode(&mut buf) {
            x == Some(f.frame()) && buf.is_empty()
        } else {
            false
        }
    }
    QuickCheck::new().quickcheck(property as fn(AnyRaw) -> bool)
}

#[test]
fn raw_decoding() {
    let mut cfg = Config::default();
    cfg.set_max_buffer_size(2);
    let mut codec = FrameCodec::new(&cfg);
    let mut buf = BytesMut::from(&[5, 0, 0, 0, 0, 0, 0, 1, 0, 0, 0][..]);
    assert_eq!(Ok(None), codec.decode(&mut buf));
    buf.extend_from_slice(&[2, 10]);
    assert_eq!(Ok(None), codec.decode(&mut buf));
    buf.extend_from_slice(&[20, 30]);
    let f = codec.decode(&mut buf).unwrap().unwrap();
    assert_eq!(Type::Data, f.dyn_type());
    assert_eq!(Version(5), f.header.version);
    assert_eq!(&[10, 20], &f.body[..]);
    assert_eq!(&[30], &buf[..]);

    let mut buf = BytesMut::from(&[0, 0, 0, 0, 0, 0, 0, 1, 0, 0, 0, 3, 9][..]);
    assert_eq!(Err(DecodeError::FrameTooLarge(3)), codec.decode(&mut buf));
    assert_eq!(&[9], &buf[..]);
    let mut buf = BytesMut::from(&[0, 4, 0, 0, 0, 0, 0, 1, 0, 0, 0, 3, 9][..]);
    assert_eq!(Err(DecodeError::Type(4)), codec.decode(&mut buf));
    assert_eq!(&[9], &buf[..]);
    // An empty body is never too large.
    let mut buf = BytesMut::from(&[0, 0, 0, 4, 0, 0, 0, 1, 0, 0, 0, 0][..]);
    assert!(codec.decode(&mut buf).unwrap().unwrap().body.is_empty());
}

#[test]
fn raw_frames_in_pieces() {
    fn property(f: AnyRaw, at: usize) -> bool {
        let mut buf = BytesMut::new();
        FrameCodec::default().encode(f.frame(), &mut buf).unwrap();
        let at = at % buf.len();
        let mut codec = FrameCodec::default();
        let mut src = BytesMut::from(&buf[..at]);
        assert_eq!(Ok(None), codec.decode(&mut src));
        // A header leaves the input as soon as it is complete.
        assert_eq!(if at < HEADER_SIZE { at } else { at - HEADER_SIZE }, src.len());
        src.extend_from_slice(&buf[at..]);
        assert_eq!(Ok(Some(f.frame())), codec.decode(&mut src));
        src.is_empty()
    }
    QuickCheck::new().quickcheck(property as fn(AnyRaw, usize) -> bool)
}

#[test]
fn raw_frames_up_to_the_limit() {
    let mut c = FrameCodec::default();
    let mut src = BytesMut::from(&[0u8, 0, 0, 0, 0, 0, 0, 1, 0, 16, 0, 1][..]);
    assert_eq!(Err(DecodeError::FrameTooLarge(1048577)), c.decode(&mut src));
    let mut c = FrameCodec::default();
    let mut src = BytesMut::from(&[0u8, 0, 0, 0, 0, 0, 0, 1, 0, 16, 0, 0][..]);
    assert_eq!(Ok(None), c.decode(&mut src));
    assert!(src.is_empty());
    src.extend_from_slice(&[7; 1048576]);
    assert_eq!(1048576, c.decode(&mut src).unwrap().unwrap().body.len());
    assert!(src.is_empty());
}

#[test]
fn raw_headers() {
    let mut codec = HeaderCodec::new();
    let mut buf = BytesMut::new();
    let mut h: raw::header::Header<Data> = raw::header::Header::data(StreamId::new(258), 3);
    h.syn();
    h.ack();
    h.fin();
    h.rst();
    assert_eq!(3, h.len());
    assert_eq!(15, h.flags().val());
    codec.encode(h.into_raw(), &mut buf).unwrap();
    assert_eq!(&[0, 0, 0, 15, 0, 0, 1, 2, 0, 0, 0, 3], &buf[..]);
    let raw = codec.decode(&mut buf).unwrap().unwrap();
    let h: raw::header::Header<Data> = raw::header::Header::assert_kind(raw);
    assert_eq!(258, h.id().val());
    assert_eq!(Ok(None), codec.decode(&mut buf));

    let mut h: raw::header::Header<WindowUpdate> = raw::header::Header::window_update(StreamId::new(1), 4);
    h.syn();
    h.ack();
    h.fin();
    h.rst();
    assert_eq!((15, 4), (h.flags().val(), h.credit()));
    let mut h: raw::header::Header<Ping> = raw::header::Header::ping(5);
    h.syn();
    h.ack();
    assert_eq!((3, 5, 0), (h.flags().val(), h.nonce(), h.id().val()));
    let h: raw::header::Header<GoAway> = raw::header::Header::go_away(ECODE_PROTO);
    assert_eq!((1, 0), (h.error_code(), h.id().val()));
    assert_eq!((0, 2), (CODE_TERM, ECODE_INTERNAL));
}

#[test]
fn raw_frames() {
    let mut f = raw::Frame::data(StreamId::new(7), Bytes::from_static(b"xy"));
    f.header_mut().fin();
    assert_eq!(b"xy", &f.body()[..]);
    assert_eq!(2, f.header().len());
    let raw = f.into_raw();
    assert_eq!(4, raw.header.flags.val());
    let f: raw::Frame<Data> = raw::Frame::assert_kind(raw);
    assert_eq!(7, f.header().id().val());
    let f = raw::Frame::window_update(StreamId::new(7), 8).into_raw();
    assert_eq!((Type::WindowUpdate, 8), (f.dyn_type(), f.header.length.val()));
    let f = raw::Frame::go_away(2).into_raw();
    assert_eq!((Type::GoAway, 2), (f.dyn_type(), f.header.length.val()));
    let f = raw::Frame::new(raw::header::Header::ping(1)).into_raw();
    assert!(f.body.is_empty());
}
