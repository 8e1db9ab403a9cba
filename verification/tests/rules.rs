//! How a connection reacts to single frames and commands.

use futures::task::noop_waker;
use std::io::ErrorKind;
use yamux::connection::command::{Outbox, StreamCommand};
use yamux::connection::stream::{Flag, State};
use yamux::connection::{
    Connection, ControlAction, ControlCommand, Event, Id, Mode, Reply, Sources, Step,
};
use yamux::error::{ConnectionError, IoErrorKind};
use yamux::frame::header::{HeaderDecodeError, StreamId, ACK, FIN, RST, SYN};
use yamux::frame::io::{FrameDecodeError, Io, Next, Read};
use yamux::frame::Frame;
use yamux::text::{decimal_text, hexadecimal_text};
use yamux::{stream, Config, Poll, WindowUpdateMode, DEFAULT_CREDIT};

const DATA: u8 = 0;
const UPDATE: u8 = 1;
const PING: u8 = 2;
const GO_AWAY: u8 = 3;

fn frame(tag: u8, flags: u16, id: u32, length: u32, body: &[u8]) -> Frame<()> {
    let mut octets = vec![0, tag];
    octets.extend(flags.to_be_bytes());
    octets.extend(id.to_be_bytes());
    octets.extend(length.to_be_bytes());
    octets.extend(body);
    let mut io = Io::new(1 << 20);
    let mut rest = &octets[..];
    let mut next = io.poll_next(Read::Nothing);
    loop {
        next = match next {
            Next::Read(n) => {
                let (now, later) = rest.split_at(n);
                rest = later;
                io.poll_next(Read::Octets(now))
            }
            Next::Frame(f) => return f,
            Next::Error(e) => panic!("{:?}", e),
            Next::End => panic!(),
        }
    }
}

fn data(flags: u16, id: u32, body: &[u8]) -> Frame<()> {
    frame(DATA, flags, id, body.len() as u32, body)
}

/// The kind, the flags, the stream and the length field of a frame.
fn parts(f: &Frame<()>) -> (u8, u16, u32, u32) {
    let b = f.buffer();
    (
        b[1],
        f.header().flags().val(),
        f.header().stream_id().val(),
        f.header().len().val(),
    )
}

fn server(config: Config) -> Connection<&'static str> {
    Connection::with_id(Id(0xabcd), config, Mode::Server)
}

fn default_server() -> Connection<&'static str> {
    server(Config::default())
}

fn receive(c: &mut Connection<&'static str>, f: Frame<()>) -> Reply {
    assert!(!c.credit_overflows(&f));
    c.on_frame(Ok(Some(f))).unwrap()
}

fn answer(r: &Reply) -> Option<(u8, u16, u32, u32)> {
    r.frame.as_ref().map(parts)
}

fn open(c: &mut Connection<&'static str>) -> StreamId {
    match c.on_control_command(Some(ControlCommand::OpenStream(()))) {
        Ok(ControlAction::Open((), s, _)) => {
            let id = s.id();
            c.on_open_reply(s, true);
            id
        }
        other => panic!("{:?}", other),
    }
}

const PROTOCOL_ERROR: Option<(u8, u16, u32, u32)> = Some((GO_AWAY, 0, 0, 1));
const INTERNAL_ERROR: Option<(u8, u16, u32, u32)> = Some((GO_AWAY, 0, 0, 2));

#[test]
fn remote_opens_a_stream_with_data() {
    let mut c = default_server();
    let r = receive(&mut c, data(SYN, 1, b"abc"));
    assert_eq!(Some(1), r.stream.map(|id| id.val()));
    assert_eq!(None, answer(&r));
    let s = c.stream_mut(StreamId::new(1)).unwrap();
    assert_eq!(DEFAULT_CREDIT - 3, s.shared().window());
    assert_eq!(DEFAULT_CREDIT, s.shared().credit());
    // The first frame acknowledges the stream.
    let mut out = Outbox::new(false, 1);
    assert_eq!(Poll::Ready(Ok(1)), s.poll_write(&mut out, noop_waker(), b"x"));
    let f = c.on_stream_command(out.into_commands().pop());
    assert_eq!((DATA, ACK, 1, 1), parts(&f));
}

#[test]
fn remote_is_given_credit_at_once() {
    let mut cfg = Config::default();
    cfg.set_receive_window(4 * DEFAULT_CREDIT).unwrap();
    let mut c = server(cfg);
    let r = receive(&mut c, data(SYN, 1, b"abc"));
    assert_eq!(Some((UPDATE, ACK, 1, 3 * DEFAULT_CREDIT + 3)), answer(&r));
    let s = c.stream_mut(StreamId::new(1)).unwrap();
    assert_eq!(4 * DEFAULT_CREDIT, s.shared().window());
    // On read, it is not.
    cfg.set_window_update_mode(WindowUpdateMode::OnRead);
    let mut c = server(cfg);
    let r = receive(&mut c, data(SYN | FIN, 1, b"abc"));
    assert_eq!(None, answer(&r));
    assert_eq!(State::RecvClosed, c.stream_mut(StreamId::new(1)).unwrap().state());
}

#[test]
fn remote_breaks_the_rules() {
    let mut c = default_server();
    // Servers have even numbers.
    assert_eq!(PROTOCOL_ERROR, answer(&receive(&mut c, data(SYN, 2, b""))));
    assert_eq!(PROTOCOL_ERROR, answer(&receive(&mut c, frame(UPDATE, SYN, 2, 0, b""))));
    // The first body exceeds the default credit.
    let large = vec![0; DEFAULT_CREDIT as usize + 1];
    assert_eq!(PROTOCOL_ERROR, answer(&receive(&mut c, data(SYN, 1, &large))));
    assert_eq!(0, c.num_streams());
    // The stream exists already.
    receive(&mut c, data(SYN, 1, b""));
    assert_eq!(PROTOCOL_ERROR, answer(&receive(&mut c, data(SYN, 1, b""))));
    assert_eq!(PROTOCOL_ERROR, answer(&receive(&mut c, frame(UPDATE, SYN, 1, 0, b""))));
    // More than the window allows.
    assert_eq!(PROTOCOL_ERROR, answer(&receive(&mut c, data(0, 1, &large))));
    assert_eq!(1, c.num_streams());
}

#[test]
fn too_many_streams() {
    let mut cfg = Config::default();
    cfg.set_max_num_streams(1);
    let mut c = server(cfg);
    receive(&mut c, frame(UPDATE, SYN, 1, 0, b""));
    assert_eq!(INTERNAL_ERROR, answer(&receive(&mut c, data(SYN, 3, b""))));
    assert_eq!(PROTOCOL_ERROR, answer(&receive(&mut c, frame(UPDATE, SYN, 3, 0, b""))));
    assert!(matches!(
        c.on_control_command(Some(ControlCommand::OpenStream("o"))),
        Ok(ControlAction::Refuse("o", ConnectionError::TooManyStreams))
    ));
    assert_eq!(1, c.num_streams());
}

#[test]
fn remote_opens_a_stream_with_credit() {
    let mut c = default_server();
    let r = receive(&mut c, frame(UPDATE, SYN | FIN, 1, 7, b""));
    assert_eq!(Some(1), r.stream.map(|id| id.val()));
    let s = c.stream_mut(StreamId::new(1)).unwrap();
    assert_eq!(DEFAULT_CREDIT + 7, s.shared().credit());
    assert_eq!(State::RecvClosed, s.state());
    let overflow = frame(UPDATE, SYN, 3, u32::MAX - DEFAULT_CREDIT + 1, b"");
    assert!(c.credit_overflows(&overflow));
    let fits = frame(UPDATE, SYN, 3, u32::MAX - DEFAULT_CREDIT, b"");
    assert!(!c.credit_overflows(&fits));
    receive(&mut c, fits);
    assert!(c.credit_overflows(&frame(UPDATE, 0, 3, 1, b"")));
    assert!(!c.credit_overflows(&frame(UPDATE, RST, 3, 1, b"")));
    assert!(!c.credit_overflows(&frame(UPDATE, 0, 5, u32::MAX, b"")));
}

#[test]
fn credit_wakes_the_writer() {
    let mut c = default_server();
    let id = open(&mut c);
    let s = c.stream_mut(id).unwrap();
    let mut out = Outbox::new(false, 99);
    while s.shared().credit() > 0 {
        s.poll_write(&mut out, noop_waker(), &[0; 16384]);
    }
    assert_eq!(Poll::Pending, s.poll_write(&mut out, noop_waker(), b"x"));
    let r = receive(&mut c, frame(UPDATE, 0, id.val(), 5, b""));
    assert!(r.wakers.writer.is_some() && r.wakers.reader.is_none());
    assert_eq!(5, c.stream_mut(id).unwrap().shared().credit());
    let r = receive(&mut c, frame(UPDATE, FIN, id.val(), 5, b""));
    assert!(r.wakers.writer.is_none());
    assert_eq!(State::RecvClosed, c.stream_mut(id).unwrap().state());
}

#[test]
fn data_wakes_the_reader() {
    let mut c = default_server();
    let id = open(&mut c);
    let mut out = Outbox::new(false, 9);
    let mut buf = [0; 4];
    let s = c.stream_mut(id).unwrap();
    assert_eq!(Poll::Pending, s.poll_read(&mut out, noop_waker(), &mut buf));
    let r = receive(&mut c, data(0, id.val(), b"ab"));
    assert!(r.wakers.reader.is_some());
    let r = receive(&mut c, data(FIN, id.val(), b"cd"));
    assert!(r.wakers.reader.is_none());
    let s = c.stream_mut(id).unwrap();
    assert_eq!(Poll::Ready(Ok(4)), s.poll_read(&mut out, noop_waker(), &mut buf));
    assert_eq!(b"abcd", &buf);
    assert_eq!(Poll::Ready(Ok(0)), s.poll_read(&mut out, noop_waker(), &mut buf));
}

#[test]
fn window_update_when_half_is_received() {
    let mut c = default_server();
    let id = open(&mut c).val();
    let half = vec![1; DEFAULT_CREDIT as usize / 2];
    assert_eq!(None, answer(&receive(&mut c, data(0, id, &half[1..]))));
    assert_eq!(
        Some((UPDATE, 0, id, DEFAULT_CREDIT / 2)),
        answer(&receive(&mut c, data(0, id, b"x")))
    );
}

#[test]
fn buffer_is_full() {
    let mut cfg = Config::default();
    cfg.set_max_buffer_size(2);
    let mut c = server(cfg);
    let id = open(&mut c).val();
    assert_eq!(None, answer(&receive(&mut c, data(0, id, b"ab"))));
    assert_eq!(Some((DATA, RST, id, 0)), answer(&receive(&mut c, data(0, id, b"c"))));
}

#[test]
fn reset_closes_the_stream() {
    for tag in [DATA, UPDATE] {
        let mut c = default_server();
        let id = open(&mut c);
        let mut out = Outbox::new(false, 9);
        let s = c.stream_mut(id).unwrap();
        assert_eq!(Poll::Pending, s.poll_read(&mut out, noop_waker(), &mut [0]));
        let r = receive(&mut c, frame(tag, RST, id.val(), 0, b""));
        assert!(r.wakers.reader.is_some());
        assert_eq!(None, answer(&r));
        assert_eq!(State::Closed, c.stream_mut(id).unwrap().state());
    }
}

#[test]
fn frames_for_unknown_streams_are_ignored() {
    let mut c = default_server();
    for f in [
        data(0, 9, b"abc"),
        data(FIN, 9, b""),
        data(RST, 9, b""),
        frame(UPDATE, 0, 9, 5, b""),
        frame(UPDATE, RST, 9, 5, b""),
        frame(PING, 0, 9, 5, b""),
        frame(PING, ACK, 0, 5, b""),
    ] {
        let r = receive(&mut c, f);
        assert!(r.frame.is_none() && r.stream.is_none());
    }
    assert_eq!(0, c.num_streams());
}

#[test]
fn ping_is_answered() {
    let mut c = default_server();
    let r = receive(&mut c, frame(PING, SYN, 0, 77, b""));
    assert_eq!(Some((PING, ACK, 0, 77)), answer(&r));
    assert_eq!(None, answer(&receive(&mut c, r.frame.unwrap())));
    let id = open(&mut c).val();
    let r = receive(&mut c, frame(PING, 0, id, 78, b""));
    assert_eq!(Some((PING, ACK, 0, 78)), answer(&r));
}

#[test]
fn session_ends() {
    let mut c = default_server();
    let ends = |c: &mut Connection<_>, f| c.on_frame(f).map(|_| ()).unwrap_err();
    let go_away = frame(GO_AWAY, 0, 0, 1, b"");
    assert_eq!(ConnectionError::Closed, ends(&mut c, Ok(Some(go_away))));
    assert_eq!(ConnectionError::Closed, ends(&mut c, Ok(None)));
    let reset = ConnectionError::Io(IoErrorKind::ConnectionReset);
    assert_eq!(ConnectionError::Closed, ends(&mut c, Err(reset)));
    let reset = FrameDecodeError::Io(IoErrorKind::ConnectionReset).into();
    assert_eq!(ConnectionError::Closed, ends(&mut c, Err(reset)));
    let large = ConnectionError::Decode(FrameDecodeError::FrameTooLarge(9));
    assert_eq!(large, ends(&mut c, Err(large)));
    let eof = ConnectionError::Io(IoErrorKind::UnexpectedEof);
    assert_eq!(eof, ends(&mut c, Err(eof)));
}

#[test]
fn opening_with_a_larger_window() {
    let mut cfg = Config::default();
    cfg.set_receive_window(DEFAULT_CREDIT + 5).unwrap();
    let mut c = server(cfg);
    match c.on_control_command(Some(ControlCommand::OpenStream(()))) {
        Ok(ControlAction::Open((), s, Some(f))) => {
            assert_eq!((UPDATE, SYN, 2, 5), parts(&f.into_generic_frame()));
            assert_eq!(DEFAULT_CREDIT + 5, s.shared().window());
            // The control has gone: the remote has to be told.
            let r = c.on_open_reply(s, false).unwrap().into_generic_frame();
            assert_eq!((DATA, RST, 2, 0), parts(&r));
        }
        other => panic!("{:?}", other),
    }
    assert_eq!(0, c.num_streams());
    // Its number is not used again.
    assert_eq!(4, open(&mut c).val());
}

#[test]
fn opening_with_the_default_window() {
    let mut c = default_server();
    match c.on_control_command(Some(ControlCommand::OpenStream(()))) {
        Ok(ControlAction::Open((), s, None)) => assert!(c.on_open_reply(s, false).is_none()),
        other => panic!("{:?}", other),
    }
    let id = open(&mut c);
    let mut out = Outbox::new(false, 1);
    let s = c.stream_mut(id).unwrap();
    assert_eq!(Poll::Ready(Ok(0)), s.poll_write(&mut out, noop_waker(), b""));
    let f = c.on_stream_command(out.into_commands().pop());
    assert_eq!((DATA, SYN, 4, 0), parts(&f));
}

#[test]
fn garbage_is_collected() {
    let mut c = default_server();
    let open_id = open(&mut c);
    let recv_closed = open(&mut c);
    let send_closed = open(&mut c);
    let closed = open(&mut c);
    let kept = open(&mut c);
    let set = |c: &mut Connection<_>, id, s| {
        c.stream_mut(id).unwrap().shared_mut().update_state(s);
    };
    set(&mut c, recv_closed, State::RecvClosed);
    set(&mut c, send_closed, State::SendClosed);
    set(&mut c, closed, State::Closed);
    for id in [open_id, recv_closed, send_closed, closed] {
        c.stream_mut(id).unwrap().release();
    }
    let mut out = c.garbage_collect();
    out.sort_by_key(|x| x.id.val());
    let frames: Vec<_> = out
        .into_iter()
        .map(|x| (x.id, x.frame.map(|f| parts(&f.into_generic_frame()))))
        .collect();
    assert_eq!(
        vec![
            (open_id, Some((DATA, RST, open_id.val(), 0))),
            (recv_closed, Some((DATA, FIN, recv_closed.val(), 0))),
            (send_closed, None),
            (closed, None),
        ],
        frames
    );
    assert_eq!(1, c.num_streams());
    assert!(c.has_stream(kept));
    assert!(c.garbage_collect().is_empty());
}

#[test]
fn remote_without_credit_is_told() {
    let mut cfg = Config::default();
    cfg.set_window_update_mode(WindowUpdateMode::OnRead);
    let mut c = server(cfg);
    let id = open(&mut c);
    receive(&mut c, data(0, id.val(), &vec![0; DEFAULT_CREDIT as usize]));
    let s = c.stream_mut(id).unwrap();
    s.poll_close(&mut Outbox::new(false, 1));
    s.release();
    let f = c.garbage_collect().pop().unwrap().frame.unwrap();
    assert_eq!((DATA, RST, id.val(), 0), parts(&f.into_generic_frame()));
}

#[test]
fn connection_is_closed() {
    let mut c = default_server();
    let id = open(&mut c);
    let mut out = Outbox::new(false, 9);
    let s = c.stream_mut(id).unwrap();
    assert_eq!(Poll::Pending, s.poll_read(&mut out, noop_waker(), &mut [0]));
    assert_eq!((Ok(Some(id)), 0), {
        let (r, dropped) = c.next_stream(Ok(Some(id)));
        (r, dropped.len())
    });
    assert!(c.shutdown().has_not_started());
    assert!(matches!(
        c.on_control_command::<()>(Some(ControlCommand::CloseConnection("x"))),
        Ok(ControlAction::Drain)
    ));
    assert!(c.shutdown().is_in_progress());
    assert_eq!((GO_AWAY, 0, 0, 0), parts(&c.on_stream_command(None)));
    assert_eq!(Some("x"), c.on_term_sent());
    assert!(c.shutdown().is_complete());
    assert!(matches!(
        c.on_control_command(Some(ControlCommand::OpenStream("o"))),
        Ok(ControlAction::Refuse("o", ConnectionError::Closed))
    ));
    assert!(matches!(
        c.on_control_command::<()>(Some(ControlCommand::CloseConnection("y"))),
        Ok(ControlAction::Confirm("y"))
    ));
    assert!(matches!(
        c.on_control_command::<()>(None),
        Ok(ControlAction::Close)
    ));
    assert!(!c.is_closed());
    let (r, dropped) = c.next_stream(Err(ConnectionError::Closed));
    assert_eq!(Ok(None), r);
    assert_eq!(1, dropped.len());
    assert_eq!(State::Closed, dropped[0].stream.state());
    assert!(dropped[0].wakers.reader.is_some());
    assert!(c.is_closed());
    let (r, dropped) = c.next_stream(Err(ConnectionError::NoMoreStreamIds));
    assert_eq!((Ok(None), 0), (r, dropped.len()));
    assert!(matches!(
        Connection::refuse(ControlCommand::OpenStream::<_, ()>(1)),
        ControlAction::Refuse(1, ConnectionError::Closed)
    ));
    assert!(matches!(
        Connection::refuse(ControlCommand::CloseConnection::<(), _>(2)),
        ControlAction::Confirm(2)
    ));
}

#[test]
fn errors_are_passed_on() {
    let mut c = default_server();
    let e = ConnectionError::Decode(FrameDecodeError::Header(HeaderDecodeError::Version(3)));
    assert_eq!(Err(e), c.next_stream(Err(e)).0);
    assert!(c.is_closed());
}

#[test]
fn sources_and_order() {
    let mut c = default_server();
    let none = Sources {
        stream: false,
        control: false,
        socket: false,
    };
    assert!(matches!(
        c.next::<()>(Event::OutboundReady(none)),
        Err(ConnectionError::Closed)
    ));
    let some = Sources { control: true, ..none };
    assert!(matches!(
        c.next::<()>(Event::OutboundReady(some)),
        Ok(Step::Wait(s)) if s == some
    ));
    assert!(matches!(
        c.next::<()>(Event::OutboundFailed),
        Err(ConnectionError::Closed)
    ));
    assert!(matches!(
        c.next::<()>(Event::Inbound(Ok(None))),
        Err(ConnectionError::Closed)
    ));
    let close = StreamCommand::CloseStream {
        id: StreamId::new(4),
        ack: true,
    };
    match c.next::<()>(Event::Stream(Some(close))) {
        Ok(Step::Send(f)) => assert_eq!((DATA, FIN | ACK, 4, 0), parts(&f)),
        other => panic!("{:?}", other),
    }
    let select = |a: bool, b: bool, c: bool| {
        let stream = if a { Poll::Ready(None) } else { Poll::Pending };
        let control = if b { Poll::Ready(None) } else { Poll::Pending };
        let frame = if c { Poll::Ready(Ok(None)) } else { Poll::Pending };
        match Connection::<()>::select::<()>(stream, control, frame) {
            Poll::Ready(Event::Stream(None)) => 's',
            Poll::Ready(Event::Control(None)) => 'c',
            Poll::Ready(Event::Inbound(Ok(None))) => 'f',
            Poll::Pending => '-',
            _ => '?',
        }
    };
    assert_eq!('s', select(true, true, true));
    assert_eq!('c', select(false, true, true));
    assert_eq!('f', select(false, false, true));
    assert_eq!('-', select(false, false, false));
    // As long as a write is pending, only frames are waited for.
    let io_event = |ready: Poll<Result<(), ()>>, c: bool| {
        let frame = if c { Poll::Ready(Ok(None)) } else { Poll::Pending };
        match Connection::<()>::io_event::<()>(ready, frame) {
            Poll::Ready(None) => 'r',
            Poll::Ready(Some(Event::OutboundFailed)) => 'x',
            Poll::Ready(Some(Event::Inbound(Ok(None)))) => 'f',
            Poll::Pending => '-',
            other => panic!("{:?}", other),
        }
    };
    assert_eq!('r', io_event(Poll::Ready(Ok(())), true));
    assert_eq!('r', io_event(Poll::Ready(Ok(())), false));
    assert_eq!('x', io_event(Poll::Ready(Err(())), true));
    assert_eq!('f', io_event(Poll::Pending, true));
    assert_eq!('-', io_event(Poll::Pending, false));
}

#[test]
fn dropped_streams() {
    let mut c = default_server();
    let a = open(&mut c);
    receive(&mut c, data(0, a.val(), b"zz"));
    c.stream_mut(a).unwrap().set_flag(Flag::Nothing);
    let mut v = c.drop_all_streams();
    assert_eq!(0, c.num_streams());
    let mut s = v.pop().unwrap().stream;
    let mut buf = [0; 3];
    let mut closed = Outbox::new(true, 0);
    assert_eq!(Poll::Ready(Ok(2)), s.poll_read(&mut closed, noop_waker(), &mut buf));
}

/// Each kind of I/O error is told apart, and means what the standard library says.
#[test]
fn error_kinds() {
    let kinds = [
        (IoErrorKind::NotFound, ErrorKind::NotFound),
        (IoErrorKind::PermissionDenied, ErrorKind::PermissionDenied),
        (IoErrorKind::ConnectionRefused, ErrorKind::ConnectionRefused),
        (IoErrorKind::ConnectionReset, ErrorKind::ConnectionReset),
        (IoErrorKind::HostUnreachable, ErrorKind::HostUnreachable),
        (IoErrorKind::NetworkUnreachable, ErrorKind::NetworkUnreachable),
        (IoErrorKind::ConnectionAborted, ErrorKind::ConnectionAborted),
        (IoErrorKind::NotConnected, ErrorKind::NotConnected),
        (IoErrorKind::AddrInUse, ErrorKind::AddrInUse),
        (IoErrorKind::AddrNotAvailable, ErrorKind::AddrNotAvailable),
        (IoErrorKind::NetworkDown, ErrorKind::NetworkDown),
        (IoErrorKind::BrokenPipe, ErrorKind::BrokenPipe),
        (IoErrorKind::AlreadyExists, ErrorKind::AlreadyExists),
        (IoErrorKind::WouldBlock, ErrorKind::WouldBlock),
        (IoErrorKind::NotADirectory, ErrorKind::NotADirectory),
        (IoErrorKind::IsADirectory, ErrorKind::IsADirectory),
        (IoErrorKind::DirectoryNotEmpty, ErrorKind::DirectoryNotEmpty),
        (IoErrorKind::ReadOnlyFilesystem, ErrorKind::ReadOnlyFilesystem),
        (IoErrorKind::StaleNetworkFileHandle, ErrorKind::StaleNetworkFileHandle),
        (IoErrorKind::InvalidInput, ErrorKind::InvalidInput),
        (IoErrorKind::InvalidData, ErrorKind::InvalidData),
        (IoErrorKind::TimedOut, ErrorKind::TimedOut),
        (IoErrorKind::WriteZero, ErrorKind::WriteZero),
        (IoErrorKind::StorageFull, ErrorKind::StorageFull),
        (IoErrorKind::NotSeekable, ErrorKind::NotSeekable),
        (IoErrorKind::QuotaExceeded, ErrorKind::QuotaExceeded),
        (IoErrorKind::FileTooLarge, ErrorKind::FileTooLarge),
        (IoErrorKind::ResourceBusy, ErrorKind::ResourceBusy),
        (IoErrorKind::ExecutableFileBusy, ErrorKind::ExecutableFileBusy),
        (IoErrorKind::Deadlock, ErrorKind::Deadlock),
        (IoErrorKind::CrossesDevices, ErrorKind::CrossesDevices),
        (IoErrorKind::TooManyLinks, ErrorKind::TooManyLinks),
        (IoErrorKind::InvalidFilename, ErrorKind::InvalidFilename),
        (IoErrorKind::ArgumentListTooLong, ErrorKind::ArgumentListTooLong),
        (IoErrorKind::Interrupted, ErrorKind::Interrupted),
        (IoErrorKind::Unsupported, ErrorKind::Unsupported),
        (IoErrorKind::UnexpectedEof, ErrorKind::UnexpectedEof),
        (IoErrorKind::OutOfMemory, ErrorKind::OutOfMemory),
        (IoErrorKind::Other, ErrorKind::Other),
    ];
    for (kind, known) in kinds {
        assert_eq!(known.to_string(), kind.message());
        let e = ConnectionError::Io(kind);
        assert_eq!(Some(kind), e.io_kind());
        assert_eq!(format!("i/o error: {}", known), e.message());
    }
}

#[test]
fn texts() {
    assert_eq!("0", decimal_text(0));
    assert_eq!("18446744073709551615", decimal_text(u64::MAX));
    assert_eq!("00ff", hexadecimal_text(255, 4));
    assert_eq!("0000abcd", Id(0xabcd).text());
    assert_eq!("17", StreamId::new(17).text());
    assert_eq!("  7", stream::Id::new(7).text());
    assert_eq!(" 42", stream::Id::new(42).text());
    assert_eq!("1234", stream::Id::new(1234).text());
    let mut c = default_server();
    assert_eq!("(Connection 0000abcd Server (streams 0))", c.text());
    let id = open(&mut c);
    assert_eq!("(Connection 0000abcd Server (streams 1))", c.text());
    assert_eq!("(Stream 0000abcd/2)", c.stream_mut(id).unwrap().text());
    assert_eq!(
        "(Header 1 3 (len 9) (flags 5))",
        frame(UPDATE, SYN | FIN, 3, 9, b"").header().text()
    );
    assert_eq!("unknown version: 3", HeaderDecodeError::Version(3).message());
    assert_eq!("unknown frame type: 14", HeaderDecodeError::Type(14).message());
    assert_eq!(
        "frame body is too large (17)",
        FrameDecodeError::FrameTooLarge(17).message()
    );
    assert_eq!(
        "decode error: decode error: unknown version: 3",
        ConnectionError::Decode(FrameDecodeError::Header(HeaderDecodeError::Version(3))).message()
    );
    assert_eq!(
        "i/o error: connection reset",
        ConnectionError::Io(IoErrorKind::ConnectionReset).message()
    );
    assert_eq!(
        "i/o error: unexpected end of file",
        FrameDecodeError::Io(IoErrorKind::UnexpectedEof).message()
    );
    assert_eq!(
        "number of stream ids has been exhausted",
        ConnectionError::NoMoreStreamIds.message()
    );
    assert_eq!("connection is closed", ConnectionError::Closed.message());
    assert_eq!(
        "maximum number of streams reached",
        ConnectionError::TooManyStreams.message()
    );
}
