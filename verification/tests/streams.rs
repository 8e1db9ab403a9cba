//! Single streams, and what they are made of.

use bytes::{Bytes, BytesMut};
use futures::stream;
use futures::task::{noop_waker, noop_waker_ref};
use futures::StreamExt;
use std::sync::atomic::{AtomicUsize, Ordering};
use std::sync::Arc;
use std::task::{Context, Wake, Waker};
use yamux::chunks::Chunks;
use yamux::connection::command::{Outbox, StreamCommand};
use yamux::connection::stream::{Flag, Shared, State, Stream};
use yamux::connection::{substream, Id};
use yamux::error::IoErrorKind;
use yamux::frame::header::{Flags, StreamId, Tag, ACK, SYN};
use yamux::frame::io::{Io, Next, Read};
use yamux::notify::hash::Stateless;
use yamux::notify::Notifier;
use yamux::pause::Pausable;
use yamux::stream as items;
use yamux::{Config, Poll, WindowUpdateMode, DEFAULT_CREDIT};

struct Counter(AtomicUsize);

impl Wake for Counter {
    fn wake(self: Arc<Self>) {
        self.0.fetch_add(1, Ordering::Relaxed);
    }
}

fn config(mode: WindowUpdateMode) -> Config {
    let mut c = Config::default();
    c.set_window_update_mode(mode);
    c
}

fn new_stream(c: Config) -> Stream {
    Stream::new(StreamId::new(1), Id(9), c, DEFAULT_CREDIT, DEFAULT_CREDIT)
}

/// The flags, the length field and the body of a data frame or window update that is to be sent.
fn frame_of(cmd: &StreamCommand) -> (u8, u16, u32, Vec<u8>) {
    match cmd {
        StreamCommand::SendFrame(f) => {
            let b = f.buffer();
            let n = f.header().len().val();
            (b[1], f.header().flags().val(), n, b[12..].to_vec())
        }
        other => panic!("{:?}", other),
    }
}

#[test]
fn chunks_are_read_in_order() {
    let mut c = Chunks::new();
    assert_eq!(Some(0), c.len());
    c.push(Bytes::from_static(b"abc"));
    c.push(Bytes::new());
    c.push(Bytes::from_static(b"de"));
    c.push(Bytes::from_static(b"f"));
    assert_eq!(Some(6), c.len());
    let mut buf = [b'.'; 4];
    assert_eq!(4, c.read(&mut buf));
    assert_eq!(b"abcd", &buf);
    assert_eq!(Some(2), c.len());
    c.front_mut().unwrap().truncate(0);
    let mut buf = [b'.'; 4];
    assert_eq!(1, c.read(&mut buf));
    assert_eq!(b"f...", &buf);
    assert_eq!(0, c.read(&mut buf));
    assert_eq!(None, c.pop());
}

#[test]
fn chunk_stays_when_its_last_octet_is_read() {
    let mut c = Chunks::new();
    c.push(Bytes::from_static(b"abc"));
    c.push(Bytes::from_static(b"de"));
    let mut buf = [0; 3];
    assert_eq!(3, c.read(&mut buf));
    assert_eq!(Some(Bytes::new()), c.pop());
    assert_eq!(Some(Bytes::from_static(b"de")), c.pop());
    // Nothing is read into no room.
    c.push(Bytes::from_static(b"x"));
    assert_eq!(0, c.read(&mut []));
    assert_eq!(Some(1), c.len());
}

#[test]
fn state_table() {
    let table = [
        (State::Open, State::Open, State::Open),
        (State::Open, State::SendClosed, State::SendClosed),
        (State::Open, State::RecvClosed, State::RecvClosed),
        (State::Open, State::Closed, State::Closed),
        (State::SendClosed, State::Open, State::SendClosed),
        (State::SendClosed, State::SendClosed, State::SendClosed),
        (State::SendClosed, State::RecvClosed, State::Closed),
        (State::SendClosed, State::Closed, State::Closed),
        (State::RecvClosed, State::Open, State::RecvClosed),
        (State::RecvClosed, State::SendClosed, State::Closed),
        (State::RecvClosed, State::RecvClosed, State::RecvClosed),
        (State::RecvClosed, State::Closed, State::Closed),
        (State::Closed, State::Open, State::Closed),
        (State::Closed, State::SendClosed, State::Closed),
        (State::Closed, State::RecvClosed, State::Closed),
        (State::Closed, State::Closed, State::Closed),
    ];
    for (current, next, after) in table {
        let mut s = Shared::new(0, 0);
        s.update_state(current);
        assert_eq!(current, s.update_state(next));
        assert_eq!(after, s.state());
    }
    assert!(State::Open.can_read() && State::Open.can_write());
    assert!(State::SendClosed.can_read() && !State::SendClosed.can_write());
    assert!(!State::RecvClosed.can_read() && State::RecvClosed.can_write());
    assert!(!State::Closed.can_read() && !State::Closed.can_write());
}

#[test]
fn window_update_is_due_when_half_is_consumed() {
    let half = DEFAULT_CREDIT / 2;
    let c = config(WindowUpdateMode::OnReceive);
    let mut s = Shared::new(DEFAULT_CREDIT, 0);
    s.receive(Bytes::from(vec![0; half as usize - 1]));
    assert_eq!(None, s.next_window_update(&c));
    s.receive(Bytes::from_static(&[0]));
    assert_eq!(Some(half), s.next_window_update(&c));
    // On read, what is buffered does not count.
    assert_eq!(None, s.next_window_update(&config(WindowUpdateMode::OnRead)));
    s.update_state(State::RecvClosed);
    assert_eq!(None, s.next_window_update(&c));
    assert!(s.is_full(half as usize));
    assert!(!s.is_full(half as usize + 1));
}

#[test]
fn first_frame_has_the_flag() {
    let mut s = new_stream(Config::default());
    s.set_flag(Flag::Syn);
    let mut out = Outbox::new(false, 2);
    assert_eq!(Poll::Ready(Ok(2)), s.poll_write(&mut out, noop_waker(), b"hi"));
    assert_eq!(Poll::Ready(Ok(1)), s.poll_write(&mut out, noop_waker(), b"!"));
    assert_eq!(Poll::Pending, s.poll_write(&mut out, noop_waker(), b"?"));
    let c = out.into_commands();
    assert_eq!((0, SYN, 2, b"hi".to_vec()), frame_of(&c[0]));
    assert_eq!((0, 0, 1, b"!".to_vec()), frame_of(&c[1]));
}

#[test]
fn writing_is_limited() {
    let mut c = Config::default();
    c.set_split_send_size(3);
    let mut s = Stream::new(StreamId::new(1), Id(9), c, 0, 5);
    let mut out = Outbox::new(false, 9);
    assert_eq!(Poll::Ready(Ok(3)), s.poll_write(&mut out, noop_waker(), b"abcdef"));
    assert_eq!(Poll::Ready(Ok(2)), s.poll_write(&mut out, noop_waker(), b"def"));
    assert_eq!(0, s.shared().credit());
    assert_eq!(Poll::Pending, s.poll_write(&mut out, noop_waker(), b"f"));
    assert!(s.shared_mut().wake_writer().writer.is_some());
    s.shared_mut().add_credit(1);
    assert_eq!(Poll::Ready(Ok(1)), s.poll_write(&mut out, noop_waker(), b"f"));
    let mut closed = Outbox::new(true, 9);
    assert_eq!(
        Poll::Ready(Err(IoErrorKind::WriteZero)),
        s.poll_write(&mut closed, noop_waker(), b"g")
    );
    assert_eq!(Poll::Ready(Ok(())), s.poll_flush());
    assert_eq!(Poll::Ready(Ok(())), s.poll_close(&mut out));
    assert_eq!(
        Poll::Ready(Err(IoErrorKind::WriteZero)),
        s.poll_write(&mut out, noop_waker(), b"g")
    );
}

#[test]
fn closing_a_stream() {
    let mut s = new_stream(Config::default());
    s.set_flag(Flag::Ack);
    assert_eq!(Poll::Pending, s.poll_close(&mut Outbox::new(false, 0)));
    assert_eq!(
        Poll::Ready(Err(IoErrorKind::WriteZero)),
        s.poll_close(&mut Outbox::new(true, 1))
    );
    let mut out = Outbox::new(false, 1);
    assert_eq!(Poll::Ready(Ok(())), s.poll_close(&mut out));
    assert!(matches!(
        out.into_commands()[..],
        [StreamCommand::CloseStream { id: StreamId(1), ack: true }]
    ));
    assert_eq!(State::SendClosed, s.state());
    s.shared_mut().update_state(State::Closed);
    assert_eq!(Poll::Ready(Ok(())), s.poll_close(&mut Outbox::new(true, 0)));
    assert_eq!(2, s.strong_count());
    s.release();
    assert_eq!(1, s.strong_count());
}

#[test]
fn reading_grants_credit() {
    let mut s = new_stream(config(WindowUpdateMode::OnRead));
    s.set_flag(Flag::Ack);
    s.shared_mut().receive(Bytes::from(vec![7; DEFAULT_CREDIT as usize]));
    assert_eq!(0, s.shared().window());
    let mut out = Outbox::new(false, 4);
    let mut buf = vec![0; DEFAULT_CREDIT as usize + 1];
    assert_eq!(
        Poll::Ready(Ok(DEFAULT_CREDIT as usize)),
        s.poll_read(&mut out, noop_waker(), &mut buf)
    );
    assert!(buf[..DEFAULT_CREDIT as usize].iter().all(|b| *b == 7));
    assert_eq!(Poll::Pending, s.poll_read(&mut out, noop_waker(), &mut buf));
    assert_eq!(DEFAULT_CREDIT, s.shared().window());
    let c = out.into_commands();
    assert_eq!(1, c.len());
    assert_eq!((1, ACK, DEFAULT_CREDIT, vec![]), frame_of(&c[0]));
    assert!(s.shared_mut().wake().reader.is_some());
}

#[test]
fn window_update_waits_for_room() {
    let mut s = new_stream(config(WindowUpdateMode::OnRead));
    s.shared_mut().receive(Bytes::from(vec![7; DEFAULT_CREDIT as usize]));
    let mut full = Outbox::new(false, 0);
    assert!(matches!(
        s.poll_next(&mut full, noop_waker()),
        Poll::Ready(Some(Ok(p))) if p.as_ref().len() == DEFAULT_CREDIT as usize
    ));
    // The window update cannot be sent, and has to be sent before anything else.
    assert_eq!(Poll::Pending, s.poll_next(&mut full, noop_waker()));
    s.shared_mut().receive(Bytes::from_static(b"x"));
    assert_eq!(Poll::Pending, s.poll_next(&mut full, noop_waker()));
    let mut closed = Outbox::new(true, 0);
    assert_eq!(
        Poll::Ready(Some(Err(IoErrorKind::WriteZero))),
        s.poll_next(&mut closed, noop_waker())
    );
    let mut out = Outbox::new(false, 1);
    assert!(matches!(
        s.poll_next(&mut out, noop_waker()),
        Poll::Ready(Some(Ok(p))) if p.as_ref() == b"x"
    ));
    assert_eq!(
        (1, 0, DEFAULT_CREDIT, vec![]),
        frame_of(&out.into_commands()[0])
    );
}

#[test]
fn reading_after_the_end() {
    let mut c = Config::default();
    let mut s = new_stream(c);
    s.shared_mut().receive(Bytes::from_static(b"abc"));
    s.shared_mut().update_state(State::Closed);
    let mut closed = Outbox::new(true, 0);
    let mut buf = [0; 2];
    assert_eq!(Poll::Ready(Ok(2)), s.poll_read(&mut closed, noop_waker(), &mut buf));
    assert_eq!(Poll::Ready(Ok(1)), s.poll_read(&mut closed, noop_waker(), &mut buf));
    assert_eq!(b"cb", &buf);
    assert_eq!(Poll::Ready(Ok(0)), s.poll_read(&mut closed, noop_waker(), &mut buf));
    assert_eq!(Poll::Ready(None), s.poll_next(&mut closed, noop_waker()));
    // Unless this is not wanted.
    c.set_read_after_close(false);
    let mut s = new_stream(c);
    s.shared_mut().receive(Bytes::from_static(b"abc"));
    assert_eq!(Poll::Ready(Ok(0)), s.poll_read(&mut closed, noop_waker(), &mut buf));
    assert_eq!(Poll::Ready(None), s.poll_next(&mut closed, noop_waker()));
}

#[test]
fn stream_is_acknowledged_on_first_use() {
    // The inbound stream on the server: we only have the ACK flag in the first frame.
    let mut s = substream::Stream::new_inbound(
        StreamId::new(1),
        Id(9),
        Config::default(),
        DEFAULT_CREDIT,
    );
    let mut out = Outbox::new(false, 9);
    assert!(
        s.is_pending_ack(),
        "before sending anything we should not have acknowledged the stream to the remote"
    );
    assert_eq!(Poll::Ready(Ok(4)), s.poll_write(&mut out, noop_waker(), b"pong"));
    assert!(
        !s.is_pending_ack(),
        "we should have sent an ACK flag with the first payload"
    );
    assert_eq!(Poll::Ready(Ok(1)), s.poll_write(&mut out, noop_waker(), b"!"));
    let c = out.into_commands();
    assert_eq!((0, ACK, 4, b"pong".to_vec()), frame_of(&c[0]));
    assert_eq!((0, 0, 1, b"!".to_vec()), frame_of(&c[1]));
    let pong = wire(&c[0]);

    // The outbound stream on the client: it is acknowledged by the remote.
    let mut s = substream::Stream::new_outbound(StreamId::new(1), Id(9), Config::default());
    let mut out = Outbox::new(false, 9);
    assert!(
        s.is_pending_ack(),
        "newly returned stream should not be acknowledged"
    );
    assert_eq!(Poll::Ready(Ok(4)), s.poll_write(&mut out, noop_waker(), b"ping"));
    assert!(s.is_pending_ack());
    assert_eq!((0, SYN, 4, b"ping".to_vec()), frame_of(&out.into_commands()[0]));
    receive(&mut s, &pong);
    let mut buffer = [0u8; 4];
    let mut out = Outbox::new(false, 9);
    assert_eq!(Poll::Ready(Ok(4)), s.poll_read(&mut out, noop_waker(), &mut buffer));
    assert!(
        !s.is_pending_ack(),
        "stream should be acknowledged once we received the first data"
    );
    assert_eq!(&buffer, b"pong");
}

/// The octets of a frame that is to be sent.
fn wire(cmd: &StreamCommand) -> Vec<u8> {
    match cmd {
        StreamCommand::SendFrame(f) => f.buffer().to_vec(),
        other => panic!("{:?}", other),
    }
}

/// Take in a frame as it comes from the wire.
fn receive(s: &mut substream::Stream, octets: &[u8]) {
    let mut io = Io::new(1024 * 1024);
    let mut rest = octets;
    let mut next = io.poll_next(Read::Nothing);
    while let Next::Read(n) = next {
        let (now, later) = rest.split_at(n);
        rest = later;
        next = io.poll_next(Read::Octets(now));
    }
    match next {
        Next::Frame(f) => {
            s.shared_mut().on_flags(f.header().flags());
            if f.header().tag() == Tag::Data {
                s.shared_mut().receive(Bytes::from(f.buffer().to_vec()).slice(12..))
            } else {
                s.shared_mut().increase_send_window_by(f.header().len().val())
            }
        }
        _ => panic!("a frame is expected"),
    }
}

#[test]
fn window_update_acknowledges() {
    // The server reads before it writes anything: the window update has the ACK flag.
    let id = StreamId::new(1);
    let mut s = substream::Stream::new_inbound(id, Id(9), Config::default(), DEFAULT_CREDIT);
    s.shared_mut().receive(Bytes::from(vec![1; DEFAULT_CREDIT as usize]));
    let mut buf = vec![0; DEFAULT_CREDIT as usize];
    let mut out = Outbox::new(false, 9);
    assert_eq!(
        Poll::Ready(Ok(DEFAULT_CREDIT as usize)),
        s.poll_read(&mut out, noop_waker(), &mut buf)
    );
    assert!(s.is_pending_ack());
    assert_eq!(Poll::Pending, s.poll_read(&mut out, noop_waker(), &mut buf));
    assert!(!s.is_pending_ack());
    let c = out.into_commands();
    assert_eq!((1, ACK, DEFAULT_CREDIT, vec![]), frame_of(&c[0]));

    // The client takes the window update as an acknowledgement.
    let mut client = substream::Stream::new_outbound(id, Id(9), Config::default());
    assert!(client.is_pending_ack());
    receive(&mut client, &wire(&c[0]));
    assert!(!client.is_pending_ack());

    // A frame without the flag acknowledges nothing, and a closed direction stays closed.
    let mut client = substream::Stream::new_outbound(id, Id(9), Config::default());
    client.shared_mut().on_flags(Flags(SYN));
    assert!(client.is_pending_ack());
    client.shared_mut().update_state(substream::State::SendClosed);
    client.shared_mut().on_flags(Flags(ACK | SYN));
    assert_eq!(substream::State::SendClosed, client.shared_mut().state());
}

#[test]
fn substream_sends_window_updates_early() {
    let mut s = substream::Stream::new_outbound(StreamId::new(1), Id(9), Config::default());
    let half = DEFAULT_CREDIT / 2;
    s.shared_mut().receive(Bytes::from(vec![1; half as usize]));
    s.shared_mut().receive(Bytes::from_static(b"z"));
    let mut buf = vec![0; half as usize];
    let mut full = Outbox::new(false, 0);
    assert_eq!(
        Poll::Ready(Ok(half as usize)),
        s.poll_read(&mut full, noop_waker(), &mut buf)
    );
    // Now half of the window is consumed, but the channel is full: reading goes on nevertheless.
    assert_eq!(Poll::Ready(Ok(1)), s.poll_read(&mut full, noop_waker(), &mut buf));
    assert_eq!(b'z', buf[0]);
    let mut out = Outbox::new(false, 1);
    assert_eq!(Poll::Pending, s.poll_next(&mut out, noop_waker()));
    assert_eq!(
        (1, SYN, half + 1, vec![]),
        frame_of(&out.into_commands()[0])
    );
    assert_eq!(DEFAULT_CREDIT, s.shared_mut().receive_window());
    // If the connection is closed, a window update cannot be sent.
    let mut closed = Outbox::new(true, 1);
    assert_eq!(
        Poll::Ready(Some(Err(IoErrorKind::WriteZero))),
        s.poll_next(&mut closed, noop_waker())
    );
    assert_eq!(
        Poll::Ready(Err(IoErrorKind::WriteZero)),
        s.poll_read(&mut closed, noop_waker(), &mut buf)
    );
}

#[test]
fn substream_closes() {
    let mut s = substream::Stream::new_inbound(StreamId::new(1), Id(9), Config::default(), 2);
    let mut out = Outbox::new(false, 3);
    assert_eq!(Poll::Ready(Ok(())), s.poll_close(&mut out));
    assert!(s.is_write_closed() && !s.is_closed());
    assert!(matches!(
        out.into_commands()[..],
        [StreamCommand::CloseStream { id: StreamId(1), ack: true }]
    ));
    s.shared_mut().receive(Bytes::from_static(b"q"));
    s.shared_mut().update_state(substream::State::RecvClosed);
    assert!(s.is_closed());
    let mut out = Outbox::new(false, 3);
    assert!(matches!(
        s.poll_next(&mut out, noop_waker()),
        Poll::Ready(Some(Ok(p))) if p.as_ref() == b"q"
    ));
    assert_eq!(Poll::Ready(None), s.poll_next(&mut out, noop_waker()));
    assert_eq!(
        Poll::Ready(Err(IoErrorKind::WriteZero)),
        s.poll_write(&mut out, noop_waker(), b"x")
    );
    assert_eq!(Poll::Ready(Ok(())), s.poll_close(&mut Outbox::new(true, 0)));
    assert_eq!(
        Poll::Ready(Err(IoErrorKind::WriteZero)),
        s.poll_flush(Poll::Ready(Err(())))
    );
    assert_eq!(Poll::Pending, s.poll_flush(Poll::Pending));
}

#[test]
fn substream_writing_is_limited() {
    let mut s = substream::Stream::new_inbound(StreamId::new(1), Id(9), Config::default(), 2);
    let mut out = Outbox::new(false, 9);
    assert_eq!(Poll::Ready(Ok(2)), s.poll_write(&mut out, noop_waker(), b"abc"));
    assert_eq!(Poll::Pending, s.poll_write(&mut out, noop_waker(), b"c"));
    s.shared_mut().increase_send_window_by(5);
    assert_eq!(5, s.shared_mut().send_window());
    s.shared_mut().consume_send_window(4);
    assert_eq!(Poll::Ready(Ok(1)), s.poll_write(&mut out, noop_waker(), b"cd"));
}

#[test]
fn stream_of_items() {
    let mut c = config(WindowUpdateMode::OnRead);
    c.set_receive_window(300_000).unwrap();
    let mut repr = items::StreamRepr::new(items::Id::new(6), c, 4);
    assert_eq!(6, repr.id().as_u32());
    assert!(repr.add_data(Bytes::from_static(b"abc")).is_none());
    assert_eq!(Some(3), repr.buflen());
    assert_eq!(1, repr.decrement_window(3));
    assert_eq!(0, repr.decrement_window(3));
    let mut s = items::Stream::new(repr, items::Outgoing::new(false));
    let mut buf = [0; 8];
    assert_eq!(Ok(3), s.read(&mut buf, noop_waker()));
    assert_eq!(b"abc", &buf[..3]);
    assert_eq!(Err(IoErrorKind::WouldBlock), s.read(&mut buf, noop_waker()));
    assert_eq!(Ok(4), s.write(b"hello", noop_waker()));
    assert_eq!(Err(IoErrorKind::WouldBlock), s.write(b"o", noop_waker()));
    assert_eq!(Ok(()), s.flush());
    assert_eq!(Poll::Ready(Ok(())), s.shutdown());
    assert_eq!(items::State::ReadOnly, s.state());
    assert_eq!(Err(IoErrorKind::WriteZero), s.write(b"o", noop_waker()));
    assert_eq!(Ok(()), s.flush());
    let (mut repr, outgoing) = s.into_parts();
    assert_eq!(300_000, repr.window());
    assert!(repr.add_credit(u32::MAX).is_some());
    let w = repr.notify_tasks();
    assert!(w.reader.is_some() && w.writer.is_none());
    let v = outgoing.into_items();
    assert!(matches!(v[0], items::Item::Credit));
    assert!(matches!(&v[1], items::Item::Data(b) if &b[..] == b"hell"));
    assert!(matches!(v[2], items::Item::Flush));
    assert!(matches!(v[3], items::Item::Flush));
    assert!(matches!(v[4], items::Item::HalfClose));
    assert_eq!(5, v.len());
}

#[test]
fn stream_of_items_without_receiver() {
    let new = |mode| {
        let repr = items::StreamRepr::new(items::Id::new(6), config(mode), 4);
        items::Stream::new(repr, items::Outgoing::new(true))
    };
    let mut s = new(WindowUpdateMode::OnRead);
    assert_eq!(Err(IoErrorKind::WriteZero), s.write(b"x", noop_waker()));
    assert_eq!(items::State::ReadOnly, s.state());
    let mut s = new(WindowUpdateMode::OnRead);
    assert_eq!(Err(IoErrorKind::Other), s.flush());
    assert_eq!(items::State::ReadOnly, s.state());
    let (mut repr, out) = new(WindowUpdateMode::OnRead).into_parts();
    repr.set_window(0);
    let mut s = items::Stream::new(repr, out);
    assert_eq!(Ok(0), s.read(&mut [0], noop_waker()));
    assert_eq!(items::State::Closed, s.state());
    // A stream whose connection is gone can be read if this is wanted.
    for wanted in [true, false] {
        let mut c = Config::default();
        c.set_read_after_close(wanted);
        let mut repr = items::StreamRepr::new(items::Id::new(6), c, 4);
        repr.add_data(Bytes::from_static(b"abc"));
        repr.disconnected();
        let mut s = items::Stream::new(repr, items::Outgoing::new(true));
        assert_eq!(
            Ok(if wanted { 3 } else { 0 }),
            s.read(&mut [0; 9], noop_waker())
        );
    }
}

#[test]
fn pause_unpause() {
    // The stream produced by `futures::stream::iter` is always ready.
    let mut stream = Pausable::new(stream::iter(&[1, 2, 3, 4]));
    let mut next = |stream: &mut Pausable<_>| {
        let mut cx = Context::from_waker(noop_waker_ref());
        match stream.poll_next(noop_waker()) {
            Some(s) => match StreamExt::poll_next_unpin(s, &mut cx) {
                std::task::Poll::Ready(x) => Some(x),
                std::task::Poll::Pending => None,
            },
            None => None,
        }
    };
    assert_eq!(Some(Some(&1)), next(&mut stream));
    assert_eq!(Some(Some(&2)), next(&mut stream));
    stream.pause();
    assert!(stream.is_paused());
    assert_eq!(None, next(&mut stream));
    assert!(stream.unpause().is_some());
    assert_eq!(Some(Some(&3)), next(&mut stream));
    assert_eq!(Some(Some(&4)), next(&mut stream));
    assert_eq!(Some(None), next(&mut stream)); // end of stream
    assert!(stream.unpause().is_none());
}

#[test]
fn tasks_are_notified_once() {
    let counter = Arc::new(Counter(AtomicUsize::new(0)));
    let waker = Waker::from(counter.clone());
    let mut n = Notifier::new();
    n.insert_current(1, waker.clone());
    n.insert_current(usize::MAX, waker.clone());
    n.insert_current(1, waker);
    assert_eq!(2, n.len());
    let mut ids: Vec<usize> = Vec::new();
    for (id, w) in n.notify_all() {
        ids.push(id);
        w.wake();
    }
    ids.sort();
    assert_eq!(vec![1, usize::MAX], ids);
    assert_eq!(2, counter.0.load(Ordering::Relaxed));
    assert_eq!(0, n.len());
    assert!(n.notify_all().is_empty());
}

#[test]
fn numbers_are_their_hashes() {
    let mut h: Stateless<usize> = Stateless::default();
    assert_eq!(0, h.finish());
    h.write_usize(42);
    h.write_usize(43);
    assert_eq!(43, h.clone().finish());
}

#[test]
fn item_holds_data() {
    let mut o = items::Outgoing::new(false);
    assert_eq!(Ok(()), o.unbounded_send(items::Item::Data(BytesMut::from(&b"x"[..]))));
    let mut closed = items::Outgoing::new(true);
    assert_eq!(Err(()), closed.unbounded_send(items::Item::Flush));
    assert!(closed.into_items().is_empty());
}

#[test]
fn poll_api_prop_send_recv_half_closed() {
    /// Hand what one end has sent to the other end.
    fn deliver(out: Outbox, to: &mut substream::Stream) {
        for cmd in out.into_commands() {
            match cmd {
                StreamCommand::CloseStream { .. } => {
                    to.shared_mut().update_state(substream::State::RecvClosed);
                }
                cmd => {
                    let (tag, _, n, body) = frame_of(&cmd);
                    if tag == 0 {
                        to.shared_mut().receive(Bytes::from(body))
                    } else {
                        to.shared_mut().increase_send_window_by(n)
                    }
                }
            }
        }
    }
    fn prop(mut msg: Vec<u8>) {
        msg.push(42);
        let msg_len = msg.len();
        let cfg = Config::default();
        let id = StreamId::new(1);
        let mut client = substream::Stream::new_outbound(id, Id(9), cfg);
        let mut server = substream::Stream::new_inbound(id, Id(9), cfg, DEFAULT_CREDIT);

        let mut out = Outbox::new(false, 9);
        assert_eq!(Poll::Ready(Ok(msg_len)), client.poll_write(&mut out, noop_waker(), &msg));
        assert_eq!(Poll::Ready(Ok(())), client.poll_close(&mut out));
        assert!(client.is_write_closed());
        deliver(out, &mut server);

        // Server should be able to write on a stream shutdown by the client.
        let mut out = Outbox::new(false, 9);
        let mut buf = vec![0; msg_len];
        assert_eq!(Poll::Ready(Ok(msg_len)), server.poll_read(&mut out, noop_waker(), &mut buf));
        assert_eq!(Poll::Ready(Ok(msg_len)), server.poll_write(&mut out, noop_waker(), &buf));
        assert_eq!(Poll::Ready(Ok(())), server.poll_close(&mut out));
        deliver(out, &mut client);

        // Client should be able to read after shutting down the stream.
        let mut out = Outbox::new(false, 9);
        let mut buf = vec![0; msg_len];
        assert_eq!(Poll::Ready(Ok(msg_len)), client.poll_read(&mut out, noop_waker(), &mut buf));
        assert_eq!(buf, msg);
        assert_eq!(Poll::Ready(Ok(0)), client.poll_read(&mut out, noop_waker(), &mut buf));
        assert!(client.is_closed());
    }
    quickcheck::QuickCheck::new().tests(7).quickcheck(prop as fn(_) -> _)
}
