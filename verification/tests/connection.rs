//! Two connections that talk to each other in memory.

use futures::task::noop_waker;
use quickcheck::{Arbitrary, Gen, QuickCheck, TestResult};
use std::collections::{HashMap, VecDeque};
use std::rc::Rc;
use std::sync::atomic::{AtomicUsize, Ordering};
use std::sync::Arc;
use std::task::{Wake, Waker};
use yamux::connection::command::{Outbox, StreamCommand};
use yamux::connection::stream::{State, Stream};
use yamux::connection::{
    Connection, ControlAction, ControlCommand, Event, Id, Mode, Sources, Step,
};
use yamux::error::{ConnectionError, IoErrorKind};
use yamux::frame::header::StreamId;
use yamux::frame::io::{Io, Next, Read, Ready, Write};
use yamux::frame::Frame;
use yamux::harness::{
    self, EchoEvent, EchoServer, EchoStep, MessageSender, OpenEvent, OpenStep, OpenStreamsClient,
    SenderEvent, SenderStep,
};
use yamux::task::Wakers;
use yamux::{Config, Poll, WindowUpdateMode, DEFAULT_CREDIT};

/// How many commands of streams can wait to be processed.
const MAX_COMMAND_BACKLOG: usize = 32;

/// Counts how often it is woken up.
struct Counter(AtomicUsize);

impl Wake for Counter {
    fn wake(self: Arc<Self>) {
        self.0.fetch_add(1, Ordering::Relaxed);
    }
}

/// A message to send on a stream, never empty.
#[derive(Clone, Debug)]
struct Msg(Vec<u8>);

impl Arbitrary for Msg {
    fn arbitrary(g: &mut Gen) -> Msg {
        Msg(harness::Msg::of(Arbitrary::arbitrary(g), Arbitrary::arbitrary(g)).0)
    }

    fn shrink(&self) -> Box<dyn Iterator<Item = Self>> {
        Box::new(self.0.shrink().filter(|v| !v.is_empty()).map(Msg))
    }
}

#[derive(Clone, Debug)]
struct TestConfig(Config);

impl Arbitrary for TestConfig {
    fn arbitrary(g: &mut Gen) -> Self {
        TestConfig(
            harness::TestConfig::of(bool::arbitrary(g), bool::arbitrary(g), u32::arbitrary(g)).0,
        )
    }
}

/// The size of the buffers of a socket, as far as it matters here: how much is moved at once.
#[derive(Clone, Copy, Debug)]
struct Buffers(harness::TcpBufferSizes);

impl Arbitrary for Buffers {
    fn arbitrary(g: &mut Gen) -> Self {
        Buffers(harness::TcpBufferSizes::of(
            bool::arbitrary(g),
            bool::arbitrary(g),
        ))
    }
}

/// One end of a connection.
struct Peer {
    conn: Connection<&'static str>,
    io: Io,
    commands: VecDeque<StreamCommand>,
    /// No more commands are accepted from streams.
    draining: bool,
    accepted: VecDeque<StreamId>,
    /// Frames that wait for the write of another frame to be done.
    unsent: VecDeque<Frame<()>>,
    /// The channel to the other end.
    outbound: VecDeque<u8>,
    /// How many octets fit into the channel.
    capacity: usize,
    /// How often a command had to wait because a write was pending.
    blocked: usize,
    /// Streams that live on without their connection.
    orphans: HashMap<u32, Stream>,
    /// What the connection has come to.
    ended: Option<Result<Option<StreamId>, ConnectionError>>,
    confirmed: Option<&'static str>,
}

impl Peer {
    fn new(config: Config, mode: Mode) -> Peer {
        Peer {
            conn: Connection::new(config, mode),
            io: Io::new(1024 * 1024),
            commands: VecDeque::new(),
            draining: false,
            accepted: VecDeque::new(),
            unsent: VecDeque::new(),
            outbound: VecDeque::new(),
            capacity: usize::MAX,
            blocked: 0,
            orphans: HashMap::new(),
            ended: None,
            confirmed: None,
        }
    }

    fn send(&mut self, frame: Frame<()>) {
        self.unsent.push_back(frame);
        self.flush();
    }

    /// Write what fits into the channel, and tell if another frame can be sent.
    fn flush(&mut self) -> Poll<Result<(), ()>> {
        let mut write = Write::Nothing;
        loop {
            match self.io.poll_ready(write) {
                Ready::Ready => match self.unsent.pop_front() {
                    Some(f) => self.io.start_send(&f),
                    None => return Poll::Ready(Ok(())),
                },
                Ready::Write => {}
                Ready::Error(e) => panic!("{:?}", e),
            }
            let n = self.io.pending().len().min(self.capacity - self.outbound.len());
            if n == 0 {
                return Poll::Pending;
            }
            self.outbound.extend(&self.io.pending()[..n]);
            write = Write::Wrote(n);
        }
    }

    fn end(&mut self, e: ConnectionError) {
        let (result, dropped) = self.conn.next_stream(Err(e));
        for d in dropped {
            wake(d.wakers);
            self.orphans.insert(d.stream.id().val(), d.stream);
        }
        self.ended = Some(result);
        self.draining = true;
        self.commands.clear();
    }

    /// Ask for a new stream.
    fn open(&mut self) -> Result<StreamId, ConnectionError> {
        if self.ended.is_some() {
            return Err(ConnectionError::Closed);
        }
        let event = Event::Control(Some(ControlCommand::OpenStream("open")));
        match self.conn.next(event)? {
            Step::Control(ControlAction::Open("open", stream, frame)) => {
                let id = stream.id();
                if let Some(f) = frame {
                    self.send(f.into_generic_frame())
                }
                assert!(self.conn.on_open_reply(stream, true).is_none());
                Ok(id)
            }
            Step::Control(ControlAction::Refuse("open", e)) => Err(e),
            other => panic!("{:?}", other),
        }
    }

    /// Ask to close the connection.
    fn shutdown(&mut self) {
        let event: Event<(), _> = Event::Control(Some(ControlCommand::CloseConnection("close")));
        match self.conn.next(event).unwrap() {
            Step::Control(ControlAction::Drain) => self.draining = true,
            other => panic!("{:?}", other),
        }
    }

    /// Send what streams have asked for, as long as no write is pending.
    fn drive(&mut self) {
        while self.ended.is_none() {
            for c in self.conn.garbage_collect() {
                wake(c.wakers);
                if let Some(f) = c.frame {
                    self.send(f.into_generic_frame())
                }
            }
            let ready = self.flush();
            match Connection::<&'static str>::io_event::<()>(ready, Poll::Pending) {
                Poll::Ready(None) => {}
                Poll::Pending => {
                    // Only incoming frames are waited for.
                    self.blocked += 1;
                    return;
                }
                other => panic!("{:?}", other),
            }
            let sources = Sources {
                stream: true,
                control: true,
                socket: true,
            };
            let ready: Event<(), _> = Event::OutboundReady(sources);
            assert!(matches!(self.conn.next(ready), Ok(Step::Wait(s)) if s == sources));
            let cmd = match self.commands.pop_front() {
                Some(cmd) => Poll::Ready(Some(cmd)),
                None if self.draining && self.conn.shutdown().is_in_progress() => Poll::Ready(None),
                None => Poll::Pending,
            };
            let event = match Connection::select::<()>(cmd, Poll::Pending, Poll::Pending) {
                Poll::Ready(event) => event,
                Poll::Pending => return,
            };
            match self.conn.next(event).unwrap() {
                Step::Send(f) => self.send(f),
                Step::Term(f) => {
                    self.send(f);
                    self.confirmed = self.conn.on_term_sent();
                    let event: Event<(), _> = Event::Control(None);
                    match self.conn.next(event).unwrap() {
                        Step::Control(ControlAction::Close) => self.end(ConnectionError::Closed),
                        other => panic!("{:?}", other),
                    }
                }
                other => panic!("{:?}", other),
            }
        }
        self.flush();
    }

    /// Take in what the other end has sent.
    fn receive(&mut self, bytes: &[u8]) {
        let mut rest = bytes;
        let mut next = self.io.poll_next(Read::Nothing);
        loop {
            next = match next {
                Next::Read(n) => {
                    if rest.is_empty() {
                        return;
                    }
                    let k = n.min(rest.len());
                    let (now, later) = rest.split_at(k);
                    rest = later;
                    self.io.poll_next(Read::Octets(now))
                }
                Next::Frame(f) => {
                    self.on_frame(f);
                    self.io.poll_next(Read::Nothing)
                }
                Next::Error(e) => return self.end(ConnectionError::from(e)),
                Next::End => return,
            }
        }
    }

    fn on_frame(&mut self, f: Frame<()>) {
        if self.ended.is_some() {
            return;
        }
        assert!(!self.conn.credit_overflows(&f));
        let event: Event<(), _> = Event::Inbound(Ok(Some(f)));
        match self.conn.next(event) {
            Ok(Step::Frame(reply)) => {
                wake(reply.wakers);
                if let Some(f) = reply.frame {
                    self.send(f)
                }
                if let Some(id) = reply.stream {
                    self.accepted.push_back(id)
                }
            }
            Ok(other) => panic!("{:?}", other),
            Err(e) => self.end(e),
        }
    }

    fn with_stream<T>(&mut self, id: StreamId, f: impl FnOnce(&mut Stream, &mut Outbox) -> T) -> T {
        let room = MAX_COMMAND_BACKLOG.saturating_sub(self.commands.len());
        let mut out = Outbox::new(self.draining, room);
        let r = match self.conn.stream_mut(id) {
            Some(s) => f(s, &mut out),
            None => f(self.orphans.get_mut(&id.val()).unwrap(), &mut out),
        };
        self.commands.extend(out.into_commands());
        r
    }

    fn read(&mut self, id: StreamId, buf: &mut [u8]) -> Poll<Result<usize, IoErrorKind>> {
        self.with_stream(id, |s, out| s.poll_read(out, noop_waker(), buf))
    }

    fn write(&mut self, id: StreamId, buf: &[u8]) -> Poll<Result<usize, IoErrorKind>> {
        self.with_stream(id, |s, out| s.poll_write(out, noop_waker(), buf))
    }

    /// Close our direction of a stream, unless too many commands are waiting.
    fn try_close(&mut self, id: StreamId) -> bool {
        match self.with_stream(id, |s, out| s.poll_close(out)) {
            Poll::Ready(Ok(())) => true,
            Poll::Pending => false,
            other => panic!("{:?}", other),
        }
    }

    fn close(&mut self, id: StreamId) {
        assert!(self.try_close(id))
    }

    fn state(&mut self, id: StreamId) -> State {
        self.with_stream(id, |s, _| s.state())
    }

    fn release(&mut self, id: StreamId) {
        self.with_stream(id, |s, _| s.release())
    }
}

/// Wake up whoever waits.
fn wake(w: Wakers) {
    if let Some(w) = w.reader {
        w.wake()
    }
    if let Some(w) = w.writer {
        w.wake()
    }
}

/// Let one end read what is in the channel from the other.
fn transfer(from: &mut Peer, to: &mut Peer) -> bool {
    let bytes: Vec<u8> = from.outbound.drain(..).collect();
    to.receive(&bytes);
    from.flush();
    !bytes.is_empty()
}

/// Echoes back what comes in on each stream, and closes the stream in the end.
#[derive(Default)]
struct Echo {
    streams: Vec<(StreamId, VecDeque<u8>, bool)>,
    processed: usize,
}

impl Echo {
    fn run(&mut self, peer: &mut Peer) -> bool {
        let mut progress = false;
        while let Some(id) = peer.accepted.pop_front() {
            self.streams.push((id, VecDeque::new(), false))
        }
        let mut i = 0;
        while i < self.streams.len() {
            let (id, pending, eof) = &mut self.streams[i];
            if !*eof && pending.is_empty() {
                let mut buf = vec![0; 8192];
                match peer.read(*id, &mut buf) {
                    Poll::Ready(Ok(0)) => {
                        *eof = true;
                        progress = true
                    }
                    Poll::Ready(Ok(n)) => {
                        pending.extend(&buf[..n]);
                        progress = true
                    }
                    Poll::Ready(Err(_)) => *eof = true,
                    Poll::Pending => {}
                }
            }
            while !pending.is_empty() {
                let data: Vec<u8> = pending.iter().copied().collect();
                match peer.write(*id, &data) {
                    Poll::Ready(Ok(n)) => {
                        pending.drain(..n);
                        progress = true
                    }
                    _ => break,
                }
            }
            if *eof && pending.is_empty() && peer.try_close(*id) {
                let id = *id;
                peer.release(id);
                self.streams.remove(i);
                self.processed += 1;
                progress = true;
            } else {
                i += 1
            }
        }
        progress
    }
}

/// What a client does with one stream: send a message, possibly close the stream, and receive as much
/// as was sent.
struct Job {
    id: StreamId,
    msg: Rc<Vec<u8>>,
    sent: usize,
    received: Vec<u8>,
    close: bool,
    closed: bool,
}

impl Job {
    fn new(id: StreamId, msg: Rc<Vec<u8>>, close: bool) -> Job {
        Job {
            id,
            msg,
            sent: 0,
            received: Vec::new(),
            close,
            closed: false,
        }
    }

    fn done(&self) -> bool {
        self.received.len() == self.msg.len()
            && self.sent == self.msg.len()
            && self.closed == self.close
    }

    fn run(&mut self, peer: &mut Peer) -> bool {
        let mut progress = false;
        while self.sent < self.msg.len() {
            match peer.write(self.id, &self.msg[self.sent..]) {
                Poll::Ready(Ok(n)) => {
                    self.sent += n;
                    progress = true
                }
                Poll::Ready(Err(e)) => panic!("{:?}", e),
                Poll::Pending => break,
            }
        }
        if self.close
            && !self.closed
            && self.sent == self.msg.len()
            && peer.try_close(self.id)
        {
            self.closed = true;
            progress = true
        }
        while self.received.len() < self.msg.len() {
            let mut buf = [0; 8192];
            let k = buf.len().min(self.msg.len() - self.received.len());
            match peer.read(self.id, &mut buf[..k]) {
                Poll::Ready(Ok(n)) => {
                    assert!(n > 0);
                    self.received.extend(&buf[..n]);
                    progress = true
                }
                Poll::Ready(Err(e)) => panic!("{:?}", e),
                Poll::Pending => break,
            }
        }
        progress
    }
}

struct Pair {
    server: Peer,
    client: Peer,
    echo: Echo,
    /// How often the ends write and read before their streams are looked at again.
    rounds: usize,
}

impl Pair {
    fn new(server: Config, client: Config) -> Pair {
        Pair {
            server: Peer::new(server, Mode::Server),
            client: Peer::new(client, Mode::Client),
            echo: Echo::default(),
            rounds: 1,
        }
    }

    /// The channels between the two ends have room for so many octets.
    fn bounded(server: Config, client: Config, capacity: usize) -> Pair {
        let mut pair = Pair::new(server, client);
        pair.server.capacity = capacity;
        pair.client.capacity = capacity;
        pair
    }

    fn step(&mut self) -> bool {
        let mut progress = self.echo.run(&mut self.server);
        for _ in 0..self.rounds {
            self.client.drive();
            self.server.drive();
            let a = transfer(&mut self.client, &mut self.server);
            let b = transfer(&mut self.server, &mut self.client);
            if !a && !b {
                break;
            }
            progress = true;
        }
        progress
    }

    fn run(&mut self, jobs: &mut [Job]) {
        loop {
            let mut progress = false;
            for j in jobs.iter_mut() {
                progress |= j.run(&mut self.client)
            }
            progress |= self.step();
            if jobs.iter().all(Job::done) {
                return;
            }
            assert!(progress, "deadlock")
        }
    }

    fn settle(&mut self) {
        while self.step() {}
    }

    /// Send each message on the same stream, one after the other.
    fn send_on_single_stream(&mut self, msgs: &[Msg]) {
        let id = self.client.open().unwrap();
        for m in msgs {
            let mut jobs = [Job::new(id, Rc::new(m.0.clone()), false)];
            self.run(&mut jobs);
            assert_eq!(m.0, jobs[0].received);
        }
        self.client.close(id);
        self.client.release(id);
        self.settle();
    }

    /// Send each message on a stream of its own, one after the other.
    fn send_on_separate_streams(&mut self, msgs: &[Msg]) {
        for m in msgs {
            let id = self.client.open().unwrap();
            let mut jobs = [Job::new(id, Rc::new(m.0.clone()), true)];
            self.run(&mut jobs);
            assert_eq!(m.0, jobs[0].received);
            self.settle();
            assert_eq!(
                Poll::Ready(Ok(0)),
                self.client.read(id, &mut [0])
            );
            self.client.release(id);
            self.settle();
        }
    }

    fn shutdown(&mut self) {
        self.client.shutdown();
        self.settle();
        assert_eq!(Some("close"), self.client.confirmed);
        assert_eq!(Some(Ok(None)), self.client.ended);
        assert_eq!(Some(Ok(None)), self.server.ended);
    }
}

#[test]
fn tests_prop_config_send_recv_single() {
    fn prop(mut msgs: Vec<Msg>, cfg1: TestConfig, cfg2: TestConfig) {
        msgs.insert(0, Msg(vec![1u8; DEFAULT_CREDIT as usize]));
        let mut pair = Pair::new(cfg1.0, cfg2.0);
        pair.send_on_single_stream(&msgs);
        assert_eq!(1, pair.echo.processed);
        pair.shutdown();
    }
    QuickCheck::new()
        .tests(10)
        .quickcheck(prop as fn(_, _, _) -> _)
}

#[test]
fn tests_prop_config_send_recv_multi() {
    fn prop(mut msgs: Vec<Msg>, cfg1: TestConfig, cfg2: TestConfig) {
        msgs.insert(0, Msg(vec![1u8; DEFAULT_CREDIT as usize]));
        let mut pair = Pair::new(cfg1.0, cfg2.0);
        pair.send_on_separate_streams(&msgs);
        assert_eq!(msgs.len(), pair.echo.processed);
        pair.shutdown();
    }
    QuickCheck::new()
        .tests(10)
        .quickcheck(prop as fn(_, _, _) -> _)
}

#[test]
fn tests_prop_send_recv() {
    fn prop(msgs: Vec<Msg>) -> TestResult {
        if msgs.is_empty() {
            return TestResult::discard();
        }
        let mut pair = Pair::new(Config::default(), Config::default());
        pair.send_on_separate_streams(&msgs);
        pair.shutdown();
        TestResult::from_bool(pair.echo.processed == msgs.len())
    }
    QuickCheck::new().tests(1).quickcheck(prop as fn(_) -> _)
}

#[test]
fn tests_prop_max_streams() {
    fn prop(n: usize) -> bool {
        let max_streams = n % 100;
        let mut cfg = Config::default();
        cfg.set_max_num_streams(max_streams);
        let mut pair = Pair::new(cfg, cfg);
        let mut v = Vec::new();
        for _ in 0..max_streams {
            v.push(pair.client.open().expect("open_stream"))
        }
        assert_eq!(max_streams, pair.client.conn.num_streams());
        matches!(pair.client.open(), Err(ConnectionError::TooManyStreams))
    }
    QuickCheck::new().tests(7).quickcheck(prop as fn(_) -> _)
}

#[test]
fn tests_prop_send_recv_half_closed() {
    fn prop(msg: Msg) {
        let msg_len = msg.0.len();
        let mut server = Peer::new(Config::default(), Mode::Server);
        let mut client = Peer::new(Config::default(), Mode::Client);

        // Client should be able to read after shutting down the stream.
        let c = client.open().expect("C: open_stream");
        assert_eq!(Poll::Ready(Ok(msg_len)), client.write(c, &msg.0));
        client.close(c);
        assert_eq!(State::SendClosed, client.state(c));
        client.drive();
        transfer(&mut client, &mut server);

        // Server should be able to write on a stream shutdown by the client.
        let s = server.accepted.pop_front().expect("S: some stream");
        assert_eq!(State::RecvClosed, server.state(s));
        let mut buf = vec![0; msg_len];
        assert_eq!(Poll::Ready(Ok(msg_len)), server.read(s, &mut buf));
        assert_eq!(Poll::Ready(Ok(msg_len)), server.write(s, &buf));
        server.close(s);
        server.drive();
        transfer(&mut server, &mut client);

        let mut buf = vec![0; msg_len];
        assert_eq!(Poll::Ready(Ok(msg_len)), client.read(c, &mut buf));
        assert_eq!(buf, msg.0);
        assert_eq!(Poll::Ready(Ok(0)), client.read(c, &mut buf));
        assert_eq!(State::Closed, client.state(c));
    }
    QuickCheck::new().tests(7).quickcheck(prop as fn(_) -> _)
}

/// Two endpoints which may be unable to write simultaneously can make progress by reading.
#[test]
fn tests_write_deadlock() {
    // We make the message to transmit large enough s.t. the "server"
    // is forced to start writing (i.e. echoing) the bytes before
    // having read the entire payload.
    let msg = vec![1u8; 1024 * 1024];
    // We choose a "connection capacity" that is artificially below
    // the size of a receive window.
    let capacity = 1024;
    let mut pair = Pair::bounded(Config::default(), Config::default(), capacity);
    let id = pair.client.open().unwrap();
    let mut jobs = [Job::new(id, Rc::new(msg.clone()), true)];
    pair.run(&mut jobs);
    assert_eq!(jobs[0].received, msg);
    // Both ends were unable to write for most of the time.
    assert!(pair.client.blocked > msg.len() / capacity / 2);
    assert!(pair.server.blocked > msg.len() / capacity / 2);
}

#[test]
fn concurrent_concurrent_streams() {
    const PAYLOAD_SIZE: usize = 128 * 1024;
    fn prop(buffers: Option<Buffers>) {
        let n_streams = 1000;
        let mut cfg = Config::default();
        cfg.set_split_send_size(PAYLOAD_SIZE);
        cfg.set_window_update_mode(WindowUpdateMode::OnRead);
        // With `OnRead` a channel can even be smaller than the size of a single frame.
        let capacity = buffers.map_or(usize::MAX, |b| b.0.send as usize);
        let mut pair = Pair::bounded(cfg, cfg, capacity);
        pair.rounds = usize::MAX;
        let data = Rc::new(vec![0x42; PAYLOAD_SIZE]);
        let mut jobs: Vec<Job> = (0..n_streams)
            .map(|_| Job::new(pair.client.open().unwrap(), data.clone(), true))
            .collect();
        assert_eq!(n_streams, pair.client.conn.num_streams());
        pair.run(&mut jobs);
        let done = jobs.iter().filter(|j| j.received == *data).count();
        assert_eq!(done, n_streams);
        pair.shutdown();
    }
    QuickCheck::new().tests(3).quickcheck(prop as fn(_) -> _)
}

#[test]
fn close_through_drop_of_stream_propagates_to_remote() {
    let mut server = Peer::new(Config::default(), Mode::Server);
    let mut client = Peer::new(Config::default(), Mode::Client);

    // The client opens a stream, writes to it and drops it.
    let c = client.open().unwrap();
    assert_eq!(Poll::Ready(Ok(1)), client.write(c, &[42]));
    client.drive();
    client.release(c);
    client.drive();
    assert_eq!(0, client.conn.num_streams());
    transfer(&mut client, &mut server);

    // The server receives what was written and the end of the stream.
    let s = server.accepted.pop_front().unwrap();
    let mut received: Vec<u8> = Vec::new();
    let mut buf = [0; 16];
    loop {
        match server.read(s, &mut buf) {
            Poll::Ready(Ok(0)) => break,
            Poll::Ready(Ok(n)) => received.extend(&buf[..n]),
            other => panic!("{:?}", other),
        }
    }
    assert_eq!(received, vec![42]);
}

/// Closing a connection should not leave callers stuck when reading from a stream.
#[test]
fn poll_close_notifies_streams() {
    let mut pair = Pair::new(Config::default(), Config::default());
    let id = pair.client.open().unwrap();
    let msg = vec![1u8; 42];
    assert_eq!(Poll::Ready(Ok(42)), pair.client.write(id, &msg));
    let mut buffer = vec![0; msg.len()];
    let counter = Arc::new(Counter(AtomicUsize::new(0)));
    let waker = Waker::from(counter.clone());
    let read = pair
        .client
        .with_stream(id, |s, out| s.poll_read(out, waker, &mut buffer));
    assert_eq!(Poll::Pending, read);
    pair.client.shutdown();
    assert_eq!(0, counter.0.load(Ordering::Relaxed));
    pair.client.drive();
    assert!(pair.client.conn.is_closed());
    // The task that waits for data is woken up.
    assert_eq!(1, counter.0.load(Ordering::Relaxed));
    // There is less to read than was asked for: the stream has ended.
    assert_eq!(Poll::Ready(Ok(0)), pair.client.read(id, &mut buffer));
    assert_eq!(
        Poll::Ready(Err(IoErrorKind::WriteZero)),
        pair.client.write(id, &msg)
    );
}

/// Whatever happens to be in flight, both ends agree on the credit in the end.
#[test]
fn credit_is_balanced() {
    fn prop(msg: Msg, cfg1: TestConfig, cfg2: TestConfig) {
        let mut pair = Pair::new(cfg1.0, cfg2.0);
        let id = pair.client.open().unwrap();
        let mut jobs = [Job::new(id, Rc::new(msg.0.clone()), false)];
        pair.run(&mut jobs);
        pair.settle();
        let window = pair.client.with_stream(id, |s, _| s.shared().window());
        let credit = pair.server.with_stream(id, |s, _| s.shared().credit());
        assert_eq!(window, credit);
        let window = pair.server.with_stream(id, |s, _| s.shared().window());
        let credit = pair.client.with_stream(id, |s, _| s.shared().credit());
        assert_eq!(window, credit);
    }
    QuickCheck::new()
        .tests(20)
        .quickcheck(prop as fn(_, _, _) -> _)
}

#[test]
fn sides_use_different_identifiers() {
    let mut client = Peer::new(Config::default(), Mode::Client);
    let mut server = Peer::new(Config::default(), Mode::Server);
    let c: Vec<u32> = (0..4).map(|_| client.open().unwrap().val()).collect();
    let s: Vec<u32> = (0..4).map(|_| server.open().unwrap().val()).collect();
    assert_eq!(vec![1, 3, 5, 7], c);
    assert_eq!(vec![2, 4, 6, 8], s);
}

#[test]
fn identifiers_are_random() {
    // Four equal numbers of 32 bits in a row would be a miracle.
    let ids: Vec<Id> = (0..4).map(|_| Id::random()).collect();
    assert!(ids.iter().any(|i| *i != ids[0]));
}

/// A server that is driven by an [`EchoServer`].
struct EchoPeer {
    peer: Peer,
    machine: EchoServer,
    work: Echo,
}

impl EchoPeer {
    fn new(config: Config) -> EchoPeer {
        EchoPeer {
            peer: Peer::new(config, Mode::Server),
            machine: EchoServer::new(),
            work: Echo::default(),
        }
    }

    /// How many streams were processed, once the connection has ended.
    fn poll(&mut self) -> Option<usize> {
        let mut step = self.machine.poll(EchoEvent::Resume);
        loop {
            let event = match step {
                EchoStep::PollWorkers => {
                    let mut accepted = VecDeque::new();
                    std::mem::swap(&mut accepted, &mut self.peer.accepted);
                    if self.work.processed == 0 {
                        self.work.run(&mut self.peer);
                    }
                    self.peer.accepted = accepted;
                    EchoEvent::Worker(if self.work.processed > 0 {
                        self.work.processed -= 1;
                        Poll::Ready(Some(Ok(())))
                    } else if self.work.streams.is_empty() {
                        Poll::Ready(None)
                    } else {
                        Poll::Pending
                    })
                }
                EchoStep::PollNextInbound => {
                    EchoEvent::Inbound(match self.peer.accepted.pop_front() {
                        Some(id) => Poll::Ready(Some(Ok(id))),
                        None if self.peer.ended.is_some() => Poll::Ready(None),
                        None => Poll::Pending,
                    })
                }
                EchoStep::Work(id) => {
                    self.work.streams.push((id, VecDeque::new(), false));
                    EchoEvent::Resume
                }
                EchoStep::Pending => return None,
                EchoStep::Ready(n) => return Some(n),
            };
            step = self.machine.poll(event);
        }
    }
}

/// A client that is driven by a [`MessageSender`].
struct SenderPeer {
    peer: Peer,
    machine: MessageSender,
    work: Vec<Job>,
    closing: bool,
}

impl SenderPeer {
    fn new(config: Config, messages: Vec<Vec<u8>>) -> SenderPeer {
        SenderPeer {
            peer: Peer::new(config, Mode::Client),
            machine: MessageSender::new(messages.into_iter().map(harness::Msg).collect(), false),
            work: Vec::new(),
            closing: false,
        }
    }

    /// What the machine has come to.
    fn poll(&mut self) -> Option<Result<usize, ConnectionError>> {
        let mut step = self.machine.poll(SenderEvent::Resume);
        loop {
            let event = match step {
                SenderStep::PollClose => {
                    if !self.closing {
                        self.closing = true;
                        self.peer.shutdown();
                    }
                    self.peer.drive();
                    SenderEvent::Closed(if self.peer.ended.is_some() {
                        Poll::Ready(Ok(()))
                    } else {
                        Poll::Pending
                    })
                }
                SenderStep::PollNewOutbound => {
                    SenderEvent::Outbound(Poll::Ready(self.peer.open()))
                }
                SenderStep::PollWorkers => {
                    for j in self.work.iter_mut() {
                        j.run(&mut self.peer);
                    }
                    match self.work.iter().position(|j| j.done() && j.closed) {
                        Some(i) => {
                            let j = self.work.swap_remove(i);
                            assert_eq!(*j.msg, j.received);
                            self.peer.release(j.id);
                            SenderEvent::Worker(Poll::Ready(Some(())))
                        }
                        None if self.work.is_empty() => SenderEvent::Worker(Poll::Ready(None)),
                        None => SenderEvent::Worker(Poll::Pending),
                    }
                }
                SenderStep::PollNextInbound => {
                    assert!(self.peer.accepted.is_empty() && self.peer.ended.is_none());
                    SenderEvent::Inbound(Ok(()))
                }
                SenderStep::Work {
                    stream, message, ..
                } => {
                    self.work.push(Job::new(stream, Rc::new(message.0), true));
                    SenderEvent::Resume
                }
                SenderStep::Pending => return None,
                SenderStep::Ready(r) => return Some(r),
            };
            step = self.machine.poll(event);
        }
    }
}

/// Let a sender of messages and an echo server talk, and tell how many streams each has processed.
fn talk(cfg1: Config, cfg2: Config, msgs: Vec<Vec<u8>>, capacity: usize) -> (usize, usize) {
    let mut server = EchoPeer::new(cfg1);
    let mut client = SenderPeer::new(cfg2, msgs);
    server.peer.capacity = capacity;
    client.peer.capacity = capacity;
    let mut sent = None;
    loop {
        if sent.is_none() {
            sent = client.poll();
        }
        let processed = server.poll();
        client.peer.drive();
        server.peer.drive();
        transfer(&mut client.peer, &mut server.peer);
        transfer(&mut server.peer, &mut client.peer);
        if let (Some(n), Some(m)) = (processed, sent) {
            if capacity < usize::MAX {
                // Both ends were unable to write now and then.
                assert!(client.peer.blocked > 0 && server.peer.blocked > 0);
            }
            return (n, m.unwrap());
        }
    }
}

#[test]
fn poll_api_prop_config_send_recv_multi() {
    fn prop(msgs: Vec<Msg>, cfg1: TestConfig, cfg2: TestConfig) {
        let num_messagses = msgs.len();
        let msgs = msgs.into_iter().map(|m| m.0).collect();
        let (server_processed, client_processed) = talk(cfg1.0, cfg2.0, msgs, usize::MAX);
        assert_eq!(server_processed, num_messagses);
        assert_eq!(client_processed, num_messagses);
    }
    QuickCheck::new().quickcheck(prop as fn(_, _, _) -> _)
}

#[test]
fn poll_api_concurrent_streams() {
    fn prop(buffers: Option<Buffers>) {
        const PAYLOAD_SIZE: usize = 128 * 1024;
        let data = vec![0x42; PAYLOAD_SIZE];
        let n_streams = 512;
        let mut cfg = Config::default();
        cfg.set_split_send_size(PAYLOAD_SIZE); // Use a large frame size to speed up the test.
        let capacity = buffers.map_or(usize::MAX, |b| b.0.recv as usize);
        let (_, num_processed) = talk(cfg, cfg, vec![data; n_streams], capacity);
        assert_eq!(num_processed, n_streams);
    }
    QuickCheck::new().tests(3).quickcheck(prop as fn(_) -> _)
}

#[test]
fn poll_api_prop_max_streams() {
    /// Drive an [`OpenStreamsClient`] to its end.
    fn open_streams(peer: &mut Peer, n: usize) -> Result<Vec<StreamId>, ConnectionError> {
        let mut client = OpenStreamsClient::new(n);
        let mut step = client.poll(OpenEvent::Resume);
        loop {
            let event = match step {
                OpenStep::PollNextInbound => OpenEvent::Inbound(Ok(())),
                OpenStep::PollNewOutbound => OpenEvent::Outbound(Poll::Ready(peer.open())),
                OpenStep::Pending => panic!("streams are opened at once"),
                OpenStep::Ready(r) => return r,
            };
            step = client.poll(event);
        }
    }
    fn prop(n: usize) -> bool {
        let max_streams = n % 100;
        let mut cfg = Config::default();
        cfg.set_max_num_streams(max_streams);
        let mut client = Peer::new(cfg, Mode::Client);
        let streams = open_streams(&mut client, max_streams).unwrap();
        assert_eq!(streams.len(), max_streams);
        let open_result = open_streams(&mut client, 1);
        matches!(open_result, Err(ConnectionError::TooManyStreams))
    }
    QuickCheck::new().tests(7).quickcheck(prop as fn(_) -> _)
}

#[test]
fn smoke_prop_max_streams() {
    fn prop(n: usize) -> bool {
        let mut cfg = Config::default();
        let max_streams = n % 100;
        cfg.set_max_num_streams(max_streams);
        let mut client = Peer::new(cfg, Mode::Client);
        for _ in 0..max_streams {
            assert!(client.open().is_ok());
        }
        assert!(client.open().is_err());
        true
    }
    QuickCheck::new().tests(10).quickcheck(prop as fn(_) -> _)
}

#[test]
fn poll_api_prop_config_send_recv_single() {
    fn prop(mut msgs: Vec<Msg>, cfg1: TestConfig, cfg2: TestConfig) {
        msgs.insert(0, Msg(vec![1u8; DEFAULT_CREDIT as usize]));
        let mut pair = Pair::bounded(cfg1.0, cfg2.0, 16 * 1024);
        pair.send_on_single_stream(&msgs);
        pair.shutdown();
    }
    QuickCheck::new()
        .tests(10)
        .quickcheck(prop as fn(_, _, _) -> _)
}

#[test]
fn poll_api_write_deadlock() {
    let msg = vec![1u8; 1024 * 1024];
    let capacity = 1024;
    assert_eq!(
        (1, 1),
        talk(Config::default(), Config::default(), vec![msg], capacity)
    );
}
