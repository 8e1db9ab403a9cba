//! Streams whose items go through a sender and a codec.

use bytes::BytesMut;
use futures::task::noop_waker;
use quickcheck::{Arbitrary, Gen, QuickCheck};
use std::collections::HashMap;
use yamux::connection::sender::{Message, Sender, Step, StreamEvent};
use yamux::error::IoErrorKind;
use yamux::frame::header::{Flags, StreamId, FIN};
use yamux::harness;
use yamux::raw::codec::FrameCodec;
use yamux::raw::header::Type;
use yamux::stream::{Id, Outgoing, State, Stream, StreamRepr};
use yamux::{Config, Poll, DEFAULT_CREDIT};

/// A message to send on a stream, never empty.
#[derive(Clone, Debug)]
struct Msg(Vec<u8>);

impl Arbitrary for Msg {
    fn arbitrary(g: &mut Gen) -> Msg {
        Msg(harness::Msg::of(Arbitrary::arbitrary(g), Arbitrary::arbitrary(g)).0)
    }
}

/// One end of a connection.
struct End {
    streams: HashMap<u32, StreamRepr>,
    sender: Sender,
    codec: FrameCodec,
    outbound: BytesMut,
}

impl End {
    fn new() -> End {
        let cfg = Config::default();
        End {
            streams: HashMap::new(),
            sender: Sender::new(&cfg, None),
            codec: FrameCodec::new(&cfg),
            outbound: BytesMut::new(),
        }
    }

    /// A new stream.
    fn open(&mut self, id: u32) {
        let repr = StreamRepr::new(Id::new(id), Config::default(), DEFAULT_CREDIT);
        assert!(self.streams.insert(id, repr).is_none());
    }

    /// Do something with a stream, and encode what it sends.
    fn with<T>(&mut self, id: u32, f: impl FnOnce(&mut Stream) -> T) -> T {
        let mut s = Stream::new(self.streams.remove(&id).unwrap(), Outgoing::new(false));
        let r = f(&mut s);
        let (repr, outgoing) = s.into_parts();
        assert_eq!(id, repr.id().as_u32());
        self.streams.insert(id, repr);
        for item in outgoing.into_items() {
            let msg = Message::FromStream(StreamEvent::Item(StreamId::new(id), item));
            match self.sender.process::<()>(Some(msg)) {
                Step::Ready(o) => {
                    if let Some(f) = o.frame {
                        self.codec.encode(f, &mut self.outbound).unwrap()
                    }
                }
                other => panic!("{:?}", other),
            }
        }
        r
    }

    /// Take in what the other end has sent, and tell which streams are new.
    fn receive(&mut self, other: &mut End) -> Vec<u32> {
        let mut accepted = Vec::new();
        while let Some(f) = self.codec.decode(&mut other.outbound).unwrap() {
            let id = f.header.stream_id.val();
            if !self.streams.contains_key(&id) {
                self.open(id);
                accepted.push(id);
            }
            let repr = self.streams.get_mut(&id).unwrap();
            match f.dyn_type() {
                Type::Data => {
                    repr.decrement_window(f.header.length.val());
                    if f.header.flags.contains(Flags(FIN)) {
                        repr.update_state(State::WriteOnly);
                    }
                    repr.add_data(f.body);
                }
                Type::WindowUpdate => {
                    repr.add_credit(f.header.length.val());
                }
                other => panic!("{:?}", other),
            }
        }
        accepted
    }

    fn write_all(&mut self, id: u32, data: &[u8]) {
        assert_eq!(Ok(data.len()), self.with(id, |s| s.write(data, noop_waker())));
        assert_eq!(Ok(()), self.with(id, |s| s.flush()));
    }

    fn read(&mut self, id: u32, n: usize) -> Vec<u8> {
        let mut buf = vec![0; n];
        match self.with(id, |s| s.read(&mut buf, noop_waker())) {
            Ok(k) => buf.truncate(k),
            Err(e) => panic!("{:?}", e),
        }
        buf
    }
}

#[test]
fn send_recv() {
    let msgs = <Vec<Msg>>::arbitrary(&mut Gen::new(32));
    let (mut server, mut client) = (End::new(), End::new());
    let mut resps = Vec::new();
    for (i, m) in msgs.iter().enumerate() {
        // There is a new stream for each message.
        let id = 2 * i as u32 + 1;
        client.open(id);
        client.write_all(id, &m.0);
        assert_eq!(vec![id], server.receive(&mut client));
        let echo = server.read(id, m.0.len());
        server.write_all(id, &echo);
        assert_eq!(Poll::Ready(Ok(())), server.with(id, |s| s.shutdown()));
        assert!(client.receive(&mut server).is_empty());
        resps.push(client.read(id, m.0.len()));
        // The server has closed the stream.
        assert!(client.read(id, 1).is_empty());
    }
    assert_eq!(resps.len(), msgs.len());
    assert_eq!(client.streams.len(), msgs.len());
    assert!(resps.into_iter().eq(msgs.into_iter().map(|m| m.0)));
}

#[test]
fn smoke_prop_send_recv_half_closed() {
    fn prop(msg: Msg) -> bool {
        let (mut server, mut client) = (End::new(), End::new());
        client.open(1);
        // Client should be able to read after shutting down the stream.
        client.write_all(1, &msg.0);
        client.with(1, |s| s.shutdown());
        assert_eq!(client.with(1, |s| s.state()), State::ReadOnly);
        // Server should be able to write on a stream shutdown by the client.
        assert_eq!(vec![1], server.receive(&mut client));
        let buf = server.read(1, msg.0.len());
        server.write_all(1, &buf);
        client.receive(&mut server);
        assert_eq!(client.read(1, msg.0.len()), msg.0);
        let none = client.with(1, |s| s.read(&mut [0], noop_waker()));
        assert_eq!(Err(IoErrorKind::WouldBlock), none);
        true
    }
    QuickCheck::new().tests(3).quickcheck(prop as fn(_) -> _);
}
