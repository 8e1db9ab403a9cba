//! State machines that are driven by events.

use bytes::{Bytes, BytesMut};
use futures::task::noop_waker;
use std::collections::VecDeque;
use yamux::connection::cleanup::{self, Cleanup};
use yamux::connection::closing::{self, Closing};
use yamux::connection::command::StreamCommand;
use yamux::connection::command_receivers::CommandReceivers;
use yamux::connection::control::{self, Control};
use yamux::connection::sender::{EndOfStream, Message, Output, Sender, Step, StreamEvent};
use yamux::error::{ConnectionError, IoErrorKind};
use yamux::frame::header::{StreamId, FIN};
use yamux::frame::io::{Io, Ready, Write};
use yamux::frame::Frame;
use yamux::harness::{
    EchoEvent, EchoServer, EchoStep, MessageSender, MessageSenderStrategy, Msg, OpenEvent,
    OpenStep, OpenStreamsClient, SenderEvent, SenderStep, TcpBufferSizes, TestConfig,
};
use yamux::raw;
use yamux::raw::header::Type;
use yamux::stream::Item;
use yamux::{Config, Poll, WindowUpdateMode};

#[test]
fn pending_frames() {
    let frame_pending = Frame::data(StreamId::new(1), &[2]).unwrap().into_generic_frame();
    let frame_data = Frame::data(StreamId::new(3), &[4]).unwrap().into_generic_frame();
    let frame_close = Frame::close_stream(StreamId::new(5), false).into_generic_frame();
    let frame_close_ack = Frame::close_stream(StreamId::new(6), true).into_generic_frame();
    let frame_term = Frame::term().into_generic_frame();
    let mut expected_written = vec![];
    for f in [&frame_pending, &frame_data, &frame_close, &frame_close_ack, &frame_term] {
        expected_written.extend_from_slice(&f.buffer());
    }

    // A stream has sent the data frame, and two streams were closed.
    let mut sent = Vec::new();
    let waker = noop_waker();
    let mut stream = yamux::connection::stream::Stream::new(
        StreamId::new(3),
        yamux::connection::Id(0),
        Config::default(),
        10,
        10,
    );
    let mut out = yamux::connection::command::Outbox::new(false, 1);
    assert_eq!(Poll::Ready(Ok(1)), stream.poll_write(&mut out, waker, &[4]));
    for cmd in out.into_commands() {
        sent.push((StreamId::new(3), Some(cmd)))
    }
    for (id, ack) in [(5, false), (6, true)] {
        let id = StreamId::new(id);
        sent.push((id, Some(StreamCommand::CloseStream { id, ack })));
        sent.push((id, None));
    }
    let mut commands: VecDeque<_> = sent.into();

    let mut written = Vec::new();
    let mut receivers_closed = false;
    let mut closed = false;
    let mut io = Io::new(1024);
    let mut closing = Closing::new(vec![frame_pending].into());
    let mut step = closing.poll(closing::Event::Resume);
    let result = loop {
        let event = match step {
            closing::Step::CloseReceivers => {
                receivers_closed = true;
                closing::Event::Resume
            }
            closing::Step::NextCommand => match commands.pop_front() {
                Some((id, cmd)) => closing::Event::Command(id, cmd),
                None => closing::Event::NoCommand,
            },
            closing::Step::AwaitSocket => {
                while io.poll_ready(Write::Nothing) == Ready::Write {
                    written.extend_from_slice(io.pending());
                    let n = io.pending().len();
                    io.poll_ready(Write::Wrote(n));
                }
                closing::Event::SocketReady
            }
            closing::Step::Send(f) => {
                io.start_send(&f);
                closing::Event::Resume
            }
            closing::Step::CloseSocket => {
                assert!(!closed);
                closed = true;
                closing::Event::SocketClosed
            }
            closing::Step::Wait => panic!("the socket is always ready"),
            closing::Step::Done(r) => break r,
        };
        step = closing.poll(event);
    };
    assert_eq!(Ok(()), result);
    assert!(closing.is_flushed());
    assert!(receivers_closed);
    assert!(closed);
    assert_eq!(written, expected_written);
}

#[test]
fn closing_fails() {
    let mut c = Closing::new(VecDeque::new());
    assert!(matches!(c.poll(closing::Event::Resume), closing::Step::CloseReceivers));
    assert!(matches!(c.poll(closing::Event::Resume), closing::Step::NextCommand));
    assert_eq!(closing::State::DrainingStreamReceiver, c.state());
    assert!(matches!(c.poll(closing::Event::NoCommand), closing::Step::AwaitSocket));
    assert!(matches!(c.poll(closing::Event::SocketPending), closing::Step::Wait));
    assert!(!c.is_flushed());
    let e = ConnectionError::Io(IoErrorKind::ConnectionReset);
    assert!(matches!(
        c.poll(closing::Event::SocketFailed(e)),
        closing::Step::Done(Err(f)) if f == e
    ));
}

#[test]
fn cleaning_up() {
    let mut c = Cleanup::new(ConnectionError::NoMoreStreamIds);
    assert_eq!(cleanup::Step::CloseReceivers, c.poll(cleanup::Event::Resume));
    assert_eq!(cleanup::Step::NextCommand, c.poll(cleanup::Event::Resume));
    assert_eq!(cleanup::Step::NextCommand, c.poll(cleanup::Event::Command));
    assert_eq!(
        cleanup::Step::Wait,
        c.poll(cleanup::Event::NoCommand { empty: false })
    );
    assert_eq!(
        cleanup::Step::Done(ConnectionError::NoMoreStreamIds),
        c.poll(cleanup::Event::NoCommand { empty: true })
    );
}

#[test]
fn receivers_park_the_task() {
    let mut r = CommandReceivers::new();
    assert_eq!(Poll::Ready(1), r.poll_next(Poll::Ready(Some(1)), noop_waker()));
    assert_eq!(Poll::Pending, r.poll_next(Poll::<Option<u8>>::Pending, noop_waker()));
    assert!(r.push().is_none());
    assert_eq!(Poll::Pending, r.poll_next(Poll::Ready(None::<u8>), noop_waker()));
    assert!(r.push().is_some());
    assert!(r.push().is_none());
}

#[test]
fn opening_a_stream() {
    let mut c: Control<&str, ()> = Control::new();
    assert!(matches!(
        c.poll_open_stream::<u8>(control::Event::Resume),
        control::Step::PollSender
    ));
    assert!(matches!(
        c.poll_open_stream::<u8>(control::Event::Sender(Poll::Pending)),
        control::Step::Pending
    ));
    assert!(matches!(
        c.poll_open_stream::<u8>(control::Event::Sender(Poll::Ready(Ok(())))),
        control::Step::Send
    ));
    assert!(matches!(
        c.poll_open_stream::<u8>(control::Event::Sent(Ok("rx"))),
        control::Step::PollReply("rx")
    ));
    assert!(matches!(
        c.poll_open_stream::<u8>(control::Event::Reply("rx", Poll::Pending)),
        control::Step::Pending
    ));
    // The request is not sent again, unless it is aborted.
    let mut d = c.clone();
    assert!(matches!(
        d.poll_open_stream::<u8>(control::Event::Resume),
        control::Step::PollSender
    ));
    assert!(matches!(
        c.poll_open_stream::<u8>(control::Event::Resume),
        control::Step::PollReply("rx")
    ));
    assert!(matches!(
        c.poll_open_stream(control::Event::Reply(
            "rx",
            Poll::Ready(Ok(Err::<u8, _>(ConnectionError::TooManyStreams)))
        )),
        control::Step::Ready(Ok(Err(ConnectionError::TooManyStreams)))
    ));
    c.poll_open_stream::<u8>(control::Event::Reply("rx", Poll::Pending));
    c.abort_open_stream();
    assert!(matches!(
        c.poll_open_stream::<u8>(control::Event::Resume),
        control::Step::PollSender
    ));
    assert!(matches!(
        c.poll_open_stream::<u8>(control::Event::Sender(Poll::Ready(Err(())))),
        control::Step::Ready(Err(ConnectionError::Closed))
    ));
}

#[test]
fn closing_by_control() {
    let mut c: Control<(), &str> = Control::new();
    assert!(matches!(c.poll_close(control::Event::Resume), control::Step::PollSender));
    assert!(matches!(
        c.poll_close(control::Event::Sent(Err(()))),
        control::Step::Ready(Err(ConnectionError::Closed))
    ));
    assert!(matches!(
        c.poll_close(control::Event::Reply("rx", Poll::Pending)),
        control::Step::Pending
    ));
    assert!(matches!(
        c.poll_close(control::Event::Resume),
        control::Step::PollReply("rx")
    ));
    assert!(matches!(
        c.poll_close(control::Event::Reply("rx", Poll::Ready(Err(())))),
        control::Step::Ready(Err(ConnectionError::Closed))
    ));
    assert!(matches!(
        c.poll_close(control::Event::Reply("rx", Poll::Ready(Ok(())))),
        control::Step::Ready(Ok(()))
    ));
}

/// The kind, the flags, the stream, the length field and the body of what is sent.
fn sent(o: &Output) -> (Type, u16, u32, u32, &[u8]) {
    let f = o.frame.as_ref().unwrap();
    (
        f.dyn_type(),
        f.header.flags.val(),
        f.header.stream_id.val(),
        f.header.length.val(),
        &f.body[..],
    )
}

#[test]
fn sender_processes_messages() {
    let mut cfg = Config::default();
    cfg.set_receive_window(300_000).unwrap();
    let s = Sender::new(&cfg, Some(250));
    let id = StreamId::new(3);
    let from = |item| Some(Message::FromStream(StreamEvent::Item(id, item)));
    let ready = |step: Step<()>| match step {
        Step::Ready(o) => o,
        other => panic!("{:?}", other),
    };
    let done = |step: Step<()>| match step {
        Step::Done(o) => o,
        other => panic!("{:?}", other),
    };
    let ping = || raw::Frame::new(raw::header::Header::ping(5)).into_raw();

    let o = ready(s.process(Some(Message::Send(ping()))));
    assert_eq!((Type::Ping, 0, 0, 5, &b""[..]), sent(&o));
    assert_eq!((false, false, Some(250)), (o.flush, o.close, o.timeout));
    let o = ready(s.process(Some(Message::SendAndFlush(ping()))));
    assert_eq!((true, false, Some(250)), (o.flush, o.close, o.timeout));
    assert!(matches!(
        s.process(Some(Message::AddStream("s"))),
        Step::Stream("s")
    ));

    let o = ready(s.process(from(Item::Data(BytesMut::from(&b"ab"[..])))));
    assert_eq!((Type::Data, 0, 3, 2, &b"ab"[..]), sent(&o));
    assert!(!o.flush);
    let o = ready(s.process(from(Item::Flush)));
    assert!(o.frame.is_none() && o.flush && !o.close);
    let o = ready(s.process(from(Item::Credit)));
    assert_eq!((Type::WindowUpdate, 0, 3, 300_000, &b""[..]), sent(&o));
    assert!(o.flush);
    let o = ready(s.process(from(Item::HalfClose)));
    assert_eq!((Type::Data, FIN, 3, 0, &b""[..]), sent(&o));
    assert!(o.flush);

    for event in [StreamEvent::Error(id), StreamEvent::End(id)] {
        match s.process::<()>(Some(Message::FromStream(event))) {
            Step::Inform(e) => assert_eq!(EndOfStream(id), e),
            other => panic!("{:?}", other),
        }
    }

    let o = done(s.process(Some(Message::Close(1))));
    assert_eq!((Type::GoAway, 0, 0, 1, &b""[..]), sent(&o));
    assert_eq!((false, true, Some(250)), (o.flush, o.close, o.timeout));
    let o = done(s.process(Some(Message::Drop)));
    assert!(o.frame.is_none() && !o.flush && o.close && o.timeout.is_none());
    let o = done(s.process(None));
    assert_eq!((Type::GoAway, 0, 0, 0, &b""[..]), sent(&o));
    assert!(o.close);
    assert_eq!(Bytes::new(), o.frame.unwrap().body);
}

#[test]
fn messages_are_sent() {
    let mut s = MessageSender::new(vec![Msg(vec![1]), Msg(vec![2])], true)
        .with_message_multiplier(3)
        .with_strategy(MessageSenderStrategy::Send);
    assert!(matches!(
        s.poll::<&str>(SenderEvent::Resume),
        SenderStep::PollNewOutbound
    ));
    match s.poll(SenderEvent::Outbound(Poll::Ready(Ok("a")))) {
        SenderStep::Work {
            stream: "a",
            message,
            multiplier: 3,
            strategy: MessageSenderStrategy::Send,
            spawn: true,
        } => assert_eq!(vec![2], message.0),
        other => panic!("{:?}", other),
    }
    // The other message has to wait.
    assert!(matches!(
        s.poll::<&str>(SenderEvent::Outbound(Poll::Pending)),
        SenderStep::PollWorkers
    ));
    assert!(matches!(
        s.poll::<&str>(SenderEvent::Worker(Poll::Pending)),
        SenderStep::PollNextInbound
    ));
    assert!(matches!(
        s.poll::<&str>(SenderEvent::Inbound(Ok(()))),
        SenderStep::Pending
    ));
    assert!(matches!(
        s.poll::<&str>(SenderEvent::Worker(Poll::Ready(Some(())))),
        SenderStep::PollNewOutbound
    ));
    match s.poll(SenderEvent::Outbound(Poll::Ready(Ok("b")))) {
        SenderStep::Work { message, .. } => assert_eq!(vec![1], message.0),
        other => panic!("{:?}", other),
    }
    assert!(matches!(
        s.poll::<&str>(SenderEvent::Resume),
        SenderStep::PollWorkers
    ));
    assert!(matches!(
        s.poll::<&str>(SenderEvent::Worker(Poll::Ready(Some(())))),
        SenderStep::PollClose
    ));
    assert!(matches!(
        s.poll::<&str>(SenderEvent::Closed(Poll::Pending)),
        SenderStep::Pending
    ));
    assert!(matches!(
        s.poll::<&str>(SenderEvent::Closed(Poll::Ready(Ok(())))),
        SenderStep::Ready(Ok(2))
    ));
}

#[test]
fn sending_messages_fails() {
    let mut s = MessageSender::new(vec![Msg(vec![1])], false);
    assert!(matches!(
        s.poll::<&str>(SenderEvent::Inbound(Err(ConnectionError::Closed))),
        SenderStep::Ready(Err(ConnectionError::Closed))
    ));
    assert!(matches!(
        s.poll::<&str>(SenderEvent::Outbound(Poll::Ready(Err(
            ConnectionError::TooManyStreams
        )))),
        SenderStep::Ready(Err(ConnectionError::TooManyStreams))
    ));
    assert!(matches!(
        s.poll::<&str>(SenderEvent::Closed(Poll::Ready(Err(ConnectionError::Closed)))),
        SenderStep::Ready(Err(ConnectionError::Closed))
    ));
}

#[test]
fn echo_server_counts_streams() {
    let mut s = EchoServer::new();
    assert!(matches!(s.poll::<u8>(EchoEvent::Resume), EchoStep::PollWorkers));
    assert!(matches!(
        s.poll::<u8>(EchoEvent::Worker(Poll::Ready(None))),
        EchoStep::PollNextInbound
    ));
    for i in 0..3u8 {
        assert!(matches!(
            s.poll(EchoEvent::Inbound(Poll::Ready(Some(Ok(i))))),
            EchoStep::Work(j) if i == j
        ));
    }
    assert!(matches!(
        s.poll::<u8>(EchoEvent::Worker(Poll::Ready(Some(Ok(()))))),
        EchoStep::PollWorkers
    ));
    assert!(matches!(
        s.poll::<u8>(EchoEvent::Worker(Poll::Ready(Some(Err(ConnectionError::Closed))))),
        EchoStep::PollWorkers
    ));
    assert!(matches!(
        s.poll::<u8>(EchoEvent::Inbound(Poll::Pending)),
        EchoStep::Pending
    ));
    assert!(matches!(
        s.poll::<u8>(EchoEvent::Inbound(Poll::Ready(None))),
        EchoStep::PollWorkers
    ));
    assert!(matches!(
        s.poll::<u8>(EchoEvent::Worker(Poll::Pending)),
        EchoStep::PollNextInbound
    ));
    s.poll::<u8>(EchoEvent::Worker(Poll::Ready(Some(Ok(())))));
    assert!(matches!(
        s.poll::<u8>(EchoEvent::Worker(Poll::Ready(None))),
        EchoStep::Ready(2)
    ));
}

#[test]
fn streams_are_opened() {
    let mut c = OpenStreamsClient::new(2);
    assert!(matches!(c.poll(OpenEvent::Resume), OpenStep::PollNextInbound));
    assert!(matches!(
        c.poll(OpenEvent::Inbound(Ok(()))),
        OpenStep::PollNewOutbound
    ));
    assert!(matches!(
        c.poll(OpenEvent::Outbound(Poll::Pending)),
        OpenStep::Pending
    ));
    assert!(matches!(
        c.poll(OpenEvent::Outbound(Poll::Ready(Ok("a")))),
        OpenStep::PollNextInbound
    ));
    c.poll(OpenEvent::Outbound(Poll::Ready(Ok("b"))));
    assert!(matches!(
        c.poll(OpenEvent::Inbound(Ok(()))),
        OpenStep::Ready(Ok(v)) if v == ["a", "b"]
    ));
    assert!(matches!(
        c.poll(OpenEvent::Outbound(Poll::Ready(Err(ConnectionError::TooManyStreams)))),
        OpenStep::Ready(Err(ConnectionError::TooManyStreams))
    ));
    assert!(matches!(
        c.poll(OpenEvent::Inbound(Err(ConnectionError::Closed))),
        OpenStep::Ready(Err(ConnectionError::Closed))
    ));
}

#[test]
fn choices() {
    let sizes = |a, b| {
        let s = TcpBufferSizes::of(a, b);
        (s.send, s.recv)
    };
    assert_eq!((16384, 32768), sizes(true, true));
    assert_eq!((16384, 65536), sizes(true, false));
    assert_eq!((32768, 65536), sizes(false, true));
    assert_eq!((32768, 131072), sizes(false, false));
    assert_eq!(vec![7], Msg::of(vec![], 7).0);
    assert_eq!(vec![1, 2], Msg::of(vec![1, 2], 7).0);
    let TestConfig(mut c) = TestConfig::of(true, false, 786432 + 5);
    assert_eq!(Err(()), c.set_receive_window(262143));
    assert_eq!(Ok(()), c.set_receive_window(262144));
    c.set_window_update_mode(WindowUpdateMode::OnReceive);
    let shown = format!("{:?}", TestConfig::of(true, false, 786432 + 5).0);
    assert!(shown.contains("receive_window: 262149"));
    assert!(shown.contains("OnRead"));
    assert!(shown.contains("read_after_close: false"));
}
