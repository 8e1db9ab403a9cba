//! Peers that exercise a connection, to be driven step by step.

use crate::error::ConnectionError;
use crate::{Config, Poll, WindowUpdateMode, DEFAULT_CREDIT};
use vstd::prelude::*;

verus! {

/// A message to send on a stream.
#[derive(Debug)]
pub struct Msg(pub Vec<u8>);

impl Msg {
    /// A message of these octets, or of the other one if there are none: no message is empty.
    pub fn of(octets: Vec<u8>, other: u8) -> (m: Msg)
        ensures
            m.0@ == if octets@.len() == 0 {
                seq![other]
            } else {
                octets@
            },
    {
        let mut octets = octets;
        if octets.len() == 0 {
            octets.push(other);
            assert(octets@ =~= seq![other]);
        }
        Msg(octets)
    }
}

/// Send and receive buffer size for a TCP socket.
#[derive(Clone, Debug, Copy, PartialEq, Eq, Structural)]
pub struct TcpBufferSizes {
    /// The size of the send buffer.
    pub send: u32,
    /// The size of the receive buffer.
    pub recv: u32,
}

impl TcpBufferSizes {
    /// A send buffer of 16 or 32 KiB, and a receive buffer that is two or four times as large.
    pub fn of(small: bool, double: bool) -> (s: TcpBufferSizes)
        ensures
            s.send == if small {
                16384u32
            } else {
                32768u32
            },
            s.recv == s.send * (if double {
                2int
            } else {
                4int
            }),
    {
        let send: u32 = if small {
            16 * 1024
        } else {
            32 * 1024
        };
        // Have receive buffer size be some multiple of send buffer size.
        let recv: u32 = if double {
            send * 2
        } else {
            send * 4
        };
        TcpBufferSizes { send, recv }
    }
}

/// A configuration to test with.
#[derive(Clone, Debug, Copy)]
pub struct TestConfig(pub Config);

impl TestConfig {
    /// A configuration that differs from the default in what is chosen here. The receive window is the
    /// default one and up to three times as much in addition.
    pub fn of(on_read: bool, read_after_close: bool, extra: u32) -> (c: TestConfig)
        ensures
            c.0@.wf(),
            c.0@.window_update_mode == if on_read {
                WindowUpdateMode::OnRead
            } else {
                WindowUpdateMode::OnReceive
            },
            c.0@.read_after_close == read_after_close,
            c.0@.receive_window == DEFAULT_CREDIT + extra % 786432,
            c.0@.max_buffer_size == 1048576,
            c.0@.max_num_streams == 8192,
            c.0@.split_send_size == 16384,
    {
        let mut c = Config::default();
        c.set_window_update_mode(
            if on_read {
                WindowUpdateMode::OnRead
            } else {
                WindowUpdateMode::OnReceive
            },
        );
        c.set_read_after_close(read_after_close);
        let _ = c.set_receive_window(DEFAULT_CREDIT + extra % (768 * 1024));
        TestConfig(c)
    }
}

/// What is done with each message.
#[derive(Copy, Clone, Debug, PartialEq, Eq, Structural)]
pub enum MessageSenderStrategy {
    /// Send it, and receive it back.
    SendRecv,
    /// Send it.
    Send,
}

/// Sends each of some messages on a stream of its own.
#[derive(Debug)]
pub struct MessageSender {
    pending_messages: Vec<Msg>,
    /// How many streams are at work.
    worker_streams: usize,
    streams_processed: usize,
    /// Whether to spawn a new task for each stream.
    spawn_tasks: bool,
    /// How many times to send each message on the stream
    message_multiplier: u64,
    strategy: MessageSenderStrategy,
}

/// What a [`MessageSender`] holds.
pub struct MessageSenderView {
    pub messages: Seq<Msg>,
    pub workers: nat,
    pub processed: nat,
    pub spawn_tasks: bool,
    pub multiplier: u64,
    pub strategy: MessageSenderStrategy,
}

impl View for MessageSender {
    type V = MessageSenderView;

    closed spec fn view(&self) -> MessageSenderView {
        MessageSenderView {
            messages: self.pending_messages@,
            workers: self.worker_streams as nat,
            processed: self.streams_processed as nat,
            spawn_tasks: self.spawn_tasks,
            multiplier: self.message_multiplier,
            strategy: self.strategy,
        }
    }
}

/// What has happened since the last step of a [`MessageSender`].
#[derive(Debug)]
pub enum SenderEvent<S> {
    /// Nothing but that the last step was taken.
    Resume,
    /// The connection is closed, or has failed, or is not closed yet.
    Closed(Poll<Result<(), ConnectionError>>),
    /// A stream was opened, or the connection has failed, or no stream was opened yet.
    Outbound(Poll<Result<S, ConnectionError>>),
    /// A stream has finished its work, or none is at work, or none has finished it yet.
    Worker(Poll<Option<()>>),
    /// The remote has opened no stream. The connection may have failed.
    Inbound(Result<(), ConnectionError>),
}

/// What a [`MessageSender`] does next.
#[derive(Debug)]
pub enum SenderStep<S> {
    /// Close the connection.
    PollClose,
    /// Open a stream.
    PollNewOutbound,
    /// See if a stream has finished its work.
    PollWorkers,
    /// See if the remote has opened a stream.
    PollNextInbound,
    /// Do the work of one message on its stream: send it that many times, and possibly receive it back
    /// each time; then close the stream.
    Work {
        /// The stream of the message.
        stream: S,
        /// The message.
        message: Msg,
        /// How often it is sent.
        multiplier: u64,
        /// What is done with it.
        strategy: MessageSenderStrategy,
        /// Is a new task to be spawned?
        spawn: bool,
    },
    /// Wait.
    Pending,
    /// All messages were processed, or the connection has failed.
    Ready(Result<usize, ConnectionError>),
}

impl MessageSenderView {
    /// Can this happen?
    pub open spec fn expects<S>(self, event: SenderEvent<S>) -> bool {
        match event {
            SenderEvent::Closed(_) => self.messages.len() == 0 && self.workers == 0,
            SenderEvent::Outbound(Poll::Ready(Ok(_))) => self.messages.len() > 0 && self.workers
                < usize::MAX,
            SenderEvent::Outbound(_) => self.messages.len() > 0,
            SenderEvent::Worker(Poll::Ready(Some(()))) => self.workers > 0 && self.processed
                < usize::MAX,
            SenderEvent::Worker(Poll::Ready(None)) => self.workers == 0,
            _ => true,
        }
    }

    /// What holds after an event.
    ///
    /// The last message comes first. One whose stream could not be opened stays, unless the connection
    /// has failed.
    pub open spec fn after<S>(self, event: SenderEvent<S>) -> MessageSenderView {
        match event {
            SenderEvent::Outbound(Poll::Ready(Ok(_))) => MessageSenderView {
                messages: self.messages.drop_last(),
                workers: self.workers + 1,
                ..self
            },
            SenderEvent::Outbound(Poll::Ready(Err(_))) => MessageSenderView {
                messages: self.messages.drop_last(),
                ..self
            },
            SenderEvent::Worker(Poll::Ready(Some(()))) => MessageSenderView {
                workers: (self.workers - 1) as nat,
                processed: self.processed + 1,
                ..self
            },
            _ => self,
        }
    }

    /// What is done first: close the connection if there is nothing left to do, otherwise open a stream
    /// for the next message or wait for the streams that are at work.
    pub open spec fn start<S>(self) -> SenderStep<S> {
        if self.messages.len() > 0 {
            SenderStep::PollNewOutbound
        } else if self.workers > 0 {
            SenderStep::PollWorkers
        } else {
            SenderStep::PollClose
        }
    }

    /// What is done about an event.
    pub open spec fn step<S>(self, event: SenderEvent<S>) -> SenderStep<S> {
        match event {
            SenderEvent::Resume => self.start(),
            SenderEvent::Closed(Poll::Ready(Ok(()))) => SenderStep::Ready(
                Ok(self.processed as usize),
            ),
            SenderEvent::Closed(Poll::Ready(Err(e))) => SenderStep::Ready(Err(e)),
            SenderEvent::Closed(Poll::Pending) => SenderStep::Pending,
            SenderEvent::Outbound(Poll::Ready(Ok(stream))) => SenderStep::Work {
                stream,
                message: self.messages.last(),
                multiplier: self.multiplier,
                strategy: self.strategy,
                spawn: self.spawn_tasks,
            },
            SenderEvent::Outbound(Poll::Ready(Err(e))) => SenderStep::Ready(Err(e)),
            SenderEvent::Outbound(Poll::Pending) => SenderStep::PollWorkers,
            SenderEvent::Worker(Poll::Ready(Some(()))) => self.after(event).start(),
            SenderEvent::Worker(_) => SenderStep::PollNextInbound,
            SenderEvent::Inbound(Ok(())) => SenderStep::Pending,
            SenderEvent::Inbound(Err(e)) => SenderStep::Ready(Err(e)),
        }
    }
}

impl MessageSender {
    /// Send each message once and receive it back.
    pub fn new(messages: Vec<Msg>, spawn_tasks: bool) -> (s: Self)
        ensures
            s@ == (MessageSenderView {
                messages: messages@,
                workers: 0,
                processed: 0,
                spawn_tasks,
                multiplier: 1,
                strategy: MessageSenderStrategy::SendRecv,
            }),
    {
        MessageSender {
            pending_messages: messages,
            worker_streams: 0,
            streams_processed: 0,
            spawn_tasks,
            message_multiplier: 1,
            strategy: MessageSenderStrategy::SendRecv,
        }
    }

    /// Send each message that many times.
    pub fn with_message_multiplier(self, multiplier: u64) -> (s: Self)
        ensures
            s@ == (MessageSenderView { multiplier, ..self@ }),
    {
        let mut s = self;
        s.message_multiplier = multiplier;
        s
    }

    /// What is done with each message.
    pub fn with_strategy(self, strategy: MessageSenderStrategy) -> (s: Self)
        ensures
            s@ == (MessageSenderView { strategy, ..self@ }),
    {
        let mut s = self;
        s.strategy = strategy;
        s
    }

    fn start<S>(&self) -> (step: SenderStep<S>)
        ensures
            step == self@.start::<S>(),
    {
        if self.pending_messages.len() == 0 && self.worker_streams == 0 {
            return SenderStep::PollClose;
        }
        if self.pending_messages.len() > 0 {
            return SenderStep::PollNewOutbound;
        }
        SenderStep::PollWorkers
    }

    /// Take note of what has happened, and see what is to be done next.
    pub fn poll<S>(&mut self, event: SenderEvent<S>) -> (step: SenderStep<S>)
        requires
            old(self)@.expects(event),
        ensures
            final(self)@ == old(self)@.after(event),
            step == old(self)@.step(event),
    {
        match event {
            SenderEvent::Resume => self.start(),
            SenderEvent::Closed(Poll::Ready(Ok(()))) => SenderStep::Ready(
                Ok(self.streams_processed),
            ),
            SenderEvent::Closed(Poll::Ready(Err(e))) => SenderStep::Ready(Err(e)),
            SenderEvent::Closed(Poll::Pending) => SenderStep::Pending,
            SenderEvent::Outbound(Poll::Pending) => SenderStep::PollWorkers,
            SenderEvent::Outbound(Poll::Ready(opened)) => match (
                self.pending_messages.pop(),
                opened,
            ) {
                (Some(message), Ok(stream)) => {
                    self.worker_streams += 1;
                    SenderStep::Work {
                        stream,
                        message,
                        multiplier: self.message_multiplier,
                        strategy: self.strategy,
                        spawn: self.spawn_tasks,
                    }
                },
                (_, Err(e)) => SenderStep::Ready(Err(e)),
                (None, Ok(_)) => SenderStep::Pending,
            },
            SenderEvent::Worker(Poll::Ready(Some(()))) => {
                self.streams_processed += 1;
                self.worker_streams -= 1;
                self.start()
            },
            SenderEvent::Worker(Poll::Ready(None)) | SenderEvent::Worker(Poll::Pending) => {
                SenderStep::PollNextInbound
            },
            SenderEvent::Inbound(Ok(())) => SenderStep::Pending,
            SenderEvent::Inbound(Err(e)) => SenderStep::Ready(Err(e)),
        }
    }
}

/// No message gets lost or is counted twice: each is waiting, at work or processed, unless the
/// connection has failed; and the connection is closed only when all of them are processed.
pub proof fn law_messages_are_accounted_for<S>(s: MessageSenderView, event: SenderEvent<S>)
    requires
        s.expects(event),
        !(event matches SenderEvent::Outbound(Poll::Ready(Err(_)))),
    ensures
        ({
            let t = s.after(event);
            &&& t.messages.len() + t.workers + t.processed == s.messages.len() + s.workers
                + s.processed
            &&& s.step(event) is PollClose ==> t.messages.len() == 0 && t.workers == 0
        }),
{
}

/// Echoes back what comes in on each stream.
#[derive(Debug)]
pub struct EchoServer {
    /// How many streams are at work.
    worker_streams: usize,
    streams_processed: usize,
    connection_closed: bool,
}

/// What an [`EchoServer`] holds.
pub struct EchoServerView {
    pub workers: nat,
    pub processed: nat,
    pub closed: bool,
}

impl View for EchoServer {
    type V = EchoServerView;

    closed spec fn view(&self) -> EchoServerView {
        EchoServerView {
            workers: self.worker_streams as nat,
            processed: self.streams_processed as nat,
            closed: self.connection_closed,
        }
    }
}

/// What has happened since the last step of an [`EchoServer`].
#[derive(Debug)]
pub enum EchoEvent<S> {
    /// Nothing but that the last step was taken.
    Resume,
    /// A stream has finished its work, or has failed, or none is at work, or none has finished yet.
    Worker(Poll<Option<Result<(), ConnectionError>>>),
    /// A stream was opened by the remote, or the connection has ended or failed, or no stream was
    /// opened yet.
    Inbound(Poll<Option<Result<S, ConnectionError>>>),
}

/// What an [`EchoServer`] does next.
#[derive(Debug)]
pub enum EchoStep<S> {
    /// See if a stream has finished its work.
    PollWorkers,
    /// See if the remote has opened a stream.
    PollNextInbound,
    /// Echo back what comes in on a stream, and close it in the end.
    Work(S),
    /// Wait.
    Pending,
    /// The connection has ended: that many streams were processed.
    Ready(usize),
}

impl EchoServerView {
    /// Can this happen?
    pub open spec fn expects<S>(self, event: EchoEvent<S>) -> bool {
        match event {
            EchoEvent::Worker(Poll::Ready(Some(_))) => self.workers > 0 && self.processed
                < usize::MAX,
            EchoEvent::Worker(Poll::Ready(None)) => self.workers == 0,
            EchoEvent::Inbound(Poll::Ready(Some(Ok(_)))) => self.workers < usize::MAX,
            _ => true,
        }
    }

    /// What holds after an event. Only streams that have not failed count.
    pub open spec fn after<S>(self, event: EchoEvent<S>) -> EchoServerView {
        match event {
            EchoEvent::Worker(Poll::Ready(Some(Ok(())))) => EchoServerView {
                workers: (self.workers - 1) as nat,
                processed: self.processed + 1,
                ..self
            },
            EchoEvent::Worker(Poll::Ready(Some(Err(_)))) => EchoServerView {
                workers: (self.workers - 1) as nat,
                ..self
            },
            EchoEvent::Inbound(Poll::Ready(Some(Ok(_)))) => EchoServerView {
                workers: self.workers + 1,
                ..self
            },
            EchoEvent::Inbound(Poll::Ready(_)) => EchoServerView { closed: true, ..self },
            _ => self,
        }
    }

    /// What is done about an event.
    pub open spec fn step<S>(self, event: EchoEvent<S>) -> EchoStep<S> {
        match event {
            EchoEvent::Resume => EchoStep::PollWorkers,
            EchoEvent::Worker(Poll::Ready(Some(_))) => EchoStep::PollWorkers,
            EchoEvent::Worker(Poll::Ready(None)) => if self.closed {
                EchoStep::Ready(self.processed as usize)
            } else {
                EchoStep::PollNextInbound
            },
            EchoEvent::Worker(Poll::Pending) => EchoStep::PollNextInbound,
            EchoEvent::Inbound(Poll::Ready(Some(Ok(stream)))) => EchoStep::Work(stream),
            EchoEvent::Inbound(Poll::Ready(_)) => EchoStep::PollWorkers,
            EchoEvent::Inbound(Poll::Pending) => EchoStep::Pending,
        }
    }
}

impl EchoServer {
    /// A server that has not processed any stream.
    pub fn new() -> (s: Self)
        ensures
            s@ == (EchoServerView { workers: 0, processed: 0, closed: false }),
    {
        EchoServer { worker_streams: 0, streams_processed: 0, connection_closed: false }
    }

    /// Take note of what has happened, and see what is to be done next.
    pub fn poll<S>(&mut self, event: EchoEvent<S>) -> (step: EchoStep<S>)
        requires
            old(self)@.expects(event),
        ensures
            final(self)@ == old(self)@.after(event),
            step == old(self)@.step(event),
    {
        match event {
            EchoEvent::Resume => EchoStep::PollWorkers,
            EchoEvent::Worker(Poll::Ready(Some(Ok(())))) => {
                self.streams_processed += 1;
                self.worker_streams -= 1;
                EchoStep::PollWorkers
            },
            EchoEvent::Worker(Poll::Ready(Some(Err(_)))) => {
                self.worker_streams -= 1;
                EchoStep::PollWorkers
            },
            EchoEvent::Worker(Poll::Ready(None)) => {
                if self.connection_closed {
                    return EchoStep::Ready(self.streams_processed);
                }
                EchoStep::PollNextInbound
            },
            EchoEvent::Worker(Poll::Pending) => EchoStep::PollNextInbound,
            EchoEvent::Inbound(Poll::Ready(Some(Ok(stream)))) => {
                self.worker_streams += 1;
                EchoStep::Work(stream)
            },
            EchoEvent::Inbound(Poll::Ready(None)) | EchoEvent::Inbound(
                Poll::Ready(Some(Err(_))),
            ) => {
                self.connection_closed = true;
                EchoStep::PollWorkers
            },
            EchoEvent::Inbound(Poll::Pending) => EchoStep::Pending,
        }
    }
}

/// A server never ends before the connection has ended and all of its streams have finished.
pub proof fn law_server_ends_last<S>(s: EchoServerView, event: EchoEvent<S>)
    requires
        s.expects(event),
    ensures
        s.step(event) is Ready ==> s.closed && s.workers == 0,
{
}

/// Opens a number of streams.
#[derive(Debug)]
pub struct OpenStreamsClient<S> {
    streams: Vec<S>,
    to_open: usize,
}

/// What an [`OpenStreamsClient`] holds.
pub struct OpenStreamsView<S> {
    pub streams: Seq<S>,
    pub to_open: nat,
}

impl<S> View for OpenStreamsClient<S> {
    type V = OpenStreamsView<S>;

    closed spec fn view(&self) -> OpenStreamsView<S> {
        OpenStreamsView { streams: self.streams@, to_open: self.to_open as nat }
    }
}

/// What has happened since the last step of an [`OpenStreamsClient`].
#[derive(Debug)]
pub enum OpenEvent<S> {
    /// Nothing has happened.
    Resume,
    /// The remote has opened no stream. The connection may have failed.
    Inbound(Result<(), ConnectionError>),
    /// A stream was opened, or the connection has failed, or no stream was opened yet.
    Outbound(Poll<Result<S, ConnectionError>>),
}

/// What an [`OpenStreamsClient`] does next.
#[derive(Debug)]
pub enum OpenStep<S> {
    /// See if the remote has opened a stream.
    PollNextInbound,
    /// Open a stream.
    PollNewOutbound,
    /// Wait.
    Pending,
    /// All streams are open, or the connection has failed.
    Ready(Result<Vec<S>, ConnectionError>),
}

impl<S> OpenStreamsView<S> {
    /// Can this happen?
    pub open spec fn expects(self, event: OpenEvent<S>) -> bool {
        &&& self.streams.len() <= self.to_open
        &&& event is Outbound ==> self.streams.len() < self.to_open
    }

    /// What holds after an event. Once all streams are open, they are handed out.
    pub open spec fn after(self, event: OpenEvent<S>) -> OpenStreamsView<S> {
        match event {
            OpenEvent::Inbound(Ok(())) => if self.streams.len() == self.to_open {
                OpenStreamsView { streams: Seq::empty(), ..self }
            } else {
                self
            },
            OpenEvent::Outbound(Poll::Ready(Ok(stream))) => OpenStreamsView {
                streams: self.streams.push(stream),
                ..self
            },
            _ => self,
        }
    }

    /// Is this what is done about an event?
    pub open spec fn does(self, event: OpenEvent<S>, step: OpenStep<S>) -> bool {
        match event {
            OpenEvent::Resume => step is PollNextInbound,
            OpenEvent::Inbound(Ok(())) => if self.streams.len() < self.to_open {
                step is PollNewOutbound
            } else {
                step matches OpenStep::Ready(Ok(v)) && v@ == self.streams
            },
            OpenEvent::Inbound(Err(e)) => step == OpenStep::<S>::Ready(Err(e)),
            OpenEvent::Outbound(Poll::Ready(Ok(_))) => step is PollNextInbound,
            OpenEvent::Outbound(Poll::Ready(Err(e))) => step == OpenStep::<S>::Ready(Err(e)),
            OpenEvent::Outbound(Poll::Pending) => step is Pending,
        }
    }
}

impl<S> OpenStreamsClient<S> {
    /// Open that many streams.
    pub fn new(to_open: usize) -> (c: Self)
        ensures
            c@ == (OpenStreamsView::<S> { streams: Seq::empty(), to_open: to_open as nat }),
    {
        OpenStreamsClient { streams: Vec::new(), to_open }
    }

    /// Take note of what has happened, and see what is to be done next.
    pub fn poll(&mut self, event: OpenEvent<S>) -> (step: OpenStep<S>)
        requires
            old(self)@.expects(event),
        ensures
            final(self)@ == old(self)@.after(event),
            old(self)@.does(event, step),
    {
        match event {
            // Drive connection to make progress.
            OpenEvent::Resume => OpenStep::PollNextInbound,
            OpenEvent::Inbound(Ok(())) => {
                if self.streams.len() < self.to_open {
                    return OpenStep::PollNewOutbound;
                }
                let mut streams: Vec<S> = Vec::new();
                std::mem::swap(&mut streams, &mut self.streams);
                OpenStep::Ready(Ok(streams))
            },
            OpenEvent::Inbound(Err(e)) => OpenStep::Ready(Err(e)),
            OpenEvent::Outbound(Poll::Ready(Ok(stream))) => {
                self.streams.push(stream);
                OpenStep::PollNextInbound
            },
            OpenEvent::Outbound(Poll::Ready(Err(e))) => OpenStep::Ready(Err(e)),
            OpenEvent::Outbound(Poll::Pending) => OpenStep::Pending,
        }
    }
}

/// A sender of messages does what is left to do: as long as there are messages it opens streams for them,
/// and then it waits for the streams that are at work. A stream that was opened gets the last message, and
/// is at work from then on.
pub proof fn law_messages_are_worked_on<S>(s: MessageSenderView, event: SenderEvent<S>)
    requires
        s.expects(event),
    ensures
        ({
            let t = s.after(event);
            let step = s.step(event);
            &&& event is Resume ==> {
                &&& step is PollNewOutbound <==> s.messages.len() > 0
                &&& step is PollWorkers <==> s.messages.len() == 0 && s.workers > 0
                &&& step is PollClose <==> s.messages.len() == 0 && s.workers == 0
                &&& t == s
            }
            &&& event matches SenderEvent::Outbound(Poll::Ready(Ok(x))) ==> {
                &&& step matches SenderStep::Work { stream, message, multiplier, strategy, spawn }
                &&& stream == x
                &&& s.messages == t.messages.push(message)
                &&& multiplier == s.multiplier
                &&& strategy == s.strategy
                &&& spawn == s.spawn_tasks
                &&& t.workers == s.workers + 1
                &&& t.processed == s.processed
            }
            &&& event matches SenderEvent::Worker(Poll::Ready(Some(_))) ==> {
                &&& t.workers + 1 == s.workers
                &&& t.processed == s.processed + 1
                &&& t.messages == s.messages
                &&& step is PollNewOutbound <==> t.messages.len() > 0
                &&& step is PollClose <==> t.messages.len() == 0 && t.workers == 0
            }
            &&& event matches SenderEvent::Closed(Poll::Ready(Ok(_))) ==> (
            step matches SenderStep::Ready(Ok(n)) && (s.processed <= usize::MAX ==> n == s.processed))
            &&& (step matches SenderStep::Ready(Ok(_))) ==> (event matches SenderEvent::Closed(
                Poll::Ready(Ok(_)),
            ))
            &&& event matches SenderEvent::Closed(Poll::Ready(Err(e))) ==> (
            step matches SenderStep::Ready(Err(f)) && f == e)
            &&& event matches SenderEvent::Outbound(Poll::Ready(Err(e))) ==> (
            step matches SenderStep::Ready(Err(f)) && f == e)
            &&& event matches SenderEvent::Inbound(Err(e)) ==> (step matches SenderStep::Ready(
                Err(f),
            ) && f == e)
            &&& event matches SenderEvent::Outbound(Poll::Pending) ==> step is PollWorkers && t == s
            &&& event matches SenderEvent::Worker(Poll::Pending) ==> step is PollNextInbound && t == s
            &&& event matches SenderEvent::Inbound(Ok(_)) ==> step is Pending && t == s
        }),
{
    if s.messages.len() > 0 {
        assert(s.messages =~= s.messages.drop_last().push(s.messages.last()));
    }
}

/// An echo server works on every stream that the remote opens, counts those that did not fail, and goes
/// on until the connection has ended and no stream is at work.
pub proof fn law_streams_are_echoed<S>(s: EchoServerView, event: EchoEvent<S>)
    requires
        s.expects(event),
    ensures
        ({
            let t = s.after(event);
            let step = s.step(event);
            &&& event matches EchoEvent::Inbound(Poll::Ready(Some(Ok(x)))) ==> {
                &&& step matches EchoStep::Work(y) && y == x
                &&& t.workers == s.workers + 1
                &&& t.processed == s.processed
                &&& t.closed == s.closed
            }
            &&& step is Work ==> (event matches EchoEvent::Inbound(Poll::Ready(Some(Ok(_)))))
            &&& event matches EchoEvent::Worker(Poll::Ready(Some(r))) ==> {
                &&& t.workers + 1 == s.workers
                &&& t.processed == s.processed + if r is Ok {
                    1int
                } else {
                    0int
                }
                &&& t.closed == s.closed
                &&& step is PollWorkers
            }
            &&& t.closed <==> {
                ||| s.closed
                ||| event matches EchoEvent::Inbound(Poll::Ready(None))
                ||| event matches EchoEvent::Inbound(Poll::Ready(Some(Err(_))))
            }
            &&& event matches EchoEvent::Worker(Poll::Ready(None)) ==> (step is Ready <==> s.closed)
            &&& step is Ready ==> (event matches EchoEvent::Worker(Poll::Ready(None)))
            &&& step matches EchoStep::Ready(n) ==> (s.processed <= usize::MAX ==> n == s.processed)
            &&& event matches EchoEvent::Worker(Poll::Pending) ==> step is PollNextInbound && t == s
            &&& event matches EchoEvent::Inbound(Poll::Pending) ==> step is Pending && t == s
        }),
{
}

/// A client that opens streams keeps each of them, in order, asks for another just as long as some are
/// missing, and hands out all of them in the end.
pub proof fn law_streams_are_opened<S>(s: OpenStreamsView<S>, event: OpenEvent<S>, step: OpenStep<S>)
    requires
        s.expects(event),
        s.does(event, step),
    ensures
        ({
            let t = s.after(event);
            &&& t.to_open == s.to_open
            &&& step is PollNewOutbound <==> (event matches OpenEvent::Inbound(Ok(_)))
                && s.streams.len() < s.to_open
            &&& event matches OpenEvent::Outbound(Poll::Ready(Ok(x))) ==> t.streams == s.streams + seq![
                x,
            ]
            &&& step matches OpenStep::Ready(Ok(v)) ==> {
                &&& v@ == s.streams
                &&& s.streams.len() == s.to_open
                &&& t.streams.len() == 0
            }
            &&& event matches OpenEvent::Inbound(Err(e)) ==> (step matches OpenStep::Ready(Err(f)) && f
                == e)
            &&& event matches OpenEvent::Outbound(Poll::Ready(Err(e))) ==> (
            step matches OpenStep::Ready(Err(f)) && f == e)
            &&& event matches OpenEvent::Outbound(Poll::Pending) ==> step is Pending && t == s
        }),
{
    if let OpenEvent::Outbound(Poll::Ready(Ok(x))) = event {
        assert(s.streams.push(x) =~= s.streams + seq![x]);
    }
}

} // verus!
