//! A stream that tells if it was acknowledged.
//!
//! Unlike [`crate::connection::stream`], a stream of this kind sends window updates whenever it is
//! read from, and goes on to deliver what is buffered while a window update cannot be sent.

use crate::buffer::{bytes_of, bytes_slice};
use crate::chunks::{filled, readable, total, unread, Chunks};
use crate::connection::command::{CommandView, Outbox, OutboxView, StreamCommand};
use crate::connection::stream::{self, Flag};
use crate::connection::Id;
use crate::error::IoErrorKind;
use crate::frame::header::{Data, Flags, Header, StreamId, WindowUpdate, ACK};
use crate::frame::{Frame, FrameView};
use crate::{Config, ConfigView, Either, Poll, DEFAULT_CREDIT};
use bytes::Bytes;
use std::task::Waker;
use vstd::prelude::*;
use vstd::slice::slice_subrange;

verus! {

/// The state of a Yamux stream.
#[derive(Copy, Clone, Debug, PartialEq, Eq, Structural)]
pub enum State {
    /// Open bidirectionally.
    Open {
        /// Whether the stream is acknowledged.
        ///
        /// For outbound streams, this tracks whether the remote has acknowledged our stream.
        /// For inbound streams, this tracks whether we have acknowledged the stream to the remote.
        ///
        /// This starts out with `false` and is set to `true` when we receive or send an `ACK` flag
        /// for this stream.
        /// We may also directly transition:
        /// - from `Open` to `RecvClosed` if the remote immediately sends `FIN`.
        /// - from `Open` to `Closed` if the remote immediately sends `RST`.
        acknowledged: bool,
    },
    /// Open for incoming messages.
    SendClosed,
    /// Open for outgoing messages.
    RecvClosed,
    /// Closed (terminal state).
    Closed,
}

impl State {
    /// The directions that are open.
    pub open spec fn directions(self) -> stream::State {
        match self {
            State::Open { .. } => stream::State::Open,
            State::SendClosed => stream::State::SendClosed,
            State::RecvClosed => stream::State::RecvClosed,
            State::Closed => stream::State::Closed,
        }
    }

    /// Is the stream open for incoming messages?
    pub open spec fn recv(self) -> bool {
        self.directions().recv()
    }

    /// Is the stream open for outgoing messages?
    pub open spec fn send(self) -> bool {
        self.directions().send()
    }

    /// The state after an update.
    ///
    /// While both directions are open, the update tells the new state. Otherwise a direction is open
    /// if it was open before and is open according to the update.
    pub open spec fn update(self, next: State) -> State {
        match self {
            State::Open { .. } => next,
            _ => match self.directions().meet(next.directions()) {
                stream::State::SendClosed => State::SendClosed,
                stream::State::RecvClosed => State::RecvClosed,
                _ => State::Closed,
            },
        }
    }

    /// The state once a frame with this flag was sent: a frame that acknowledges the stream makes it
    /// acknowledged.
    pub open spec fn sent(self, flag: Flag) -> State {
        if flag == Flag::Ack {
            self.update(State::Open { acknowledged: true })
        } else {
            self
        }
    }

    /// The state once a frame with these flags was received: a frame that acknowledges the stream makes
    /// it acknowledged.
    pub open spec fn received(self, flags: Flags) -> State {
        if flags.0 & ACK == ACK {
            self.update(State::Open { acknowledged: true })
        } else {
            self
        }
    }

    /// Can we receive messages over this stream?
    pub fn can_read(self) -> (r: bool)
        ensures
            r == self.recv(),
    {
        !matches!(self, State::RecvClosed | State::Closed)
    }

    /// Can we send messages over this stream?
    pub fn can_write(self) -> (r: bool)
        ensures
            r == self.send(),
    {
        !matches!(self, State::SendClosed | State::Closed)
    }
}

/// The windows of a stream.
#[derive(Copy, Clone, Debug, PartialEq, Eq, Structural)]
pub struct FlowController {
    /// How many octets the remote may still send.
    receive_window: u32,
    /// How many octets the remote may send at most.
    max_receive_window: u32,
    /// How many octets we may still send.
    send_window: u32,
}

/// What a [`FlowController`] holds.
pub struct FlowView {
    pub receive_window: u32,
    pub max_receive_window: u32,
    pub send_window: u32,
}

impl View for FlowController {
    type V = FlowView;

    closed spec fn view(&self) -> FlowView {
        FlowView {
            receive_window: self.receive_window,
            max_receive_window: self.max_receive_window,
            send_window: self.send_window,
        }
    }
}

impl FlowView {
    /// The remote is never allowed to send more than the maximum at once.
    pub open spec fn wf(self) -> bool {
        self.receive_window <= self.max_receive_window
    }

    /// The credit that is due to the remote while that many octets are buffered: all of it, if it is
    /// half of the maximum or more.
    pub open spec fn due(self, buffered: nat) -> Option<u32> {
        let grant = self.max_receive_window - self.receive_window - buffered;
        if grant >= self.max_receive_window / 2 {
            Some(grant as u32)
        } else {
            None
        }
    }

    /// The windows once the remote was given the credit that is due.
    pub open spec fn granted(self, buffered: nat) -> FlowView {
        match self.due(buffered) {
            Some(n) => FlowView { receive_window: (self.receive_window + n) as u32, ..self },
            None => self,
        }
    }
}

impl FlowController {
    /// The windows of a new stream.
    pub fn new(receive_window: u32, max_receive_window: u32, send_window: u32) -> (f: Self)
        ensures
            f@ == (FlowView { receive_window, max_receive_window, send_window }),
    {
        FlowController { receive_window, max_receive_window, send_window }
    }

    /// Give the remote the credit that is due, if any is.
    pub fn next_window_update(&mut self, buffered: Option<usize>) -> (r: Option<u32>)
        requires
            old(self)@.wf(),
        ensures
            final(self)@.wf(),
            match buffered {
                Some(n) => {
                    &&& r == old(self)@.due(n as nat)
                    &&& final(self)@ == old(self)@.granted(n as nat)
                },
                None => r is None && final(self)@ == old(self)@,
            },
    {
        let received: u32 = self.max_receive_window - self.receive_window;
        let buffered: usize = match buffered {
            Some(n) => n,
            None => return None,
        };
        if buffered > received as usize {
            return None;
        }
        let grant: u32 = received - buffered as u32;
        if grant < self.max_receive_window / 2 {
            return None;
        }
        self.receive_window += grant;
        Some(grant)
    }

    /// How many octets we may still send.
    pub fn send_window(&self) -> (n: u32)
        ensures
            n == self@.send_window,
    {
        self.send_window
    }

    /// We have sent that many octets.
    pub fn consume_send_window(&mut self, i: u32)
        requires
            i <= old(self)@.send_window,
        ensures
            final(self)@ == (FlowView {
                send_window: (old(self)@.send_window - i) as u32,
                ..old(self)@
            }),
    {
        self.send_window -= i;
    }

    /// We may send that many more octets.
    pub fn increase_send_window_by(&mut self, i: u32)
        requires
            old(self)@.send_window + i <= u32::MAX,
        ensures
            final(self)@ == (FlowView {
                send_window: (old(self)@.send_window + i) as u32,
                ..old(self)@
            }),
    {
        self.send_window += i;
    }

    /// How many octets the remote may still send.
    pub fn receive_window(&self) -> (n: u32)
        ensures
            n == self@.receive_window,
    {
        self.receive_window
    }

    /// The remote has sent that many octets.
    pub fn consume_receive_window(&mut self, i: u32)
        requires
            i <= old(self)@.receive_window,
        ensures
            final(self)@ == (FlowView {
                receive_window: (old(self)@.receive_window - i) as u32,
                ..old(self)@
            }),
    {
        self.receive_window -= i;
    }
}

/// What a connection and a stream have to agree on.
#[derive(Debug)]
pub struct SharedInner {
    state: State,
    flow_controller: FlowController,
    buffer: Chunks,
    reader: Option<Waker>,
    writer: Option<Waker>,
}

/// What [`SharedInner`] holds.
pub struct SharedView {
    pub state: State,
    pub flow: FlowView,
    pub buffer: Seq<Seq<u8>>,
    pub reader: Option<Waker>,
    pub writer: Option<Waker>,
}

impl View for SharedInner {
    type V = SharedView;

    closed spec fn view(&self) -> SharedView {
        SharedView {
            state: self.state,
            flow: self.flow_controller@,
            buffer: self.buffer@,
            reader: self.reader,
            writer: self.writer,
        }
    }
}

impl SharedView {
    /// The same once data was received.
    pub open spec fn received(self, body: Seq<u8>) -> SharedView {
        SharedView {
            flow: FlowView {
                receive_window: (self.flow.receive_window - body.len()) as u32,
                ..self.flow
            },
            buffer: if body.len() == 0 {
                self.buffer
            } else {
                self.buffer.push(body)
            },
            ..self
        }
    }

    /// The same once we may send more.
    pub open spec fn credited(self, n: u32) -> SharedView {
        SharedView {
            flow: FlowView { send_window: (self.flow.send_window + n) as u32, ..self.flow },
            ..self
        }
    }
}

impl SharedInner {
    /// The state of a stream at its beginning.
    pub fn new(receive_window: u32, send_window: u32, config: &Config) -> (s: Self)
        ensures
            s@ == (SharedView {
                state: State::Open { acknowledged: false },
                flow: FlowView {
                    receive_window,
                    max_receive_window: config@.receive_window,
                    send_window,
                },
                buffer: Seq::empty(),
                reader: None,
                writer: None,
            }),
    {
        SharedInner {
            state: State::Open { acknowledged: false },
            flow_controller: FlowController::new(
                receive_window,
                config.receive_window,
                send_window,
            ),
            buffer: Chunks::new(),
            reader: None,
            writer: None,
        }
    }

    /// The state of the stream.
    pub fn state(&self) -> (s: State)
        ensures
            s == self@.state,
    {
        self.state
    }

    /// Update the stream state and return the state before it was updated.
    pub fn update_state(&mut self, next: State) -> (previous: State)
        ensures
            previous == old(self)@.state,
            final(self)@ == (SharedView { state: old(self)@.state.update(next), ..old(self)@ }),
    {
        let current = self.state;
        match (current, next) {
            (State::Closed, _) => {},
            (State::Open { .. }, _) => self.state = next,
            (State::RecvClosed, State::Closed) => self.state = State::Closed,
            (State::RecvClosed, State::Open { .. }) => {},
            (State::RecvClosed, State::RecvClosed) => {},
            (State::RecvClosed, State::SendClosed) => self.state = State::Closed,
            (State::SendClosed, State::Closed) => self.state = State::Closed,
            (State::SendClosed, State::Open { .. }) => {},
            (State::SendClosed, State::RecvClosed) => self.state = State::Closed,
            (State::SendClosed, State::SendClosed) => {},
        }
        current
    }

    /// Take note of the flags of a frame that was received: the remote may acknowledge the stream.
    pub fn on_flags(&mut self, flags: Flags)
        ensures
            final(self)@ == (SharedView { state: old(self)@.state.received(flags), ..old(self)@ }),
    {
        if flags.contains(Flags(ACK)) {
            self.update_state(State::Open { acknowledged: true });
        }
    }

    /// Whether we are still waiting for the remote to acknowledge this stream.
    pub fn is_pending_ack(&self) -> (r: bool)
        ensures
            r == (self@.state == State::Open { acknowledged: false }),
    {
        matches!(self.state, State::Open { acknowledged: false })
    }

    /// Give the remote the credit that is due, if any is.
    pub fn next_window_update(&mut self) -> (r: Option<u32>)
        requires
            old(self)@.flow.wf(),
        ensures
            r == old(self)@.flow.due(total(old(self)@.buffer)),
            final(self)@ == (SharedView {
                flow: old(self)@.flow.granted(total(old(self)@.buffer)),
                ..old(self)@
            }),
            final(self)@.flow.wf(),
    {
        self.flow_controller.next_window_update(self.buffer.len())
    }

    /// How many octets we may still send.
    pub fn send_window(&self) -> (n: u32)
        ensures
            n == self@.flow.send_window,
    {
        self.flow_controller.send_window()
    }

    /// How many octets the remote may still send.
    pub fn receive_window(&self) -> (n: u32)
        ensures
            n == self@.flow.receive_window,
    {
        self.flow_controller.receive_window()
    }

    /// We have sent that many octets.
    pub fn consume_send_window(&mut self, i: u32)
        requires
            i <= old(self)@.flow.send_window,
        ensures
            final(self)@ == (SharedView {
                flow: FlowView {
                    send_window: (old(self)@.flow.send_window - i) as u32,
                    ..old(self)@.flow
                },
                ..old(self)@
            }),
    {
        self.flow_controller.consume_send_window(i)
    }

    /// We may send that many more octets.
    pub fn increase_send_window_by(&mut self, i: u32)
        requires
            old(self)@.flow.send_window + i <= u32::MAX,
        ensures
            final(self)@ == old(self)@.credited(i),
    {
        self.flow_controller.increase_send_window_by(i)
    }

    /// The remote has sent that many octets.
    pub fn consume_receive_window(&mut self, i: u32)
        requires
            i <= old(self)@.flow.receive_window,
        ensures
            final(self)@ == (SharedView {
                flow: FlowView {
                    receive_window: (old(self)@.flow.receive_window - i) as u32,
                    ..old(self)@.flow
                },
                ..old(self)@
            }),
    {
        self.flow_controller.consume_receive_window(i)
    }

    /// Buffer data that was received.
    pub fn receive(&mut self, body: Bytes)
        requires
            bytes_of(body).len() <= old(self)@.flow.receive_window,
        ensures
            final(self)@ == old(self)@.received(bytes_of(body)),
    {
        self.consume_receive_window(body.len() as u32);
        self.buffer.push(body);
    }
}

/// Byte data produced by [`Stream::poll_next`].
#[derive(Debug, PartialEq, Eq)]
pub struct Packet(Bytes);

impl View for Packet {
    type V = Seq<u8>;

    closed spec fn view(&self) -> Seq<u8> {
        bytes_of(self.0)
    }
}

impl Packet {
    /// The octets.
    pub fn as_ref(&self) -> (s: &[u8])
        ensures
            s@ == self@,
    {
        bytes_slice(&self.0)
    }
}

/// A multiplexed Yamux stream.
#[derive(Debug)]
pub struct Stream {
    id: StreamId,
    conn: Id,
    config: Config,
    flag: Flag,
    shared: SharedInner,
}

/// What a [`Stream`] holds.
pub struct StreamView {
    pub id: u32,
    pub conn: Id,
    pub config: ConfigView,
    /// The flag that the next frame will have.
    pub flag: Flag,
    pub shared: SharedView,
}

impl View for Stream {
    type V = StreamView;

    closed spec fn view(&self) -> StreamView {
        StreamView {
            id: self.id.0,
            conn: self.conn,
            config: self.config@,
            flag: self.flag,
            shared: self.shared@,
        }
    }
}

impl StreamView {
    /// A new stream.
    pub open spec fn fresh(
        id: u32,
        conn: Id,
        config: ConfigView,
        flag: Flag,
        send_window: u32,
    ) -> StreamView {
        StreamView {
            id,
            conn,
            config,
            flag,
            shared: SharedView {
                state: State::Open { acknowledged: false },
                flow: FlowView {
                    receive_window: DEFAULT_CREDIT,
                    max_receive_window: config.receive_window,
                    send_window,
                },
                buffer: Seq::empty(),
                reader: None,
                writer: None,
            },
        }
    }

    /// The remote is never allowed to send more than the receive window at once.
    pub open spec fn wf(self) -> bool {
        &&& self.config.wf()
        &&& self.shared.flow.wf()
        &&& self.shared.flow.max_receive_window == self.config.receive_window
    }

    /// The credit that a window update gives to the remote, if one is to be sent.
    pub open spec fn due(self) -> Option<u32> {
        if self.shared.state.recv() {
            self.shared.flow.due(total(self.shared.buffer))
        } else {
            None
        }
    }

    /// The stream once a window update was sent, if one is due and can be sent.
    ///
    /// A window update that acknowledges the stream makes it acknowledged.
    pub open spec fn updated(self, o: OutboxView) -> StreamView {
        if self.due() is Some && o.ready() {
            StreamView {
                flag: Flag::Nothing,
                shared: SharedView {
                    state: self.shared.state.sent(self.flag),
                    flow: self.shared.flow.granted(total(self.shared.buffer)),
                    ..self.shared
                },
                ..self
            }
        } else {
            self
        }
    }

    /// The commands that are sent on behalf of a window update.
    pub open spec fn update(self, o: OutboxView) -> OutboxView {
        match self.due() {
            Some(credit) if o.ready() => o.sent(
                self.flag.send(FrameView::window_update(self.id, credit)),
            ),
            _ => o,
        }
    }

    /// The same with a task that waits for data.
    pub open spec fn waiting(self, waker: Waker) -> StreamView {
        StreamView { shared: SharedView { reader: Some(waker), ..self.shared }, ..self }
    }
}

/// What came of trying to read from a stream or to write to it.
pub struct Outcome<T> {
    /// The stream afterwards.
    pub stream: StreamView,
    /// The commands that were sent.
    pub outbox: OutboxView,
    /// What the operation returns.
    pub result: Poll<T>,
}

impl<T> Outcome<T> {
    /// What came of it.
    pub open spec fn of(stream: StreamView, outbox: OutboxView, result: Poll<T>) -> Outcome<T> {
        Outcome { stream, outbox, result }
    }
}

/// What comes of reading at most `room` octets from a stream.
///
/// If the connection is closed and the stream is not to be read any more, there is nothing to read. A
/// window update is sent first, if one is due; it is left for later if the channel to the connection is
/// full. Then what is buffered is read. If nothing is, the end of the stream is reached or the task
/// has to wait.
pub open spec fn read_outcome(s: StreamView, o: OutboxView, room: nat, waker: Waker) -> Outcome<
    Result<usize, IoErrorKind>,
> {
    if !s.config.read_after_close && o.closed {
        Outcome::of(s, o, Poll::Ready(Ok(0)))
    } else if s.shared.state.recv() && o.closed {
        Outcome::of(s, o, Poll::Ready(Err(IoErrorKind::WriteZero)))
    } else {
        let n = readable(s.shared.buffer, room);
        let updated = s.updated(o);
        let read = StreamView {
            shared: SharedView { buffer: unread(s.shared.buffer, room), ..updated.shared },
            ..updated
        };
        if n > 0 || !s.shared.state.recv() {
            Outcome::of(read, s.update(o), Poll::Ready(Ok(n as usize)))
        } else {
            Outcome::of(read.waiting(waker), s.update(o), Poll::Pending)
        }
    }
}

/// What comes of reading the next chunk from a stream.
///
/// This is as in [`read_outcome`], but that a whole chunk is read.
pub open spec fn next_outcome(s: StreamView, o: OutboxView, waker: Waker) -> Outcome<
    Option<Result<Seq<u8>, IoErrorKind>>,
> {
    if !s.config.read_after_close && o.closed {
        Outcome::of(s, o, Poll::Ready(None))
    } else if s.shared.state.recv() && o.closed {
        Outcome::of(s, o, Poll::Ready(Some(Err(IoErrorKind::WriteZero))))
    } else {
        let updated = s.updated(o);
        if s.shared.buffer.len() > 0 {
            Outcome::of(
                StreamView {
                    shared: SharedView { buffer: s.shared.buffer.skip(1), ..updated.shared },
                    ..updated
                },
                s.update(o),
                Poll::Ready(Some(Ok(s.shared.buffer[0]))),
            )
        } else if !s.shared.state.recv() {
            Outcome::of(updated, s.update(o), Poll::Ready(None))
        } else {
            Outcome::of(updated.waiting(waker), s.update(o), Poll::Pending)
        }
    }
}

/// How many octets of `len` are written at once.
///
/// Neither the window that is left nor the limit on the size of a single frame is exceeded.
pub open spec fn writable(s: StreamView, len: nat) -> nat {
    let n = if len < s.shared.flow.send_window {
        len
    } else {
        s.shared.flow.send_window as nat
    };
    if n < s.config.split_send_size {
        n
    } else {
        s.config.split_send_size as nat
    }
}

/// What comes of writing to a stream.
///
/// A frame that acknowledges the stream makes it acknowledged.
pub open spec fn write_outcome(s: StreamView, o: OutboxView, data: Seq<u8>, waker: Waker) -> Outcome<
    Result<usize, IoErrorKind>,
> {
    if o.closed {
        Outcome::of(s, o, Poll::Ready(Err(IoErrorKind::WriteZero)))
    } else if o.room == 0 {
        Outcome::of(s, o, Poll::Pending)
    } else if !s.shared.state.send() {
        Outcome::of(s, o, Poll::Ready(Err(IoErrorKind::WriteZero)))
    } else if s.shared.flow.send_window == 0 {
        Outcome::of(
            StreamView { shared: SharedView { writer: Some(waker), ..s.shared }, ..s },
            o,
            Poll::Pending,
        )
    } else {
        let n = writable(s, data.len());
        Outcome::of(
            StreamView {
                flag: Flag::Nothing,
                shared: SharedView {
                    state: s.shared.state.sent(s.flag),
                    flow: FlowView {
                        send_window: (s.shared.flow.send_window - n) as u32,
                        ..s.shared.flow
                    },
                    ..s.shared
                },
                ..s
            },
            o.sent(s.flag.send(FrameView::data(s.id, data.take(n as int)))),
            Poll::Ready(Ok(n as usize)),
        )
    }
}

/// What comes of flushing the channel to the connection: it fails if the connection is gone.
pub open spec fn flush_outcome(flushed: Poll<Result<(), ()>>) -> Poll<Result<(), IoErrorKind>> {
    match flushed {
        Poll::Ready(Ok(())) => Poll::Ready(Ok(())),
        Poll::Ready(Err(())) => Poll::Ready(Err(IoErrorKind::WriteZero)),
        Poll::Pending => Poll::Pending,
    }
}

/// What comes of closing our direction of a stream.
pub open spec fn close_outcome(s: StreamView, o: OutboxView) -> Outcome<Result<(), IoErrorKind>> {
    if s.shared.state == State::Closed {
        Outcome::of(s, o, Poll::Ready(Ok(())))
    } else if o.closed {
        Outcome::of(s, o, Poll::Ready(Err(IoErrorKind::WriteZero)))
    } else if o.room == 0 {
        Outcome::of(s, o, Poll::Pending)
    } else {
        Outcome::of(
            StreamView {
                flag: if s.flag == Flag::Ack {
                    Flag::Nothing
                } else {
                    s.flag
                },
                shared: SharedView {
                    state: s.shared.state.update(State::SendClosed),
                    ..s.shared
                },
                ..s
            },
            o.sent(CommandView::CloseStream { id: s.id, ack: s.flag == Flag::Ack }),
            Poll::Ready(Ok(())),
        )
    }
}

impl Stream {
    /// A stream that the remote has opened.
    pub fn new_inbound(id: StreamId, conn: Id, config: Config, send_window: u32) -> (s: Self)
        ensures
            s@ == StreamView::fresh(id.0, conn, config@, Flag::Ack, send_window),
    {
        let shared = SharedInner::new(DEFAULT_CREDIT, send_window, &config);
        Stream { id, conn, config, flag: Flag::Ack, shared }
    }

    /// A stream that we open.
    pub fn new_outbound(id: StreamId, conn: Id, config: Config) -> (s: Self)
        ensures
            s@ == StreamView::fresh(id.0, conn, config@, Flag::Syn, DEFAULT_CREDIT),
    {
        let shared = SharedInner::new(DEFAULT_CREDIT, DEFAULT_CREDIT, &config);
        Stream { id, conn, config, flag: Flag::Syn, shared }
    }

    /// Get this stream's identifier.
    pub fn id(&self) -> (id: StreamId)
        ensures
            id.0 == self@.id,
    {
        self.id
    }

    /// Is the stream open for incoming messages only?
    pub fn is_write_closed(&self) -> (r: bool)
        ensures
            r == (self@.shared.state == State::SendClosed),
    {
        matches!(self.shared.state(), State::SendClosed)
    }

    /// Is the stream closed?
    pub fn is_closed(&self) -> (r: bool)
        ensures
            r == (self@.shared.state == State::Closed),
    {
        matches!(self.shared.state(), State::Closed)
    }

    /// Whether we are still waiting for the remote to acknowledge this stream.
    pub fn is_pending_ack(&self) -> (r: bool)
        ensures
            r == (self@.shared.state == State::Open { acknowledged: false }),
    {
        self.shared.is_pending_ack()
    }

    /// What the stream shares with its connection, to be changed.
    pub fn shared_mut(&mut self) -> (s: &mut SharedInner)
        ensures
            s@ == old(self)@.shared,
            final(self)@ == (StreamView { shared: final(s)@, ..old(self)@ }),
    {
        &mut self.shared
    }

    /// Set ACK or SYN flag if necessary.
    ///
    /// The stream is acknowledged once the ACK flag is set.
    fn add_flag(&mut self, header: &mut Header<Either<Data, WindowUpdate>>)
        ensures
            final(self)@ == (StreamView {
                flag: Flag::Nothing,
                shared: SharedView {
                    state: old(self)@.shared.state.sent(old(self)@.flag),
                    ..old(self)@.shared
                },
                ..old(self)@
            }),
            final(header)@ == old(self)@.flag.on(old(header)@),
    {
        match self.flag {
            Flag::Nothing => (),
            Flag::Syn => {
                header.syn();
                self.flag = Flag::Nothing
            },
            Flag::Ack => {
                header.ack();
                self.flag = Flag::Nothing;
                self.shared.update_state(State::Open { acknowledged: true });
            },
        }
    }

    /// Send new credit to the sending side via a window update message if
    /// permitted.
    fn send_window_update(&mut self, out: &mut Outbox) -> (r: Poll<Result<(), IoErrorKind>>)
        requires
            old(self)@.wf(),
        ensures
            final(self)@.wf(),
            final(self)@ == old(self)@.updated(old(out)@),
            final(out)@ == old(self)@.update(old(out)@),
            r == if !old(self)@.shared.state.recv() {
                Poll::Ready(Ok::<(), IoErrorKind>(()))
            } else if old(out)@.closed {
                Poll::Ready(Err::<(), IoErrorKind>(IoErrorKind::WriteZero))
            } else if old(out)@.room == 0 {
                Poll::Pending
            } else {
                Poll::Ready(Ok::<(), IoErrorKind>(()))
            },
    {
        if !self.shared.state().can_read() {
            return Poll::Ready(Ok(()));
        }
        match out.poll_ready() {
            Poll::Ready(Ok(())) => {},
            Poll::Ready(Err(e)) => return Poll::Ready(Err(e)),
            Poll::Pending => return Poll::Pending,
        }
        let credit: u32 = match self.shared.next_window_update() {
            Some(credit) => credit,
            None => return Poll::Ready(Ok(())),
        };
        let mut frame = Frame::window_update(self.id, credit).right();
        self.add_flag(frame.header_mut());
        out.start_send(StreamCommand::SendFrame(frame));
        Poll::Ready(Ok(()))
    }

    /// Read the next chunk of data.
    pub fn poll_next(&mut self, out: &mut Outbox, waker: Waker) -> (r: Poll<
        Option<Result<Packet, IoErrorKind>>,
    >)
        requires
            old(self)@.wf(),
        ensures
            final(self)@.wf(),
            ({
                let next = next_outcome(old(self)@, old(out)@, waker);
                &&& final(self)@ == next.stream
                &&& final(out)@ == next.outbox
                &&& match (r, next.result) {
                    (Poll::Ready(Some(Ok(p))), Poll::Ready(Some(Ok(chunk)))) => p@ == chunk,
                    (Poll::Ready(Some(Err(e))), Poll::Ready(Some(Err(f)))) => e == f,
                    (Poll::Ready(None), Poll::Ready(None)) => true,
                    (Poll::Pending, Poll::Pending) => true,
                    _ => false,
                }
            }),
    {
        if !self.config.read_after_close && out.is_closed() {
            return Poll::Ready(None);
        }
        match self.send_window_update(out) {
            Poll::Ready(Ok(())) => {},
            Poll::Ready(Err(e)) => return Poll::Ready(Some(Err(e))),
            // Continue reading buffered data even though sending a window update blocked.
            Poll::Pending => {},
        }
        if let Some(bytes) = self.shared.buffer.pop() {
            return Poll::Ready(Some(Ok(Packet(bytes))));
        }
        // Buffer is empty, let's check if we can expect to read more data.
        if !self.shared.state.can_read() {
            return Poll::Ready(None);
        }
        // Since we have no more data at this point, we want to be woken up
        // by the connection when more becomes available for us.
        self.shared.reader = Some(waker);
        Poll::Pending
    }

    /// Like [`Stream::poll_next`], but copies bytes into the provided mutable slice.
    pub fn poll_read(&mut self, out: &mut Outbox, waker: Waker, buf: &mut [u8]) -> (r: Poll<
        Result<usize, IoErrorKind>,
    >)
        requires
            old(self)@.wf(),
        ensures
            final(self)@.wf(),
            ({
                let read = read_outcome(old(self)@, old(out)@, old(buf)@.len(), waker);
                &&& final(self)@ == read.stream
                &&& final(out)@ == read.outbox
                &&& r == read.result
            }),
            final(buf)@ == match r {
                Poll::Ready(Ok(n)) => filled(old(buf)@, old(self)@.shared.buffer, n as nat),
                _ => old(buf)@,
            },
    {
        if !self.config.read_after_close && out.is_closed() {
            return Poll::Ready(Ok(0));
        }
        match self.send_window_update(out) {
            Poll::Ready(Ok(())) => {},
            Poll::Ready(Err(e)) => return Poll::Ready(Err(e)),
            // Continue reading buffered data even though sending a window update blocked.
            Poll::Pending => {},
        }
        // Copy data from stream buffer.
        let n: usize = self.shared.buffer.read(buf);
        if n > 0 {
            return Poll::Ready(Ok(n));
        }
        assert(buf@ =~= old(buf)@);
        // Buffer is empty, let's check if we can expect to read more data.
        if !self.shared.state.can_read() {
            return Poll::Ready(Ok(0));
        }
        // Since we have no more data at this point, we want to be woken up
        // by the connection when more becomes available for us.
        self.shared.reader = Some(waker);
        Poll::Pending
    }

    /// Send as much of the data as possible in one frame, and tell how much.
    pub fn poll_write(&mut self, out: &mut Outbox, waker: Waker, buf: &[u8]) -> (r: Poll<
        Result<usize, IoErrorKind>,
    >)
        requires
            old(self)@.wf(),
            buf@.len() <= isize::MAX,
        ensures
            final(self)@.wf(),
            ({
                let written = write_outcome(old(self)@, old(out)@, buf@, waker);
                &&& final(self)@ == written.stream
                &&& final(out)@ == written.outbox
                &&& r == written.result
            }),
    {
        match out.poll_ready() {
            Poll::Ready(Ok(())) => {},
            Poll::Ready(Err(e)) => return Poll::Ready(Err(e)),
            Poll::Pending => return Poll::Pending,
        }
        if !self.shared.state.can_write() {
            return Poll::Ready(Err(IoErrorKind::WriteZero));
        }
        let window: u32 = self.shared.send_window();
        if window == 0 {
            self.shared.writer = Some(waker);
            return Poll::Pending;
        }
        let k: usize = if buf.len() < window as usize {
            buf.len()
        } else {
            window as usize
        };
        let k: usize = if k < self.config.split_send_size {
            k
        } else {
            self.config.split_send_size
        };
        self.shared.consume_send_window(k as u32);
        match Frame::data(self.id, slice_subrange(buf, 0, k)) {
            Ok(frame) => {
                assert(frame@.body =~= buf@.take(k as int));
                let mut frame = frame.left();
                self.add_flag(frame.header_mut());
                out.start_send(StreamCommand::SendFrame(frame));
            },
            Err(_) => {},
        }
        Poll::Ready(Ok(k))
    }

    /// What is said of the channel to the connection when it is flushed.
    pub fn poll_flush(&mut self, flushed: Poll<Result<(), ()>>) -> (r: Poll<
        Result<(), IoErrorKind>,
    >)
        ensures
            final(self)@ == old(self)@,
            r == flush_outcome(flushed),
    {
        match flushed {
            Poll::Ready(Ok(())) => Poll::Ready(Ok(())),
            Poll::Ready(Err(())) => Poll::Ready(Err(IoErrorKind::WriteZero)),
            Poll::Pending => Poll::Pending,
        }
    }

    /// Close our direction of the stream.
    pub fn poll_close(&mut self, out: &mut Outbox) -> (r: Poll<Result<(), IoErrorKind>>)
        requires
            old(self)@.wf(),
        ensures
            final(self)@.wf(),
            ({
                let closed = close_outcome(old(self)@, old(out)@);
                &&& final(self)@ == closed.stream
                &&& final(out)@ == closed.outbox
                &&& r == closed.result
            }),
    {
        if self.is_closed() {
            return Poll::Ready(Ok(()));
        }
        match out.poll_ready() {
            Poll::Ready(Ok(())) => {},
            Poll::Ready(Err(e)) => return Poll::Ready(Err(e)),
            Poll::Pending => return Poll::Pending,
        }
        let ack = if self.flag == Flag::Ack {
            self.flag = Flag::Nothing;
            true
        } else {
            false
        };
        out.start_send(StreamCommand::CloseStream { id: self.id, ack });
        self.shared.update_state(State::SendClosed);
        Poll::Ready(Ok(()))
    }
}

} // verus!
