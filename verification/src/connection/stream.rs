//! One stream of a connection.

use crate::buffer::{bytes_of, bytes_slice};
use crate::chunks::{filled, readable, total, unread, Chunks};
use crate::connection::command::{CommandView, Outbox, OutboxView, StreamCommand};
use crate::connection::Id;
use crate::error::IoErrorKind;
use crate::frame::header::{Data, Header, HeaderView, StreamId, WindowUpdate, ACK, SYN};
use crate::frame::{Frame, FrameView};
use crate::task::Wakers;
use crate::{Config, ConfigView, Either, Poll, WindowUpdateMode};
use bytes::Bytes;
use std::task::Waker;
use vstd::prelude::*;
use vstd::slice::slice_subrange;

verus! {

/// The state of a Yamux stream.
#[derive(Copy, Clone, Debug, PartialEq, Eq, Structural)]
pub enum State {
    /// Open bidirectionally.
    Open,
    /// Open for incoming messages.
    SendClosed,
    /// Open for outgoing messages.
    RecvClosed,
    /// Closed (terminal state).
    Closed,
}

impl State {
    /// The state in which the given directions are open.
    pub open spec fn of(recv: bool, send: bool) -> State {
        if recv && send {
            State::Open
        } else if recv {
            State::SendClosed
        } else if send {
            State::RecvClosed
        } else {
            State::Closed
        }
    }

    /// Is the stream open for incoming messages?
    pub open spec fn recv(self) -> bool {
        self == State::Open || self == State::SendClosed
    }

    /// Is the stream open for outgoing messages?
    pub open spec fn send(self) -> bool {
        self == State::Open || self == State::RecvClosed
    }

    /// The state in which only those directions are open that are open in both states.
    pub open spec fn meet(self, other: State) -> State {
        State::of(self.recv() && other.recv(), self.send() && other.send())
    }

    /// Can we receive messages over this stream?
    pub fn can_read(self) -> (r: bool)
        ensures
            r == self.recv(),
    {
        !matches!(self, State::RecvClosed | State::Closed)
    }

    /// Can we send messages over this stream?
    pub fn can_write(self) -> (r: bool)
        ensures
            r == self.send(),
    {
        !matches!(self, State::SendClosed | State::Closed)
    }
}

/// Indicate if a flag still needs to be set on an outbound header.
#[derive(Copy, Clone, Debug, PartialEq, Eq, Structural)]
pub enum Flag {
    /// No flag needs to be set.
    Nothing,
    /// The stream was opened lazily, so set the initial SYN flag.
    Syn,
    /// The stream still needs acknowledgement, so set the ACK flag.
    Ack,
}

impl Flag {
    /// The header with the flag set.
    pub open spec fn on(self, h: HeaderView) -> HeaderView {
        match self {
            Flag::Nothing => h,
            Flag::Syn => h.with(SYN),
            Flag::Ack => h.with(ACK),
        }
    }

    /// The command to send a frame with the flag set.
    pub open spec fn send(self, f: FrameView) -> CommandView {
        CommandView::SendFrame(FrameView { header: self.on(f.header), ..f })
    }
}

/// What a connection and a stream have to agree on.
#[derive(Debug)]
pub struct Shared {
    state: State,
    window: u32,
    credit: u32,
    buffer: Chunks,
    reader: Option<Waker>,
    writer: Option<Waker>,
}

/// What [`Shared`] holds.
pub struct SharedView {
    /// The directions that are open.
    pub state: State,
    /// How many octets the remote may still send.
    pub window: u32,
    /// How many octets we may still send.
    pub credit: u32,
    /// The data that was received and not read.
    pub buffer: Seq<Seq<u8>>,
    /// The task that waits for data to read.
    pub reader: Option<Waker>,
    /// The task that waits for credit.
    pub writer: Option<Waker>,
}

impl View for Shared {
    type V = SharedView;

    closed spec fn view(&self) -> SharedView {
        SharedView {
            state: self.state,
            window: self.window,
            credit: self.credit,
            buffer: self.buffer@,
            reader: self.reader,
            writer: self.writer,
        }
    }
}

impl SharedView {
    /// The state of a stream at its beginning.
    pub open spec fn fresh(window: u32, credit: u32) -> SharedView {
        SharedView {
            state: State::Open,
            window,
            credit,
            buffer: Seq::empty(),
            reader: None,
            writer: None,
        }
    }

    /// The same with some directions closed.
    pub open spec fn update_state(self, next: State) -> SharedView {
        SharedView { state: self.state.meet(next), ..self }
    }

    /// The same with nobody waiting any more.
    pub open spec fn woken(self) -> SharedView {
        SharedView { reader: None, writer: None, ..self }
    }

    /// The tasks that wait.
    pub open spec fn waiting(self) -> Wakers {
        Wakers { reader: self.reader, writer: self.writer }
    }

    /// The same once data was received.
    pub open spec fn received(self, body: Seq<u8>) -> SharedView {
        SharedView {
            window: if body.len() <= self.window {
                (self.window - body.len()) as u32
            } else {
                0
            },
            buffer: if body.len() == 0 {
                self.buffer
            } else {
                self.buffer.push(body)
            },
            ..self
        }
    }

    /// How much credit the remote could be given in addition to what it has.
    ///
    /// If window updates are sent on read, what is still buffered does not count.
    pub open spec fn grantable(self, config: ConfigView) -> int {
        let received = config.receive_window - self.window;
        if config.window_update_mode == WindowUpdateMode::OnRead {
            received - total(self.buffer)
        } else {
            received
        }
    }

    /// The credit that is due to the remote: all of it, if it is half of the receive window or more.
    pub open spec fn due(self, config: ConfigView) -> Option<u32> {
        if self.state.recv() && self.grantable(config) >= config.receive_window / 2 {
            Some(self.grantable(config) as u32)
        } else {
            None
        }
    }
}

impl Shared {
    /// The state of a stream at its beginning.
    pub fn new(window: u32, credit: u32) -> (s: Self)
        ensures
            s@ == SharedView::fresh(window, credit),
    {
        Shared {
            state: State::Open,
            window,
            credit,
            buffer: Chunks::new(),
            reader: None,
            writer: None,
        }
    }

    /// The directions that are open.
    pub fn state(&self) -> (s: State)
        ensures
            s == self@.state,
    {
        self.state
    }

    /// Update the stream state and return the state before it was updated.
    ///
    /// A direction that is closed stays closed.
    pub fn update_state(&mut self, next: State) -> (previous: State)
        ensures
            previous == old(self)@.state,
            final(self)@ == old(self)@.update_state(next),
    {
        let current = self.state;
        match (current, next) {
            (State::Closed, _) => {},
            (State::Open, _) => self.state = next,
            (State::RecvClosed, State::Closed) => self.state = State::Closed,
            (State::RecvClosed, State::Open) => {},
            (State::RecvClosed, State::RecvClosed) => {},
            (State::RecvClosed, State::SendClosed) => self.state = State::Closed,
            (State::SendClosed, State::Closed) => self.state = State::Closed,
            (State::SendClosed, State::Open) => {},
            (State::SendClosed, State::RecvClosed) => self.state = State::Closed,
            (State::SendClosed, State::SendClosed) => {},
        }
        current
    }

    /// The credit that is due to the remote, if any is.
    ///
    /// A window update is sent when half or more of the configured receive window can be granted as
    /// additional credit to the sender.
    pub fn next_window_update(&self, config: &Config) -> (credit: Option<u32>)
        requires
            self@.window <= config@.receive_window,
            config@.wf(),
        ensures
            credit == self@.due(config@),
    {
        if !self.state.can_read() {
            return None;
        }
        let received: u32 = config.receive_window - self.window;
        let new_credit: u32 = match config.window_update_mode {
            WindowUpdateMode::OnReceive => received,
            WindowUpdateMode::OnRead => match self.buffer.len() {
                Some(n) => {
                    if n <= received as usize {
                        received - n as u32
                    } else {
                        return None;
                    }
                },
                None => return None,
            },
        };
        if new_credit >= config.receive_window / 2 {
            Some(new_credit)
        } else {
            None
        }
    }

    /// Wake up whoever waits.
    pub fn wake(&mut self) -> (w: Wakers)
        ensures
            w == old(self)@.waiting(),
            final(self)@ == old(self)@.woken(),
    {
        Wakers { reader: self.reader.take(), writer: self.writer.take() }
    }

    /// How many octets the remote may still send.
    pub fn window(&self) -> (n: u32)
        ensures
            n == self@.window,
    {
        self.window
    }

    /// How many octets we may still send.
    pub fn credit(&self) -> (n: u32)
        ensures
            n == self@.credit,
    {
        self.credit
    }

    /// Are at least that many octets buffered?
    pub fn is_full(&self, max_buffer_size: usize) -> (r: bool)
        ensures
            r == (total(self@.buffer) >= max_buffer_size),
    {
        match self.buffer.len() {
            Some(n) => n >= max_buffer_size,
            None => true,
        }
    }

    /// Buffer data that was received, at the expense of the window.
    pub fn receive(&mut self, body: Bytes)
        requires
            bytes_of(body).len() <= u32::MAX,
        ensures
            final(self)@ == old(self)@.received(bytes_of(body)),
    {
        self.window = self.window.saturating_sub(body.len() as u32);
        self.buffer.push(body);
    }

    /// The remote may send that many more octets.
    pub fn grant(&mut self, n: u32)
        requires
            old(self)@.window + n <= u32::MAX,
        ensures
            final(self)@ == (SharedView { window: (old(self)@.window + n) as u32, ..old(self)@ }),
    {
        self.window += n;
    }

    /// We may send that many more octets.
    pub fn add_credit(&mut self, n: u32)
        requires
            old(self)@.credit + n <= u32::MAX,
        ensures
            final(self)@ == (SharedView { credit: (old(self)@.credit + n) as u32, ..old(self)@ }),
    {
        self.credit += n;
    }

    /// Wake up the task that waits for data to read.
    pub fn wake_reader(&mut self) -> (w: Wakers)
        ensures
            w == (Wakers { reader: old(self)@.reader, writer: None }),
            final(self)@ == (SharedView { reader: None, ..old(self)@ }),
    {
        Wakers { reader: self.reader.take(), writer: None }
    }

    /// Wake up the task that waits for credit.
    pub fn wake_writer(&mut self) -> (w: Wakers)
        ensures
            w == (Wakers { reader: None, writer: old(self)@.writer }),
            final(self)@ == (SharedView { writer: None, ..old(self)@ }),
    {
        Wakers { reader: None, writer: self.writer.take() }
    }
}

/// Byte data produced by [`Stream::poll_next`].
#[derive(Debug, PartialEq, Eq)]
pub struct Packet(Bytes);

impl View for Packet {
    type V = Seq<u8>;

    closed spec fn view(&self) -> Seq<u8> {
        bytes_of(self.0)
    }
}

impl Packet {
    /// The octets.
    pub fn as_ref(&self) -> (s: &[u8])
        ensures
            s@ == self@,
    {
        bytes_slice(&self.0)
    }
}

/// A multiplexed Yamux stream.
///
/// The user of a stream holds a handle to it, as long as the stream is retained. Data is read from
/// and written to the stream, and the commands that this takes go to the connection.
#[derive(Debug)]
pub struct Stream {
    id: StreamId,
    conn: Id,
    config: Config,
    flag: Flag,
    pending: Option<Frame<WindowUpdate>>,
    retained: bool,
    shared: Shared,
}

/// What a [`Stream`] holds.
pub struct StreamView {
    pub id: u32,
    pub conn: Id,
    pub config: ConfigView,
    /// The flag that the next frame will have.
    pub flag: Flag,
    /// A window update that could not be sent yet.
    pub pending: Option<FrameView>,
    /// Does the user of the stream still have it?
    pub retained: bool,
    pub shared: SharedView,
}

impl View for Stream {
    type V = StreamView;

    closed spec fn view(&self) -> StreamView {
        StreamView {
            id: self.id.0,
            conn: self.conn,
            config: self.config@,
            flag: self.flag,
            pending: match self.pending {
                Some(f) => Some(f@),
                None => None,
            },
            retained: self.retained,
            shared: self.shared@,
        }
    }
}

impl StreamView {
    /// A new stream.
    pub open spec fn fresh(
        id: u32,
        conn: Id,
        config: ConfigView,
        window: u32,
        credit: u32,
    ) -> StreamView {
        StreamView {
            id,
            conn,
            config,
            flag: Flag::Nothing,
            pending: None,
            retained: true,
            shared: SharedView::fresh(window, credit),
        }
    }

    /// The remote is never allowed to send more than the receive window at once.
    pub open spec fn wf(self) -> bool {
        &&& self.config.wf()
        &&& self.shared.window <= self.config.receive_window
    }

    /// The stream once a pending window update was sent.
    pub open spec fn delivered(self) -> StreamView {
        if self.pending is Some {
            StreamView { pending: None, flag: Flag::Nothing, ..self }
        } else {
            self
        }
    }

    /// The commands that are sent on behalf of a pending window update.
    pub open spec fn delivery(self, o: OutboxView) -> OutboxView {
        match self.pending {
            Some(f) => o.sent(self.flag.send(f)),
            None => o,
        }
    }
}

/// What came of trying to read from a stream or to write to it.
pub struct Outcome<T> {
    /// The stream afterwards.
    pub stream: StreamView,
    /// The commands that were sent.
    pub outbox: OutboxView,
    /// What the operation returns.
    pub result: Poll<T>,
}

impl<T> Outcome<T> {
    /// What came of it.
    pub open spec fn of(stream: StreamView, outbox: OutboxView, result: Poll<T>) -> Outcome<T> {
        Outcome { stream, outbox, result }
    }
}

/// What happens when nothing is there to be read, but something may come: the task waits for it, and
/// if window updates are sent on read, the remote is given the credit that is due.
pub open spec fn waiting<T>(
    s: StreamView,
    o: OutboxView,
    waker: Waker,
    failed: T,
) -> Outcome<T> {
    let waits = StreamView {
        shared: SharedView { reader: Some(waker), ..s.shared },
        ..s
    };
    match s.shared.due(s.config) {
        Some(credit) if s.config.window_update_mode == WindowUpdateMode::OnRead => {
            let granted = StreamView {
                shared: SharedView { window: (s.shared.window + credit) as u32, ..waits.shared },
                ..waits
            };
            let update = FrameView::window_update(s.id, credit);
            if o.closed {
                Outcome::of(granted, o, Poll::Ready(failed))
            } else if o.room == 0 {
                Outcome::of(StreamView { pending: Some(update), ..granted }, o, Poll::Pending)
            } else {
                Outcome::of(
                    StreamView { flag: Flag::Nothing, ..granted },
                    o.sent(s.flag.send(update)),
                    Poll::Pending,
                )
            }
        },
        _ => Outcome::of(waits, o, Poll::Pending),
    }
}

/// What comes of reading at most `room` octets from a stream.
///
/// If the connection is closed and the stream is not to be read any more, there is nothing to read. A
/// pending window update has to be sent before anything else. Then what is buffered is read. If
/// nothing is, the end of the stream is reached or the task has to wait.
pub open spec fn read_outcome(s: StreamView, o: OutboxView, room: nat, waker: Waker) -> Outcome<
    Result<usize, IoErrorKind>,
> {
    if !s.config.read_after_close && o.closed {
        Outcome::of(s, o, Poll::Ready(Ok(0)))
    } else if s.pending is Some && o.closed {
        Outcome::of(s, o, Poll::Ready(Err(IoErrorKind::WriteZero)))
    } else if s.pending is Some && o.room == 0 {
        Outcome::of(s, o, Poll::Pending)
    } else {
        let n = readable(s.shared.buffer, room);
        let read = StreamView {
            shared: SharedView { buffer: unread(s.shared.buffer, room), ..s.shared },
            ..s.delivered()
        };
        if n > 0 || !s.shared.state.recv() {
            Outcome::of(read, s.delivery(o), Poll::Ready(Ok(n as usize)))
        } else {
            waiting(read, s.delivery(o), waker, Err(IoErrorKind::WriteZero))
        }
    }
}

/// What comes of reading the next chunk from a stream, but for the chunk.
///
/// This is as in [`read_outcome`], but that a whole chunk is read.
pub open spec fn next_outcome(s: StreamView, o: OutboxView, waker: Waker) -> Outcome<
    Option<Result<Seq<u8>, IoErrorKind>>,
> {
    if !s.config.read_after_close && o.closed {
        Outcome::of(s, o, Poll::Ready(None))
    } else if s.pending is Some && o.closed {
        Outcome::of(s, o, Poll::Ready(Some(Err(IoErrorKind::WriteZero))))
    } else if s.pending is Some && o.room == 0 {
        Outcome::of(s, o, Poll::Pending)
    } else if s.shared.buffer.len() > 0 {
        Outcome::of(
            StreamView {
                shared: SharedView { buffer: s.shared.buffer.skip(1), ..s.shared },
                ..s.delivered()
            },
            s.delivery(o),
            Poll::Ready(Some(Ok(s.shared.buffer[0]))),
        )
    } else if !s.shared.state.recv() {
        Outcome::of(s.delivered(), s.delivery(o), Poll::Ready(None))
    } else {
        waiting(s.delivered(), s.delivery(o), waker, Some(Err(IoErrorKind::WriteZero)))
    }
}

/// How many octets of `len` are written at once.
///
/// Neither the credit that is left nor the limit on the size of a single frame is exceeded.
pub open spec fn writable(s: StreamView, len: nat) -> nat {
    let n = if len < s.shared.credit {
        len
    } else {
        s.shared.credit as nat
    };
    if n < s.config.split_send_size {
        n
    } else {
        s.config.split_send_size as nat
    }
}

/// What comes of writing to a stream.
pub open spec fn write_outcome(s: StreamView, o: OutboxView, data: Seq<u8>, waker: Waker) -> Outcome<
    Result<usize, IoErrorKind>,
> {
    if o.closed {
        Outcome::of(s, o, Poll::Ready(Err(IoErrorKind::WriteZero)))
    } else if o.room == 0 {
        Outcome::of(s, o, Poll::Pending)
    } else if !s.shared.state.send() {
        Outcome::of(s, o, Poll::Ready(Err(IoErrorKind::WriteZero)))
    } else if s.shared.credit == 0 {
        Outcome::of(
            StreamView { shared: SharedView { writer: Some(waker), ..s.shared }, ..s },
            o,
            Poll::Pending,
        )
    } else {
        let n = writable(s, data.len());
        Outcome::of(
            StreamView {
                flag: Flag::Nothing,
                shared: SharedView { credit: (s.shared.credit - n) as u32, ..s.shared },
                ..s
            },
            o.sent(s.flag.send(FrameView::data(s.id, data.take(n as int)))),
            Poll::Ready(Ok(n as usize)),
        )
    }
}

/// What comes of closing our direction of a stream.
pub open spec fn close_outcome(s: StreamView, o: OutboxView) -> Outcome<Result<(), IoErrorKind>> {
    if s.shared.state == State::Closed {
        Outcome::of(s, o, Poll::Ready(Ok(())))
    } else if o.closed {
        Outcome::of(s, o, Poll::Ready(Err(IoErrorKind::WriteZero)))
    } else if o.room == 0 {
        Outcome::of(s, o, Poll::Pending)
    } else {
        Outcome::of(
            StreamView {
                flag: if s.flag == Flag::Ack {
                    Flag::Nothing
                } else {
                    s.flag
                },
                shared: s.shared.update_state(State::SendClosed),
                ..s
            },
            o.sent(CommandView::CloseStream { id: s.id, ack: s.flag == Flag::Ack }),
            Poll::Ready(Ok(())),
        )
    }
}

impl Stream {
    /// A new stream.
    pub fn new(id: StreamId, conn: Id, config: Config, window: u32, credit: u32) -> (s: Self)
        ensures
            s@ == StreamView::fresh(id.0, conn, config@, window, credit),
    {
        Stream {
            id,
            conn,
            config,
            flag: Flag::Nothing,
            pending: None,
            retained: true,
            shared: Shared::new(window, credit),
        }
    }

    /// Get this stream's identifier.
    pub fn id(&self) -> (id: StreamId)
        ensures
            id.0 == self@.id,
    {
        self.id
    }

    /// Get the identifier of the connection.
    pub fn conn(&self) -> (id: Id)
        ensures
            id == self@.conn,
    {
        self.conn
    }

    /// Get this stream's state.
    pub fn state(&self) -> (s: State)
        ensures
            s == self@.shared.state,
    {
        self.shared.state()
    }

    /// By how many the stream is held: by the connection, and by its user while it is retained.
    pub fn strong_count(&self) -> (n: usize)
        ensures
            n == if self@.retained {
                2usize
            } else {
                1usize
            },
    {
        if self.retained {
            2
        } else {
            1
        }
    }

    /// Are window updates sent on read?
    pub fn updates_on_read(&self) -> (r: bool)
        ensures
            r == (self@.config.window_update_mode == WindowUpdateMode::OnRead),
    {
        self.config.window_update_mode == WindowUpdateMode::OnRead
    }

    /// The user of the stream gives it up.
    pub fn release(&mut self)
        ensures
            final(self)@ == (StreamView { retained: false, ..old(self)@ }),
    {
        self.retained = false
    }

    /// Set the flag that the next frame will have.
    pub fn set_flag(&mut self, flag: Flag)
        ensures
            final(self)@ == (StreamView { flag, ..old(self)@ }),
    {
        self.flag = flag
    }

    /// What the stream shares with its connection.
    pub fn shared(&self) -> (s: &Shared)
        ensures
            s@ == self@.shared,
    {
        &self.shared
    }

    /// What the stream shares with its connection, to be changed.
    pub fn shared_mut(&mut self) -> (s: &mut Shared)
        ensures
            s@ == old(self)@.shared,
            final(self)@ == (StreamView { shared: final(s)@, ..old(self)@ }),
    {
        &mut self.shared
    }

    /// Set ACK or SYN flag if necessary.
    fn add_flag(&mut self, header: &mut Header<Either<Data, WindowUpdate>>)
        ensures
            final(self)@ == (StreamView { flag: Flag::Nothing, ..old(self)@ }),
            final(header)@ == old(self)@.flag.on(old(header)@),
    {
        match self.flag {
            Flag::Nothing => (),
            Flag::Syn => {
                header.syn();
                self.flag = Flag::Nothing
            },
            Flag::Ack => {
                header.ack();
                self.flag = Flag::Nothing
            },
        }
    }

    /// Send a frame with the flag that is still to be set.
    fn send(&mut self, out: &mut Outbox, frame: Frame<Either<Data, WindowUpdate>>)
        requires
            old(out)@.ready(),
        ensures
            final(self)@ == (StreamView { flag: Flag::Nothing, ..old(self)@ }),
            final(out)@ == old(out)@.sent(old(self)@.flag.send(frame@)),
    {
        let mut frame = frame;
        self.add_flag(frame.header_mut());
        out.start_send(StreamCommand::SendFrame(frame));
    }

    /// Try to deliver any pending window update.
    fn send_pending(&mut self, out: &mut Outbox) -> (r: Poll<Result<(), IoErrorKind>>)
        ensures
            ({
                let (s, o) = (old(self)@, old(out)@);
                if s.pending is Some && !o.ready() {
                    &&& final(self)@ == s
                    &&& final(out)@ == o
                    &&& r == if o.closed {
                        Poll::Ready(Err::<(), IoErrorKind>(IoErrorKind::WriteZero))
                    } else {
                        Poll::Pending
                    }
                } else {
                    &&& final(self)@ == s.delivered()
                    &&& final(out)@ == s.delivery(o)
                    &&& r == Poll::Ready(Ok::<(), IoErrorKind>(()))
                }
            }),
    {
        if self.pending.is_none() {
            return Poll::Ready(Ok(()));
        }
        match out.poll_ready() {
            Poll::Ready(Ok(())) => {},
            Poll::Ready(Err(e)) => return Poll::Ready(Err(e)),
            Poll::Pending => return Poll::Pending,
        }
        if let Some(frame) = self.pending.take() {
            self.send(out, frame.right());
        }
        Poll::Ready(Ok(()))
    }

    /// Wait for more data, and see if a window update has to be sent to the remote.
    fn wait(&mut self, out: &mut Outbox, waker: Waker) -> (r: Poll<IoErrorKind>)
        requires
            old(self)@.wf(),
        ensures
            final(self)@.wf(),
            ({
                let w = waiting(old(self)@, old(out)@, waker, IoErrorKind::WriteZero);
                &&& final(self)@ == w.stream
                &&& final(out)@ == w.outbox
                &&& r == w.result
            }),
    {
        // Since we have no more data at this point, we want to be woken up
        // by the connection when more becomes available for us.
        self.shared.reader = Some(waker);
        // Finally, let's see if we need to send a window update to the remote.
        if self.config.window_update_mode != WindowUpdateMode::OnRead {
            // No, time to go.
            return Poll::Pending;
        }
        let credit: u32 = match self.shared.next_window_update(&self.config) {
            Some(credit) => credit,
            None => return Poll::Pending,
        };
        self.shared.grant(credit);
        // At this point we know we have to send a window update to the remote.
        let frame = Frame::window_update(self.id, credit);
        match out.poll_ready() {
            Poll::Ready(Ok(())) => self.send(out, frame.right()),
            Poll::Ready(Err(e)) => return Poll::Ready(e),
            Poll::Pending => self.pending = Some(frame),
        }
        Poll::Pending
    }

    /// Read the next chunk of data.
    pub fn poll_next(&mut self, out: &mut Outbox, waker: Waker) -> (r: Poll<
        Option<Result<Packet, IoErrorKind>>,
    >)
        requires
            old(self)@.wf(),
        ensures
            final(self)@.wf(),
            ({
                let next = next_outcome(old(self)@, old(out)@, waker);
                &&& final(self)@ == next.stream
                &&& final(out)@ == next.outbox
                &&& match (r, next.result) {
                    (Poll::Ready(Some(Ok(p))), Poll::Ready(Some(Ok(chunk)))) => p@ == chunk,
                    (Poll::Ready(Some(Err(e))), Poll::Ready(Some(Err(f)))) => e == f,
                    (Poll::Ready(None), Poll::Ready(None)) => true,
                    (Poll::Pending, Poll::Pending) => true,
                    _ => false,
                }
            }),
    {
        if !self.config.read_after_close && out.is_closed() {
            return Poll::Ready(None);
        }
        match self.send_pending(out) {
            Poll::Ready(Ok(())) => {},
            Poll::Ready(Err(e)) => return Poll::Ready(Some(Err(e))),
            Poll::Pending => return Poll::Pending,
        }
        if let Some(bytes) = self.shared.buffer.pop() {
            return Poll::Ready(Some(Ok(Packet(bytes))));
        }
        // Buffer is empty, let's check if we can expect to read more data.
        if !self.shared.state.can_read() {
            return Poll::Ready(None);
        }
        match self.wait(out, waker) {
            Poll::Ready(e) => Poll::Ready(Some(Err(e))),
            Poll::Pending => Poll::Pending,
        }
    }

    /// Like [`Stream::poll_next`], but copies bytes into the provided mutable slice.
    pub fn poll_read(&mut self, out: &mut Outbox, waker: Waker, buf: &mut [u8]) -> (r: Poll<
        Result<usize, IoErrorKind>,
    >)
        requires
            old(self)@.wf(),
        ensures
            final(self)@.wf(),
            ({
                let read = read_outcome(old(self)@, old(out)@, old(buf)@.len(), waker);
                &&& final(self)@ == read.stream
                &&& final(out)@ == read.outbox
                &&& r == read.result
            }),
            final(buf)@ == match r {
                Poll::Ready(Ok(n)) => filled(old(buf)@, old(self)@.shared.buffer, n as nat),
                _ => old(buf)@,
            },
    {
        if !self.config.read_after_close && out.is_closed() {
            return Poll::Ready(Ok(0));
        }
        match self.send_pending(out) {
            Poll::Ready(Ok(())) => {},
            Poll::Ready(Err(e)) => return Poll::Ready(Err(e)),
            Poll::Pending => return Poll::Pending,
        }
        // Copy data from stream buffer.
        let n: usize = self.shared.buffer.read(buf);
        if n > 0 {
            return Poll::Ready(Ok(n));
        }
        assert(buf@ =~= old(buf)@);
        // Buffer is empty, let's check if we can expect to read more data.
        if !self.shared.state.can_read() {
            return Poll::Ready(Ok(0));
        }
        match self.wait(out, waker) {
            Poll::Ready(e) => Poll::Ready(Err(e)),
            Poll::Pending => Poll::Pending,
        }
    }

    /// Send as much of the data as possible in one frame, and tell how much.
    pub fn poll_write(&mut self, out: &mut Outbox, waker: Waker, buf: &[u8]) -> (r: Poll<
        Result<usize, IoErrorKind>,
    >)
        requires
            old(self)@.wf(),
            buf@.len() <= isize::MAX,
        ensures
            final(self)@.wf(),
            ({
                let written = write_outcome(old(self)@, old(out)@, buf@, waker);
                &&& final(self)@ == written.stream
                &&& final(out)@ == written.outbox
                &&& r == written.result
            }),
    {
        match out.poll_ready() {
            Poll::Ready(Ok(())) => {},
            Poll::Ready(Err(e)) => return Poll::Ready(Err(e)),
            Poll::Pending => return Poll::Pending,
        }
        if !self.shared.state.can_write() {
            return Poll::Ready(Err(IoErrorKind::WriteZero));
        }
        if self.shared.credit == 0 {
            self.shared.writer = Some(waker);
            return Poll::Pending;
        }
        let k: usize = if buf.len() < self.shared.credit as usize {
            buf.len()
        } else {
            self.shared.credit as usize
        };
        let k: usize = if k < self.config.split_send_size {
            k
        } else {
            self.config.split_send_size
        };
        self.shared.credit -= k as u32;
        match Frame::data(self.id, slice_subrange(buf, 0, k)) {
            Ok(frame) => {
                assert(frame@.body =~= buf@.take(k as int));
                self.send(out, frame.left())
            },
            Err(_) => {},
        }
        Poll::Ready(Ok(k))
    }

    /// Every frame is handed to the connection at once, so there is nothing to flush.
    pub fn poll_flush(&mut self) -> (r: Poll<Result<(), IoErrorKind>>)
        ensures
            final(self)@ == old(self)@,
            r == Poll::Ready(Ok::<(), IoErrorKind>(())),
    {
        Poll::Ready(Ok(()))
    }

    /// Close our direction of the stream.
    pub fn poll_close(&mut self, out: &mut Outbox) -> (r: Poll<Result<(), IoErrorKind>>)
        requires
            old(self)@.wf(),
        ensures
            final(self)@.wf(),
            ({
                let closed = close_outcome(old(self)@, old(out)@);
                &&& final(self)@ == closed.stream
                &&& final(out)@ == closed.outbox
                &&& r == closed.result
            }),
    {
        if self.state() == State::Closed {
            return Poll::Ready(Ok(()));
        }
        match out.poll_ready() {
            Poll::Ready(Ok(())) => {},
            Poll::Ready(Err(e)) => return Poll::Ready(Err(e)),
            Poll::Pending => return Poll::Pending,
        }
        let ack = if self.flag == Flag::Ack {
            self.flag = Flag::Nothing;
            true
        } else {
            false
        };
        out.start_send(StreamCommand::CloseStream { id: self.id, ack });
        self.shared.update_state(State::SendClosed);
        Poll::Ready(Ok(()))
    }
}

} // verus!
