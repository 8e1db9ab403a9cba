//! Streams that hand items to a sender, which delivers them to the remote.

pub mod laws;

use crate::buffer::{buffer_of, bytes_of};
use crate::chunks::{filled, readable, total, unread, Chunks};
use crate::error::IoErrorKind;
use crate::task::Wakers;
use crate::{Config, ConfigView, Poll, WindowUpdateMode};
use bytes::{Bytes, BytesMut};
use std::task::Waker;
use vstd::prelude::*;
use vstd::slice::slice_subrange;

verus! {

/// The identifier that denotes no particular stream but the whole session.
pub const CONNECTION_ID: u32 = 0;

/// The identifier of a stream.
#[derive(Copy, Clone, Debug, Hash, PartialEq, Eq, PartialOrd, Ord, Structural)]
pub struct Id(u32);

impl View for Id {
    type V = u32;

    closed spec fn view(&self) -> u32 {
        self.0
    }
}

impl Id {
    /// The identifier with the given number.
    pub fn new(id: u32) -> (r: Id)
        ensures
            r@ == id,
    {
        Id(id)
    }

    /// Are streams with this identifier opened by the server?
    pub fn is_server(self) -> (r: bool)
        ensures
            r == (self@ % 2 == 0),
    {
        self.0 % 2 == 0
    }

    /// Are streams with this identifier opened by the client?
    pub fn is_client(self) -> (r: bool)
        ensures
            r == (self@ % 2 == 1),
    {
        !self.is_server()
    }

    /// Does this identifier denote the whole session?
    pub fn is_session(self) -> (r: bool)
        ensures
            r == (self@ == CONNECTION_ID),
    {
        self.0 == CONNECTION_ID
    }

    /// The identifier as a number.
    pub fn as_u32(self) -> (n: u32)
        ensures
            n == self@,
    {
        self.0
    }
}

/// The states of a yamux [`Stream`].
#[derive(Copy, Clone, Debug, PartialEq, Eq, Structural)]
pub enum State {
    /// Stream can read and write.
    Open,
    /// Stream can no longer write data.
    ReadOnly,
    /// Stream can no longer read data.
    WriteOnly,
    /// Stream can neither read nor write data.
    Closed,
}

impl State {
    /// Can the stream be read from?
    pub open spec fn reads(self) -> bool {
        self == State::Open || self == State::ReadOnly
    }

    /// Can the stream be written to?
    pub open spec fn writes(self) -> bool {
        self == State::Open || self == State::WriteOnly
    }

    /// The state in which a stream can be read from or written to only if it can in both states.
    pub open spec fn meet(self, other: State) -> State {
        let reads = self.reads() && other.reads();
        let writes = self.writes() && other.writes();
        if reads && writes {
            State::Open
        } else if reads {
            State::ReadOnly
        } else if writes {
            State::WriteOnly
        } else {
            State::Closed
        }
    }

    /// Can the stream be read from?
    pub fn can_read(self) -> (r: bool)
        ensures
            r == self.reads(),
    {
        match self {
            State::WriteOnly | State::Closed => false,
            _ => true,
        }
    }

    /// Can the stream be written to?
    pub fn can_write(self) -> (r: bool)
        ensures
            r == self.writes(),
    {
        match self {
            State::ReadOnly | State::Closed => false,
            _ => true,
        }
    }
}

/// Items are sent to the connection's sender for delivery to
/// the remote endpoint.
#[derive(Debug)]
pub enum Item {
    /// Send data to remote.
    Data(BytesMut),
    /// Flush the connection.
    Flush,
    /// Grant credit to remote.
    Credit,
    /// Tell remote we stopped writing data.
    HalfClose,
}

/// What an [`Item`] says.
pub enum ItemView {
    Data(Seq<u8>),
    Flush,
    Credit,
    HalfClose,
}

impl View for Item {
    type V = ItemView;

    open spec fn view(&self) -> ItemView {
        match self {
            Item::Data(b) => ItemView::Data(buffer_of(*b)),
            Item::Flush => ItemView::Flush,
            Item::Credit => ItemView::Credit,
            Item::HalfClose => ItemView::HalfClose,
        }
    }
}

/// The sending half of an unbounded channel from a stream to the sender.
///
/// The items in it are to be put into the channel, in their order.
#[derive(Debug)]
pub struct Outgoing {
    closed: bool,
    items: Vec<Item>,
}

/// What an [`Outgoing`] channel holds.
pub struct OutgoingView {
    pub closed: bool,
    pub items: Seq<ItemView>,
}

impl View for Outgoing {
    type V = OutgoingView;

    closed spec fn view(&self) -> OutgoingView {
        OutgoingView { closed: self.closed, items: self.items@.map_values(|i: Item| i@) }
    }
}

impl OutgoingView {
    /// The same channel after another item, unless the channel is closed.
    pub open spec fn sent(self, i: ItemView) -> OutgoingView {
        if self.closed {
            self
        } else {
            OutgoingView { items: self.items.push(i), ..self }
        }
    }
}

impl Outgoing {
    /// A channel with nothing in it.
    pub fn new(closed: bool) -> (o: Self)
        ensures
            o@ == (OutgoingView { closed, items: Seq::empty() }),
    {
        let o = Outgoing { closed, items: Vec::new() };
        assert(o@.items =~= Seq::empty());
        o
    }

    /// Send an item. This fails only if the channel is closed.
    pub fn unbounded_send(&mut self, i: Item) -> (r: Result<(), ()>)
        ensures
            r is Err <==> old(self)@.closed,
            final(self)@ == old(self)@.sent(i@),
    {
        if self.closed {
            return Err(());
        }
        self.items.push(i);
        assert(self@.items =~= old(self)@.items.push(i@));
        Ok(())
    }

    /// The items that were sent, in their order.
    pub fn into_items(self) -> (v: Vec<Item>)
        ensures
            v@.map_values(|i: Item| i@) == self@.items,
    {
        self.items
    }
}

/// Stream representation as shared with the connection.
#[derive(Debug)]
pub struct StreamRepr {
    /// Stream ID.
    id: Id,
    /// Configuration.
    config: Config,
    /// Incoming bytes buffer.
    buf: Chunks,
    /// Write credit.
    credit: u32,
    /// Remaining window for incoming bytes.
    window: u32,
    /// Task waiting for incoming data.
    read_task: Option<Waker>,
    /// Task waiting to write data.
    write_task: Option<Waker>,
    /// Stream state.
    state: State,
    /// Connection status.
    connected: bool,
}

/// What a [`StreamRepr`] holds.
pub struct ReprView {
    pub id: u32,
    pub config: ConfigView,
    pub buf: Seq<Seq<u8>>,
    pub credit: u32,
    pub window: u32,
    pub read_task: Option<Waker>,
    pub write_task: Option<Waker>,
    pub state: State,
    pub connected: bool,
}

impl View for StreamRepr {
    type V = ReprView;

    closed spec fn view(&self) -> ReprView {
        ReprView {
            id: self.id@,
            config: self.config@,
            buf: self.buf@,
            credit: self.credit,
            window: self.window,
            read_task: self.read_task,
            write_task: self.write_task,
            state: self.state,
            connected: self.connected,
        }
    }
}

impl ReprView {
    /// The same with a new state: a stream that can no longer be read from or written to never can
    /// again.
    pub open spec fn updated(self, s: State) -> ReprView {
        ReprView { state: self.state.meet(s), ..self }
    }

    /// The same with more data, and the task that is to be notified.
    pub open spec fn with_data(self, data: Seq<u8>) -> (Option<Waker>, ReprView) {
        (
            self.read_task,
            ReprView {
                buf: if data.len() == 0 {
                    self.buf
                } else {
                    self.buf.push(data)
                },
                read_task: None,
                ..self
            },
        )
    }

    /// The same with more credit, as far as it can be counted, and the task that is to be notified.
    pub open spec fn with_credit(self, n: u32) -> (Option<Waker>, ReprView) {
        (
            self.write_task,
            ReprView {
                credit: if self.credit + n <= u32::MAX {
                    (self.credit + n) as u32
                } else {
                    u32::MAX
                },
                write_task: None,
                ..self
            },
        )
    }

    /// The same with less of the window left.
    pub open spec fn received(self, n: u32) -> ReprView {
        ReprView {
            window: if n <= self.window {
                (self.window - n) as u32
            } else {
                0
            },
            ..self
        }
    }

    /// The same with nobody waiting, and the tasks that are to be notified.
    pub open spec fn notified(self) -> (Wakers, ReprView) {
        (
            Wakers { reader: self.read_task, writer: self.write_task },
            ReprView { read_task: None, write_task: None, ..self },
        )
    }
}

impl StreamRepr {
    /// A new stream that has this credit in both directions.
    pub fn new(id: Id, cfg: Config, credit: u32) -> (s: Self)
        ensures
            s@ == (ReprView {
                id: id@,
                config: cfg@,
                buf: Seq::empty(),
                credit,
                window: credit,
                read_task: None,
                write_task: None,
                state: State::Open,
                connected: true,
            }),
    {
        StreamRepr {
            id,
            config: cfg,
            buf: Chunks::new(),
            credit,
            window: credit,
            read_task: None,
            write_task: None,
            state: State::Open,
            connected: true,
        }
    }

    /// Stream ID.
    pub fn id(&self) -> (id: Id)
        ensures
            id@ == self@.id,
    {
        self.id
    }

    /// Current stream state.
    pub fn state(&self) -> (s: State)
        ensures
            s == self@.state,
    {
        self.state
    }

    /// Update stream state.
    /// Returns state the streams transitions to.
    pub fn update_state(&mut self, s: State) -> (r: State)
        ensures
            final(self)@ == old(self)@.updated(s),
            r == final(self)@.state,
    {
        match (self.state, s) {
            (State::Open, State::WriteOnly) => { self.state = State::WriteOnly },
            (State::Open, State::ReadOnly) => { self.state = State::ReadOnly },
            (State::ReadOnly, State::WriteOnly) => { self.state = State::Closed },
            (State::WriteOnly, State::ReadOnly) => { self.state = State::Closed },
            (_, State::Closed) => { self.state = State::Closed },
            (_, State::Open) => {},
            (State::Closed, _) => {},
            (State::ReadOnly, State::ReadOnly) => {},
            (State::WriteOnly, State::WriteOnly) => {},
        }
        self.state
    }

    /// Inform this stream that the connection is closed.
    pub fn disconnected(&mut self)
        ensures
            final(self)@ == (ReprView { connected: false, ..old(self)@ }),
    {
        self.connected = false
    }

    /// Add incoming data to buffer and notify pending read tasks if any.
    pub fn add_data(&mut self, data: Bytes) -> (w: Option<Waker>)
        ensures
            (w, final(self)@) == old(self)@.with_data(bytes_of(data)),
    {
        self.buf.push(data);
        self.read_task.take()
    }

    /// Add credit and notify pending write tasks if any.
    pub fn add_credit(&mut self, n: u32) -> (w: Option<Waker>)
        ensures
            (w, final(self)@) == old(self)@.with_credit(n),
    {
        self.credit = self.credit.saturating_add(n);
        self.write_task.take()
    }

    /// Get total incoming buffer length in bytes.
    pub fn buflen(&self) -> (n: Option<usize>)
        ensures
            n == if total(self@.buf) <= usize::MAX {
                Some(total(self@.buf) as usize)
            } else {
                None
            },
    {
        self.buf.len()
    }

    /// Get remaining receive window.
    pub fn window(&self) -> (n: u32)
        ensures
            n == self@.window,
    {
        self.window
    }

    /// Decrease receive window.
    pub fn decrement_window(&mut self, n: u32) -> (r: u32)
        ensures
            final(self)@ == old(self)@.received(n),
            r == final(self)@.window,
    {
        self.window = self.window.saturating_sub(n);
        self.window
    }

    /// Set receive window to given size.
    pub fn set_window(&mut self, n: u32)
        ensures
            final(self)@ == (ReprView { window: n, ..old(self)@ }),
    {
        self.window = n
    }

    /// Notify read and write tasks.
    pub fn notify_tasks(&mut self) -> (w: Wakers)
        ensures
            (w, final(self)@) == old(self)@.notified(),
    {
        Wakers { writer: self.write_task.take(), reader: self.read_task.take() }
    }
}

/// A yamux connection stream.
#[derive(Debug)]
pub struct Stream {
    /// Stream representation as shared with the connection.
    repr: StreamRepr,
    /// The channel to send outgoing items to.
    outgoing: Outgoing,
}

/// What a [`Stream`] holds.
pub struct StreamView {
    pub repr: ReprView,
    pub outgoing: OutgoingView,
}

impl View for Stream {
    type V = StreamView;

    closed spec fn view(&self) -> StreamView {
        StreamView { repr: self.repr@, outgoing: self.outgoing@ }
    }
}

/// What comes of reading at most `room` octets.
///
/// What is buffered is read. If nothing is, the end of the stream is reached or the task has to wait.
/// In the latter case, if window updates are sent on read and the window is used up, the remote is
/// given a new one.
pub open spec fn read_outcome(s: StreamView, room: nat, task: Waker) -> (
    StreamView,
    Result<usize, IoErrorKind>,
) {
    let n = readable(s.repr.buf, room);
    let read = ReprView { buf: unread(s.repr.buf, room), ..s.repr };
    let waits = ReprView { read_task: Some(task), ..read };
    if !s.repr.connected && !s.repr.config.read_after_close {
        (s, Ok(0))
    } else if n > 0 || !s.repr.state.reads() {
        (StreamView { repr: read, ..s }, Ok(n as usize))
    } else if s.repr.window > 0 || s.repr.config.window_update_mode != WindowUpdateMode::OnRead {
        (StreamView { repr: waits, ..s }, Err(IoErrorKind::WouldBlock))
    } else if s.outgoing.closed {
        (StreamView { repr: ReprView { state: State::Closed, ..read }, ..s }, Ok(0))
    } else {
        (
            StreamView {
                repr: ReprView { window: s.repr.config.receive_window, ..waits },
                outgoing: s.outgoing.sent(ItemView::Credit),
            },
            Err(IoErrorKind::WouldBlock),
        )
    }
}

/// What comes of writing.
///
/// No more is written than there is credit. Once the credit is used up, what was written is flushed.
pub open spec fn write_outcome(s: StreamView, data: Seq<u8>, task: Waker) -> (
    StreamView,
    Result<usize, IoErrorKind>,
) {
    let n = if data.len() < s.repr.credit {
        data.len()
    } else {
        s.repr.credit as nat
    };
    let sent = s.outgoing.sent(ItemView::Data(data.take(n as int)));
    if !s.repr.state.writes() {
        (s, Err(IoErrorKind::WriteZero))
    } else if s.repr.credit == 0 {
        (
            StreamView { repr: ReprView { write_task: Some(task), ..s.repr }, ..s },
            Err(IoErrorKind::WouldBlock),
        )
    } else if s.outgoing.closed {
        (write_closed(s), Err(IoErrorKind::WriteZero))
    } else {
        (
            StreamView {
                repr: ReprView { credit: (s.repr.credit - n) as u32, ..s.repr },
                outgoing: if n == s.repr.credit {
                    sent.sent(ItemView::Flush)
                } else {
                    sent
                },
            },
            Ok(n as usize),
        )
    }
}

/// The same stream, which cannot be written to any more.
pub open spec fn write_closed(s: StreamView) -> StreamView {
    StreamView { repr: ReprView { state: s.repr.state.meet(State::ReadOnly), ..s.repr }, ..s }
}

/// What comes of having everything delivered that was written.
pub open spec fn flush_outcome(s: StreamView) -> (StreamView, Result<(), IoErrorKind>) {
    if !s.repr.state.writes() {
        (s, Ok(()))
    } else if s.outgoing.closed {
        (write_closed(s), Err(IoErrorKind::Other))
    } else {
        (StreamView { outgoing: s.outgoing.sent(ItemView::Flush), ..s }, Ok(()))
    }
}

/// The same stream once writing was stopped.
pub open spec fn shut_down(s: StreamView) -> StreamView {
    if s.repr.state.writes() {
        StreamView { outgoing: s.outgoing.sent(ItemView::HalfClose), ..write_closed(s) }
    } else {
        s
    }
}

impl Stream {
    /// A stream that sends its items to this channel.
    pub fn new(sr: StreamRepr, outgoing: Outgoing) -> (s: Self)
        ensures
            s@ == (StreamView { repr: sr@, outgoing: outgoing@ }),
    {
        Self { repr: sr, outgoing }
    }

    /// Get current stream state.
    pub fn state(&self) -> (s: State)
        ensures
            s == self@.repr.state,
    {
        self.repr.state()
    }

    /// What the stream shares with its connection, and the channel to send outgoing items to.
    pub fn into_parts(self) -> (r: (StreamRepr, Outgoing))
        ensures
            r.0@ == self@.repr,
            r.1@ == self@.outgoing,
    {
        (self.repr, self.outgoing)
    }

    /// Read what is buffered.
    pub fn read(&mut self, buf: &mut [u8], task: Waker) -> (r: Result<usize, IoErrorKind>)
        ensures
            ({
                let (s, n) = read_outcome(old(self)@, old(buf)@.len(), task);
                final(self)@ == s && r == n
            }),
            final(buf)@ == match r {
                Ok(n) => filled(old(buf)@, old(self)@.repr.buf, n as nat),
                Err(_) => old(buf)@,
            },
    {
        if !(self.repr.connected || self.repr.config.read_after_close) {
            return Ok(0);
        }
        let n: usize = self.repr.buf.read(buf);
        if n > 0 {
            return Ok(n);
        }
        assert(buf@ =~= old(buf)@);
        if !self.repr.state.can_read() {
            return Ok(0);
        }
        if self.repr.window == 0 && self.repr.config.window_update_mode
            == WindowUpdateMode::OnRead {
            if self.outgoing.unbounded_send(Item::Credit).is_err() {
                self.repr.update_state(State::Closed);
                return Ok(0);
            }
            self.repr.window = self.repr.config.receive_window;
        }
        self.repr.read_task = Some(task);
        Err(IoErrorKind::WouldBlock)
    }

    /// Write as much as there is credit.
    pub fn write(&mut self, buf: &[u8], task: Waker) -> (r: Result<usize, IoErrorKind>)
        requires
            buf@.len() <= isize::MAX,
        ensures
            ({
                let (s, n) = write_outcome(old(self)@, buf@, task);
                final(self)@ == s && r == n
            }),
    {
        if !self.repr.state.can_write() {
            return Err(IoErrorKind::WriteZero);
        }
        if self.repr.credit == 0 {
            self.repr.write_task = Some(task);
            return Err(IoErrorKind::WouldBlock);
        }
        let k: usize = if buf.len() < self.repr.credit as usize {
            buf.len()
        } else {
            self.repr.credit as usize
        };
        let mut b = BytesMut::new();
        b.extend_from_slice(slice_subrange(buf, 0, k));
        assert(buffer_of(b) =~= buf@.take(k as int));
        if self.outgoing.unbounded_send(Item::Data(b)).is_err() {
            self.repr.update_state(State::ReadOnly);
            return Err(IoErrorKind::WriteZero);
        }
        self.repr.credit = self.repr.credit.saturating_sub(k as u32);
        if self.repr.credit == 0 {
            if self.outgoing.unbounded_send(Item::Flush).is_err() {
                self.repr.update_state(State::ReadOnly);
                return Err(IoErrorKind::WriteZero);
            }
        }
        Ok(k)
    }

    /// Have everything delivered that was written.
    pub fn flush(&mut self) -> (r: Result<(), IoErrorKind>)
        ensures
            (final(self)@, r) == flush_outcome(old(self)@),
    {
        if self.repr.state.can_write() {
            if self.outgoing.unbounded_send(Item::Flush).is_err() {
                self.repr.update_state(State::ReadOnly);
                return Err(IoErrorKind::Other);
            }
        }
        Ok(())
    }

    /// Stop writing.
    pub fn shutdown(&mut self) -> (r: Poll<Result<(), IoErrorKind>>)
        ensures
            r == Poll::Ready(Ok::<(), IoErrorKind>(())),
            final(self)@ == shut_down(old(self)@),
    {
        if !self.repr.state.can_write() {
            return Poll::Ready(Ok(()));
        }
        let _ = self.outgoing.unbounded_send(Item::HalfClose);
        self.repr.update_state(State::ReadOnly);
        Poll::Ready(Ok(()))
    }
}

/// A stream that can no longer be read from or written to never can again, and it makes no difference
/// in which order, or how often, this happens.
pub proof fn law_closed_stays_closed(a: State, b: State, c: State)
    ensures
        a.meet(b).reads() ==> a.reads() && b.reads(),
        a.meet(b).writes() ==> a.writes() && b.writes(),
        a.meet(b) == b.meet(a),
        a.meet(b).meet(c) == a.meet(b.meet(c)),
        a.meet(a) == a,
{
}

/// What is written costs as much credit as is sent, and everything that is written is flushed once the
/// credit is used up.
pub proof fn law_write_costs_credit(s: StreamView, data: Seq<u8>, task: Waker)
    requires
        write_outcome(s, data, task).1 is Ok,
    ensures
        ({
            let (t, n) = write_outcome(s, data, task);
            &&& t.repr.credit + n->Ok_0 == s.repr.credit
            &&& t.outgoing.items[s.outgoing.items.len() as int] == ItemView::Data(
                data.take(n->Ok_0 as int),
            )
            &&& t.repr.credit == 0 ==> t.outgoing.items.last() == ItemView::Flush
        }),
{
}

} // verus!
