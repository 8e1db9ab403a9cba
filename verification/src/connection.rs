//! This module contains the `Connection` type and associated helpers.
//!
//! The `Connection` updates the `Stream` state based on incoming frames, e.g. it pushes incoming data
//! to the `Stream`'s buffer or increases the sending credit if the remote has sent us a corresponding
//! window update. It performs no I/O itself: whoever drives it tells it what has happened, and does
//! what it says.
//!
//! Closing a `Connection`
//! ----------------------
//!
//! Every control may send a [`ControlCommand::CloseConnection`] at any time and then waits for
//! confirmation that the connection is closed. The closing proceeds as follows:
//!
//! 1. As soon as we receive the close command the receiver of `StreamCommand`s is to be closed. We
//!    want to process any stream commands which are already enqueued at this point but no more.
//! 2. We change the internal shutdown state to `Shutdown::InProgress` which contains the reply of the
//!    control which triggered the closure and which we need to notify eventually.
//! 3. Crucially -- while closing -- we no longer process further control commands, because opening
//!    new streams should no longer be allowed. On the other hand the control channel is not closed
//!    either, as this would signal that the connection is already closed, which it is not. So it is
//!    just paused.
//! 4. We keep processing I/O and stream commands until the remaining stream commands have all been
//!    consumed, at which point we transition the shutdown state to `Shutdown::Complete`, which entails
//!    sending the final termination frame to the remote, informing the control and now also closing
//!    the control channel.
//! 5. Now that we are closed we go through all pending control commands and tell the controls that we
//!    are closed and we are finally done.

pub mod cleanup;
pub mod closing;
pub mod command;
pub mod command_receivers;
pub mod control;
pub mod laws;
pub mod sender;
pub mod stream;
pub mod substream;

use crate::chunks::total;
use crate::connection::command::{CommandView, StreamCommand};
use crate::connection::stream::{Flag, SharedView, State, Stream, StreamView};
use crate::error::{ConnectionError, IoErrorKind};
use crate::frame::header::{
    Data, Flags, GoAway, Header, HeaderView, Ping, StreamId, Tag, WindowUpdate, ACK, CONNECTION_ID,
    FIN, RST, SYN,
};
use crate::frame::{Frame, FrameView};
use crate::int_map::{
    contains_key, get, get_mut, insert, keys_of, lemma_walk_begins, lemma_walk_ends,
    lemma_walk_goes_on, len_of, new_map, remove, walked,
};
use crate::task::Wakers;
use crate::{Config, ConfigView, Poll, WindowUpdateMode, DEFAULT_CREDIT};
use nohash_hasher::IntMap;
use vstd::prelude::*;

verus! {

/// How the connection is used.
#[derive(Copy, Clone, Debug, Hash, PartialEq, Eq, Structural)]
pub enum Mode {
    /// Client to server connection.
    Client,
    /// Server to client connection.
    Server,
}

impl Mode {
    /// Does this side open streams with that identifier?
    pub open spec fn ours(self, id: u32) -> bool {
        match self {
            Mode::Client => id % 2 == 1,
            Mode::Server => id % 2 == 0,
        }
    }
}

/// The connection identifier.
///
/// Randomly generated, this is mainly intended to improve log output.
#[derive(Clone, Copy, Debug, PartialEq, Eq, Structural)]
pub struct Id(pub u32);

/// `rand::random` is any number: nothing is said of it.
#[verifier::external_body]
fn random_number() -> (n: u32)
{
    rand::random()
}

impl Id {
    /// Create a random connection ID.
    ///
    /// Any identifier can come out.
    pub fn random() -> (id: Self)
    {
        Id(random_number())
    }
}

/// Control to `Connection` commands, along with the means to reply.
#[derive(Debug)]
pub enum ControlCommand<O, C> {
    /// Open a new stream to the remote end.
    OpenStream(O),
    /// Close the whole connection.
    CloseConnection(C),
}

/// This enum captures the various stages of shutting down the connection.
#[derive(Debug)]
pub enum Shutdown<C> {
    /// We are open for business.
    NotStarted,
    /// We have received a [`ControlCommand::CloseConnection`] and are shutting
    /// down operations. The control will be informed once we are done.
    InProgress(C),
    /// The shutdown is complete and we are closed for good.
    Complete,
}

impl<C> Shutdown<C> {
    /// Are we open for business?
    pub fn has_not_started(&self) -> (r: bool)
        ensures
            r == (self is NotStarted),
    {
        matches!(self, Shutdown::NotStarted)
    }

    /// Are we shutting down?
    pub fn is_in_progress(&self) -> (r: bool)
        ensures
            r == (self is InProgress),
    {
        matches!(self, Shutdown::InProgress(_))
    }

    /// Are we closed for good?
    pub fn is_complete(&self) -> (r: bool)
        ensures
            r == (self is Complete),
    {
        matches!(self, Shutdown::Complete)
    }
}

/// Possible actions as a result of incoming frame handling.
#[derive(Debug)]
pub enum Action {
    /// Nothing to be done.
    Nothing,
    /// A new stream has been opened by the remote.
    New(StreamId, Option<Frame<WindowUpdate>>),
    /// A window update should be sent to the remote.
    Update(Frame<WindowUpdate>),
    /// A ping should be answered.
    Ping(Frame<Ping>),
    /// A stream should be reset.
    Reset(Frame<Data>),
    /// The connection should be terminated.
    Terminate(Frame<GoAway>),
}

/// What an [`Action`] says.
pub enum ActionView {
    Nothing,
    New(u32, Option<FrameView>),
    Update(FrameView),
    Ping(FrameView),
    Reset(FrameView),
    Terminate(FrameView),
}

impl View for Action {
    type V = ActionView;

    open spec fn view(&self) -> ActionView {
        match self {
            Action::Nothing => ActionView::Nothing,
            Action::New(id, f) => ActionView::New(
                id.0,
                match f {
                    Some(f) => Some(f@),
                    None => None,
                },
            ),
            Action::Update(f) => ActionView::Update(f@),
            Action::Ping(f) => ActionView::Ping(f@),
            Action::Reset(f) => ActionView::Reset(f@),
            Action::Terminate(f) => ActionView::Terminate(f@),
        }
    }
}

/// A Yamux connection object.
///
/// A control that wants to close the connection gives something of type `C` along, by which it can be
/// told that the connection is closed.
#[derive(Debug)]
pub struct Connection<C> {
    id: Id,
    mode: Mode,
    config: Config,
    next_id: u32,
    streams: IntMap<u32, Stream>,
    shutdown: Shutdown<C>,
    is_closed: bool,
}

/// What a [`Connection`] holds.
pub struct ConnectionView<C> {
    pub id: Id,
    pub mode: Mode,
    pub config: ConfigView,
    /// The identifier of the next stream that we open.
    pub next_id: u32,
    pub streams: Map<u32, StreamView>,
    pub shutdown: Shutdown<C>,
    pub is_closed: bool,
}

impl<C> View for Connection<C> {
    type V = ConnectionView<C>;

    closed spec fn view(&self) -> ConnectionView<C> {
        ConnectionView {
            id: self.id,
            mode: self.mode,
            config: self.config@,
            next_id: self.next_id,
            streams: self.streams@.map_values(|s: Stream| s@),
            shutdown: self.shutdown,
            is_closed: self.is_closed,
        }
    }
}

impl<C> ConnectionView<C> {
    /// A connection without streams.
    pub open spec fn fresh(id: Id, config: ConfigView, mode: Mode) -> ConnectionView<C> {
        ConnectionView {
            id,
            mode,
            config,
            next_id: match mode {
                Mode::Client => 1,
                Mode::Server => 2,
            },
            streams: Map::empty(),
            shutdown: Shutdown::NotStarted,
            is_closed: false,
        }
    }

    /// What holds of every connection.
    ///
    /// There are never more streams than configured. Each stream is found under its own identifier,
    /// and no identifier that we will give to a stream is in use.
    pub open spec fn wf(self) -> bool {
        &&& self.config.wf()
        &&& self.mode.ours(self.next_id)
        &&& self.streams.dom().finite()
        &&& self.streams.len() <= self.config.max_num_streams
        &&& forall|k: u32| #[trigger]
            self.streams.contains_key(k) ==> {
                &&& self.stream_wf(k, self.streams[k])
                &&& self.mode.ours(k) ==> k < self.next_id
            }
    }

    /// A stream that belongs to this connection.
    pub open spec fn stream_wf(self, k: u32, s: StreamView) -> bool {
        &&& s.id == k
        &&& s.conn == self.id
        &&& s.config == self.config
        &&& s.wf()
    }

    /// The same connection with a new or changed stream.
    pub open spec fn with(self, id: u32, s: StreamView) -> ConnectionView<C> {
        ConnectionView { streams: self.streams.insert(id, s), ..self }
    }

    /// The same connection with a change to one of its streams.
    pub open spec fn with_shared(self, id: u32, s: SharedView) -> ConnectionView<C> {
        self.with(id, StreamView { shared: s, ..self.streams[id] })
    }

    /// Is there no room for another stream?
    pub open spec fn full(self) -> bool {
        self.streams.len() >= self.config.max_num_streams
    }
}

/// What comes of an incoming frame.
pub struct Reaction<C> {
    /// The connection afterwards.
    pub conn: ConnectionView<C>,
    /// What is to be done.
    pub action: ActionView,
    /// The tasks that are to be woken up.
    pub wakers: Wakers,
}

impl<C> Reaction<C> {
    /// The connection stays as it is.
    pub open spec fn only(conn: ConnectionView<C>, action: ActionView) -> Reaction<C> {
        Reaction { conn, action, wakers: Wakers::nobody() }
    }
}

/// A frame that resets a stream.
pub open spec fn reset_frame(id: u32) -> FrameView {
    FrameView::bare(HeaderView::plain(Tag::Data, id, 0).with(RST))
}

/// The remote resets a stream: it is closed, and whoever waits for it is woken up.
///
/// A stream that is not known is none of our business.
pub open spec fn reset_outcome<C>(c: ConnectionView<C>, id: u32) -> Reaction<C> {
    if c.streams.contains_key(id) {
        let s = c.streams[id].shared;
        Reaction {
            conn: c.with_shared(id, s.update_state(State::Closed).woken()),
            action: ActionView::Nothing,
            wakers: s.waiting(),
        }
    } else {
        Reaction::only(c, ActionView::Nothing)
    }
}

/// The stream that the remote opens with a data frame, and the credit that it is given at once.
pub open spec fn opened_by_data<C>(c: ConnectionView<C>, f: FrameView) -> (
    StreamView,
    Option<FrameView>,
) {
    let id = f.header.stream_id;
    let fresh = StreamView::fresh(id, c.id, c.config, DEFAULT_CREDIT, DEFAULT_CREDIT);
    let shared = if f.header.has(FIN) {
        fresh.shared.update_state(State::RecvClosed).received(f.body)
    } else {
        fresh.shared.received(f.body)
    };
    match shared.due(c.config) {
        Some(credit) if c.config.window_update_mode == WindowUpdateMode::OnReceive => (
            StreamView {
                shared: SharedView { window: (shared.window + credit) as u32, ..shared },
                ..fresh
            },
            Some(FrameView::window_update(id, credit).with(ACK)),
        ),
        _ => (StreamView { flag: Flag::Ack, shared, ..fresh }, None),
    }
}

/// What comes of data for a stream that is known.
///
/// The remote must not send more than it was allowed to. If more is buffered already than is
/// configured, the stream is to be reset.
pub open spec fn known_data_outcome<C>(c: ConnectionView<C>, f: FrameView) -> Reaction<C> {
    let id = f.header.stream_id;
    let s = c.streams[id].shared;
    let open = if f.header.has(FIN) {
        s.update_state(State::RecvClosed)
    } else {
        s
    };
    let received = SharedView { reader: None, ..open.received(f.body) };
    if f.body.len() > s.window {
        Reaction::only(c, ActionView::Terminate(FrameView::go_away(1)))
    } else if total(s.buffer) >= c.config.max_buffer_size {
        Reaction::only(c.with_shared(id, open), ActionView::Reset(reset_frame(id)))
    } else {
        let wakers = Wakers { reader: s.reader, writer: None };
        match received.due(c.config) {
            Some(credit) if c.config.window_update_mode == WindowUpdateMode::OnReceive => Reaction {
                conn: c.with_shared(
                    id,
                    SharedView { window: (received.window + credit) as u32, ..received },
                ),
                action: ActionView::Update(FrameView::window_update(id, credit)),
                wakers,
            },
            _ => Reaction {
                conn: c.with_shared(id, received),
                action: ActionView::Nothing,
                wakers,
            },
        }
    }
}

/// What comes of a data frame.
///
/// A frame that is not allowed ends the connection. One for a stream that is not known is ignored, as
/// the stream may have been dropped before.
pub open spec fn data_outcome<C>(c: ConnectionView<C>, f: FrameView) -> Reaction<C> {
    let id = f.header.stream_id;
    if f.header.has(RST) {
        reset_outcome(c, id)
    } else if f.header.has(SYN) {
        if c.mode.ours(id) || f.body.len() > DEFAULT_CREDIT || c.streams.contains_key(id) {
            Reaction::only(c, ActionView::Terminate(FrameView::go_away(1)))
        } else if c.full() {
            Reaction::only(c, ActionView::Terminate(FrameView::go_away(2)))
        } else {
            let (s, update) = opened_by_data(c, f);
            Reaction::only(c.with(id, s), ActionView::New(id, update))
        }
    } else if c.streams.contains_key(id) {
        known_data_outcome(c, f)
    } else {
        Reaction::only(c, ActionView::Nothing)
    }
}

/// Does a window update give more credit than can be counted?
pub open spec fn credit_overflow<C>(c: ConnectionView<C>, f: FrameView) -> bool {
    let id = f.header.stream_id;
    if f.header.has(RST) {
        false
    } else if f.header.has(SYN) {
        &&& !c.mode.ours(id) && !c.streams.contains_key(id) && !c.full()
        &&& f.header.length + DEFAULT_CREDIT > u32::MAX
    } else {
        &&& c.streams.contains_key(id)
        &&& f.header.length + c.streams[id].shared.credit > u32::MAX
    }
}

/// What comes of a window update.
///
/// As for data, a frame that is not allowed ends the connection, and one for a stream that is not
/// known is ignored.
pub open spec fn window_update_outcome<C>(c: ConnectionView<C>, f: FrameView) -> Reaction<C> {
    let id = f.header.stream_id;
    if f.header.has(RST) {
        reset_outcome(c, id)
    } else if f.header.has(SYN) {
        if c.mode.ours(id) || c.streams.contains_key(id) || c.full() {
            Reaction::only(c, ActionView::Terminate(FrameView::go_away(1)))
        } else {
            let credit = (f.header.length + DEFAULT_CREDIT) as u32;
            let fresh = StreamView::fresh(id, c.id, c.config, DEFAULT_CREDIT, credit);
            let shared = if f.header.has(FIN) {
                fresh.shared.update_state(State::RecvClosed)
            } else {
                fresh.shared
            };
            Reaction::only(
                c.with(id, StreamView { flag: Flag::Ack, shared, ..fresh }),
                ActionView::New(id, None),
            )
        }
    } else if c.streams.contains_key(id) {
        let s = c.streams[id].shared;
        let open = if f.header.has(FIN) {
            s.update_state(State::RecvClosed)
        } else {
            s
        };
        Reaction {
            conn: c.with_shared(
                id,
                SharedView {
                    credit: (s.credit + f.header.length) as u32,
                    writer: None,
                    ..open
                },
            ),
            action: ActionView::Nothing,
            wakers: Wakers { reader: None, writer: s.writer },
        }
    } else {
        Reaction::only(c, ActionView::Nothing)
    }
}

/// What comes of a ping: it is answered, unless it is an answer itself or for a stream that is not
/// known.
pub open spec fn ping_action<C>(c: ConnectionView<C>, f: FrameView) -> ActionView {
    let id = f.header.stream_id;
    if !f.header.has(ACK) && (id == CONNECTION_ID || c.streams.contains_key(id)) {
        ActionView::Ping(
            FrameView::bare(
                HeaderView::plain(Tag::Ping, CONNECTION_ID, f.header.length).with(ACK),
            ),
        )
    } else {
        ActionView::Nothing
    }
}

/// What is to be done about an incoming frame.
#[derive(Debug)]
pub struct Reply {
    /// A frame that is to be sent to the remote.
    pub frame: Option<Frame<()>>,
    /// A stream that was opened by the remote.
    pub stream: Option<StreamId>,
    /// The tasks that are to be woken up.
    pub wakers: Wakers,
}

impl ActionView {
    /// The frame that is to be sent.
    pub open spec fn frame(self) -> Option<FrameView> {
        match self {
            ActionView::Nothing => None,
            ActionView::New(_, f) => f,
            ActionView::Update(f) => Some(f),
            ActionView::Ping(f) => Some(f),
            ActionView::Reset(f) => Some(f),
            ActionView::Terminate(f) => Some(f),
        }
    }

    /// The stream that was opened.
    pub open spec fn stream(self) -> Option<u32> {
        match self {
            ActionView::New(id, _) => Some(id),
            _ => None,
        }
    }
}

/// What comes of an incoming frame, unless it ends the session.
pub open spec fn frame_outcome<C>(c: ConnectionView<C>, f: FrameView) -> Reaction<C> {
    match f.header.tag {
        Tag::Data => data_outcome(c, f),
        Tag::WindowUpdate => window_update_outcome(c, f),
        _ => Reaction::only(c, ping_action(c, f)),
    }
}

/// The error that ends the connection, given what was read from the socket.
///
/// The end of the input, a connection that was reset and a message that ends the session all mean that
/// the connection is closed.
pub open spec fn socket_error(
    frame: Result<Option<FrameView>, ConnectionError>,
) -> Option<ConnectionError> {
    match frame {
        Ok(Some(f)) => if f.header.tag == Tag::GoAway {
            Some(ConnectionError::Closed)
        } else {
            None
        },
        Ok(None) => Some(ConnectionError::Closed),
        Err(e) => if e.kind() == Some(IoErrorKind::ConnectionReset) {
            Some(ConnectionError::Closed)
        } else {
            Some(e)
        },
    }
}

/// What was read, as it is seen by a contract.
pub open spec fn view_of(
    frame: Result<Option<Frame<()>>, ConnectionError>,
) -> Result<Option<FrameView>, ConnectionError> {
    match frame {
        Ok(Some(f)) => Ok(Some(f@)),
        Ok(None) => Ok(None),
        Err(e) => Err(e),
    }
}

/// What comes of what was read from the socket.
///
/// An error leaves the connection as it is. Otherwise the frame has been taken note of.
pub open spec fn read_outcome<C>(
    c: ConnectionView<C>,
    frame: Result<Option<Frame<()>>, ConnectionError>,
    after: ConnectionView<C>,
    r: Result<Reply, ConnectionError>,
) -> bool {
    match (socket_error(view_of(frame)), frame, r) {
        (None, Ok(Some(f)), Ok(reply)) => {
            let d = frame_outcome(c, f@);
            &&& after == d.conn
            &&& reply.wakers == d.wakers
            &&& match (reply.frame, d.action.frame()) {
                (Some(x), Some(y)) => x@ == y,
                (None, None) => true,
                _ => false,
            }
            &&& match (reply.stream, d.action.stream()) {
                (Some(x), Some(y)) => x.0 == y,
                (None, None) => true,
                _ => false,
            }
        },
        (Some(e), _, Err(e2)) => e == e2 && after == c,
        _ => false,
    }
}

/// What is to be done about a command from a control.
#[derive(Debug)]
pub enum ControlAction<O, C> {
    /// Tell the control why no stream is opened.
    Refuse(O, ConnectionError),
    /// Send the frame, hand the stream to the control, and see [`Connection::on_open_reply`].
    Open(O, Stream, Option<Frame<WindowUpdate>>),
    /// Tell the control that the connection is closed.
    Confirm(C),
    /// Pause the commands from controls, and accept no more commands from streams.
    Drain,
    /// Close the socket: this was the last command.
    Close,
}

impl<C> ConnectionView<C> {
    /// The credit that the remote is given in addition to the default.
    pub open spec fn extra_credit(self) -> u32 {
        (self.config.receive_window - DEFAULT_CREDIT) as u32
    }

    /// The stream that we open next.
    ///
    /// If there is no need to tell the remote at once, its first frame will do so.
    pub open spec fn outbound(self) -> StreamView {
        StreamView {
            flag: if self.extra_credit() == 0 {
                Flag::Syn
            } else {
                Flag::Nothing
            },
            ..StreamView::fresh(
                self.next_id,
                self.id,
                self.config,
                self.config.receive_window,
                DEFAULT_CREDIT,
            )
        }
    }

    /// The frame by which the remote is told at once of the stream that we open next.
    pub open spec fn outbound_frame(self) -> Option<FrameView> {
        if self.extra_credit() == 0 {
            None
        } else {
            Some(FrameView::window_update(self.next_id, self.extra_credit()).with(SYN))
        }
    }

    /// A stream that was made for a control and is not part of the connection yet.
    pub open spec fn offered(self, s: StreamView) -> bool {
        &&& self.stream_wf(s.id, s)
        &&& self.mode.ours(s.id)
        &&& s.id < self.next_id
        &&& !self.streams.contains_key(s.id)
        &&& !self.full()
    }
}

/// What comes of asking for the identifier of a new stream.
pub open spec fn id_outcome<C>(
    c: ConnectionView<C>,
    after: ConnectionView<C>,
    r: Result<StreamId, ConnectionError>,
) -> bool {
    if c.next_id + 2 <= u32::MAX {
        &&& r == Ok::<StreamId, ConnectionError>(StreamId(c.next_id))
        &&& after == ConnectionView { next_id: (c.next_id + 2) as u32, ..c }
    } else {
        &&& r == Err::<StreamId, ConnectionError>(ConnectionError::NoMoreStreamIds)
        &&& after == c
    }
}

/// What comes of a command from a control.
pub open spec fn control_outcome<O, C>(
    c: ConnectionView<C>,
    cmd: Option<ControlCommand<O, C>>,
    after: ConnectionView<C>,
    r: Result<ControlAction<O, C>, ConnectionError>,
) -> bool {
    match cmd {
        Some(ControlCommand::OpenStream(o)) => {
            if c.shutdown is Complete {
                &&& r == Ok::<ControlAction<O, C>, ConnectionError>(
                    ControlAction::Refuse(o, ConnectionError::Closed),
                )
                &&& after == c
            } else if c.full() {
                &&& r == Ok::<ControlAction<O, C>, ConnectionError>(
                    ControlAction::Refuse(o, ConnectionError::TooManyStreams),
                )
                &&& after == c
            } else if c.next_id + 2 > u32::MAX {
                &&& r == Err::<ControlAction<O, C>, ConnectionError>(
                    ConnectionError::NoMoreStreamIds,
                )
                &&& after == c
            } else {
                &&& r matches Ok(ControlAction::Open(o2, s, f))
                &&& o2 == o
                &&& s@ == c.outbound()
                &&& match (f, c.outbound_frame()) {
                    (Some(x), Some(y)) => x@ == y,
                    (None, None) => true,
                    _ => false,
                }
                &&& after == ConnectionView { next_id: (c.next_id + 2) as u32, ..c }
                &&& after.offered(s@)
            }
        },
        Some(ControlCommand::CloseConnection(x)) => {
            if c.shutdown is Complete {
                &&& r == Ok::<ControlAction<O, C>, ConnectionError>(ControlAction::Confirm(x))
                &&& after == c
            } else {
                &&& r == Ok::<ControlAction<O, C>, ConnectionError>(ControlAction::Drain)
                &&& after == ConnectionView { shutdown: Shutdown::InProgress(x), ..c }
            }
        },
        None => {
            &&& r == Ok::<ControlAction<O, C>, ConnectionError>(ControlAction::Close)
            &&& after == c
        },
    }
}

/// The frame that a command from a stream asks for.
pub open spec fn command_frame(cmd: CommandView) -> FrameView {
    match cmd {
        CommandView::SendFrame(f) => f,
        CommandView::CloseStream { id, ack } => FrameView::close_stream(id, ack),
    }
}

/// What a stream leaves behind that its user has given up.
#[derive(Debug)]
pub struct Collected {
    /// The identifier of the stream.
    pub id: StreamId,
    /// A frame that is to be sent to the remote.
    pub frame: Option<Frame<Data>>,
    /// The tasks that are to be woken up.
    pub wakers: Wakers,
}

/// The frame that tells the remote that a stream was given up by its user.
///
/// A stream that was not closed is reset, or finished if the remote has finished it already. A stream
/// that was closed by us is reset only if the remote could otherwise wait forever for credit.
pub open spec fn farewell(s: StreamView) -> Option<FrameView> {
    match s.shared.state {
        State::Open => Some(reset_frame(s.id)),
        State::RecvClosed => Some(FrameView::close_stream(s.id, false)),
        State::SendClosed => if s.config.window_update_mode == WindowUpdateMode::OnRead
            && s.shared.window == 0 {
            Some(reset_frame(s.id))
        } else {
            None
        },
        State::Closed => None,
    }
}

/// The streams that their users still have.
pub open spec fn retained(m: Map<u32, StreamView>) -> Map<u32, StreamView> {
    Map::new(|k: u32| m.contains_key(k) && m[k].retained, |k: u32| m[k])
}

/// What is left behind by one of the streams.
pub open spec fn collected_from(m: Map<u32, StreamView>, c: Collected) -> bool {
    let s = m[c.id.0];
    &&& m.contains_key(c.id.0)
    &&& !s.retained
    &&& match (c.frame, farewell(s)) {
        (Some(x), Some(y)) => x@ == y,
        (None, None) => true,
        _ => false,
    }
    &&& c.wakers == s.shared.waiting()
}

/// Is there something that the stream with this identifier leaves behind?
pub open spec fn collects(out: Seq<Collected>, k: u32) -> bool {
    exists|i: int| 0 <= i < out.len() && #[trigger] out[i].id.0 == k
}

/// All streams that were given up, and no others, leave something behind, each once.
pub open spec fn all_collected(m: Map<u32, StreamView>, out: Seq<Collected>) -> bool {
    &&& forall|i: int| 0 <= i < out.len() ==> collected_from(m, #[trigger] out[i])
    &&& forall|i: int, j: int|
        0 <= i < j < out.len() ==> #[trigger] out[i].id != #[trigger] out[j].id
    &&& forall|k: u32| m.contains_key(k) && !m[k].retained ==> #[trigger] collects(out, k)
}

/// A stream that lives on without its connection.
#[derive(Debug)]
pub struct Dropped {
    /// The stream.
    pub stream: Stream,
    /// The tasks that are to be woken up.
    pub wakers: Wakers,
}

/// A stream of a connection that is closed along with it.
pub open spec fn dropped_from(m: Map<u32, StreamView>, d: Dropped) -> bool {
    let s = m[d.stream@.id];
    &&& m.contains_key(d.stream@.id)
    &&& d.stream@ == StreamView { shared: s.shared.update_state(State::Closed).woken(), ..s }
    &&& d.wakers == s.shared.waiting()
}

/// Is there a stream with this identifier?
pub open spec fn drops(out: Seq<Dropped>, k: u32) -> bool {
    exists|i: int| 0 <= i < out.len() && #[trigger] out[i].stream@.id == k
}

/// All streams of a connection, each once, are closed along with it.
pub open spec fn all_dropped(m: Map<u32, StreamView>, out: Seq<Dropped>) -> bool {
    &&& forall|i: int| 0 <= i < out.len() ==> dropped_from(m, #[trigger] out[i])
    &&& forall|i: int, j: int|
        0 <= i < j < out.len() ==> #[trigger] out[i].stream@.id != #[trigger] out[j].stream@.id
    &&& forall|k: u32| m.contains_key(k) ==> #[trigger] drops(out, k)
}

/// What comes of the answer of a control to the stream that it asked for.
///
/// The stream becomes part of the connection if it is accepted. Otherwise it is forgotten, and reset if
/// the remote was told of it.
pub open spec fn open_reply_outcome<C>(
    c: ConnectionView<C>,
    s: StreamView,
    accepted: bool,
    after: ConnectionView<C>,
    r: Option<Frame<Data>>,
) -> bool {
    &&& after == if accepted {
        c.with(s.id, s)
    } else {
        c
    }
    &&& match r {
        Some(f) => !accepted && c.extra_credit() > 0 && f@ == reset_frame(s.id),
        None => accepted || c.extra_credit() == 0,
    }
}

/// What comes of having sent the final term frame.
pub open spec fn term_outcome<C>(
    c: ConnectionView<C>,
    after: ConnectionView<C>,
    r: Option<C>,
) -> bool {
    &&& after == ConnectionView { shutdown: Shutdown::Complete, ..c }
    &&& r == Some(c.shutdown->InProgress_0)
}

/// What comes of having waited for the next stream, opened by the remote.
///
/// Unless there is one, the connection is closed, along with its streams.
pub open spec fn stream_outcome<C>(
    c: ConnectionView<C>,
    result: Result<Option<StreamId>, ConnectionError>,
    after: ConnectionView<C>,
    r: Result<Option<StreamId>, ConnectionError>,
    dropped: Seq<Dropped>,
) -> bool {
    if c.is_closed {
        &&& r == Ok::<Option<StreamId>, ConnectionError>(None)
        &&& dropped.len() == 0
        &&& after == c
    } else if result matches Ok(Some(_)) {
        &&& r == result
        &&& dropped.len() == 0
        &&& after == c
    } else {
        &&& r == if result == Err::<Option<StreamId>, ConnectionError>(ConnectionError::Closed) {
            Ok(None)
        } else {
            result
        }
        &&& all_dropped(c.streams, dropped)
        &&& after == ConnectionView { is_closed: true, streams: Map::empty(), ..c }
    }
}

/// What a control is told whose command comes too late.
pub open spec fn refusal<O, C>(cmd: ControlCommand<O, C>) -> ControlAction<O, C> {
    match cmd {
        ControlCommand::OpenStream(o) => ControlAction::Refuse(o, ConnectionError::Closed),
        ControlCommand::CloseConnection(c) => ControlAction::Confirm(c),
    }
}

/// Where the next event may come from.
#[derive(Copy, Clone, Debug, PartialEq, Eq, Structural)]
pub struct Sources {
    /// Commands from streams.
    pub stream: bool,
    /// Commands from controls.
    pub control: bool,
    /// The socket.
    pub socket: bool,
}

/// Events that a connection has to react to.
#[derive(Debug)]
pub enum Event<O, C> {
    /// We can continue sending frames. More may happen where the sources are not exhausted.
    OutboundReady(Sources),
    /// No more frames can be sent.
    OutboundFailed,
    /// A new inbound frame arrived, or there are none any more.
    Inbound(Result<Option<Frame<()>>, ConnectionError>),
    /// One of our streams has sent a command, or all commands have been processed.
    Stream(Option<StreamCommand>),
    /// A control has sent a command, or all commands have been processed.
    Control(Option<ControlCommand<O, C>>),
}

/// What is to be done next.
#[derive(Debug)]
pub enum Step<O, C> {
    /// Wait for one of the sources.
    Wait(Sources),
    /// React to an incoming frame.
    Frame(Reply),
    /// Send a frame on behalf of a stream.
    Send(Frame<()>),
    /// Send the final term frame, and see [`Connection::on_term_sent`].
    Term(Frame<()>),
    /// React to a command from a control.
    Control(ControlAction<O, C>),
}

/// What an event requires.
pub open spec fn event_ok<O, C>(c: ConnectionView<C>, event: Event<O, C>) -> bool {
    match event {
        Event::Inbound(Ok(Some(f))) => {
            &&& f@.wf()
            &&& f@.header.tag == Tag::WindowUpdate ==> !credit_overflow(c, f@)
        },
        Event::Stream(None) => c.shutdown is InProgress,
        Event::Control(Some(ControlCommand::CloseConnection(_))) => !(c.shutdown is InProgress),
        Event::Control(None) => c.shutdown is Complete,
        _ => true,
    }
}

/// What comes of an event.
///
/// The connection is closed if no more frames can be sent or no source is left.
pub open spec fn next_outcome<O, C>(
    c: ConnectionView<C>,
    event: Event<O, C>,
    after: ConnectionView<C>,
    r: Result<Step<O, C>, ConnectionError>,
) -> bool {
    match event {
        Event::OutboundReady(sources) => {
            &&& after == c
            &&& if sources.stream || sources.control || sources.socket {
                r == Ok::<Step<O, C>, ConnectionError>(Step::Wait(sources))
            } else {
                r == Err::<Step<O, C>, ConnectionError>(ConnectionError::Closed)
            }
        },
        Event::OutboundFailed => {
            &&& after == c
            &&& r == Err::<Step<O, C>, ConnectionError>(ConnectionError::Closed)
        },
        Event::Inbound(frame) => match r {
            Ok(Step::Frame(reply)) => read_outcome(c, frame, after, Ok(reply)),
            Err(e) => read_outcome(c, frame, after, Err(e)),
            _ => false,
        },
        Event::Stream(Some(cmd)) => {
            &&& after == c
            &&& r matches Ok(Step::Send(f))
            &&& f@ == command_frame(cmd@)
        },
        Event::Stream(None) => {
            &&& after == c
            &&& r matches Ok(Step::Term(f))
            &&& f@ == FrameView::go_away(0)
        },
        Event::Control(cmd) => match r {
            Ok(Step::Control(action)) => control_outcome(c, cmd, after, Ok(action)),
            Err(e) => control_outcome(c, cmd, after, Err::<ControlAction<O, C>, _>(e)),
            _ => false,
        },
    }
}

/// The first event that is there, in this order: a command from a stream, a command from a control, a
/// frame.
pub open spec fn first_event<O, C>(
    stream: Poll<Option<StreamCommand>>,
    control: Poll<Option<ControlCommand<O, C>>>,
    frame: Poll<Result<Option<Frame<()>>, ConnectionError>>,
) -> Poll<Event<O, C>> {
    match (stream, control, frame) {
        (Poll::Ready(cmd), _, _) => Poll::Ready(Event::Stream(cmd)),
        (_, Poll::Ready(cmd), _) => Poll::Ready(Event::Control(cmd)),
        (_, _, Poll::Ready(frame)) => Poll::Ready(Event::Inbound(frame)),
        _ => Poll::Pending,
    }
}

/// What comes first while nothing but the socket is waited for.
///
/// If the socket is ready for the next frame, or has failed, that comes first. Otherwise a write is
/// pending, and a frame may come in.
pub open spec fn first_io_event<O, C>(
    ready: Poll<Result<(), ()>>,
    frame: Poll<Result<Option<Frame<()>>, ConnectionError>>,
) -> Poll<Option<Event<O, C>>> {
    match (ready, frame) {
        (Poll::Ready(Ok(())), _) => Poll::Ready(None),
        (Poll::Ready(Err(())), _) => Poll::Ready(Some(Event::OutboundFailed)),
        (Poll::Pending, Poll::Ready(frame)) => Poll::Ready(Some(Event::Inbound(frame))),
        (Poll::Pending, Poll::Pending) => Poll::Pending,
    }
}

impl<C> Connection<C> {
    /// The entries of the map of streams that change.
    proof fn lemma_insert(m: Map<u32, Stream>, id: u32, s: Stream)
        ensures
            m.insert(id, s).map_values(|s: Stream| s@) == m.map_values(|s: Stream| s@).insert(
                id,
                s@,
            ),
            m.map_values(|s: Stream| s@).dom() == m.dom(),
    {
        assert(m.insert(id, s).map_values(|s: Stream| s@) =~= m.map_values(
            |s: Stream| s@,
        ).insert(id, s@));
        assert(m.map_values(|s: Stream| s@).dom() =~= m.dom());
    }

    /// Create a new `Connection`.
    ///
    /// Its identifier is random.
    pub fn new(cfg: Config, mode: Mode) -> (c: Self)
        requires
            cfg@.wf(),
        ensures
            c@.wf(),
            c@ == ConnectionView::<C>::fresh(c@.id, cfg@, mode),
    {
        Connection::with_id(Id::random(), cfg, mode)
    }

    /// Create a new `Connection` that has the given identifier.
    pub fn with_id(id: Id, cfg: Config, mode: Mode) -> (c: Self)
        requires
            cfg@.wf(),
        ensures
            c@.wf(),
            c@ == ConnectionView::<C>::fresh(id, cfg@, mode),
    {
        let c = Connection {
            id,
            mode,
            config: cfg,
            next_id: match mode {
                Mode::Client => 1,
                Mode::Server => 2,
            },
            streams: new_map(),
            shutdown: Shutdown::NotStarted,
            is_closed: false,
        };
        assert(c@.streams =~= Map::empty());
        c
    }

    /// A frame that resets a stream.
    fn reset_frame(id: StreamId) -> (f: Frame<Data>)
        ensures
            f@ == reset_frame(id.0),
    {
        let mut header = Header::data(id, 0);
        header.rst();
        let f = Frame::new(header);
        assert(f@.body =~= Seq::empty());
        f
    }

    /// The remote resets a stream.
    fn on_reset(&mut self, id: StreamId) -> (w: Wakers)
        requires
            old(self)@.wf(),
        ensures
            final(self)@.wf(),
            ({
                let r = reset_outcome(old(self)@, id.0);
                final(self)@ == r.conn && w == r.wakers
            }),
    {
        match get_mut(&mut self.streams, id.0) {
            Some(s) => {
                let shared = s.shared_mut();
                shared.update_state(State::Closed);
                let w = shared.wake();
                proof {
                    Self::lemma_insert(old(self).streams@, id.0, self.streams@[id.0]);
                }
                w
            },
            None => Wakers::none(),
        }
    }

    /// Add a stream that the remote has opened.
    fn add_stream(&mut self, stream: Stream)
        requires
            old(self)@.wf(),
            !old(self)@.full(),
            !old(self)@.mode.ours(stream@.id),
            !old(self)@.streams.contains_key(stream@.id),
            old(self)@.stream_wf(stream@.id, stream@),
        ensures
            final(self)@.wf(),
            final(self)@ == old(self)@.with(stream@.id, stream@),
    {
        let id = stream.id().val();
        proof {
            Self::lemma_insert(self.streams@, id, stream);
        }
        insert(&mut self.streams, id, stream);
    }

    /// The remote opens a stream with a data frame.
    fn on_new_data(&mut self, frame: Frame<Data>) -> (action: Action)
        requires
            old(self)@.wf(),
            frame@.wf(),
            frame@.header.tag == Tag::Data,
            frame@.header.has(SYN),
            !frame@.header.has(RST),
        ensures
            final(self)@.wf(),
            ({
                let d = data_outcome(old(self)@, frame@);
                final(self)@ == d.conn && action@ == d.action && d.wakers == Wakers::nobody()
            }),
    {
        let stream_id = frame.header().stream_id();
        let is_finish = frame.header().flags().contains(Flags(FIN));  // half-close
        if !self.is_valid_remote_id(stream_id, Tag::Data) {
            return Action::Terminate(Frame::protocol_error());
        }
        if frame.body().len() > DEFAULT_CREDIT as usize {
            return Action::Terminate(Frame::protocol_error());
        }
        if self.has_stream(stream_id) {
            return Action::Terminate(Frame::protocol_error());
        }
        if self.num_streams() == self.config.max_num_streams {
            return Action::Terminate(Frame::internal_error());
        }
        let mut stream = Stream::new(
            stream_id,
            self.id,
            self.config,
            DEFAULT_CREDIT,
            DEFAULT_CREDIT,
        );
        let mut window_update: Option<Frame<WindowUpdate>> = None;
        let shared = stream.shared_mut();
        if is_finish {
            shared.update_state(State::RecvClosed);
        }
        shared.receive(frame.into_body());
        if matches!(self.config.window_update_mode, WindowUpdateMode::OnReceive) {
            if let Some(credit) = shared.next_window_update(&self.config) {
                shared.grant(credit);
                let mut frame = Frame::window_update(stream_id, credit);
                frame.header_mut().ack();
                window_update = Some(frame)
            }
        }
        if window_update.is_none() {
            stream.set_flag(Flag::Ack)
        }
        self.add_stream(stream);
        Action::New(stream_id, window_update)
    }

    /// Process a data frame.
    fn on_data(&mut self, frame: Frame<Data>) -> (r: (Action, Wakers))
        requires
            old(self)@.wf(),
            frame@.wf(),
            frame@.header.tag == Tag::Data,
        ensures
            final(self)@.wf(),
            ({
                let d = data_outcome(old(self)@, frame@);
                final(self)@ == d.conn && r.0@ == d.action && r.1 == d.wakers
            }),
    {
        let stream_id = frame.header().stream_id();
        if frame.header().flags().contains(Flags(RST)) {
            // stream reset
            return (Action::Nothing, self.on_reset(stream_id));
        }
        let is_finish = frame.header().flags().contains(Flags(FIN));  // half-close
        if frame.header().flags().contains(Flags(SYN)) {
            // new stream
            return (self.on_new_data(frame), Wakers::none());
        }
        let config: Config = self.config;
        if let Some(stream) = get_mut(&mut self.streams, stream_id.0) {
            let shared = stream.shared_mut();
            if frame.body().len() > shared.window() as usize {
                proof {
                    Self::lemma_insert(old(self).streams@, stream_id.0, self.streams@[stream_id.0]);
                    assert(self@.streams =~= old(self)@.streams);
                }
                return (Action::Terminate(Frame::protocol_error()), Wakers::none());
            }
            if is_finish {
                shared.update_state(State::RecvClosed);
            }
            if shared.is_full(config.max_buffer_size) {
                proof {
                    Self::lemma_insert(old(self).streams@, stream_id.0, self.streams@[stream_id.0]);
                }
                return (Action::Reset(Self::reset_frame(stream_id)), Wakers::none());
            }
            shared.receive(frame.into_body());
            let wakers = shared.wake_reader();
            let mut action = Action::Nothing;
            if matches!(config.window_update_mode, WindowUpdateMode::OnReceive) {
                if let Some(credit) = shared.next_window_update(&config) {
                    shared.grant(credit);
                    action = Action::Update(Frame::window_update(stream_id, credit));
                }
            }
            proof {
                Self::lemma_insert(old(self).streams@, stream_id.0, self.streams@[stream_id.0]);
            }
            return (action, wakers);
        }
        // We do not consider this a protocol violation and thus do not send a stream reset
        // because we may still be processing pending `StreamCommand`s of this stream that were
        // sent before it has been dropped and "garbage collected". Such a stream reset would
        // interfere with the frames that still need to be sent, causing premature stream
        // termination for the remote.
        (Action::Nothing, Wakers::none())
    }

    /// The identifier of the connection.
    pub fn id(&self) -> (id: Id)
        ensures
            id == self@.id,
    {
        self.id
    }

    /// How the connection is used.
    pub fn mode(&self) -> (m: Mode)
        ensures
            m == self@.mode,
    {
        self.mode
    }

    /// How far shutting down the connection has come.
    pub fn shutdown(&self) -> (s: &Shutdown<C>)
        ensures
            *s == self@.shutdown,
    {
        &self.shutdown
    }

    /// Is the connection closed?
    pub fn is_closed(&self) -> (r: bool)
        ensures
            r == self@.is_closed,
    {
        self.is_closed
    }

    /// Is there a stream with this identifier?
    pub fn has_stream(&self, id: StreamId) -> (r: bool)
        ensures
            r == self@.streams.contains_key(id.0),
    {
        contains_key(&self.streams, id.0)
    }

    /// The number of streams.
    pub fn num_streams(&self) -> (n: usize)
        ensures
            n == self@.streams.len(),
    {
        assert(self@.streams.dom() =~= self.streams@.dom());
        len_of(&self.streams)
    }

    /// Check if the given stream ID is valid w.r.t. the provided tag and our connection mode.
    fn is_valid_remote_id(&self, id: StreamId, tag: Tag) -> (r: bool)
        ensures
            r == if tag == Tag::Ping || tag == Tag::GoAway {
                id.0 == CONNECTION_ID
            } else {
                !self@.mode.ours(id.0)
            },
    {
        if tag == Tag::Ping || tag == Tag::GoAway {
            return id.is_session();
        }
        match self.mode {
            Mode::Client => id.is_server(),
            Mode::Server => id.is_client(),
        }
    }

    /// Process a window update.
    fn on_window_update(&mut self, frame: &Frame<WindowUpdate>) -> (r: (Action, Wakers))
        requires
            old(self)@.wf(),
            !credit_overflow(old(self)@, frame@),
        ensures
            final(self)@.wf(),
            ({
                let d = window_update_outcome(old(self)@, frame@);
                final(self)@ == d.conn && r.0@ == d.action && r.1 == d.wakers
            }),
    {
        let stream_id = frame.header().stream_id();
        if frame.header().flags().contains(Flags(RST)) {
            // stream reset
            return (Action::Nothing, self.on_reset(stream_id));
        }
        let is_finish = frame.header().flags().contains(Flags(FIN));  // half-close
        if frame.header().flags().contains(Flags(SYN)) {
            // new stream
            if !self.is_valid_remote_id(stream_id, Tag::WindowUpdate) {
                return (Action::Terminate(Frame::protocol_error()), Wakers::none());
            }
            if self.has_stream(stream_id) {
                return (Action::Terminate(Frame::protocol_error()), Wakers::none());
            }
            if self.num_streams() == self.config.max_num_streams {
                return (Action::Terminate(Frame::protocol_error()), Wakers::none());
            }
            let credit: u32 = frame.header().credit() + DEFAULT_CREDIT;
            let mut stream = Stream::new(stream_id, self.id, self.config, DEFAULT_CREDIT, credit);
            stream.set_flag(Flag::Ack);
            if is_finish {
                stream.shared_mut().update_state(State::RecvClosed);
            }
            self.add_stream(stream);
            return (Action::New(stream_id, None), Wakers::none());
        }
        if let Some(stream) = get_mut(&mut self.streams, stream_id.0) {
            let shared = stream.shared_mut();
            shared.add_credit(frame.header().credit());
            if is_finish {
                shared.update_state(State::RecvClosed);
            }
            let wakers = shared.wake_writer();
            proof {
                Self::lemma_insert(old(self).streams@, stream_id.0, self.streams@[stream_id.0]);
            }
            return (Action::Nothing, wakers);
        }
        // As for data, we do not consider this a protocol violation.
        (Action::Nothing, Wakers::none())
    }

    /// Process a ping.
    fn on_ping(&mut self, frame: &Frame<Ping>) -> (action: Action)
        ensures
            final(self)@ == old(self)@,
            action@ == ping_action(old(self)@, frame@),
    {
        let stream_id = frame.header().stream_id();
        if frame.header().flags().contains(Flags(ACK)) {
            // pong
            return Action::Nothing;
        }
        if stream_id.val() == CONNECTION_ID || self.has_stream(stream_id) {
            let mut hdr = Header::ping(frame.header().nonce());
            hdr.ack();
            return Action::Ping(Frame::no_body(hdr));
        }
        // As for data, we do not consider this a protocol violation.
        Action::Nothing
    }

    /// Does this frame give more credit than can be counted?
    pub fn credit_overflows(&self, frame: &Frame<()>) -> (r: bool)
        requires
            self@.wf(),
        ensures
            r == (frame@.header.tag == Tag::WindowUpdate && credit_overflow(self@, frame@)),
    {
        if frame.header().tag() != Tag::WindowUpdate {
            return false;
        }
        let id = frame.header().stream_id();
        let n: u32 = frame.header().len().val();
        if frame.header().flags().contains(Flags(RST)) {
            return false;
        }
        if frame.header().flags().contains(Flags(SYN)) {
            return self.is_valid_remote_id(id, Tag::WindowUpdate) && !self.has_stream(id)
                && self.num_streams() != self.config.max_num_streams && n > u32::MAX
                - DEFAULT_CREDIT;
        }
        match get(&self.streams, id.0) {
            Some(s) => n > u32::MAX - s.shared().credit(),
            None => false,
        }
    }

    /// Process the result of reading from the socket.
    ///
    /// Unless `frame` is `Ok(Some(_))` we will assume the connection got closed
    /// and return a corresponding error, which terminates the connection.
    /// Otherwise we process the frame and potentially tell of a new `Stream`
    /// if one was opened by the remote.
    pub fn on_frame(&mut self, frame: Result<Option<Frame<()>>, ConnectionError>) -> (r: Result<
        Reply,
        ConnectionError,
    >)
        requires
            old(self)@.wf(),
            frame matches Ok(Some(f)) ==> {
                &&& f@.wf()
                &&& f@.header.tag == Tag::WindowUpdate ==> !credit_overflow(old(self)@, f@)
            },
        ensures
            final(self)@.wf(),
            read_outcome(old(self)@, frame, final(self)@, r),
    {
        match frame {
            Ok(Some(frame)) => {
                let (action, wakers) = match frame.header().tag() {
                    Tag::Data => self.on_data(frame.into_data()),
                    Tag::WindowUpdate => self.on_window_update(&frame.into_window_update()),
                    Tag::Ping => (self.on_ping(&frame.into_ping()), Wakers::none()),
                    Tag::GoAway => return Err(ConnectionError::Closed),
                };
                Ok(
                    match action {
                        Action::Nothing => Reply { frame: None, stream: None, wakers },
                        Action::New(id, None) => Reply { frame: None, stream: Some(id), wakers },
                        Action::New(id, Some(f)) => Reply {
                            frame: Some(f.into_generic_frame()),
                            stream: Some(id),
                            wakers,
                        },
                        Action::Update(f) => Reply {
                            frame: Some(f.into_generic_frame()),
                            stream: None,
                            wakers,
                        },
                        Action::Ping(f) => Reply {
                            frame: Some(f.into_generic_frame()),
                            stream: None,
                            wakers,
                        },
                        Action::Reset(f) => Reply {
                            frame: Some(f.into_generic_frame()),
                            stream: None,
                            wakers,
                        },
                        Action::Terminate(f) => Reply {
                            frame: Some(f.into_generic_frame()),
                            stream: None,
                            wakers,
                        },
                    },
                )
            },
            Ok(None) => Err(ConnectionError::Closed),
            Err(e) => {
                if let Some(IoErrorKind::ConnectionReset) = e.io_kind() {
                    return Err(ConnectionError::Closed);
                }
                Err(e)
            },
        }
    }

    /// The identifier of the next stream that we open, unless all of them were used.
    fn next_stream_id(&mut self) -> (r: Result<StreamId, ConnectionError>)
        requires
            old(self)@.wf(),
        ensures
            final(self)@.wf(),
            id_outcome(old(self)@, final(self)@, r),
    {
        let proposed = StreamId::new(self.next_id);
        match self.next_id.checked_add(2) {
            Some(n) => self.next_id = n,
            None => return Err(ConnectionError::NoMoreStreamIds),
        }
        Ok(proposed)
    }

    /// Process a command from a control.
    ///
    /// We only process control commands if we are not in the process of closing
    /// the connection. Only once we finished closing will the remaining commands be drained,
    /// and each control be told that we are closed.
    pub fn on_control_command<O>(&mut self, cmd: Option<ControlCommand<O, C>>) -> (r: Result<
        ControlAction<O, C>,
        ConnectionError,
    >)
        requires
            old(self)@.wf(),
            cmd matches Some(ControlCommand::CloseConnection(_)) ==> !(old(
                self,
            )@.shutdown is InProgress),
            cmd is None ==> old(self)@.shutdown is Complete,
        ensures
            final(self)@.wf(),
            control_outcome(old(self)@, cmd, final(self)@, r),
    {
        match cmd {
            Some(ControlCommand::OpenStream(reply)) => {
                if self.shutdown.is_complete() {
                    // We are already closed so just inform the control.
                    return Ok(ControlAction::Refuse(reply, ConnectionError::Closed));
                }
                if self.num_streams() >= self.config.max_num_streams {
                    return Ok(ControlAction::Refuse(reply, ConnectionError::TooManyStreams));
                }
                let id = match self.next_stream_id() {
                    Ok(id) => id,
                    Err(e) => return Err(e),
                };
                let extra_credit: u32 = self.config.receive_window - DEFAULT_CREDIT;
                let mut update: Option<Frame<WindowUpdate>> = None;
                if extra_credit > 0 {
                    let mut frame = Frame::window_update(id, extra_credit);
                    frame.header_mut().syn();
                    update = Some(frame);
                }
                let window: u32 = self.config.receive_window;
                let mut stream = Stream::new(id, self.id, self.config, window, DEFAULT_CREDIT);
                if extra_credit == 0 {
                    stream.set_flag(Flag::Syn)
                }
                Ok(ControlAction::Open(reply, stream, update))
            },
            Some(ControlCommand::CloseConnection(reply)) => {
                if self.shutdown.is_complete() {
                    // We are already closed so just inform the control.
                    return Ok(ControlAction::Confirm(reply));
                }
                // Handle initial close command by pausing the control commands and closing the
                // stream commands. I.e. we wait for the stream commands to drain.
                self.shutdown = Shutdown::InProgress(reply);
                Ok(ControlAction::Drain)
            },
            // We only get here after the whole connection shutdown is complete.
            // No further processing of commands of any kind or incoming frames
            // will happen.
            None => Ok(ControlAction::Close),
        }
    }

    /// Take note if the control has accepted the stream that it asked for.
    ///
    /// If it has not, but the remote was told of the stream, the stream is to be reset.
    pub fn on_open_reply(&mut self, stream: Stream, accepted: bool) -> (r: Option<Frame<Data>>)
        requires
            old(self)@.wf(),
            old(self)@.offered(stream@),
        ensures
            final(self)@.wf(),
            open_reply_outcome(old(self)@, stream@, accepted, final(self)@, r),
    {
        let id = stream.id();
        if accepted {
            proof {
                Self::lemma_insert(self.streams@, id.0, stream);
            }
            insert(&mut self.streams, id.0, stream);
            return None;
        }
        if self.config.receive_window - DEFAULT_CREDIT > 0 {
            return Some(Self::reset_frame(id));
        }
        None
    }

    /// Process a command from one of our `Stream`s: the frame is to be sent to the remote.
    ///
    /// After the last command, which there is only if the connection is shutting down, the final term
    /// frame is to be sent, and then [`Connection::on_term_sent`] completes the closure.
    pub fn on_stream_command(&self, cmd: Option<StreamCommand>) -> (f: Frame<()>)
        requires
            cmd is None ==> self@.shutdown is InProgress,
        ensures
            f@ == match cmd {
                Some(cmd) => command_frame(cmd@),
                None => FrameView::go_away(0),
            },
    {
        match cmd {
            Some(StreamCommand::SendFrame(frame)) => frame.into_generic_frame(),
            Some(StreamCommand::CloseStream { id, ack }) => {
                let mut header = Header::data(id, 0);
                header.fin();
                if ack {
                    header.ack()
                }
                Frame::no_body(header).into_generic_frame()
            },
            None => Frame::term().into_generic_frame(),
        }
    }

    /// Complete the closure: the control that initiated the shutdown is to be informed, and the
    /// commands from controls are to be no longer paused, but closed.
    pub fn on_term_sent(&mut self) -> (r: Option<C>)
        requires
            old(self)@.wf(),
            old(self)@.shutdown is InProgress,
        ensures
            final(self)@.wf(),
            term_outcome(old(self)@, final(self)@, r),
    {
        let mut shutdown = Shutdown::Complete;
        std::mem::swap(&mut self.shutdown, &mut shutdown);
        match shutdown {
            Shutdown::InProgress(tx) => Some(tx),
            _ => None,
        }
    }

    /// Take a stream out.
    fn take_stream(&mut self, id: u32) -> (r: Option<Stream>)
        requires
            old(self)@.wf(),
        ensures
            final(self)@.wf(),
            final(self)@ == (ConnectionView {
                streams: old(self)@.streams.remove(id),
                ..old(self)@
            }),
            r is Some <==> old(self)@.streams.contains_key(id),
            r matches Some(s) ==> s@ == old(self)@.streams[id],
    {
        let r = remove(&mut self.streams, id);
        assert(self@.streams =~= old(self)@.streams.remove(id));
        r
    }

    /// Say farewell to a stream that its user has given up.
    fn collect(stream: Stream) -> (c: Collected)
        ensures
            c.id.0 == stream@.id,
            match (c.frame, farewell(stream@)) {
                (Some(x), Some(y)) => x@ == y,
                (None, None) => true,
                _ => false,
            },
            c.wakers == stream@.shared.waiting(),
    {
        let mut stream = stream;
        let id = stream.id();
        let on_read = stream.updates_on_read();
        let shared = stream.shared_mut();
        let frame = match shared.update_state(State::Closed) {
            // The stream was dropped without calling `poll_close`.
            // We reset the stream to inform the remote of the closure.
            State::Open => Some(Self::reset_frame(id)),
            // The stream was dropped without calling `poll_close`.
            // We have already received a FIN from remote and send one
            // back which closes the stream for good.
            State::RecvClosed => Some(Frame::close_stream(id, false)),
            // The stream was properly closed. We either already have
            // or will at some later point send our FIN frame.
            // The remote may be out of credit though and blocked on
            // writing more data. We may need to reset the stream.
            State::SendClosed => {
                if on_read && shared.window() == 0 {
                    // The remote may be waiting for a window update
                    // which we will never send, so reset the stream now.
                    Some(Self::reset_frame(id))
                } else {
                    // The remote has either still credit or will be given more
                    // (due to an enqueued window update or because the update
                    // mode is `OnReceive`) or we already have inbound frames in
                    // the socket buffer which will be processed later.
                    None
                }
            },
            // The stream was properly closed. We either already have
            // or will at some later point send our FIN frame. The
            // remote end has already done so in the past.
            State::Closed => None,
        };
        Collected { id, frame, wakers: shared.wake() }
    }

    /// Remove stale streams, and tell which messages are to be sent to the remote.
    pub fn garbage_collect(&mut self) -> (out: Vec<Collected>)
        requires
            old(self)@.wf(),
        ensures
            final(self)@.wf(),
            final(self)@ == (ConnectionView {
                streams: retained(old(self)@.streams),
                ..old(self)@
            }),
            all_collected(old(self)@.streams, out@),
    {
        let keys = keys_of(&self.streams);
        let mut out: Vec<Collected> = Vec::new();
        let mut i: usize = 0;
        let ghost m = self@.streams;
        let ghost keep = |k: u32| m[k].retained;
        let ghost mut taken: Seq<u32> = Seq::empty();
        proof {
            lemma_walk_begins(keys@, m, keep);
        }
        while i < keys.len()
            invariant
                m == old(self)@.streams,
                keep == (|k: u32| m[k].retained),
                walked(keys@, m, keep, i as int, self@.streams, taken),
                self@.wf(),
                self@ == (ConnectionView { streams: self@.streams, ..old(self)@ }),
                out@.len() == taken.len(),
                forall|j: int|
                    0 <= j < out@.len() ==> collected_from(m, #[trigger] out@[j]) && out@[j].id.0
                        == taken[j],
            decreases keys@.len() - i,
        {
            let k: u32 = keys[i];
            proof {
                lemma_walk_goes_on(keys@, m, keep, i as int, self@.streams, taken);
            }
            i += 1;
            if self.is_retained(k) {
                continue;
            }
            proof {
                taken = taken.push(k);
            }
            if let Some(stream) = self.take_stream(k) {
                out.push(Self::collect(stream));
            }
        }
        proof {
            lemma_walk_ends(keys@, m, keep, self@.streams, taken);
            assert forall|k: u32| m.contains_key(k) && !m[k].retained implies #[trigger] collects(
                out@,
                k,
            ) by {
                assert(taken.contains(k));
                let j = choose|j: int| 0 <= j < taken.len() && taken[j] == k;
                assert(out@[j].id.0 == k);
            }
            assert(self@.streams =~= retained(m));
        }
        out
    }

    /// Does the user of a stream still have it?
    fn is_retained(&self, id: u32) -> (r: bool)
        ensures
            r == (self@.streams.contains_key(id) && self@.streams[id].retained),
    {
        match get(&self.streams, id) {
            Some(s) => s.strong_count() > 1,
            None => false,
        }
    }

    /// Close and drop all `Stream`s and wake any pending tasks.
    pub fn drop_all_streams(&mut self) -> (out: Vec<Dropped>)
        requires
            old(self)@.wf(),
        ensures
            final(self)@.wf(),
            final(self)@ == (ConnectionView { streams: Map::empty(), ..old(self)@ }),
            all_dropped(old(self)@.streams, out@),
    {
        let keys = keys_of(&self.streams);
        let mut out: Vec<Dropped> = Vec::new();
        let mut i: usize = 0;
        let ghost m = self@.streams;
        let ghost keep = |k: u32| false;
        let ghost mut taken: Seq<u32> = Seq::empty();
        proof {
            lemma_walk_begins(keys@, m, keep);
        }
        while i < keys.len()
            invariant
                m == old(self)@.streams,
                keep == (|k: u32| false),
                forall|k: u32| #[trigger] m.contains_key(k) ==> m[k].id == k,
                walked(keys@, m, keep, i as int, self@.streams, taken),
                self@.wf(),
                self@ == (ConnectionView { streams: self@.streams, ..old(self)@ }),
                out@.len() == taken.len(),
                forall|j: int|
                    0 <= j < out@.len() ==> dropped_from(m, #[trigger] out@[j])
                        && out@[j].stream@.id == taken[j],
            decreases keys@.len() - i,
        {
            let k: u32 = keys[i];
            proof {
                lemma_walk_goes_on(keys@, m, keep, i as int, self@.streams, taken);
                taken = taken.push(k);
            }
            i += 1;
            if let Some(stream) = self.take_stream(k) {
                let mut stream = stream;
                let shared = stream.shared_mut();
                shared.update_state(State::Closed);
                let wakers = shared.wake();
                out.push(Dropped { stream, wakers });
            }
        }
        proof {
            lemma_walk_ends(keys@, m, keep, self@.streams, taken);
            assert forall|k: u32| m.contains_key(k) implies #[trigger] drops(out@, k) by {
                assert(taken.contains(k));
                let j = choose|j: int| 0 <= j < taken.len() && taken[j] == k;
                assert(out@[j].stream@.id == k);
            }
            assert(self@.streams =~= Map::empty());
        }
        out
    }

    /// Which event comes first?
    pub fn select<O>(
        stream: Poll<Option<StreamCommand>>,
        control: Poll<Option<ControlCommand<O, C>>>,
        frame: Poll<Result<Option<Frame<()>>, ConnectionError>>,
    ) -> (r: Poll<Event<O, C>>)
        ensures
            r == first_event(stream, control, frame),
    {
        match stream {
            Poll::Ready(cmd) => return Poll::Ready(Event::Stream(cmd)),
            Poll::Pending => {},
        }
        match control {
            Poll::Ready(cmd) => return Poll::Ready(Event::Control(cmd)),
            Poll::Pending => {},
        }
        match frame {
            Poll::Ready(frame) => Poll::Ready(Event::Inbound(frame)),
            Poll::Pending => Poll::Pending,
        }
    }

    /// Which event comes first, as long as it is not known if the socket can accept a new frame?
    ///
    /// `None` means that it can: all sources that are left are then to be waited for, see
    /// [`Connection::select`]. As long as a write is pending, only inbound frames are waited for.
    pub fn io_event<O>(
        ready: Poll<Result<(), ()>>,
        frame: Poll<Result<Option<Frame<()>>, ConnectionError>>,
    ) -> (r: Poll<Option<Event<O, C>>>)
        ensures
            r == first_io_event::<O, C>(ready, frame),
    {
        match ready {
            Poll::Ready(Ok(())) => return Poll::Ready(None),
            Poll::Ready(Err(())) => return Poll::Ready(Some(Event::OutboundFailed)),
            Poll::Pending => {},
        }
        match frame {
            Poll::Ready(frame) => Poll::Ready(Some(Event::Inbound(frame))),
            Poll::Pending => Poll::Pending,
        }
    }

    /// Make progress towards the next inbound `Stream`.
    ///
    /// Before each event, stale streams should be removed by [`Connection::garbage_collect`]. What is
    /// waited for is told by [`Connection::io_event`] and, once the socket is ready to accept a new
    /// frame, by [`Connection::select`].
    pub fn next<O>(&mut self, event: Event<O, C>) -> (r: Result<Step<O, C>, ConnectionError>)
        requires
            old(self)@.wf(),
            event_ok(old(self)@, event),
        ensures
            final(self)@.wf(),
            next_outcome(old(self)@, event, final(self)@, r),
    {
        match event {
            Event::OutboundReady(sources) => {
                let mut num_terminated: u32 = 0;
                if !sources.socket {
                    num_terminated += 1;
                }
                if !sources.stream {
                    num_terminated += 1;
                }
                if !sources.control {
                    num_terminated += 1;
                }
                if num_terminated == 3 {
                    // The socket and the channels are terminated.
                    return Err(ConnectionError::Closed);
                }
                Ok(Step::Wait(sources))
            },
            Event::OutboundFailed => Err(ConnectionError::Closed),
            Event::Inbound(frame) => match self.on_frame(frame) {
                Ok(reply) => Ok(Step::Frame(reply)),
                Err(e) => Err(e),
            },
            Event::Stream(None) => Ok(Step::Term(self.on_stream_command(None))),
            Event::Stream(cmd) => Ok(Step::Send(self.on_stream_command(cmd))),
            Event::Control(cmd) => match self.on_control_command(cmd) {
                Ok(action) => Ok(Step::Control(action)),
                Err(e) => Err(e),
            },
        }
    }

    /// Take note of what came of waiting for the next stream, opened by the remote.
    ///
    /// Once `Ok(None)` or `Err(_)` is returned the connection is considered closed. All streams are
    /// then closed, and their tasks are to be woken up. All commands are to be drained, and each
    /// control is to be told so, see [`Connection::refuse`].
    pub fn next_stream(&mut self, result: Result<Option<StreamId>, ConnectionError>) -> (r: (
        Result<Option<StreamId>, ConnectionError>,
        Vec<Dropped>,
    ))
        requires
            old(self)@.wf(),
        ensures
            final(self)@.wf(),
            stream_outcome(old(self)@, result, final(self)@, r.0, r.1@),
    {
        if self.is_closed {
            return (Ok(None), Vec::new());
        }
        if let Ok(Some(_)) = result {
            return (result, Vec::new());
        }
        self.is_closed = true;
        // At this point we are either at EOF or encountered an error.
        // We close all streams and wake up the associated tasks.
        let dropped = self.drop_all_streams();
        if let Err(ConnectionError::Closed) = result {
            return (Ok(None), dropped);
        }
        (result, dropped)
    }

    /// What to tell a control whose command comes after the connection was closed.
    pub fn refuse<O>(cmd: ControlCommand<O, C>) -> (r: ControlAction<O, C>)
        ensures
            r == refusal(cmd),
    {
        match cmd {
            ControlCommand::OpenStream(reply) => ControlAction::Refuse(
                reply,
                ConnectionError::Closed,
            ),
            ControlCommand::CloseConnection(reply) => ControlAction::Confirm(reply),
        }
    }

    /// One of the streams, to be read from or written to.
    pub fn stream_mut(&mut self, id: StreamId) -> (r: Option<&mut Stream>)
        ensures
            r is Some <==> old(self)@.streams.contains_key(id.0),
            match r {
                Some(s) => {
                    &&& s@ == old(self)@.streams[id.0]
                    &&& final(self)@ == old(self)@.with(id.0, final(s)@)
                },
                None => final(self)@ == old(self)@,
            },
    {
        match get_mut(&mut self.streams, id.0) {
            Some(s) => {
                proof {
                    Self::lemma_insert(old(self).streams@, id.0, *final(s));
                }
                Some(s)
            },
            None => None,
        }
    }
}

} // verus!
