//! What holds of connections and streams beyond a single operation.

pub mod control;
pub mod frames;
pub mod streams;
pub mod substreams;

use crate::chunks::{law_pushed_last_read_last, octets, total};
use crate::connection::command::{CommandView, OutboxView};
use crate::connection::stream::{
    close_outcome, next_outcome, read_outcome, writable, write_outcome, Flag, State, StreamView,
};
use crate::connection::substream;
use crate::connection::{
    self, command_frame, control_outcome, credit_overflow, data_outcome, frame_outcome, id_outcome,
    opened_by_data, ping_action, reset_frame, retained, ActionView, ConnectionView, ControlAction,
    ControlCommand, Event, Id, Mode, Reaction, Shutdown, Step,
};
use crate::error::{ConnectionError, IoErrorKind};
use crate::frame::header::{
    law_flags_are_independent, law_plain_header_has_no_flag, Flags, HeaderView, StreamId, Tag, ACK,
    FIN, RST, SYN,
};
use crate::frame::FrameView;
use crate::{ConfigView, Poll, DEFAULT_CREDIT};
use std::task::Waker;
use vstd::prelude::*;

verus! {

/// A direction of a stream that is closed stays closed, whatever happens next; and it makes no
/// difference in which order, or how often, directions are closed.
pub proof fn law_closed_stays_closed(a: State, b: State, c: State)
    ensures
        a.meet(b).recv() ==> a.recv() && b.recv(),
        a.meet(b).send() ==> a.send() && b.send(),
        a.meet(b) == b.meet(a),
        a.meet(b).meet(c) == a.meet(b.meet(c)),
        a.meet(a) == a,
        State::Closed.meet(a) == State::Closed,
        State::SendClosed.meet(State::RecvClosed) == State::Closed,
{
}

/// Whatever is done with a stream, the remote is never allowed to send more than the receive window
/// at once, and the stream keeps its identity.
pub proof fn law_stream_stays_well_formed(
    s: StreamView,
    o: OutboxView,
    room: nat,
    data: Seq<u8>,
    waker: Waker,
)
    requires
        s.wf(),
    ensures
        forall|t: StreamView|
            {
                ||| t == read_outcome(s, o, room, waker).stream
                ||| t == next_outcome(s, o, waker).stream
                ||| t == write_outcome(s, o, data, waker).stream
                ||| t == close_outcome(s, o).stream
            } ==> #[trigger] t.wf() && t.id == s.id && t.conn == s.conn && t.config == s.config,
{
}

/// A connection whose stream is read from, written to or closed stays well-formed.
pub proof fn law_connection_stays_well_formed<C>(c: ConnectionView<C>, id: u32, s: StreamView)
    requires
        c.wf(),
        c.streams.contains_key(id),
        c.stream_wf(id, s),
    ensures
        c.with(id, s).wf(),
{
}

/// A stream is never given an identifier that is in use, and the identifiers that we give never come
/// back.
pub proof fn law_identifiers_are_fresh<C>(c: ConnectionView<C>)
    requires
        c.wf(),
    ensures
        !c.streams.contains_key(c.next_id),
        c.mode.ours(c.next_id),
        forall|k: u32| c.mode.ours(k) && #[trigger] c.streams.contains_key(k) ==> k < c.next_id,
{
}

/// What a step of a connection does about identifiers: it gives the next one to a new stream, or it
/// gives none.
pub open spec fn gives<C>(
    c: ConnectionView<C>,
    after: ConnectionView<C>,
    given: Option<u32>,
) -> bool {
    &&& after.mode == c.mode
    &&& match given {
        Some(id) => id == c.next_id && after.next_id == c.next_id + 2,
        None => after.next_id == c.next_id,
    }
}

/// How many of the first `n` steps give an identifier.
pub open spec fn given_before(given: Seq<Option<u32>>, n: nat) -> nat
    decreases n,
{
    if n == 0 {
        0
    } else {
        given_before(given, (n - 1) as nat) + if given[n - 1] is Some {
            1nat
        } else {
            0nat
        }
    }
}

/// The identifier of a stream that an event has us open.
pub open spec fn opened_by<O, C>(r: Result<Step<O, C>, ConnectionError>) -> Option<u32> {
    match r {
        Ok(Step::Control(ControlAction::Open(_, s, _))) => Some(s@.id),
        _ => None,
    }
}

/// Whatever event a connection reacts to, it gives the next identifier to the stream that it opens, if
/// it opens one, and gives no identifier otherwise.
pub proof fn law_events_give_identifiers_in_order<O, C>(
    c: ConnectionView<C>,
    event: Event<O, C>,
    after: ConnectionView<C>,
    r: Result<Step<O, C>, ConnectionError>,
)
    requires
        connection::next_outcome(c, event, after, r),
    ensures
        gives(c, after, opened_by(r)),
{
}

/// An operation that changes nothing but the streams that a connection has, how far it is in shutting
/// down or whether it is closed gives no identifier.
pub proof fn law_other_operations_give_no_identifier<C>(
    c: ConnectionView<C>,
    streams: Map<u32, StreamView>,
    shutdown: Shutdown<C>,
    is_closed: bool,
)
    ensures
        gives(c, ConnectionView { streams, shutdown, is_closed, ..c }, None),
{
}

/// However long a connection lives, no identifier is given to two of the streams that it opens: the
/// identifiers increase, a client gives 1, 3, 5 and so on, a server 2, 4, 6 and so on.
///
/// Each step between two `states` gives an identifier or none, as every operation on a connection does.
pub proof fn law_no_identifier_is_given_twice<C>(
    id: Id,
    config: ConfigView,
    mode: Mode,
    states: Seq<ConnectionView<C>>,
    given: Seq<Option<u32>>,
)
    requires
        states.len() == given.len() + 1,
        states[0] == ConnectionView::<C>::fresh(id, config, mode),
        forall|i: int| 0 <= i < given.len() ==> gives(states[i], states[i + 1], #[trigger] given[i]),
    ensures
        forall|i: int|
            0 <= i < given.len() ==> (#[trigger] given[i] matches Some(x) ==> {
                &&& x == states[0].next_id + 2 * given_before(given, i as nat)
                &&& mode.ours(x)
                &&& x > 0
            }),
        forall|i: int, j: int|
            0 <= i < j < given.len() ==> (#[trigger] given[i] matches Some(x) ==> (
            #[trigger] given[j] matches Some(y) ==> x < y)),
{
    assert forall|i: int| 0 <= i < given.len() implies (#[trigger] given[i] matches Some(x) ==> {
        &&& x == states[0].next_id + 2 * given_before(given, i as nat)
        &&& mode.ours(x)
        &&& x > 0
    }) by {
        lemma_next_id(states, given, i as nat);
    }
    assert forall|i: int, j: int| 0 <= i < j < given.len() implies (
    #[trigger] given[i] matches Some(x) ==> (#[trigger] given[j] matches Some(y) ==> x < y)) by {
        lemma_next_id(states, given, i as nat);
        lemma_next_id(states, given, j as nat);
        lemma_given_before(given, (i + 1) as nat, j as nat);
    }
}

/// The next identifier tells how many were given.
proof fn lemma_next_id<C>(states: Seq<ConnectionView<C>>, given: Seq<Option<u32>>, n: nat)
    requires
        states.len() == given.len() + 1,
        forall|i: int| 0 <= i < given.len() ==> gives(states[i], states[i + 1], #[trigger] given[i]),
        n <= given.len(),
    ensures
        states[n as int].next_id == states[0].next_id + 2 * given_before(given, n),
    decreases n,
{
    if n > 0 {
        lemma_next_id(states, given, (n - 1) as nat);
        assert(gives(states[n - 1], states[n - 1 + 1], given[n - 1]));
    }
}

/// The more steps, the more identifiers were given.
proof fn lemma_given_before(given: Seq<Option<u32>>, m: nat, n: nat)
    requires
        m <= n,
    ensures
        given_before(given, m) <= given_before(given, n),
    decreases n,
{
    if m < n {
        lemma_given_before(given, m, (n - 1) as nat);
    }
}

/// Asking for identifiers again and again gives the odd numbers to a client and the even numbers to a
/// server, in order, until they are used up. From then on there is an error, whenever one is asked for.
pub proof fn law_identifiers_are_given_in_order<C>(
    id: Id,
    config: ConfigView,
    mode: Mode,
    states: Seq<ConnectionView<C>>,
    results: Seq<Result<StreamId, ConnectionError>>,
)
    requires
        states.len() == results.len() + 1,
        states[0] == ConnectionView::<C>::fresh(id, config, mode),
        forall|i: int|
            0 <= i < results.len() ==> id_outcome(states[i], states[i + 1], #[trigger] results[i]),
    ensures
        forall|i: int|
            0 <= i < results.len() ==> #[trigger] results[i] == if states[0].next_id + 2 * i + 2
                <= u32::MAX {
                Ok::<StreamId, ConnectionError>(StreamId((states[0].next_id + 2 * i) as u32))
            } else {
                Err::<StreamId, ConnectionError>(ConnectionError::NoMoreStreamIds)
            },
{
    assert forall|i: int| 0 <= i < results.len() implies #[trigger] results[i] == if states[0].next_id
        + 2 * i + 2 <= u32::MAX {
        Ok::<StreamId, ConnectionError>(StreamId((states[0].next_id + 2 * i) as u32))
    } else {
        Err::<StreamId, ConnectionError>(ConnectionError::NoMoreStreamIds)
    } by {
        lemma_asked(states, results, i as nat);
    }
}

/// The next identifier tells how often one was asked for, unless all are used up.
proof fn lemma_asked<C>(
    states: Seq<ConnectionView<C>>,
    results: Seq<Result<StreamId, ConnectionError>>,
    n: nat,
)
    requires
        states.len() == results.len() + 1,
        forall|i: int|
            0 <= i < results.len() ==> id_outcome(states[i], states[i + 1], #[trigger] results[i]),
        n <= results.len(),
    ensures
        if states[0].next_id + 2 * n <= u32::MAX {
            states[n as int].next_id == states[0].next_id + 2 * n
        } else {
            states[n as int].next_id + 2 > u32::MAX
        },
    decreases n,
{
    if n > 0 {
        lemma_asked(states, results, (n - 1) as nat);
        assert(id_outcome(states[n - 1], states[n - 1 + 1], results[n - 1]));
    }
}

/// A new connection has no streams, is open for business, and begins with the first identifier of its
/// side.
pub proof fn law_new_connections_are_empty<C>(id: Id, config: ConfigView, mode: Mode)
    ensures
        ({
            let c = ConnectionView::<C>::fresh(id, config, mode);
            &&& c.id == id && c.config == config && c.mode == mode
            &&& c.next_id == match mode {
                Mode::Client => 1u32,
                Mode::Server => 2u32,
            }
            &&& c.streams.len() == 0
            &&& forall|k: u32| !#[trigger] c.streams.contains_key(k)
            &&& c.shutdown is NotStarted
            &&& !c.is_closed
        }),
{
}

/// A client opens streams with odd identifiers, a server those with even ones.
pub proof fn law_sides_have_their_identifiers(id: u32)
    ensures
        Mode::Client.ours(id) <==> id % 2 == 1,
        Mode::Server.ours(id) <==> id % 2 == 0,
{
}

/// The two sides of a connection never choose the same identifier.
pub proof fn law_sides_do_not_collide(id: u32)
    ensures
        Mode::Client.ours(id) != Mode::Server.ours(id),
{
}

/// Frames for streams that are not known are ignored, instead of triggering a stream reset for the
/// remote.
pub proof fn law_unknown_streams_are_ignored<C>(c: ConnectionView<C>, f: FrameView)
    requires
        !c.streams.contains_key(f.header.stream_id),
        !f.header.has(SYN),
        f.header.tag == Tag::Data || f.header.tag == Tag::WindowUpdate,
    ensures
        frame_outcome(c, f) == Reaction::only(c, ActionView::Nothing),
{
}

/// A ping for the whole session is answered with its nonce, and an answer is never answered.
pub proof fn law_ping_is_answered_once<C, D>(c: ConnectionView<C>, d: ConnectionView<D>, f: FrameView)
    requires
        f.header.stream_id == 0,
        !f.header.has(ACK),
    ensures
        ping_action(c, f) matches ActionView::Ping(g) && {
            &&& g.header.tag == Tag::Ping
            &&& g.header.stream_id == 0
            &&& g.header.length == f.header.length
            &&& g.header.has(ACK)
            &&& ping_action(d, g) == ActionView::Nothing
        },
{
    let h = HeaderView::plain(Tag::Ping, 0, f.header.length);
    law_flags_are_independent(h, ACK, ACK);
}

/// A frame that resets a stream closes both of its directions.
pub proof fn law_reset_closes<C>(c: ConnectionView<C>, f: FrameView)
    requires
        c.streams.contains_key(f.header.stream_id),
        f.header.has(RST),
        f.header.tag == Tag::Data || f.header.tag == Tag::WindowUpdate,
    ensures
        frame_outcome(c, f).conn.streams[f.header.stream_id].shared.state == State::Closed,
{
}

/// A frame that finishes a stream closes the direction from the remote to us and leaves the other one
/// as it is, unless the frame is not allowed.
pub proof fn law_finish_half_closes<C>(c: ConnectionView<C>, f: FrameView)
    requires
        c.streams.contains_key(f.header.stream_id),
        f.header.has(FIN),
        !f.header.has(RST),
        !f.header.has(SYN),
        f.header.tag == Tag::Data || f.header.tag == Tag::WindowUpdate,
        !(frame_outcome(c, f).action is Terminate),
    ensures
        ({
            let before = c.streams[f.header.stream_id].shared.state;
            let after = frame_outcome(c, f).conn.streams[f.header.stream_id].shared.state;
            !after.recv() && after.send() == before.send()
        }),
{
}

/// Closing our direction of a stream leaves the direction from the remote as it is.
pub proof fn law_close_half_closes(s: StreamView, o: OutboxView)
    requires
        o.ready(),
    ensures
        ({
            let after = close_outcome(s, o).stream.shared.state;
            !after.send() && after.recv() == s.shared.state.recv()
        }),
        close_outcome(s, o).result == Poll::Ready(
            Ok::<(), IoErrorKind>(()),
        ),
{
}

/// Whatever the remote sends, it does not touch the streams that it does not name.
pub proof fn law_other_streams_are_untouched<C>(c: ConnectionView<C>, f: FrameView, k: u32)
    requires
        k != f.header.stream_id,
    ensures
        frame_outcome(c, f).conn.streams.contains_key(k) == c.streams.contains_key(k),
        c.streams.contains_key(k) ==> frame_outcome(c, f).conn.streams[k] == c.streams[k],
        frame_outcome(c, f).conn.next_id == c.next_id,
        frame_outcome(c, f).conn.shutdown == c.shutdown,
{
}

/// A refused frame changes nothing.
pub proof fn law_terminating_changes_nothing<C>(c: ConnectionView<C>, f: FrameView)
    requires
        frame_outcome(c, f).action is Terminate,
    ensures
        frame_outcome(c, f).conn == c,
{
}

/// Data arrives in order: what can be read of a stream is what could be read before, followed by the
/// new data, unless the frame is not allowed or the buffer is full.
pub proof fn law_data_arrives_in_order<C>(c: ConnectionView<C>, f: FrameView)
    requires
        f.header.tag == Tag::Data,
        !f.header.has(RST),
        !(frame_outcome(c, f).action is Terminate),
        !(frame_outcome(c, f).action is Reset),
        c.streams.contains_key(f.header.stream_id) || f.header.has(SYN),
    ensures
        ({
            let id = f.header.stream_id;
            let before = if c.streams.contains_key(id) {
                octets(c.streams[id].shared.buffer)
            } else {
                Seq::empty()
            };
            let after = frame_outcome(c, f).conn;
            &&& after.streams.contains_key(id)
            &&& octets(after.streams[id].shared.buffer) == before + f.body
        }),
{
    let id = f.header.stream_id;
    let buffer = if c.streams.contains_key(id) {
        c.streams[id].shared.buffer
    } else {
        Seq::empty()
    };
    law_pushed_last_read_last(buffer, f.body);
    assert(octets(Seq::<Seq<u8>>::empty()) == Seq::<u8>::empty());
    assert(octets(buffer) + Seq::<u8>::empty() =~= octets(buffer));
    if f.body.len() == 0 {
        assert(f.body =~= Seq::<u8>::empty());
    }
}

/// What is written is what can be read at the other end: the data of a write, as far as it was taken,
/// follows what could be read there before.
///
/// This holds as long as the writer has no more credit than the reader has granted, and the reader has
/// room for it.
pub proof fn law_written_data_arrives<C>(
    s: StreamView,
    o: OutboxView,
    data: Seq<u8>,
    waker: Waker,
    c: ConnectionView<C>,
)
    requires
        o.ready(),
        s.shared.state.send(),
        s.flag != Flag::Syn,
        c.streams.contains_key(s.id),
        0 < s.shared.credit <= c.streams[s.id].shared.window,
        total(c.streams[s.id].shared.buffer) < c.config.max_buffer_size,
    ensures
        ({
            let w = write_outcome(s, o, data, waker);
            let r = frame_outcome(c, command_frame(w.outbox.commands.last()));
            &&& w.result == Poll::Ready(
                Ok::<usize, IoErrorKind>(writable(s, data.len()) as usize),
            )
            &&& !(r.action is Terminate) && !(r.action is Reset)
            &&& octets(r.conn.streams[s.id].shared.buffer) == octets(
                c.streams[s.id].shared.buffer,
            ) + data.take(writable(s, data.len()) as int)
        }),
{
    let n = writable(s, data.len());
    let f = FrameView::data(s.id, data.take(n as int));
    let g = command_frame(s.flag.send(f));
    law_plain_header_has_no_flag(Tag::Data, s.id, f.header.length, RST);
    law_plain_header_has_no_flag(Tag::Data, s.id, f.header.length, SYN);
    law_flags_are_independent(f.header, ACK, RST);
    law_flags_are_independent(f.header, ACK, SYN);
    assert(!g.header.has(RST) && !g.header.has(SYN));
    law_data_arrives_in_order(c, g);
}

/// The first write to a stream that we open opens it at the other end, and its data can be read there,
/// unless the other end has no room for another stream.
pub proof fn law_first_write_opens<C>(
    s: StreamView,
    o: OutboxView,
    data: Seq<u8>,
    waker: Waker,
    c: ConnectionView<C>,
)
    requires
        o.ready(),
        s.shared.state.send(),
        s.flag == Flag::Syn,
        0 < s.shared.credit <= DEFAULT_CREDIT,
        !c.mode.ours(s.id),
        !c.streams.contains_key(s.id),
        !c.full(),
    ensures
        ({
            let w = write_outcome(s, o, data, waker);
            let r = frame_outcome(c, command_frame(w.outbox.commands.last()));
            &&& r.action.stream() == Some(s.id)
            &&& r.conn.streams.contains_key(s.id)
            &&& octets(r.conn.streams[s.id].shared.buffer) == data.take(
                writable(s, data.len()) as int,
            )
        }),
{
    let n = writable(s, data.len());
    let f = FrameView::data(s.id, data.take(n as int));
    let g = command_frame(s.flag.send(f));
    law_plain_header_has_no_flag(Tag::Data, s.id, f.header.length, RST);
    law_flags_are_independent(f.header, SYN, RST);
    law_flags_are_independent(f.header, SYN, SYN);
    assert(g.header.has(SYN) && !g.header.has(RST));
    law_data_arrives_in_order(c, g);
    assert(Seq::<u8>::empty() + g.body =~= g.body);
}

/// If streams are not to be read after the connection is closed, nothing can be read from then on, and
/// no data is taken from the buffer.
pub proof fn law_nothing_is_read_after_close(
    s: StreamView,
    o: OutboxView,
    room: nat,
    waker: Waker,
)
    requires
        !s.config.read_after_close,
        o.closed,
    ensures
        read_outcome(s, o, room, waker).result == Poll::Ready(Ok::<usize, IoErrorKind>(0)),
        read_outcome(s, o, room, waker).stream == s,
        next_outcome(s, o, waker).result == Poll::Ready(
            None::<Result<Seq<u8>, IoErrorKind>>,
        ),
{
}

/// What is written to a stream goes out in one frame that holds the start of the data, and costs as
/// much credit as is sent.
pub proof fn law_write_costs_credit(s: StreamView, o: OutboxView, data: Seq<u8>, waker: Waker)
    requires
        o.ready(),
        s.shared.state.send(),
        s.shared.credit > 0,
        data.len() > 0,
        s.config.split_send_size > 0,
    ensures
        ({
            let w = write_outcome(s, o, data, waker);
            &&& w.result matches Poll::Ready(Ok(n))
            &&& 0 < n <= data.len()
            &&& n <= s.config.split_send_size
            &&& w.outbox.commands.len() == o.commands.len() + 1
            &&& w.outbox.commands.last() matches CommandView::SendFrame(f)
            &&& f.body == data.take(n as int)
            &&& f.header.stream_id == s.id
            &&& f.wf()
            &&& w.stream.shared.credit + f.body.len() == s.shared.credit
        }),
{
    assert(data.take(writable(s, data.len()) as int).len() == writable(s, data.len()));
}

/// Flow control, as the writer sees it: if the credit that is left and what is on the way are within
/// the window of the reader, then they are so after a write.
pub proof fn law_writing_stays_within_window(
    s: StreamView,
    o: OutboxView,
    data: Seq<u8>,
    waker: Waker,
    on_the_way: nat,
    window: nat,
)
    requires
        o.ready(),
        s.shared.credit + on_the_way <= window,
    ensures
        ({
            let w = write_outcome(s, o, data, waker);
            let sent = if w.outbox == o {
                0
            } else {
                command_frame(w.outbox.commands.last()).body.len()
            };
            w.stream.shared.credit + on_the_way + sent <= window
        }),
{
    assert(data.take(writable(s, data.len()) as int).len() == writable(s, data.len()));
}

/// Flow control, as the reader sees it: a data frame that is within the window is never refused for
/// its size, and the window shrinks by what was received and grows by what the remote is granted. So
/// if what the remote may still send and what is on the way are within the window before, they are so
/// afterwards.
pub proof fn law_receiving_stays_within_window<C>(
    c: ConnectionView<C>,
    f: FrameView,
    credit: nat,
    on_the_way: nat,
)
    requires
        c.wf(),
        f.header.tag == Tag::Data,
        !f.header.has(RST),
        !f.header.has(SYN),
        c.streams.contains_key(f.header.stream_id),
        total(c.streams[f.header.stream_id].shared.buffer) < c.config.max_buffer_size,
        f.body.len() <= on_the_way,
        credit + on_the_way <= c.streams[f.header.stream_id].shared.window,
    ensures
        ({
            let r = frame_outcome(c, f);
            let after = r.conn.streams[f.header.stream_id].shared;
            let granted = match r.action {
                ActionView::Update(u) => u.header.length as nat,
                _ => 0,
            };
            &&& !(r.action is Terminate)
            &&& after.window == c.streams[f.header.stream_id].shared.window - f.body.len() + granted
            &&& credit + granted + (on_the_way - f.body.len()) <= after.window
        }),
{
}

/// Flow control, as the reader sees it: whatever the remote is granted by reading, it is told of, now or
/// as soon as the channel to the connection has room.
pub proof fn law_grants_are_announced(s: StreamView, o: OutboxView, room: nat, waker: Waker)
    requires
        s.wf(),
        !o.closed,
    ensures
        ({
            let r = read_outcome(s, o, room, waker);
            let granted = r.stream.shared.window - s.shared.window;
            &&& granted >= 0
            &&& granted > 0 ==> {
                ||| r.stream.pending == Some(FrameView::window_update(s.id, granted as u32))
                ||| {
                    &&& r.outbox.commands.last() matches CommandView::SendFrame(f)
                    &&& f.header.tag == Tag::WindowUpdate
                    &&& f.header.stream_id == s.id
                    &&& f.header.length == granted
                }
            }
        }),
{
}

/// Flow control, as the writer sees it: a window update adds just what it says to the credit.
pub proof fn law_credit_arrives<C>(c: ConnectionView<C>, f: FrameView)
    requires
        f.header.tag == Tag::WindowUpdate,
        !f.header.has(RST),
        !f.header.has(SYN),
        c.streams.contains_key(f.header.stream_id),
        !credit_overflow(c, f),
    ensures
        frame_outcome(c, f).conn.streams[f.header.stream_id].shared.credit == c.streams[
            f.header.stream_id
        ].shared.credit + f.header.length,
{
}

/// The first thing that the remote hears of a stream that we open has the SYN flag: either the initial
/// window update, or the first frame of the stream.
pub proof fn law_opening_is_announced<C>(
    c: ConnectionView<C>,
    o: OutboxView,
    data: Seq<u8>,
    waker: Waker,
)
    requires
        c.wf(),
        o.ready(),
    ensures
        match c.outbound_frame() {
            Some(f) => f.header.has(SYN) && c.outbound().flag == Flag::Nothing,
            None => {
                &&& write_outcome(c.outbound(), o, data, waker).outbox.commands.last() matches
                    CommandView::SendFrame(f)
                &&& f.header.has(SYN)
                &&& write_outcome(c.outbound(), o, data, waker).stream.flag == Flag::Nothing
            },
        },
{
    let s = c.outbound();
    let n = writable(s, data.len());
    law_flags_are_independent(
        FrameView::window_update(c.next_id, c.extra_credit()).header,
        SYN,
        SYN,
    );
    law_flags_are_independent(FrameView::data(s.id, data.take(n as int)).header, SYN, SYN);
}

/// When we open a stream by a window update, both ends agree from the start on how much each may send:
/// what we may send is what the remote accepts, and the other way round.
pub proof fn law_ends_agree_from_the_start<C, D>(c: ConnectionView<C>, d: ConnectionView<D>)
    requires
        c.wf(),
        c.outbound_frame() is Some,
        !d.mode.ours(c.next_id),
        !d.streams.contains_key(c.next_id),
        !d.full(),
    ensures
        ({
            let s = c.outbound().shared;
            let f = c.outbound_frame()->Some_0;
            let t = frame_outcome(d, f).conn.streams[c.next_id].shared;
            &&& !credit_overflow(d, f)
            &&& frame_outcome(d, f).conn.streams.contains_key(c.next_id)
            &&& s.credit == t.window
            &&& s.window == t.credit
            &&& t.state == State::Open
        }),
{
    let h = HeaderView::plain(Tag::WindowUpdate, c.next_id, c.extra_credit());
    law_plain_header_has_no_flag(Tag::WindowUpdate, c.next_id, c.extra_credit(), RST);
    law_plain_header_has_no_flag(Tag::WindowUpdate, c.next_id, c.extra_credit(), FIN);
    law_flags_are_independent(h, SYN, RST);
    law_flags_are_independent(h, SYN, FIN);
    law_flags_are_independent(h, SYN, SYN);
}

/// When we open a stream by its first data, both ends agree from the start on how much each may send,
/// up to what was sent and granted with that data.
pub proof fn law_ends_agree_from_the_first_data<C, D>(
    c: ConnectionView<C>,
    d: ConnectionView<D>,
    f: FrameView,
)
    requires
        c.wf(),
        d.wf(),
        c.outbound_frame() is None,
        f.header.stream_id == c.next_id,
        f.body.len() <= DEFAULT_CREDIT,
    ensures
        ({
            let s = c.outbound().shared;
            let (t, update) = opened_by_data(d, f);
            let granted = match update {
                Some(u) => u.header.length as int,
                None => 0,
            };
            &&& s.window == t.shared.credit
            &&& s.credit - f.body.len() + granted == t.shared.window
        }),
{
}

/// A stream that the remote opens is acknowledged once: either by the window update that it is given
/// at once, or by the first frame that we send.
pub proof fn law_opening_is_acknowledged<C>(c: ConnectionView<C>, f: FrameView)
    ensures
        match opened_by_data(c, f) {
            (s, Some(update)) => update.header.has(ACK) && s.flag == Flag::Nothing,
            (s, None) => s.flag == Flag::Ack,
        },
{
    let (s, update) = opened_by_data(c, f);
    if let Some(u) = update {
        law_flags_are_independent(
            FrameView::window_update(f.header.stream_id, u.header.length).header,
            ACK,
            ACK,
        );
    }
}

/// The reset that we send is taken for one by the remote.
pub proof fn law_reset_is_understood<C>(c: ConnectionView<C>, id: u32)
    requires
        c.streams.contains_key(id),
    ensures
        data_outcome(c, reset_frame(id)).conn.streams[id].shared.state == State::Closed,
{
    law_flags_are_independent(
        HeaderView::plain(Tag::Data, id, 0),
        RST,
        RST,
    );
}

/// What we send to close our direction of a stream closes that direction for the remote, and no
/// other, unless the remote has reset the stream or has no room for its data.
pub proof fn law_close_is_understood<C>(c: ConnectionView<C>, id: u32, ack: bool)
    requires
        c.streams.contains_key(id),
    ensures
        ({
            let before = c.streams[id].shared.state;
            let after = data_outcome(
                c,
                command_frame(CommandView::CloseStream { id, ack }),
            ).conn.streams[id].shared.state;
            !after.recv() && after.send() == before.send()
        }),
{
    let h = HeaderView::plain(Tag::Data, id, 0);
    law_plain_header_has_no_flag(Tag::Data, id, 0, RST);
    law_plain_header_has_no_flag(Tag::Data, id, 0, SYN);
    law_flags_are_independent(h, FIN, FIN);
    law_flags_are_independent(h, FIN, RST);
    law_flags_are_independent(h, FIN, SYN);
    law_flags_are_independent(h.with(FIN), ACK, FIN);
    law_flags_are_independent(h.with(FIN), ACK, RST);
    law_flags_are_independent(h.with(FIN), ACK, SYN);
}

/// A stream that the remote has opened is acknowledged by the first data that we write to it, and by
/// no data that we write later.
pub proof fn law_first_write_acknowledges(
    s: substream::StreamView,
    o: OutboxView,
    data: Seq<u8>,
    waker: Waker,
)
    requires
        o.ready(),
        s.flag == Flag::Ack,
        s.shared.state == (substream::State::Open { acknowledged: false }),
        s.shared.flow.send_window > 0,
    ensures
        ({
            let w = substream::write_outcome(s, o, data, waker);
            &&& w.outbox.commands.last() matches CommandView::SendFrame(f)
            &&& f.header.has(ACK)
            &&& w.stream.shared.state == (substream::State::Open { acknowledged: true })
            &&& w.stream.flag == Flag::Nothing
        }),
{
    let n = substream::writable(s, data.len());
    law_flags_are_independent(FrameView::data(s.id, data.take(n as int)).header, ACK, ACK);
}

/// A stream that the remote has opened is acknowledged by the first window update that we send for it,
/// if this comes before any data.
pub proof fn law_first_window_update_acknowledges(
    s: substream::StreamView,
    o: OutboxView,
    room: nat,
    waker: Waker,
)
    requires
        o.ready(),
        s.flag == Flag::Ack,
        s.shared.state == (substream::State::Open { acknowledged: false }),
        s.due() is Some,
    ensures
        ({
            let r = substream::read_outcome(s, o, room, waker);
            &&& r.outbox.commands.last() matches CommandView::SendFrame(f)
            &&& f.header.tag == Tag::WindowUpdate
            &&& f.header.has(ACK)
            &&& r.stream.shared.state == (substream::State::Open { acknowledged: true })
            &&& r.stream.flag == Flag::Nothing
        }),
        ({
            let n = substream::next_outcome(s, o, waker);
            &&& n.outbox == substream::read_outcome(s, o, room, waker).outbox
            &&& n.stream.shared.state == (substream::State::Open { acknowledged: true })
            &&& n.stream.flag == Flag::Nothing
        }),
{
    let f = FrameView::window_update(s.id, s.due()->Some_0);
    law_flags_are_independent(f.header, ACK, ACK);
}

/// A stream that we have opened is acknowledged by the first frame with the ACK flag, whatever its
/// kind, and by no other frame. A direction that was closed stays closed.
pub proof fn law_acknowledged_by_remote(s: substream::State, flags: Flags)
    ensures
        s == (substream::State::Open { acknowledged: false }) ==> (s.received(flags)
            == substream::State::Open { acknowledged: true } <==> flags.0 & ACK == ACK),
        flags.0 & ACK != ACK ==> s.received(flags) == s,
        s.received(flags).directions() == s.directions(),
        s == (substream::State::Open { acknowledged: true }) ==> s.received(flags) == s,
{
}

/// What acknowledges a stream at one end, be it data or a window update, acknowledges it at the other.
pub proof fn law_ends_agree_on_acknowledgement(
    inbound: substream::StreamView,
    outbound: substream::SharedView,
    f: FrameView,
)
    requires
        inbound.flag == Flag::Ack,
        inbound.shared.state == (substream::State::Open { acknowledged: false }),
        outbound.state == (substream::State::Open { acknowledged: false }),
    ensures
        inbound.shared.state.sent(inbound.flag) == outbound.state.received(
            Flags(inbound.flag.on(f.header).flags),
        ),
{
    law_flags_are_independent(f.header, ACK, ACK);
}

/// The credit that the remote is given never lifts its window above the maximum, and what is buffered
/// is always within the window that the remote was given.
pub proof fn law_grants_stay_within_maximum(f: substream::FlowView, buffered: nat)
    requires
        f.wf(),
    ensures
        f.granted(buffered).wf(),
        f.due(buffered) matches Some(n) ==> {
            &&& n >= f.max_receive_window / 2
            &&& f.granted(buffered).receive_window + buffered == f.max_receive_window
        },
{
}

/// Whatever the remote sends, the connection stays well-formed: there are never more streams than
/// configured, each is found under its own identifier, and no window exceeds the receive window.
pub proof fn law_frames_keep_connection_well_formed<C>(c: ConnectionView<C>, f: FrameView)
    requires
        c.wf(),
        f.wf(),
        !(f.header.tag == Tag::WindowUpdate && credit_overflow(c, f)),
    ensures
        frame_outcome(c, f).conn.wf(),
        frame_outcome(c, f).conn.streams.len() <= c.config.max_num_streams,
{
}

/// Shutting down never goes back, and controls are told that the connection is closed only when it
/// really is.
pub proof fn law_controls_are_told_the_truth<O, C>(
    c: ConnectionView<C>,
    cmd: Option<ControlCommand<O, C>>,
    after: ConnectionView<C>,
    r: Result<ControlAction<O, C>, ConnectionError>,
)
    requires
        control_outcome(c, cmd, after, r),
    ensures
        r matches Ok(ControlAction::Confirm(_)) ==> c.shutdown is Complete,
        r matches Ok(ControlAction::Refuse(_, ConnectionError::Closed)) ==> c.shutdown is Complete,
        c.shutdown is Complete ==> after.shutdown is Complete && !(r matches Ok(
            ControlAction::Open(..),
        )),
        c.shutdown is InProgress ==> after.shutdown is InProgress,
{
}

/// Collecting garbage removes all streams that were given up, and only those, so that nothing is left
/// for the next time.
pub proof fn law_garbage_is_collected_once(m: Map<u32, StreamView>, k: u32)
    ensures
        retained(retained(m)) == retained(m),
        retained(m).contains_key(k) <==> m.contains_key(k) && m[k].retained,
        retained(m).contains_key(k) ==> retained(m)[k] == m[k],
{
    assert(retained(retained(m)) =~= retained(m));
}

} // verus!
