//! What reading, writing and closing are for, of streams that tell if they were acknowledged.

use crate::chunks::{law_pushed_last_read_last, law_reading_loses_nothing, octets};
use crate::connection::command::{CommandView, OutboxView};
use crate::connection::laws::streams::{flag_bits, gives_credit};
use crate::connection::stream::Flag;
use crate::connection::substream::{
    close_outcome, flush_outcome, next_outcome, read_outcome, write_outcome, FlowView, SharedView,
    State, StreamView,
};
use crate::connection::Id;
use crate::error::IoErrorKind;
use crate::frame::header::{Flags, Tag, ACK, SYN};
use crate::{ConfigView, Poll, DEFAULT_CREDIT};
use std::task::Waker;
use vstd::prelude::*;

verus! {

/// May more data come from the remote?
pub open spec fn open_to_read(s: State) -> bool {
    match s {
        State::Open { .. } | State::SendClosed => true,
        State::RecvClosed | State::Closed => false,
    }
}

/// May we send more data to the remote?
pub open spec fn open_to_write(s: State) -> bool {
    match s {
        State::Open { .. } | State::RecvClosed => true,
        State::SendClosed | State::Closed => false,
    }
}

/// Can the stream not be read, because the connection is gone?
///
/// What is buffered can be read if so configured, once the remote has sent all of it.
pub open spec fn gone(s: StreamView, o: OutboxView) -> bool {
    o.closed && (!s.config.read_after_close || open_to_read(s.shared.state))
}

/// The flags that are set on headers without flags.
proof fn lemma_flag_bits()
    ensures
        0u16 | SYN == SYN,
        0u16 | ACK == ACK,
{
    assert(0u16 | SYN == SYN && 0u16 | ACK == ACK) by (bit_vector);
}

/// An update of the state closes the directions that it names, all of them and no others. As long as
/// both directions are open, it also tells if the stream is acknowledged.
pub proof fn law_updates_close_what_they_name(a: State, b: State)
    ensures
        open_to_read(a.update(b)) == (open_to_read(a) && open_to_read(b)),
        open_to_write(a.update(b)) == (open_to_write(a) && open_to_write(b)),
        a is Open && b is Open ==> a.update(b) == b,
        a.recv() == open_to_read(a),
        a.send() == open_to_write(a),
{
}

/// Flags acknowledge a stream, or leave its state as it is; they never open or close anything.
pub proof fn law_flags_only_acknowledge(s: State, flags: Flags, flag: Flag)
    ensures
        flags.0 & ACK != ACK ==> s.received(flags) == s,
        flags.0 & ACK == ACK && s is Open ==> s.received(flags) == (State::Open {
            acknowledged: true,
        }),
        !(s is Open) ==> s.received(flags) == s && s.sent(flag) == s,
        flag != Flag::Ack ==> s.sent(flag) == s,
        flag == Flag::Ack && s is Open ==> s.sent(flag) == (State::Open { acknowledged: true }),
{
}

/// The remote is granted all that can be granted, if this is half of the maximum or more, and nothing
/// otherwise.
pub proof fn law_grants_are_all_or_nothing(f: FlowView, buffered: nat)
    requires
        f.wf(),
    ensures
        ({
            let credit = f.max_receive_window - f.receive_window - buffered;
            if credit >= f.max_receive_window / 2 {
                &&& f.due(buffered) matches Some(n) && n == credit
                &&& f.granted(buffered).receive_window + buffered == f.max_receive_window
                &&& f.granted(buffered).max_receive_window == f.max_receive_window
                &&& f.granted(buffered).send_window == f.send_window
            } else {
                &&& f.due(buffered) is None
                &&& f.granted(buffered) == f
            }
        }),
{
}

/// A new stream is open in both directions and not acknowledged. Nothing was received, nobody waits, and
/// the remote may send the default credit.
pub proof fn law_new_streams_are_open(
    id: u32,
    conn: Id,
    config: ConfigView,
    flag: Flag,
    send_window: u32,
)
    ensures
        ({
            let s = StreamView::fresh(id, conn, config, flag, send_window);
            &&& s.id == id && s.conn == conn && s.config == config && s.flag == flag
            &&& s.shared.state == (State::Open { acknowledged: false })
            &&& octets(s.shared.buffer).len() == 0
            &&& s.shared.reader is None && s.shared.writer is None
            &&& s.shared.flow.receive_window == DEFAULT_CREDIT
            &&& s.shared.flow.max_receive_window == config.receive_window
            &&& s.shared.flow.send_window == send_window
            &&& config.receive_window >= DEFAULT_CREDIT ==> s.wf()
        }),
{
}

/// Data that is received can be read after everything that was received before, and uses up as much of
/// the window; nothing else changes.
pub proof fn law_data_arrives_in_order(s: SharedView, body: Seq<u8>)
    requires
        body.len() <= s.flow.receive_window,
    ensures
        octets(s.received(body).buffer) == octets(s.buffer) + body,
        s.received(body).flow.receive_window + body.len() == s.flow.receive_window,
        s.received(body).flow == (FlowView {
            receive_window: s.received(body).flow.receive_window,
            ..s.flow
        }),
        s.received(body) == (SharedView {
            flow: s.received(body).flow,
            buffer: s.received(body).buffer,
            ..s
        }),
{
    law_pushed_last_read_last(s.buffer, body);
    assert(octets(s.buffer) + Seq::<u8>::empty() =~= octets(s.buffer));
    if body.len() == 0 {
        assert(body =~= Seq::<u8>::empty());
    }
}

/// A window update of the remote adds just what it says to what we may send, and changes nothing else.
pub proof fn law_credit_arrives(s: SharedView, n: u32)
    requires
        s.flow.send_window + n <= u32::MAX,
    ensures
        s.credited(n).flow.send_window == s.flow.send_window + n,
        s.credited(n).flow == (FlowView {
            send_window: s.credited(n).flow.send_window,
            ..s.flow
        }),
        s.credited(n) == (SharedView { flow: s.credited(n).flow, ..s }),
{
}

/// Whatever the state of a stream, data that is buffered is read before anything else is reported: as
/// much as there is room for, in the order in which it came, and nothing gets lost. A channel that is
/// full does not stand in the way.
pub proof fn law_buffered_data_is_read(s: StreamView, o: OutboxView, room: nat, waker: Waker)
    requires
        octets(s.shared.buffer).len() > 0,
        0 < room <= usize::MAX,
        !gone(s, o),
    ensures
        ({
            let r = read_outcome(s, o, room, waker);
            &&& r.result matches Poll::Ready(Ok(n))
            &&& 0 < n <= room
            &&& octets(s.shared.buffer) == octets(s.shared.buffer).take(n as int) + octets(
                r.stream.shared.buffer,
            )
            &&& n == room || octets(r.stream.shared.buffer).len() == 0
            &&& r.stream.shared.reader == s.shared.reader
        }),
{
    law_reading_loses_nothing(s.shared.buffer, room);
}

/// Whatever the state of a stream, the chunk that came first is handed out before anything else is
/// reported, whole, and the others stay.
pub proof fn law_first_chunk_is_next(s: StreamView, o: OutboxView, waker: Waker)
    requires
        s.shared.buffer.len() > 0,
        !gone(s, o),
    ensures
        ({
            let r = next_outcome(s, o, waker);
            &&& r.result matches Poll::Ready(Some(Ok(chunk)))
            &&& s.shared.buffer == seq![chunk] + r.stream.shared.buffer
            &&& r.stream.shared.reader == s.shared.reader
        }),
{
    assert(s.shared.buffer =~= seq![s.shared.buffer[0]] + s.shared.buffer.skip(1));
}

/// The end of a stream is reported just when the remote will send no more and everything that it has
/// sent was read, or when the stream is not to be read without its connection.
pub proof fn law_end_comes_after_all_data(s: StreamView, o: OutboxView, room: nat, waker: Waker)
    requires
        0 < room <= usize::MAX,
    ensures
        read_outcome(s, o, room, waker).result == Poll::Ready(Ok::<usize, IoErrorKind>(0)) <==> {
            ||| o.closed && !s.config.read_after_close
            ||| octets(s.shared.buffer).len() == 0 && !open_to_read(s.shared.state)
        },
        next_outcome(s, o, waker).result == Poll::Ready(None::<Result<Seq<u8>, IoErrorKind>>) <==> {
            ||| o.closed && !s.config.read_after_close
            ||| s.shared.buffer.len() == 0 && !open_to_read(s.shared.state)
        },
{
    law_reading_loses_nothing(s.shared.buffer, room);
}

/// Reading fails just when more data would have to come from a connection that is gone.
pub proof fn law_reading_fails_without_connection(
    s: StreamView,
    o: OutboxView,
    room: nat,
    waker: Waker,
)
    requires
        room <= usize::MAX,
    ensures
        (read_outcome(s, o, room, waker).result matches Poll::Ready(Err(_))) <==> {
            &&& o.closed
            &&& s.config.read_after_close
            &&& open_to_read(s.shared.state)
        },
        read_outcome(s, o, room, waker).result matches Poll::Ready(Err(e)) ==> e
            == IoErrorKind::WriteZero,
        (next_outcome(s, o, waker).result matches Poll::Ready(Some(Err(_)))) <==> {
            &&& o.closed
            &&& s.config.read_after_close
            &&& open_to_read(s.shared.state)
        },
        next_outcome(s, o, waker).result matches Poll::Ready(Some(Err(e))) ==> e
            == IoErrorKind::WriteZero,
        o.closed ==> read_outcome(s, o, room, waker).outbox == o && next_outcome(s, o, waker).outbox
            == o,
        gone(s, o) ==> read_outcome(s, o, room, waker).stream == s && next_outcome(
            s,
            o,
            waker,
        ).stream == s,
{
}

/// Reading has to wait just when more data may come and none is there, and then the task is remembered,
/// to be woken up.
pub proof fn law_reading_waits_for_data(s: StreamView, o: OutboxView, room: nat, waker: Waker)
    requires
        0 < room <= usize::MAX,
        !o.closed,
    ensures
        ({
            let r = read_outcome(s, o, room, waker);
            &&& r.result is Pending <==> octets(s.shared.buffer).len() == 0 && open_to_read(
                s.shared.state,
            )
            &&& r.result is Pending ==> r.stream.shared.reader == Some(waker)
        }),
        ({
            let n = next_outcome(s, o, waker);
            &&& n.result is Pending <==> s.shared.buffer.len() == 0 && open_to_read(s.shared.state)
            &&& n.result is Pending ==> n.stream.shared.reader == Some(waker)
        }),
{
    law_reading_loses_nothing(s.shared.buffer, room);
}

/// Whoever reads from a stream from which more may come gives the remote all the credit that can be
/// given, if this is half of the maximum or more and the channel has room: it is sent at once, with the
/// flag that is still to be sent. Otherwise nothing is sent, and nothing is granted.
pub proof fn law_reading_grants_credit(s: StreamView, o: OutboxView, room: nat, waker: Waker)
    requires
        s.wf(),
    ensures
        grants(s, o, read_outcome(s, o, room, waker).stream, read_outcome(s, o, room, waker).outbox),
        grants(s, o, next_outcome(s, o, waker).stream, next_outcome(s, o, waker).outbox),
{
    lemma_flag_bits();
    let (r, n) = (read_outcome(s, o, room, waker), next_outcome(s, o, waker));
    assert(r.outbox.commands.len() > o.commands.len() ==> r.outbox.commands.drop_last()
        =~= o.commands);
    assert(n.outbox.commands.len() > o.commands.len() ==> n.outbox.commands.drop_last()
        =~= o.commands);
}

/// The credit that is due was granted and sent, and nothing else.
pub open spec fn grants(s: StreamView, o: OutboxView, t: StreamView, p: OutboxView) -> bool {
    let credit = s.config.receive_window - s.shared.flow.receive_window - octets(
        s.shared.buffer,
    ).len();
    &&& p.closed == o.closed
    &&& t.shared.flow.max_receive_window == s.shared.flow.max_receive_window
    &&& t.shared.flow.send_window == s.shared.flow.send_window
    &&& if open_to_read(s.shared.state) && !o.closed && o.room > 0 && credit
        >= s.config.receive_window / 2 {
        &&& t.shared.flow.receive_window == s.shared.flow.receive_window + credit
        &&& t.flag == Flag::Nothing
        &&& p.room + 1 == o.room
        &&& p.commands.len() == o.commands.len() + 1
        &&& p.commands.drop_last() == o.commands
        &&& p.commands.last() matches CommandView::SendFrame(f)
        &&& gives_credit(f, s.id, credit)
        &&& f.header.flags == flag_bits(s.flag)
        &&& s.flag == Flag::Ack && s.shared.state is Open ==> t.shared.state == (State::Open {
            acknowledged: true,
        })
        &&& s.flag != Flag::Ack || !(s.shared.state is Open) ==> t.shared.state == s.shared.state
    } else {
        &&& t.shared.flow.receive_window == s.shared.flow.receive_window
        &&& t.flag == s.flag
        &&& t.shared.state == s.shared.state
        &&& p == o
    }
}

/// Reading leaves alone what it is not about: who the stream is, what we may send, and who waits to send
/// it.
pub proof fn law_reading_leaves_the_rest(s: StreamView, o: OutboxView, room: nat, waker: Waker)
    ensures
        forall|t: StreamView|
            (t == read_outcome(s, o, room, waker).stream || t == next_outcome(s, o, waker).stream)
                ==> {
                &&& #[trigger] open_to_read(t.shared.state) == open_to_read(s.shared.state)
                &&& open_to_write(t.shared.state) == open_to_write(s.shared.state)
                &&& t.shared.flow.send_window == s.shared.flow.send_window
                &&& t.shared.writer == s.shared.writer
                &&& t.shared.reader == s.shared.reader || t.shared.reader == Some(waker)
                &&& t.id == s.id
                &&& t.conn == s.conn
                &&& t.config == s.config
            },
{
}

/// After our direction was closed, or the stream was reset, nothing can be written: no data leaves the
/// stream, no credit is used, and whoever tries is told.
pub proof fn law_nothing_is_written_after_closing(
    s: StreamView,
    o: OutboxView,
    data: Seq<u8>,
    waker: Waker,
)
    requires
        !open_to_write(s.shared.state),
    ensures
        ({
            let w = write_outcome(s, o, data, waker);
            &&& w.stream == s
            &&& w.outbox == o
            &&& o.closed || o.room > 0 ==> w.result == Poll::Ready(
                Err::<usize, IoErrorKind>(IoErrorKind::WriteZero),
            )
            &&& !(w.result matches Poll::Ready(Ok(_)))
        }),
{
}

/// Once a stream was closed, a write to it fails.
pub proof fn law_close_ends_writing(
    s: StreamView,
    o: OutboxView,
    p: OutboxView,
    data: Seq<u8>,
    waker: Waker,
)
    requires
        close_outcome(s, o).result == Poll::Ready(Ok::<(), IoErrorKind>(())),
        !p.closed,
        p.room > 0,
    ensures
        ({
            let w = write_outcome(close_outcome(s, o).stream, p, data, waker);
            &&& w.result == Poll::Ready(Err::<usize, IoErrorKind>(IoErrorKind::WriteZero))
            &&& w.outbox == p
        }),
{
}

/// As long as our direction is open and there is credit, a write takes as much of the data as the credit
/// and the limit on single frames allow, sends just that in one frame, and pays for it.
pub proof fn law_write_takes_what_it_can(
    s: StreamView,
    o: OutboxView,
    data: Seq<u8>,
    waker: Waker,
)
    requires
        open_to_write(s.shared.state),
        s.shared.flow.send_window > 0,
        !o.closed,
        o.room > 0,
    ensures
        ({
            let w = write_outcome(s, o, data, waker);
            let flow = w.stream.shared.flow;
            &&& w.result matches Poll::Ready(Ok(n))
            &&& n <= data.len() && n <= s.shared.flow.send_window && n <= s.config.split_send_size
            &&& n == data.len() || n == s.shared.flow.send_window || n == s.config.split_send_size
            &&& w.outbox.closed == o.closed
            &&& w.outbox.room + 1 == o.room
            &&& w.outbox.commands.len() == o.commands.len() + 1
            &&& w.outbox.commands.drop_last() == o.commands
            &&& w.outbox.commands.last() matches CommandView::SendFrame(f)
            &&& f.header.version == 0
            &&& f.header.tag == Tag::Data
            &&& f.header.stream_id == s.id
            &&& f.header.length == n
            &&& f.header.flags == flag_bits(s.flag)
            &&& f.body == data.take(n as int)
            &&& flow.send_window + n == s.shared.flow.send_window
            &&& flow == FlowView { send_window: flow.send_window, ..s.shared.flow }
            &&& w.stream.flag == Flag::Nothing
            &&& s.flag == Flag::Ack && s.shared.state is Open ==> w.stream.shared.state == (
            State::Open { acknowledged: true })
            &&& s.flag != Flag::Ack || !(s.shared.state is Open) ==> w.stream.shared.state
                == s.shared.state
            &&& w.stream == StreamView {
                flag: w.stream.flag,
                shared: SharedView { flow, state: w.stream.shared.state, ..s.shared },
                ..s
            }
        }),
{
    lemma_flag_bits();
    assert(write_outcome(s, o, data, waker).outbox.commands.drop_last() =~= o.commands);
}

/// Without credit nothing is written, and the task is remembered, to be woken up; a channel that is full
/// or closed changes nothing.
pub proof fn law_writing_waits_for_credit(
    s: StreamView,
    o: OutboxView,
    data: Seq<u8>,
    waker: Waker,
)
    ensures
        ({
            let w = write_outcome(s, o, data, waker);
            &&& o.closed ==> {
                &&& w.result == Poll::Ready(Err::<usize, IoErrorKind>(IoErrorKind::WriteZero))
                &&& w.stream == s
                &&& w.outbox == o
            }
            &&& !o.closed && o.room == 0 ==> {
                &&& w.result is Pending
                &&& w.stream == s
                &&& w.outbox == o
            }
            &&& !o.closed && o.room > 0 && open_to_write(s.shared.state)
                && s.shared.flow.send_window == 0 ==> {
                &&& w.result is Pending
                &&& w.outbox == o
                &&& w.stream == StreamView {
                    shared: SharedView { writer: Some(waker), ..s.shared },
                    ..s
                }
            }
        }),
{
}

/// Flushing is done just when the channel is flushed, fails just when the connection is gone, and waits
/// otherwise.
pub proof fn law_flush_waits_for_the_channel(flushed: Poll<Result<(), ()>>)
    ensures
        (flush_outcome(flushed) matches Poll::Ready(Ok(_))) <==> (flushed matches Poll::Ready(Ok(_))),
        (flush_outcome(flushed) matches Poll::Ready(Err(_))) <==> (flushed matches Poll::Ready(
            Err(_),
        )),
        flush_outcome(flushed) is Pending <==> flushed is Pending,
        flush_outcome(flushed) matches Poll::Ready(Err(e)) ==> e == IoErrorKind::WriteZero,
{
}

/// Closing a stream tells the remote, once it can be told, and closes our direction only: what the
/// remote has sent can still be read, and what it may send does not change.
pub proof fn law_close_closes_our_direction(s: StreamView, o: OutboxView)
    ensures
        ({
            let c = close_outcome(s, o);
            &&& s.shared.state == State::Closed ==> {
                &&& c.result == Poll::Ready(Ok::<(), IoErrorKind>(()))
                &&& c.stream == s
                &&& c.outbox == o
            }
            &&& s.shared.state != State::Closed && o.closed ==> {
                &&& c.result == Poll::Ready(Err::<(), IoErrorKind>(IoErrorKind::WriteZero))
                &&& c.stream == s
                &&& c.outbox == o
            }
            &&& s.shared.state != State::Closed && !o.closed && o.room == 0 ==> {
                &&& c.result is Pending
                &&& c.stream == s
                &&& c.outbox == o
            }
            &&& s.shared.state != State::Closed && !o.closed && o.room > 0 ==> {
                &&& c.result == Poll::Ready(Ok::<(), IoErrorKind>(()))
                &&& !open_to_write(c.stream.shared.state)
                &&& open_to_read(c.stream.shared.state) == open_to_read(s.shared.state)
                &&& c.stream.shared == SharedView { state: c.stream.shared.state, ..s.shared }
                &&& c.outbox.closed == o.closed
                &&& c.outbox.room + 1 == o.room
                &&& c.outbox.commands == o.commands.push(
                    CommandView::CloseStream { id: s.id, ack: s.flag == Flag::Ack },
                )
                &&& s.flag == Flag::Ack ==> c.stream.flag == Flag::Nothing
                &&& s.flag != Flag::Ack ==> c.stream.flag == s.flag
                &&& c.stream == StreamView {
                    flag: c.stream.flag,
                    shared: c.stream.shared,
                    ..s
                }
            }
        }),
{
}

/// Closing our direction makes no difference to what can be read.
pub proof fn law_close_does_not_end_reading(
    s: StreamView,
    o: OutboxView,
    p: OutboxView,
    room: nat,
    waker: Waker,
)
    ensures
        ({
            let before = read_outcome(s, p, room, waker);
            let after = read_outcome(close_outcome(s, o).stream, p, room, waker);
            &&& after.result == before.result
            &&& after.stream.shared.buffer == before.stream.shared.buffer
            &&& after.stream.shared.flow == before.stream.shared.flow
            &&& after.stream.shared.reader == before.stream.shared.reader
            &&& after.outbox.commands.len() == before.outbox.commands.len()
        }),
        next_outcome(close_outcome(s, o).stream, p, waker).result == next_outcome(s, p, waker).result,
{
}

} // verus!
