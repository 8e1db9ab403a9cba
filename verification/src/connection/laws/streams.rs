//! What reading from a stream, writing to it and closing it are for.

use crate::chunks::{law_reading_loses_nothing, octets};
use crate::connection::command::{CommandView, OutboxView};
use crate::connection::stream::{
    close_outcome, next_outcome, read_outcome, write_outcome, Flag, SharedView, State, StreamView,
};
use crate::error::IoErrorKind;
use crate::frame::header::{Tag, ACK, SYN};
use crate::frame::FrameView;
use crate::{Poll, WindowUpdateMode};
use std::task::Waker;
use vstd::prelude::*;

verus! {

/// May more data come from the remote?
pub open spec fn open_to_read(s: State) -> bool {
    match s {
        State::Open | State::SendClosed => true,
        State::RecvClosed | State::Closed => false,
    }
}

/// May we send more data to the remote?
pub open spec fn open_to_write(s: State) -> bool {
    match s {
        State::Open | State::RecvClosed => true,
        State::SendClosed | State::Closed => false,
    }
}

/// Is the stream not to be read, because the connection is gone?
pub open spec fn gone(s: StreamView, o: OutboxView) -> bool {
    o.closed && !s.config.read_after_close
}

/// Does a window update stand in the way that cannot be sent yet?
pub open spec fn held_up(s: StreamView, o: OutboxView) -> bool {
    s.pending is Some && (o.closed || o.room == 0)
}

/// A frame that gives that much credit for a stream, and nothing else.
pub open spec fn gives_credit(f: FrameView, id: u32, credit: int) -> bool {
    &&& f.header.version == 0
    &&& f.header.tag == Tag::WindowUpdate
    &&& f.header.stream_id == id
    &&& f.header.length == credit
    &&& f.body.len() == 0
}

/// The flags that a frame has if a stream sends it with this flag.
pub open spec fn flag_bits(flag: Flag) -> u16 {
    match flag {
        Flag::Nothing => 0,
        Flag::Syn => SYN,
        Flag::Ack => ACK,
    }
}

/// The update that a stream holds back, if any, is one of its own.
pub open spec fn holds_back_updates(s: StreamView) -> bool {
    s.pending matches Some(f) ==> gives_credit(f, s.id, f.header.length as int) && f.header.flags == 0
}

/// The credit that some commands give to the remote.
pub open spec fn credit_sent(commands: Seq<CommandView>) -> int
    decreases commands.len(),
{
    if commands.len() == 0 {
        0
    } else {
        credit_sent(commands.drop_last()) + match commands.last() {
            CommandView::SendFrame(f) if f.header.tag == Tag::WindowUpdate => f.header.length as int,
            _ => 0,
        }
    }
}

/// The credit that a stream will still give to the remote, once it can.
pub open spec fn credit_held_back(s: StreamView) -> int {
    match s.pending {
        Some(f) => f.header.length as int,
        None => 0,
    }
}

/// A flag that is set on a header without flags is the only one.
proof fn lemma_flag_bits()
    ensures
        0u16 | SYN == SYN,
        0u16 | ACK == ACK,
{
    assert(0u16 | SYN == SYN && 0u16 | ACK == ACK) by (bit_vector);
}

/// An update of the state closes the directions that it names, all of them and no others, and changes
/// nothing else.
pub proof fn law_updates_close_what_they_name(s: SharedView, next: State)
    ensures
        open_to_read(s.update_state(next).state) == (open_to_read(s.state) && open_to_read(next)),
        open_to_write(s.update_state(next).state) == (open_to_write(s.state) && open_to_write(next)),
        s.update_state(next) == (SharedView { state: s.update_state(next).state, ..s }),
        s.state.recv() == open_to_read(s.state),
        s.state.send() == open_to_write(s.state),
{
}

/// Whatever the state of a stream, data that is buffered is read before anything else: as much as there
/// is room for, in the order in which it came, and nothing gets lost.
pub proof fn law_buffered_data_is_read(s: StreamView, o: OutboxView, room: nat, waker: Waker)
    requires
        octets(s.shared.buffer).len() > 0,
        0 < room <= usize::MAX,
        !gone(s, o),
        !held_up(s, o),
    ensures
        ({
            let r = read_outcome(s, o, room, waker);
            &&& r.result matches Poll::Ready(Ok(n))
            &&& 0 < n <= room
            &&& octets(s.shared.buffer) == octets(s.shared.buffer).take(n as int) + octets(
                r.stream.shared.buffer,
            )
            &&& n == room || octets(r.stream.shared.buffer).len() == 0
            &&& r.stream.shared.window == s.shared.window
            &&& r.stream.shared.reader == s.shared.reader
        }),
{
    law_reading_loses_nothing(s.shared.buffer, room);
}

/// The end of a stream is reported just when the remote will send no more and everything that it has
/// sent was read.
pub proof fn law_end_comes_after_all_data(s: StreamView, o: OutboxView, room: nat, waker: Waker)
    requires
        0 < room <= usize::MAX,
        !gone(s, o),
    ensures
        read_outcome(s, o, room, waker).result == Poll::Ready(Ok::<usize, IoErrorKind>(0)) <==> {
            &&& octets(s.shared.buffer).len() == 0
            &&& !open_to_read(s.shared.state)
            &&& !held_up(s, o)
        },
        next_outcome(s, o, waker).result == Poll::Ready(None::<Result<Seq<u8>, IoErrorKind>>) <==> {
            &&& s.shared.buffer.len() == 0
            &&& !open_to_read(s.shared.state)
            &&& !held_up(s, o)
        },
{
    law_reading_loses_nothing(s.shared.buffer, room);
}

/// Whatever the state of a stream, the chunk that came first is handed out before anything else, whole,
/// and the others stay.
pub proof fn law_first_chunk_is_next(s: StreamView, o: OutboxView, waker: Waker)
    requires
        s.shared.buffer.len() > 0,
        !gone(s, o),
        !held_up(s, o),
    ensures
        ({
            let r = next_outcome(s, o, waker);
            &&& r.result matches Poll::Ready(Some(Ok(chunk)))
            &&& s.shared.buffer == seq![chunk] + r.stream.shared.buffer
            &&& r.stream.shared.window == s.shared.window
            &&& r.stream.shared.reader == s.shared.reader
        }),
{
    assert(s.shared.buffer =~= seq![s.shared.buffer[0]] + s.shared.buffer.skip(1));
}

/// If nothing is buffered, it makes no difference in which way a stream is read.
pub proof fn law_ways_of_reading_agree(s: StreamView, o: OutboxView, room: nat, waker: Waker)
    requires
        s.shared.buffer.len() == 0,
    ensures
        ({
            let r = read_outcome(s, o, room, waker);
            let n = next_outcome(s, o, waker);
            &&& n.stream == r.stream
            &&& n.outbox == r.outbox
            &&& match (r.result, n.result) {
                (Poll::Ready(Ok(k)), Poll::Ready(None)) => k == 0,
                (Poll::Ready(Err(e)), Poll::Ready(Some(Err(f)))) => e == f,
                (Poll::Pending, Poll::Pending) => true,
                _ => false,
            }
        }),
{
}

/// Reading has to wait just when more data may come and none is there, or when a window update cannot
/// be sent yet; and in the former case the task is remembered, to be woken up.
pub proof fn law_reading_waits_for_data(s: StreamView, o: OutboxView, room: nat, waker: Waker)
    requires
        0 < room <= usize::MAX,
        !o.closed,
    ensures
        read_outcome(s, o, room, waker).result is Pending <==> {
            ||| held_up(s, o)
            ||| octets(s.shared.buffer).len() == 0 && open_to_read(s.shared.state)
        },
        read_outcome(s, o, room, waker).result is Pending && !held_up(s, o) ==> read_outcome(
            s,
            o,
            room,
            waker,
        ).stream.shared.reader == Some(waker),
        !(read_outcome(s, o, room, waker).result matches Poll::Ready(Err(_))),
        held_up(s, o) ==> {
            &&& read_outcome(s, o, room, waker).stream == s
            &&& read_outcome(s, o, room, waker).outbox == o
            &&& next_outcome(s, o, waker).stream == s
            &&& next_outcome(s, o, waker).outbox == o
            &&& next_outcome(s, o, waker).result is Pending
        },
{
    law_reading_loses_nothing(s.shared.buffer, room);
}

/// What is due is granted: whoever waits for data gives the remote all the credit that can be given, if
/// window updates are sent on read and this is half of the receive window or more. It is sent at once if
/// the channel has room, and held back otherwise.
///
/// So the remote is never left without credit by a reader that waits for its data, whatever has become
/// of the other direction.
pub proof fn law_waiting_reader_grants_credit(s: StreamView, o: OutboxView, room: nat, waker: Waker)
    requires
        s.wf(),
        s.config.window_update_mode == WindowUpdateMode::OnRead,
        open_to_read(s.shared.state),
        octets(s.shared.buffer).len() == 0,
        !o.closed,
        !held_up(s, o),
        s.config.receive_window - s.shared.window >= s.config.receive_window / 2,
    ensures
        ({
            let r = read_outcome(s, o, room, waker);
            let credit = s.config.receive_window - s.shared.window;
            let free = if s.pending is Some {
                o.room - 1
            } else {
                o.room as int
            };
            &&& r.result is Pending
            &&& r.stream.shared.window == s.config.receive_window
            &&& r.stream.shared.reader == Some(waker)
            &&& if free > 0 {
                &&& r.stream.pending is None
                &&& r.outbox.commands.len() > 0
                &&& r.outbox.commands.last() matches CommandView::SendFrame(f)
                &&& gives_credit(f, s.id, credit)
            } else {
                &&& r.stream.pending matches Some(f)
                &&& gives_credit(f, s.id, credit)
                &&& f.header.flags == 0
            }
        }),
{
    law_reading_loses_nothing(s.shared.buffer, room);
}

/// A reader that waits never leaves the remote without any credit.
pub proof fn law_waiting_reader_can_be_served(s: StreamView, o: OutboxView, room: nat, waker: Waker)
    requires
        s.wf(),
        s.config.window_update_mode == WindowUpdateMode::OnRead,
        octets(s.shared.buffer).len() == 0,
        !o.closed,
        !held_up(s, o),
        read_outcome(s, o, room, waker).result is Pending,
    ensures
        read_outcome(s, o, room, waker).stream.shared.window > s.config.receive_window / 2,
{
    law_reading_loses_nothing(s.shared.buffer, room);
}

/// The window is changed by reading only if updates are sent on read and more may come, and only by a
/// grant that leaves the remote with the whole receive window but for what is still buffered.
pub proof fn law_reading_grants_only_what_is_due(
    s: StreamView,
    o: OutboxView,
    room: nat,
    waker: Waker,
)
    requires
        s.wf(),
        read_outcome(s, o, room, waker).stream.shared.window != s.shared.window,
    ensures
        ({
            let r = read_outcome(s, o, room, waker).stream.shared;
            &&& s.config.window_update_mode == WindowUpdateMode::OnRead
            &&& open_to_read(s.shared.state)
            &&& r.window + octets(r.buffer).len() == s.config.receive_window
            &&& r.window - s.shared.window >= s.config.receive_window / 2
        }),
{
    law_reading_loses_nothing(s.shared.buffer, room);
}

/// Nothing that is granted gets lost or is given twice: what was held back and what the window has grown
/// by was sent, or is held back.
pub proof fn law_granted_credit_is_sent_once(s: StreamView, o: OutboxView, room: nat, waker: Waker)
    requires
        s.wf(),
        !o.closed,
        holds_back_updates(s),
    ensures
        ({
            let r = read_outcome(s, o, room, waker);
            &&& credit_sent(r.outbox.commands) + credit_held_back(r.stream) == credit_sent(o.commands)
                + credit_held_back(s) + r.stream.shared.window - s.shared.window
            &&& holds_back_updates(r.stream)
        }),
        ({
            let r = next_outcome(s, o, waker);
            &&& credit_sent(r.outbox.commands) + credit_held_back(r.stream) == credit_sent(o.commands)
                + credit_held_back(s) + r.stream.shared.window - s.shared.window
            &&& holds_back_updates(r.stream)
        }),
{
    lemma_reading_sends_updates(s, o, room, waker);
}

/// Reading sends nothing but window updates for the stream, at most two, after what was sent before. The
/// first of them has the flag that is still to be sent, and none has another flag.
pub proof fn law_reading_sends_updates_only(s: StreamView, o: OutboxView, room: nat, waker: Waker)
    requires
        s.wf(),
        holds_back_updates(s),
    ensures
        only_updates(s, o, read_outcome(s, o, room, waker).stream, read_outcome(
            s,
            o,
            room,
            waker,
        ).outbox),
        only_updates(s, o, next_outcome(s, o, waker).stream, next_outcome(s, o, waker).outbox),
{
    lemma_reading_sends_updates(s, o, room, waker);
}

/// Nothing but window updates was sent, within the room of the channel, and flags are sent once.
pub open spec fn only_updates(s: StreamView, o: OutboxView, t: StreamView, p: OutboxView) -> bool {
    let n = o.commands.len() as int;
    &&& p.closed == o.closed
    &&& n <= p.commands.len() <= n + 2
    &&& p.commands.take(n) == o.commands
    &&& p.room + p.commands.len() == o.room + n
    &&& o.closed ==> p.commands.len() == n
    &&& forall|i: int|
        n <= i < p.commands.len() ==> {
            &&& #[trigger] p.commands[i] matches CommandView::SendFrame(f)
            &&& gives_credit(f, s.id, f.header.length as int)
            &&& f.header.flags == if i == n {
                flag_bits(s.flag)
            } else {
                0
            }
        }
    &&& t.flag == if p.commands.len() == n {
        s.flag
    } else {
        Flag::Nothing
    }
}

/// What both laws on window updates rest on.
proof fn lemma_reading_sends_updates(s: StreamView, o: OutboxView, room: nat, waker: Waker)
    requires
        s.wf(),
        holds_back_updates(s),
    ensures
        ({
            let r = read_outcome(s, o, room, waker);
            &&& only_updates(s, o, r.stream, r.outbox)
            &&& holds_back_updates(r.stream)
            &&& !o.closed ==> credit_sent(r.outbox.commands) + credit_held_back(r.stream)
                == credit_sent(o.commands) + credit_held_back(s) + r.stream.shared.window
                - s.shared.window
        }),
        ({
            let r = next_outcome(s, o, waker);
            &&& only_updates(s, o, r.stream, r.outbox)
            &&& holds_back_updates(r.stream)
            &&& !o.closed ==> credit_sent(r.outbox.commands) + credit_held_back(r.stream)
                == credit_sent(o.commands) + credit_held_back(s) + r.stream.shared.window
                - s.shared.window
        }),
{
    lemma_flag_bits();
    assert forall|q: OutboxView, c: CommandView| #[trigger]
        credit_sent(q.sent(c).commands) == credit_sent(q.commands) + match c {
            CommandView::SendFrame(f) if f.header.tag == Tag::WindowUpdate => f.header.length as int,
            _ => 0,
        } by {
        assert(q.sent(c).commands.drop_last() =~= q.commands);
    }
    let r = read_outcome(s, o, room, waker);
    let n = next_outcome(s, o, waker);
    assert(r.outbox.commands.take(o.commands.len() as int) =~= o.commands);
    assert(n.outbox.commands.take(o.commands.len() as int) =~= o.commands);
}

/// Reading leaves alone what it is not about: who the stream is, what is open, and what we may send.
pub proof fn law_reading_leaves_the_rest(s: StreamView, o: OutboxView, room: nat, waker: Waker)
    ensures
        forall|t: StreamView|
            (t == read_outcome(s, o, room, waker).stream || t == next_outcome(s, o, waker).stream)
                ==> {
                &&& #[trigger] t.shared.state == s.shared.state
                &&& t.shared.credit == s.shared.credit
                &&& t.shared.writer == s.shared.writer
                &&& t.shared.reader == s.shared.reader || t.shared.reader == Some(waker)
                &&& t.id == s.id
                &&& t.conn == s.conn
                &&& t.config == s.config
                &&& t.retained == s.retained
            },
{
}

/// Once the connection is gone, a stream that may still be read delivers all that is buffered.
pub proof fn law_buffered_data_outlives_the_connection(
    s: StreamView,
    o: OutboxView,
    room: nat,
    waker: Waker,
)
    requires
        o.closed,
        s.config.read_after_close,
        s.pending is None,
        octets(s.shared.buffer).len() > 0,
        0 < room <= usize::MAX,
    ensures
        read_outcome(s, o, room, waker).result matches Poll::Ready(Ok(n)) && n > 0,
        read_outcome(s, o, room, waker).outbox == o,
{
    law_reading_loses_nothing(s.shared.buffer, room);
}

/// Reading fails only if the connection is gone, and then because nothing can be sent to it.
pub proof fn law_reading_fails_only_without_connection(
    s: StreamView,
    o: OutboxView,
    room: nat,
    waker: Waker,
)
    ensures
        read_outcome(s, o, room, waker).result matches Poll::Ready(Err(e)) ==> {
            &&& o.closed
            &&& s.config.read_after_close
            &&& e == IoErrorKind::WriteZero
            &&& read_outcome(s, o, room, waker).outbox == o
        },
        next_outcome(s, o, waker).result matches Poll::Ready(Some(Err(e))) ==> {
            &&& o.closed
            &&& s.config.read_after_close
            &&& e == IoErrorKind::WriteZero
            &&& next_outcome(s, o, waker).outbox == o
        },
{
}

/// After our direction was closed, or the stream was reset, nothing can be written: no data leaves the
/// stream, no credit is used, and whoever tries is told.
pub proof fn law_nothing_is_written_after_closing(
    s: StreamView,
    o: OutboxView,
    data: Seq<u8>,
    waker: Waker,
)
    requires
        !open_to_write(s.shared.state),
    ensures
        ({
            let w = write_outcome(s, o, data, waker);
            &&& w.stream == s
            &&& w.outbox == o
            &&& o.closed || o.room > 0 ==> w.result == Poll::Ready(
                Err::<usize, IoErrorKind>(IoErrorKind::WriteZero),
            )
            &&& !(w.result matches Poll::Ready(Ok(_)))
        }),
{
}

/// Once a stream was closed, a write to it fails, whatever else has happened to its windows.
pub proof fn law_close_ends_writing(
    s: StreamView,
    o: OutboxView,
    p: OutboxView,
    data: Seq<u8>,
    waker: Waker,
)
    requires
        close_outcome(s, o).result == Poll::Ready(Ok::<(), IoErrorKind>(())),
        !p.closed,
        p.room > 0,
    ensures
        ({
            let w = write_outcome(close_outcome(s, o).stream, p, data, waker);
            &&& w.result == Poll::Ready(Err::<usize, IoErrorKind>(IoErrorKind::WriteZero))
            &&& w.outbox == p
        }),
{
}

/// As long as our direction is open and there is credit, a write takes as much of the data as the credit
/// and the limit on single frames allow, sends just that in one frame, and pays for it.
pub proof fn law_write_takes_what_it_can(
    s: StreamView,
    o: OutboxView,
    data: Seq<u8>,
    waker: Waker,
)
    requires
        open_to_write(s.shared.state),
        s.shared.credit > 0,
        !o.closed,
        o.room > 0,
    ensures
        ({
            let w = write_outcome(s, o, data, waker);
            &&& w.result matches Poll::Ready(Ok(n))
            &&& n <= data.len() && n <= s.shared.credit && n <= s.config.split_send_size
            &&& n == data.len() || n == s.shared.credit || n == s.config.split_send_size
            &&& w.outbox.closed == o.closed
            &&& w.outbox.room + 1 == o.room
            &&& w.outbox.commands.len() == o.commands.len() + 1
            &&& w.outbox.commands.drop_last() == o.commands
            &&& w.outbox.commands.last() matches CommandView::SendFrame(f)
            &&& f.header.version == 0
            &&& f.header.tag == Tag::Data
            &&& f.header.stream_id == s.id
            &&& f.header.length == n
            &&& f.header.flags == flag_bits(s.flag)
            &&& f.body == data.take(n as int)
            &&& w.stream.shared.credit + n == s.shared.credit
            &&& w.stream.flag == Flag::Nothing
            &&& w.stream == StreamView {
                flag: w.stream.flag,
                shared: SharedView { credit: w.stream.shared.credit, ..s.shared },
                ..s
            }
        }),
{
    lemma_flag_bits();
    assert(write_outcome(s, o, data, waker).outbox.commands.drop_last() =~= o.commands);
}

/// Without credit nothing is written, and the task is remembered, to be woken up; a channel that is
/// full or closed changes nothing.
pub proof fn law_writing_waits_for_credit(
    s: StreamView,
    o: OutboxView,
    data: Seq<u8>,
    waker: Waker,
)
    ensures
        ({
            let w = write_outcome(s, o, data, waker);
            &&& o.closed ==> {
                &&& w.result == Poll::Ready(Err::<usize, IoErrorKind>(IoErrorKind::WriteZero))
                &&& w.stream == s
                &&& w.outbox == o
            }
            &&& !o.closed && o.room == 0 ==> {
                &&& w.result is Pending
                &&& w.stream == s
                &&& w.outbox == o
            }
            &&& !o.closed && o.room > 0 && open_to_write(s.shared.state) && s.shared.credit == 0 ==> {
                &&& w.result is Pending
                &&& w.outbox == o
                &&& w.stream.shared.writer == Some(waker)
                &&& w.stream == StreamView {
                    shared: SharedView { writer: Some(waker), ..s.shared },
                    ..s
                }
            }
        }),
{
}

/// Closing a stream tells the remote, once it can be told, and closes our direction only: what the
/// remote has sent can still be read, and what it may send does not change.
pub proof fn law_close_closes_our_direction(s: StreamView, o: OutboxView)
    ensures
        ({
            let c = close_outcome(s, o);
            &&& s.shared.state == State::Closed ==> {
                &&& c.result == Poll::Ready(Ok::<(), IoErrorKind>(()))
                &&& c.stream == s
                &&& c.outbox == o
            }
            &&& s.shared.state != State::Closed && o.closed ==> {
                &&& c.result == Poll::Ready(Err::<(), IoErrorKind>(IoErrorKind::WriteZero))
                &&& c.stream == s
                &&& c.outbox == o
            }
            &&& s.shared.state != State::Closed && !o.closed && o.room == 0 ==> {
                &&& c.result is Pending
                &&& c.stream == s
                &&& c.outbox == o
            }
            &&& s.shared.state != State::Closed && !o.closed && o.room > 0 ==> {
                &&& c.result == Poll::Ready(Ok::<(), IoErrorKind>(()))
                &&& !open_to_write(c.stream.shared.state)
                &&& open_to_read(c.stream.shared.state) == open_to_read(s.shared.state)
                &&& c.stream.shared == SharedView { state: c.stream.shared.state, ..s.shared }
                &&& c.outbox.closed == o.closed
                &&& c.outbox.room + 1 == o.room
                &&& c.outbox.commands == o.commands.push(
                    CommandView::CloseStream { id: s.id, ack: s.flag == Flag::Ack },
                )
                &&& s.flag == Flag::Ack ==> c.stream.flag == Flag::Nothing
                &&& s.flag != Flag::Ack ==> c.stream.flag == s.flag
                &&& c.stream == StreamView {
                    flag: c.stream.flag,
                    shared: c.stream.shared,
                    ..s
                }
            }
        }),
{
}

/// Closing our direction makes no difference to what can be read.
pub proof fn law_close_does_not_end_reading(
    s: StreamView,
    o: OutboxView,
    p: OutboxView,
    room: nat,
    waker: Waker,
)
    ensures
        ({
            let before = read_outcome(s, p, room, waker);
            let after = read_outcome(close_outcome(s, o).stream, p, room, waker);
            &&& after.result == before.result
            &&& after.stream.shared.buffer == before.stream.shared.buffer
            &&& after.stream.shared.window == before.stream.shared.window
            &&& after.stream.shared.reader == before.stream.shared.reader
            &&& after.outbox.commands.len() == before.outbox.commands.len()
        }),
        next_outcome(close_outcome(s, o).stream, p, waker).result == next_outcome(s, p, waker).result,
{
}

} // verus!
