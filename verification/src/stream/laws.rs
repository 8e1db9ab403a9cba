//! What reading from a stream, writing to it and shutting it down are for.

use crate::chunks::{law_pushed_last_read_last, law_reading_loses_nothing, octets};
use crate::error::IoErrorKind;
use crate::stream::{
    flush_outcome, read_outcome, shut_down, write_outcome, ItemView, OutgoingView, ReprView, State,
    StreamView,
};
use crate::WindowUpdateMode;
use std::task::Waker;
use vstd::prelude::*;

verus! {

/// May more data come from the remote?
pub open spec fn open_to_read(s: State) -> bool {
    match s {
        State::Open | State::ReadOnly => true,
        State::WriteOnly | State::Closed => false,
    }
}

/// May we send more data to the remote?
pub open spec fn open_to_write(s: State) -> bool {
    match s {
        State::Open | State::WriteOnly => true,
        State::ReadOnly | State::Closed => false,
    }
}

/// Is the stream not to be read, because the connection is gone?
pub open spec fn gone(s: StreamView) -> bool {
    !s.repr.connected && !s.repr.config.read_after_close
}

/// An update of the state ends reading and writing just as it says, and changes nothing else.
pub proof fn law_updates_close_what_they_name(r: ReprView, next: State)
    ensures
        open_to_read(r.updated(next).state) == (open_to_read(r.state) && open_to_read(next)),
        open_to_write(r.updated(next).state) == (open_to_write(r.state) && open_to_write(next)),
        r.updated(next) == (ReprView { state: r.updated(next).state, ..r }),
        r.state.reads() == open_to_read(r.state),
        r.state.writes() == open_to_write(r.state),
{
}

/// Data that arrives can be read after everything that arrived before, and whoever waits for data is
/// notified, even if there is none in it.
pub proof fn law_data_reaches_the_reader(r: ReprView, data: Seq<u8>)
    ensures
        ({
            let (w, t) = r.with_data(data);
            &&& w == r.read_task
            &&& t.read_task is None
            &&& octets(t.buf) == octets(r.buf) + data
            &&& t == ReprView { buf: t.buf, read_task: None, ..r }
        }),
{
    law_pushed_last_read_last(r.buf, data);
    assert(octets(r.buf) + Seq::<u8>::empty() =~= octets(r.buf));
    if data.len() == 0 {
        assert(data =~= Seq::<u8>::empty());
    }
}

/// Credit that arrives can be used, as far as it can be counted, and whoever waits for credit is
/// notified.
pub proof fn law_credit_reaches_the_writer(r: ReprView, n: u32)
    ensures
        ({
            let (w, t) = r.with_credit(n);
            &&& w == r.write_task
            &&& t.write_task is None
            &&& t.credit >= r.credit
            &&& t.credit == r.credit + n || t.credit == u32::MAX && r.credit + n > u32::MAX
            &&& t == ReprView { credit: t.credit, write_task: None, ..r }
        }),
{
}

/// What is received uses up the window, and never more than there is.
pub proof fn law_window_is_used_up(r: ReprView, n: u32)
    ensures
        n <= r.window ==> r.received(n).window + n == r.window,
        n > r.window ==> r.received(n).window == 0,
        r.received(n) == (ReprView { window: r.received(n).window, ..r }),
{
}

/// Notifying tasks forgets them, so that each is notified once.
pub proof fn law_tasks_are_notified_once(r: ReprView)
    ensures
        ({
            let (w, t) = r.notified();
            &&& w.reader == r.read_task
            &&& w.writer == r.write_task
            &&& t.notified().0.reader is None
            &&& t.notified().0.writer is None
            &&& t == ReprView { read_task: None, write_task: None, ..r }
        }),
{
}

/// An item gets into the channel, after all others, unless the channel is closed.
pub proof fn law_items_are_sent_in_order(o: OutgoingView, i: ItemView)
    ensures
        o.closed ==> o.sent(i) == o,
        !o.closed ==> o.sent(i).items == o.items + seq![i] && !o.sent(i).closed,
{
    assert(o.items.push(i) =~= o.items + seq![i]);
}

/// Whatever the state of a stream, data that is buffered is read before anything else: as much as there
/// is room for, in the order in which it came, and nothing gets lost.
pub proof fn law_buffered_data_is_read(s: StreamView, room: nat, task: Waker)
    requires
        octets(s.repr.buf).len() > 0,
        0 < room <= usize::MAX,
        !gone(s),
    ensures
        ({
            let (t, r) = read_outcome(s, room, task);
            &&& r matches Ok(n)
            &&& 0 < n <= room
            &&& octets(s.repr.buf) == octets(s.repr.buf).take(n as int) + octets(t.repr.buf)
            &&& n == room || octets(t.repr.buf).len() == 0
            &&& t.repr == ReprView { buf: t.repr.buf, ..s.repr }
            &&& t.outgoing == s.outgoing
        }),
{
    law_reading_loses_nothing(s.repr.buf, room);
}

/// The end of a stream is reported just when everything was read and no more can come: because the
/// remote will send no more, because the connection is gone and the stream is not to be read without it,
/// or because the remote would have to be given credit and cannot be told.
pub proof fn law_end_comes_after_all_data(s: StreamView, room: nat, task: Waker)
    requires
        0 < room <= usize::MAX,
    ensures
        read_outcome(s, room, task).1 == Ok::<usize, IoErrorKind>(0) <==> {
            ||| gone(s)
            ||| octets(s.repr.buf).len() == 0 && {
                ||| !open_to_read(s.repr.state)
                ||| s.repr.window == 0 && s.repr.config.window_update_mode == WindowUpdateMode::OnRead
                    && s.outgoing.closed
            }
        },
        gone(s) ==> read_outcome(s, room, task).0 == s,
{
    law_reading_loses_nothing(s.repr.buf, room);
}

/// Reading has to wait just when nothing is there and more may come; the task is then remembered. If
/// window updates are sent on read and the window is used up, the remote is given a new one, so that more
/// can come; otherwise nothing is sent.
pub proof fn law_waiting_reader_can_be_served(s: StreamView, room: nat, task: Waker)
    requires
        0 < room <= usize::MAX,
        !gone(s),
        octets(s.repr.buf).len() == 0,
        open_to_read(s.repr.state),
        !s.outgoing.closed,
    ensures
        ({
            let (t, r) = read_outcome(s, room, task);
            &&& r == Err::<usize, IoErrorKind>(IoErrorKind::WouldBlock)
            &&& t.repr.read_task == Some(task)
            &&& t.repr == ReprView {
                buf: t.repr.buf,
                window: t.repr.window,
                read_task: Some(task),
                ..s.repr
            }
            &&& octets(t.repr.buf).len() == 0
            &&& if s.repr.window == 0 && s.repr.config.window_update_mode == WindowUpdateMode::OnRead {
                &&& t.repr.window == s.repr.config.receive_window
                &&& t.outgoing.items == s.outgoing.items + seq![ItemView::Credit]
            } else {
                &&& t.repr.window == s.repr.window
                &&& t.outgoing == s.outgoing
            }
        }),
{
    law_reading_loses_nothing(s.repr.buf, room);
    assert(s.outgoing.items.push(ItemView::Credit) =~= s.outgoing.items + seq![ItemView::Credit]);
}

/// A stream that cannot tell the remote of new credit is closed.
pub proof fn law_stream_without_sender_is_closed(s: StreamView, room: nat, task: Waker)
    requires
        0 < room <= usize::MAX,
        !gone(s),
        octets(s.repr.buf).len() == 0,
        open_to_read(s.repr.state),
        s.outgoing.closed,
        s.repr.config.window_update_mode == WindowUpdateMode::OnRead,
        s.repr.window == 0,
    ensures
        ({
            let (t, r) = read_outcome(s, room, task);
            &&& r == Ok::<usize, IoErrorKind>(0)
            &&& t.repr.state == State::Closed
            &&& t.outgoing == s.outgoing
            &&& t.repr == ReprView { buf: t.repr.buf, state: State::Closed, ..s.repr }
        }),
{
    law_reading_loses_nothing(s.repr.buf, room);
}

/// Nothing can be written to a stream that is not open for it: nothing is sent and nothing changes.
pub proof fn law_nothing_is_written_after_closing(s: StreamView, data: Seq<u8>, task: Waker)
    requires
        !open_to_write(s.repr.state),
    ensures
        write_outcome(s, data, task).0 == s,
        write_outcome(s, data, task).1 == Err::<usize, IoErrorKind>(IoErrorKind::WriteZero),
        flush_outcome(s).0 == s,
        flush_outcome(s).1 is Ok,
        shut_down(s) == s,
{
}

/// A write takes as much of the data as there is credit, hands just that to the sender and pays for it.
/// Once the credit is used up, what was written is flushed.
pub proof fn law_write_takes_what_it_can(s: StreamView, data: Seq<u8>, task: Waker)
    requires
        open_to_write(s.repr.state),
        s.repr.credit > 0,
        !s.outgoing.closed,
        data.len() <= usize::MAX,
    ensures
        ({
            let (t, r) = write_outcome(s, data, task);
            &&& r matches Ok(n)
            &&& n <= data.len() && n <= s.repr.credit
            &&& n == data.len() || n == s.repr.credit
            &&& t.repr.credit + n == s.repr.credit
            &&& t.repr == ReprView { credit: t.repr.credit, ..s.repr }
            &&& !t.outgoing.closed
            &&& t.outgoing.items == if n == s.repr.credit {
                s.outgoing.items + seq![ItemView::Data(data.take(n as int)), ItemView::Flush]
            } else {
                s.outgoing.items + seq![ItemView::Data(data.take(n as int))]
            }
        }),
{
    let (t, r) = write_outcome(s, data, task);
    let n = r->Ok_0;
    assert(t.outgoing.items =~= if n == s.repr.credit {
        s.outgoing.items + seq![ItemView::Data(data.take(n as int)), ItemView::Flush]
    } else {
        s.outgoing.items + seq![ItemView::Data(data.take(n as int))]
    });
}

/// Without credit nothing is written, and the task is remembered. If the sender is gone, the stream
/// cannot be written to any more, though it can be read from.
pub proof fn law_writing_waits_for_credit(s: StreamView, data: Seq<u8>, task: Waker)
    requires
        open_to_write(s.repr.state),
    ensures
        ({
            let (t, r) = write_outcome(s, data, task);
            &&& s.repr.credit == 0 ==> {
                &&& r == Err::<usize, IoErrorKind>(IoErrorKind::WouldBlock)
                &&& t.outgoing == s.outgoing
                &&& t.repr == ReprView { write_task: Some(task), ..s.repr }
            }
            &&& s.repr.credit > 0 && s.outgoing.closed ==> {
                &&& r == Err::<usize, IoErrorKind>(IoErrorKind::WriteZero)
                &&& t.outgoing == s.outgoing
                &&& !open_to_write(t.repr.state)
                &&& open_to_read(t.repr.state) == open_to_read(s.repr.state)
                &&& t.repr == ReprView { state: t.repr.state, ..s.repr }
            }
        }),
{
}

/// Flushing asks the sender to flush. If the sender is gone, this fails, and the stream cannot be written
/// to any more, though it can be read from.
pub proof fn law_flush_asks_the_sender(s: StreamView)
    requires
        open_to_write(s.repr.state),
    ensures
        ({
            let (t, r) = flush_outcome(s);
            if s.outgoing.closed {
                &&& r == Err::<(), IoErrorKind>(IoErrorKind::Other)
                &&& t.outgoing == s.outgoing
                &&& !open_to_write(t.repr.state)
                &&& open_to_read(t.repr.state) == open_to_read(s.repr.state)
                &&& t.repr == ReprView { state: t.repr.state, ..s.repr }
            } else {
                &&& r is Ok
                &&& t.repr == s.repr
                &&& t.outgoing.items == s.outgoing.items + seq![ItemView::Flush]
            }
        }),
{
    assert(s.outgoing.items.push(ItemView::Flush) =~= s.outgoing.items + seq![ItemView::Flush]);
}

/// Shutting a stream down tells the remote once, ends writing and leaves reading as it is.
pub proof fn law_shutdown_ends_writing(s: StreamView, data: Seq<u8>, task: Waker)
    requires
        open_to_write(s.repr.state),
    ensures
        ({
            let t = shut_down(s);
            &&& !open_to_write(t.repr.state)
            &&& open_to_read(t.repr.state) == open_to_read(s.repr.state)
            &&& t.repr == ReprView { state: t.repr.state, ..s.repr }
            &&& !s.outgoing.closed ==> t.outgoing.items == s.outgoing.items + seq![
                ItemView::HalfClose,
            ]
            &&& s.outgoing.closed ==> t.outgoing == s.outgoing
            &&& shut_down(t) == t
            &&& write_outcome(t, data, task).1 is Err
            &&& write_outcome(t, data, task).0 == t
        }),
{
    assert(s.outgoing.items.push(ItemView::HalfClose) =~= s.outgoing.items + seq![
        ItemView::HalfClose,
    ]);
}

} // verus!
