//! What a connection does for its controls and for the users of its streams.

use crate::chunks::octets;
use crate::connection::command::{CommandView, StreamCommand};
use crate::connection::laws::frames::{ends_session, resets};
use crate::connection::laws::streams::{gives_credit, open_to_read, open_to_write};
use crate::connection::stream::{Flag, State, StreamView};
use crate::connection::{
    self, all_collected, collected_from, collects, command_frame, control_outcome, dropped_from,
    drops, farewell, first_event, first_io_event, frame_outcome, open_reply_outcome, refusal,
    retained, stream_outcome, term_outcome, Collected, ConnectionView, ControlAction,
    ControlCommand, Dropped, Event, Shutdown, Step,
};
use crate::error::ConnectionError;
use crate::frame::header::{
    law_flags_are_independent, law_plain_header_has_no_flag, Data, HeaderView, StreamId, Tag, ACK,
    FIN, RST, SYN,
};
use crate::frame::{Frame, FrameView};
use crate::{Poll, WindowUpdateMode, DEFAULT_CREDIT};
use vstd::prelude::*;

verus! {

/// A frame without a body that finishes a stream, and acknowledges it if so wanted.
pub open spec fn finishes(f: FrameView, id: u32, ack: bool) -> bool {
    &&& f.header.version == 0
    &&& f.header.tag == Tag::Data
    &&& f.header.flags == if ack {
        FIN | ACK
    } else {
        FIN
    }
    &&& f.header.stream_id == id
    &&& f.header.length == 0
    &&& f.body.len() == 0
}

/// The flags that are set on headers without flags.
proof fn lemma_flags()
    ensures
        0u16 | RST == RST,
        0u16 | SYN == SYN,
        0u16 | FIN == FIN,
        0u16 | FIN | ACK == FIN | ACK,
{
    assert(0u16 | RST == RST && 0u16 | SYN == SYN && 0u16 | FIN == FIN && 0u16 | FIN | ACK == FIN
        | ACK) by (bit_vector);
}

/// A request for a stream is refused once the connection is closed, or while there are too many streams,
/// or when the identifiers are used up; otherwise there is a new stream, of which the remote hears at
/// once or with its first frame. Both sides may send as much as they are told.
pub proof fn law_requests_open_streams<O, C>(
    c: ConnectionView<C>,
    o: O,
    after: ConnectionView<C>,
    r: Result<ControlAction<O, C>, ConnectionError>,
)
    requires
        c.wf(),
        control_outcome(c, Some(ControlCommand::OpenStream(o)), after, r),
    ensures
        if c.shutdown is Complete {
            &&& after == c
            &&& r matches Ok(ControlAction::Refuse(p, ConnectionError::Closed)) && p == o
        } else if c.streams.len() >= c.config.max_num_streams {
            &&& after == c
            &&& r matches Ok(ControlAction::Refuse(p, ConnectionError::TooManyStreams)) && p == o
        } else if c.next_id + 2 > u32::MAX {
            &&& after == c
            &&& r matches Err(ConnectionError::NoMoreStreamIds)
        } else {
            &&& after.next_id == c.next_id + 2
            &&& after == ConnectionView { next_id: after.next_id, ..c }
            &&& r matches Ok(ControlAction::Open(p, s, f))
            &&& p == o
            &&& s@.id == c.next_id && s@.conn == c.id && s@.config == c.config && s@.retained
            &&& s@.pending is None
            &&& s@.shared.state == State::Open
            &&& s@.shared.window == c.config.receive_window
            &&& s@.shared.credit == DEFAULT_CREDIT
            &&& octets(s@.shared.buffer).len() == 0
            &&& s@.shared.reader is None && s@.shared.writer is None
            &&& if c.config.receive_window > DEFAULT_CREDIT {
                &&& f matches Some(g)
                &&& gives_credit(g@, c.next_id, c.config.receive_window - DEFAULT_CREDIT)
                &&& g@.header.flags == SYN
                &&& s@.flag == Flag::Nothing
            } else {
                &&& f is None
                &&& s@.flag == Flag::Syn
            }
        },
{
    lemma_flags();
}

/// Closing the connection begins with the first request, and whoever asks once it is closed is told so
/// at once. While it is being closed, the one who asked is remembered.
pub proof fn law_requests_close_connection<O, C>(
    c: ConnectionView<C>,
    x: C,
    after: ConnectionView<C>,
    r: Result<ControlAction<O, C>, ConnectionError>,
)
    requires
        control_outcome(c, Some(ControlCommand::CloseConnection(x)), after, r),
    ensures
        if c.shutdown is Complete {
            &&& after == c
            &&& r matches Ok(ControlAction::Confirm(y)) && y == x
        } else {
            &&& after.shutdown == Shutdown::InProgress(x)
            &&& after == ConnectionView { shutdown: after.shutdown, ..c }
            &&& r matches Ok(ControlAction::Drain)
        },
{
}

/// Whoever has asked for the connection to be closed is told when the final frame is sent, and just that
/// one: from the request to the end it is remembered.
pub proof fn law_closing_is_confirmed<O, C>(
    c: ConnectionView<C>,
    x: C,
    closing: ConnectionView<C>,
    r: Result<ControlAction<O, C>, ConnectionError>,
    closed: ConnectionView<C>,
    told: Option<C>,
)
    requires
        !(c.shutdown is Complete),
        control_outcome(c, Some(ControlCommand::CloseConnection(x)), closing, r),
        term_outcome(closing, closed, told),
    ensures
        told == Some(x),
        closed.shutdown is Complete,
        closed == (ConnectionView { shutdown: closed.shutdown, ..c }),
{
}

/// Once the last command was processed, the socket is closed.
pub proof fn law_last_command_closes_socket<O, C>(
    c: ConnectionView<C>,
    after: ConnectionView<C>,
    r: Result<ControlAction<O, C>, ConnectionError>,
)
    requires
        control_outcome(c, None::<ControlCommand<O, C>>, after, r),
    ensures
        after == c,
        r matches Ok(ControlAction::Close),
{
}

/// A command that comes too late is answered in the way of a connection that is closed.
pub proof fn law_late_commands_are_answered<O, C>(
    c: ConnectionView<C>,
    cmd: ControlCommand<O, C>,
    after: ConnectionView<C>,
    r: Result<ControlAction<O, C>, ConnectionError>,
)
    requires
        c.shutdown is Complete,
        control_outcome(c, Some(cmd), after, r),
    ensures
        r == Ok::<ControlAction<O, C>, ConnectionError>(refusal(cmd)),
        cmd matches ControlCommand::OpenStream(o) ==> (refusal(cmd) matches ControlAction::Refuse(
            p,
            ConnectionError::Closed,
        ) && p == o),
        cmd matches ControlCommand::CloseConnection(x) ==> (refusal(
            cmd,
        ) matches ControlAction::Confirm(y) && y == x),
{
}

/// A stream that was asked for becomes part of the connection if it is still wanted. Otherwise it is
/// forgotten, and the remote is told just if it had heard of the stream.
pub proof fn law_unwanted_streams_are_forgotten<O, C>(
    c: ConnectionView<C>,
    o: O,
    offered: ConnectionView<C>,
    r: Result<ControlAction<O, C>, ConnectionError>,
    accepted: bool,
    after: ConnectionView<C>,
    frame: Option<Frame<Data>>,
)
    requires
        c.wf(),
        control_outcome(c, Some(ControlCommand::OpenStream(o)), offered, r),
        r matches Ok(ControlAction::Open(..)),
        ({
            let s = r->Ok_0->Open_1;
            open_reply_outcome(offered, s@, accepted, after, frame)
        }),
    ensures
        ({
            let s = r->Ok_0->Open_1;
            let told = r->Ok_0->Open_2 is Some;
            if accepted {
                &&& frame is None
                &&& after.streams.contains_key(s@.id)
                &&& after.streams[s@.id] == s@
                &&& after.streams.remove(s@.id) == c.streams.remove(s@.id)
                &&& after == ConnectionView { streams: after.streams, ..offered }
            } else {
                &&& after == offered
                &&& after.streams == c.streams
                &&& frame is Some <==> told
                &&& frame matches Some(f) ==> resets(f@, s@.id)
            }
        }),
{
    lemma_flags();
    let s = r->Ok_0->Open_1;
    assert(accepted ==> after.streams.remove(s@.id) =~= c.streams.remove(s@.id));
}

/// What a stream asks to be sent is sent as it is; closing it sends a frame that finishes it.
pub proof fn law_commands_are_carried_out(cmd: CommandView)
    ensures
        cmd matches CommandView::SendFrame(f) ==> command_frame(cmd) == f,
        cmd matches CommandView::CloseStream { id, ack } ==> finishes(command_frame(cmd), id, ack),
{
    lemma_flags();
}

/// When its user gives up a stream, the remote is told all it needs to know, and no more: nothing is
/// said of a stream that is closed, a stream that the remote has finished is finished, and one that the
/// remote could go on with in vain is reset.
pub proof fn law_farewell_says_what_is_needed(s: StreamView)
    ensures
        match s.shared.state {
            State::Closed => farewell(s) is None,
            State::RecvClosed => farewell(s) matches Some(f) && finishes(f, s.id, false),
            State::Open => farewell(s) matches Some(f) && resets(f, s.id),
            State::SendClosed => {
                &&& farewell(s) is Some <==> s.config.window_update_mode == WindowUpdateMode::OnRead
                    && s.shared.window == 0
                &&& farewell(s) matches Some(f) ==> resets(f, s.id)
            },
        },
{
    lemma_flags();
}

/// After the farewell of a stream to which we could still write, the remote does not expect data of it
/// any more; and if we could still have read from it, the remote cannot write to it.
pub proof fn law_farewell_is_understood<D>(s: StreamView, d: ConnectionView<D>)
    requires
        open_to_write(s.shared.state),
        d.streams.contains_key(s.id),
    ensures
        farewell(s) is Some,
        ({
            let t = frame_outcome(d, farewell(s)->Some_0).conn.streams[s.id].shared.state;
            &&& !open_to_read(t)
            &&& open_to_read(s.shared.state) ==> !open_to_write(t)
        }),
{
    let h = HeaderView::plain(Tag::Data, s.id, 0);
    law_plain_header_has_no_flag(Tag::Data, s.id, 0, RST);
    law_plain_header_has_no_flag(Tag::Data, s.id, 0, SYN);
    law_flags_are_independent(h, RST, RST);
    law_flags_are_independent(h, FIN, FIN);
    law_flags_are_independent(h, FIN, RST);
    law_flags_are_independent(h, FIN, SYN);
}

/// Collecting garbage takes out just those streams that their users have given up. Each of them is told
/// of once, with its farewell, and whoever waits for it is woken up.
pub proof fn law_garbage_is_told_of(m: Map<u32, StreamView>, out: Seq<Collected>, k: u32)
    requires
        all_collected(m, out),
    ensures
        (exists|i: int| 0 <= i < out.len() && #[trigger] out[i].id.0 == k) <==> m.contains_key(k)
            && !m[k].retained,
        forall|i: int|
            0 <= i < out.len() && (#[trigger] out[i]).id.0 == k ==> {
                &&& out[i].wakers.reader == m[k].shared.reader
                &&& out[i].wakers.writer == m[k].shared.writer
                &&& out[i].frame is Some <==> farewell(m[k]) is Some
                &&& out[i].frame matches Some(f) ==> Some(f@) == farewell(m[k])
            },
        forall|i: int, j: int|
            0 <= i < j < out.len() ==> (#[trigger] out[i]).id.0 != (#[trigger] out[j]).id.0,
        retained(m).contains_key(k) <==> m.contains_key(k) && m[k].retained,
        retained(m).contains_key(k) ==> retained(m)[k] == m[k],
{
    assert forall|i: int, j: int| 0 <= i < j < out.len() implies (#[trigger] out[i]).id.0 != (
    #[trigger] out[j]).id.0 by {
        assert(out[i].id != out[j].id);
    }
    if m.contains_key(k) && !m[k].retained {
        assert(collects(out, k));
    }
    if exists|i: int| 0 <= i < out.len() && #[trigger] out[i].id.0 == k {
        let i = choose|i: int| 0 <= i < out.len() && #[trigger] out[i].id.0 == k;
        assert(collected_from(m, out[i]));
    }
}

/// When a connection ends, each of its streams is closed, and whoever waits for it is woken up; what it
/// has received can still be read. The connection has no streams any more, and it ends only once.
pub proof fn law_end_closes_all_streams<C>(
    c: ConnectionView<C>,
    result: Result<Option<StreamId>, ConnectionError>,
    after: ConnectionView<C>,
    r: Result<Option<StreamId>, ConnectionError>,
    dropped: Seq<Dropped>,
    k: u32,
)
    requires
        stream_outcome(c, result, after, r, dropped),
    ensures
        c.is_closed ==> r == Ok::<Option<StreamId>, ConnectionError>(None) && after == c
            && dropped.len() == 0,
        !c.is_closed && (result matches Ok(Some(_))) ==> r == result && after == c && dropped.len()
            == 0,
        !c.is_closed && !(result matches Ok(Some(_))) ==> {
            &&& after.is_closed
            &&& after.streams.len() == 0
            &&& !after.streams.contains_key(k)
            &&& after == ConnectionView { is_closed: true, streams: after.streams, ..c }
            &&& match result {
                Err(ConnectionError::Closed) => r == Ok::<Option<StreamId>, ConnectionError>(None),
                _ => r == result,
            }
            &&& (exists|i: int| 0 <= i < dropped.len() && #[trigger] dropped[i].stream@.id == k)
                <==> c.streams.contains_key(k)
            &&& forall|i: int|
                0 <= i < dropped.len() && (#[trigger] dropped[i]).stream@.id == k ==> {
                    &&& dropped[i].stream@.shared.state == State::Closed
                    &&& dropped[i].stream@.shared.reader is None
                    &&& dropped[i].stream@.shared.writer is None
                    &&& dropped[i].stream@.shared.buffer == c.streams[k].shared.buffer
                    &&& dropped[i].stream@.retained == c.streams[k].retained
                    &&& dropped[i].wakers.reader == c.streams[k].shared.reader
                    &&& dropped[i].wakers.writer == c.streams[k].shared.writer
                }
        },
{
    if !c.is_closed && !(result matches Ok(Some(_))) {
        if c.streams.contains_key(k) {
            assert(drops(dropped, k));
        }
        if exists|i: int| 0 <= i < dropped.len() && #[trigger] dropped[i].stream@.id == k {
            let i = choose|i: int| 0 <= i < dropped.len() && #[trigger] dropped[i].stream@.id == k;
            assert(dropped_from(c.streams, dropped[i]));
        }
    }
}

/// Commands from streams come first, then those from controls, then frames; and no event is made up.
pub proof fn law_commands_come_first<O, C>(
    stream: Poll<Option<StreamCommand>>,
    control: Poll<Option<ControlCommand<O, C>>>,
    frame: Poll<Result<Option<Frame<()>>, ConnectionError>>,
)
    ensures
        stream matches Poll::Ready(x) ==> first_event(stream, control, frame) == Poll::Ready(
            Event::<O, C>::Stream(x),
        ),
        stream is Pending ==> (control matches Poll::Ready(x) ==> first_event(stream, control, frame)
            == Poll::Ready(Event::<O, C>::Control(x))),
        stream is Pending && control is Pending ==> (frame matches Poll::Ready(x) ==> first_event(
            stream,
            control,
            frame,
        ) == Poll::Ready(Event::<O, C>::Inbound(x))),
        stream is Pending && control is Pending && frame is Pending <==> first_event(
            stream,
            control,
            frame,
        ) is Pending,
{
}

/// As long as a write is pending, frames are taken in, and nothing else; a socket that has failed ends
/// the connection.
pub proof fn law_reading_goes_on_while_writing<O, C>(
    ready: Poll<Result<(), ()>>,
    frame: Poll<Result<Option<Frame<()>>, ConnectionError>>,
)
    ensures
        ready is Pending ==> (frame matches Poll::Ready(x) ==> first_io_event::<O, C>(ready, frame)
            == Poll::Ready(Some(Event::<O, C>::Inbound(x)))),
        first_io_event::<O, C>(ready, frame) is Pending <==> ready is Pending && frame is Pending,
        first_io_event::<O, C>(ready, frame) == Poll::Ready(None::<Event<O, C>>) <==> (
        ready matches Poll::Ready(Ok(_))),
        ready matches Poll::Ready(Err(_)) ==> first_io_event::<O, C>(ready, frame) == Poll::Ready(
            Some(Event::<O, C>::OutboundFailed),
        ),
{
}

/// A connection waits as long as there is anything to wait for, and is closed when there is not, or when
/// nothing can be sent any more. Commands of streams are sent, and after the last one the session ends
/// without an error.
pub proof fn law_events_lead_on<O, C>(
    c: ConnectionView<C>,
    event: Event<O, C>,
    after: ConnectionView<C>,
    r: Result<Step<O, C>, ConnectionError>,
)
    requires
        connection::next_outcome(c, event, after, r),
    ensures
        match event {
            Event::OutboundReady(s) => {
                &&& after == c
                &&& s.stream || s.control || s.socket ==> (r matches Ok(Step::Wait(t)) && t == s)
                &&& !s.stream && !s.control && !s.socket ==> (r matches Err(ConnectionError::Closed))
            },
            Event::OutboundFailed => after == c && (r matches Err(ConnectionError::Closed)),
            Event::Stream(Some(cmd)) => {
                &&& after == c
                &&& r matches Ok(Step::Send(f))
                &&& match cmd@ {
                    CommandView::SendFrame(g) => f@ == g,
                    CommandView::CloseStream { id, ack } => finishes(f@, id, ack),
                }
            },
            Event::Stream(None) => {
                &&& after == c
                &&& r matches Ok(Step::Term(f))
                &&& ends_session(f@, 0)
            },
            Event::Inbound(_) => !(r matches Ok(Step::Control(_))) && !(r matches Ok(Step::Send(_))),
            Event::Control(_) => !(r matches Ok(Step::Frame(_))) && !(r matches Ok(Step::Send(_))),
        },
{
    lemma_flags();
}

} // verus!
