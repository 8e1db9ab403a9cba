//! What a connection makes of the frames that come in.

use crate::chunks::{law_pushed_last_read_last, octets};
use crate::connection::laws::streams::{gives_credit, open_to_read, open_to_write};
use crate::connection::stream::{Flag, SharedView, State, StreamView};
use crate::connection::{
    self, credit_overflow, frame_outcome, ActionView, ConnectionView, Mode, Reaction, Reply,
};
use crate::error::{ConnectionError, IoErrorKind};
use crate::frame::header::{Tag, ACK, FIN, RST, SYN};
use crate::frame::io::FrameDecodeError;
use crate::frame::{Frame, FrameView};
use crate::{WindowUpdateMode, DEFAULT_CREDIT};
use vstd::prelude::*;

verus! {

/// Does a frame have this flag?
pub open spec fn flagged(f: FrameView, flag: u16) -> bool {
    f.header.flags & flag == flag
}

/// Is the frame about the data or the credit of a stream?
pub open spec fn for_stream(f: FrameView) -> bool {
    f.header.tag == Tag::Data || f.header.tag == Tag::WindowUpdate
}

/// Does the remote open streams with this identifier?
pub open spec fn theirs(mode: Mode, id: u32) -> bool {
    match mode {
        Mode::Client => id % 2 == 0,
        Mode::Server => id % 2 == 1,
    }
}

/// A frame without a body that ends the session with this code.
pub open spec fn ends_session(f: FrameView, code: u32) -> bool {
    &&& f.header.version == 0
    &&& f.header.tag == Tag::GoAway
    &&& f.header.flags == 0
    &&& f.header.stream_id == 0
    &&& f.header.length == code
    &&& f.body.len() == 0
}

/// A frame without a body that resets a stream, and nothing else.
pub open spec fn resets(f: FrameView, id: u32) -> bool {
    &&& f.header.version == 0
    &&& f.header.tag == Tag::Data
    &&& f.header.flags == RST
    &&& f.header.stream_id == id
    &&& f.header.length == 0
    &&& f.body.len() == 0
}

/// The connection is refused with this code, and nothing has changed.
pub open spec fn refuses<C>(c: ConnectionView<C>, r: Reaction<C>, code: u32) -> bool {
    &&& r.conn == c
    &&& r.action matches ActionView::Terminate(f)
    &&& ends_session(f, code)
    &&& r.wakers.reader is None
    &&& r.wakers.writer is None
}

/// Nothing is to be done, and nothing has changed.
pub open spec fn ignores<C>(c: ConnectionView<C>, r: Reaction<C>) -> bool {
    &&& r.conn == c
    &&& r.action is Nothing
    &&& r.wakers.reader is None
    &&& r.wakers.writer is None
}

/// Only one stream has changed, and of that stream only what it shares with the connection.
pub open spec fn only_shared_changes<C>(
    c: ConnectionView<C>,
    after: ConnectionView<C>,
    id: u32,
) -> bool {
    &&& after == ConnectionView { streams: after.streams, ..c }
    &&& after.streams.contains_key(id)
    &&& after.streams == c.streams.insert(id, after.streams[id])
    &&& after.streams[id] == StreamView { shared: after.streams[id].shared, ..c.streams[id] }
}

/// A frame that finishes a stream closes the direction from the remote, and no other; one that does not
/// closes nothing.
pub open spec fn finished(f: FrameView, before: State, after: State) -> bool {
    &&& open_to_read(after) == (open_to_read(before) && !flagged(f, FIN))
    &&& open_to_write(after) == open_to_write(before)
}

/// A single flag that is set on a header without flags is the only one.
proof fn lemma_single_flags()
    ensures
        0u16 | RST == RST,
        0u16 | ACK == ACK,
{
    assert(0u16 | RST == RST && 0u16 | ACK == ACK) by (bit_vector);
}

/// A reset closes a stream for good: both directions are closed, and whoever waits for data or for
/// credit is woken up. What was received before can still be read.
pub proof fn law_reset_wakes_everybody<C>(c: ConnectionView<C>, f: FrameView)
    requires
        for_stream(f),
        flagged(f, RST),
    ensures
        ({
            let id = f.header.stream_id;
            let r = frame_outcome(c, f);
            if c.streams.contains_key(id) {
                let before = c.streams[id].shared;
                let after = r.conn.streams[id].shared;
                &&& only_shared_changes(c, r.conn, id)
                &&& r.action is Nothing
                &&& after.state == State::Closed
                &&& r.wakers.reader == before.reader
                &&& r.wakers.writer == before.writer
                &&& after.reader is None
                &&& after.writer is None
                &&& after.buffer == before.buffer
                &&& after.window == before.window
                &&& after.credit == before.credit
            } else {
                ignores(c, r)
            }
        }),
{
    assert(c.streams.contains_key(f.header.stream_id) ==> frame_outcome(c, f).conn.streams
        =~= c.streams.insert(
        f.header.stream_id,
        frame_outcome(c, f).conn.streams[f.header.stream_id],
    ));
}

/// The remote must keep to its window: a frame with more data ends the connection as a breach of the
/// protocol, and is not taken note of.
pub proof fn law_too_much_data_is_refused<C>(c: ConnectionView<C>, f: FrameView)
    requires
        f.header.tag == Tag::Data,
        !flagged(f, RST),
        !flagged(f, SYN),
        c.streams.contains_key(f.header.stream_id),
        f.body.len() > c.streams[f.header.stream_id].shared.window,
    ensures
        refuses(c, frame_outcome(c, f), 1),
{
}

/// A stream whose buffer is full is reset when more comes, though what is buffered stays.
pub proof fn law_full_buffer_resets<C>(c: ConnectionView<C>, f: FrameView)
    requires
        f.header.tag == Tag::Data,
        !flagged(f, RST),
        !flagged(f, SYN),
        c.streams.contains_key(f.header.stream_id),
        f.body.len() <= c.streams[f.header.stream_id].shared.window,
        octets(c.streams[f.header.stream_id].shared.buffer).len() >= c.config.max_buffer_size,
    ensures
        ({
            let id = f.header.stream_id;
            let r = frame_outcome(c, f);
            let before = c.streams[id].shared;
            let after = r.conn.streams[id].shared;
            &&& only_shared_changes(c, r.conn, id)
            &&& r.action matches ActionView::Reset(g)
            &&& resets(g, id)
            &&& finished(f, before.state, after.state)
            &&& after == SharedView { state: after.state, ..before }
            &&& r.wakers.reader is None
            &&& r.wakers.writer is None
        }),
{
    lemma_single_flags();
    assert(frame_outcome(c, f).conn.streams =~= c.streams.insert(
        f.header.stream_id,
        frame_outcome(c, f).conn.streams[f.header.stream_id],
    ));
}

/// A data frame that is accepted, with a body or without, adds its body to what can be read, takes note
/// of the end of the stream, and wakes up whoever waits for data. It leaves alone what we may send.
pub proof fn law_data_reaches_the_reader<C>(c: ConnectionView<C>, f: FrameView)
    requires
        f.header.tag == Tag::Data,
        !flagged(f, RST),
        !flagged(f, SYN),
        c.streams.contains_key(f.header.stream_id),
        f.body.len() <= c.streams[f.header.stream_id].shared.window,
        octets(c.streams[f.header.stream_id].shared.buffer).len() < c.config.max_buffer_size,
    ensures
        ({
            let id = f.header.stream_id;
            let r = frame_outcome(c, f);
            let before = c.streams[id].shared;
            let after = r.conn.streams[id].shared;
            &&& only_shared_changes(c, r.conn, id)
            &&& octets(after.buffer) == octets(before.buffer) + f.body
            &&& finished(f, before.state, after.state)
            &&& r.wakers.reader == before.reader
            &&& r.wakers.writer is None
            &&& after.reader is None
            &&& after.writer == before.writer
            &&& after.credit == before.credit
        }),
{
    let before = c.streams[f.header.stream_id].shared;
    law_pushed_last_read_last(before.buffer, f.body);
    assert(octets(before.buffer) + Seq::<u8>::empty() =~= octets(before.buffer));
    if f.body.len() == 0 {
        assert(f.body =~= Seq::<u8>::empty());
    }
    assert(frame_outcome(c, f).conn.streams =~= c.streams.insert(
        f.header.stream_id,
        frame_outcome(c, f).conn.streams[f.header.stream_id],
    ));
}

/// If window updates are sent on receive, then as soon as half of the receive window was used, and as
/// long as more may come, the remote is given all of it again. Otherwise the window shrinks by what has
/// come, and nothing is sent.
pub proof fn law_receiving_grants_what_is_due<C>(c: ConnectionView<C>, f: FrameView)
    requires
        c.wf(),
        f.header.tag == Tag::Data,
        !flagged(f, RST),
        !flagged(f, SYN),
        c.streams.contains_key(f.header.stream_id),
        f.body.len() <= c.streams[f.header.stream_id].shared.window,
        octets(c.streams[f.header.stream_id].shared.buffer).len() < c.config.max_buffer_size,
    ensures
        ({
            let id = f.header.stream_id;
            let r = frame_outcome(c, f);
            let before = c.streams[id].shared;
            let after = r.conn.streams[id].shared;
            let left = before.window - f.body.len();
            let used = c.config.receive_window - left;
            if c.config.window_update_mode == WindowUpdateMode::OnReceive && open_to_read(after.state)
                && used >= c.config.receive_window / 2 {
                &&& after.window == c.config.receive_window
                &&& r.action matches ActionView::Update(g)
                &&& gives_credit(g, id, used)
                &&& g.header.flags == 0
            } else {
                &&& after.window == left
                &&& r.action is Nothing
            }
        }),
{
}

/// A stream that the remote opens by data is refused if it is not for the remote to open, exists
/// already or has too much data, and if there are too many streams; otherwise it is there, with its data
/// and the default credit in both directions, but for what was sent and granted.
pub proof fn law_remote_opens_by_data<C>(c: ConnectionView<C>, f: FrameView)
    requires
        c.wf(),
        f.header.tag == Tag::Data,
        !flagged(f, RST),
        flagged(f, SYN),
    ensures
        ({
            let id = f.header.stream_id;
            let r = frame_outcome(c, f);
            if !theirs(c.mode, id) || c.streams.contains_key(id) || f.body.len() > DEFAULT_CREDIT {
                refuses(c, r, 1)
            } else if c.streams.len() >= c.config.max_num_streams {
                refuses(c, r, 2)
            } else {
                let s = r.conn.streams[id];
                let left = DEFAULT_CREDIT - f.body.len();
                &&& r.conn == ConnectionView { streams: r.conn.streams, ..c }
                &&& r.conn.streams == c.streams.insert(id, s)
                &&& s.id == id && s.conn == c.id && s.config == c.config && s.retained
                &&& s.pending is None
                &&& open_to_write(s.shared.state)
                &&& open_to_read(s.shared.state) == !flagged(f, FIN)
                &&& octets(s.shared.buffer) == f.body
                &&& s.shared.credit == DEFAULT_CREDIT
                &&& s.shared.reader is None && s.shared.writer is None
                &&& r.wakers.reader is None && r.wakers.writer is None
                &&& r.action matches ActionView::New(k, update)
                &&& k == id
                &&& if c.config.window_update_mode == WindowUpdateMode::OnReceive && !flagged(f, FIN)
                    && c.config.receive_window - left >= c.config.receive_window / 2 {
                    &&& s.shared.window == c.config.receive_window
                    &&& s.flag == Flag::Nothing
                    &&& update matches Some(g)
                    &&& gives_credit(g, id, c.config.receive_window - left)
                    &&& g.header.flags == ACK
                } else {
                    &&& s.shared.window == left
                    &&& s.flag == Flag::Ack
                    &&& update is None
                }
            }
        }),
{
    lemma_single_flags();
    let none = Seq::<Seq<u8>>::empty();
    law_pushed_last_read_last(none, f.body);
    assert(octets(none) == Seq::<u8>::empty());
    assert(Seq::<u8>::empty() + f.body =~= f.body);
    if f.body.len() == 0 {
        assert(f.body =~= Seq::<u8>::empty());
    }
}

/// A stream that the remote opens by a window update is refused if it is not for the remote to open, if
/// it exists already, and if there are too many streams; otherwise it is there, without data, and we may
/// send the default credit and what the remote gives in addition.
pub proof fn law_remote_opens_by_window_update<C>(c: ConnectionView<C>, f: FrameView)
    requires
        f.header.tag == Tag::WindowUpdate,
        !flagged(f, RST),
        flagged(f, SYN),
        f.header.length + DEFAULT_CREDIT <= u32::MAX,
    ensures
        ({
            let id = f.header.stream_id;
            let r = frame_outcome(c, f);
            if !theirs(c.mode, id) || c.streams.contains_key(id) || c.streams.len()
                >= c.config.max_num_streams {
                refuses(c, r, 1)
            } else {
                let s = r.conn.streams[id];
                &&& r.conn == ConnectionView { streams: r.conn.streams, ..c }
                &&& r.conn.streams == c.streams.insert(id, s)
                &&& s.id == id && s.conn == c.id && s.config == c.config && s.retained
                &&& s.pending is None
                &&& s.flag == Flag::Ack
                &&& open_to_write(s.shared.state)
                &&& open_to_read(s.shared.state) == !flagged(f, FIN)
                &&& octets(s.shared.buffer).len() == 0
                &&& s.shared.window == DEFAULT_CREDIT
                &&& s.shared.credit == DEFAULT_CREDIT + f.header.length
                &&& s.shared.reader is None && s.shared.writer is None
                &&& r.wakers.reader is None && r.wakers.writer is None
                &&& r.action matches ActionView::New(k, update)
                &&& k == id
                &&& update is None
            }
        }),
{
}

/// A window update adds to what we may send just what it says, and wakes up whoever waits for credit. It
/// leaves alone what the remote may send and what can be read.
pub proof fn law_credit_reaches_the_writer<C>(c: ConnectionView<C>, f: FrameView)
    requires
        f.header.tag == Tag::WindowUpdate,
        !flagged(f, RST),
        !flagged(f, SYN),
        c.streams.contains_key(f.header.stream_id),
        c.streams[f.header.stream_id].shared.credit + f.header.length <= u32::MAX,
    ensures
        ({
            let id = f.header.stream_id;
            let r = frame_outcome(c, f);
            let before = c.streams[id].shared;
            let after = r.conn.streams[id].shared;
            &&& only_shared_changes(c, r.conn, id)
            &&& r.action is Nothing
            &&& after.credit == before.credit + f.header.length
            &&& finished(f, before.state, after.state)
            &&& r.wakers.writer == before.writer
            &&& r.wakers.reader is None
            &&& after.writer is None
            &&& after.reader == before.reader
            &&& after.window == before.window
            &&& after.buffer == before.buffer
        }),
{
    assert(frame_outcome(c, f).conn.streams =~= c.streams.insert(
        f.header.stream_id,
        frame_outcome(c, f).conn.streams[f.header.stream_id],
    ));
}

/// Frames for streams that are neither known nor to be opened are ignored.
pub proof fn law_strangers_are_ignored<C>(c: ConnectionView<C>, f: FrameView)
    requires
        for_stream(f),
        !c.streams.contains_key(f.header.stream_id),
        !flagged(f, SYN) || flagged(f, RST),
    ensures
        ignores(c, frame_outcome(c, f)),
{
}

/// Does whoever waits for data have to wait?
pub open spec fn waits_for_data(s: SharedView) -> bool {
    s.reader is Some ==> octets(s.buffer).len() == 0 && open_to_read(s.state)
}

/// Does whoever waits for credit have to wait?
pub open spec fn waits_for_credit(s: SharedView) -> bool {
    s.writer is Some ==> s.credit == 0 && open_to_write(s.state)
}

/// Whenever a frame changes what a waiting reader would be told, the reader is woken up; whoever is not
/// woken up still has to wait.
///
/// A window update that finishes a stream is the exception: readers are woken up by data.
pub proof fn law_no_reader_waits_in_vain<C>(c: ConnectionView<C>, f: FrameView, k: u32)
    requires
        c.streams.contains_key(k),
        waits_for_data(c.streams[k].shared),
        c.config.max_buffer_size > 0,
        f.header.tag == Tag::WindowUpdate ==> !flagged(f, FIN) || flagged(f, RST),
    ensures
        ({
            let r = frame_outcome(c, f);
            let before = c.streams[k].shared;
            let after = r.conn.streams[k].shared;
            &&& waits_for_data(after)
            &&& before.reader is Some && (octets(after.buffer).len() > 0 || !open_to_read(after.state))
                ==> r.wakers.reader == before.reader
            &&& before.reader is Some ==> after.reader == before.reader || r.wakers.reader
                == before.reader
        }),
{
}

/// Whenever a frame changes what a waiting writer would be told, the writer is woken up; whoever is not
/// woken up still has to wait.
pub proof fn law_no_writer_waits_in_vain<C>(c: ConnectionView<C>, f: FrameView, k: u32)
    requires
        c.streams.contains_key(k),
        waits_for_credit(c.streams[k].shared),
        !(f.header.tag == Tag::WindowUpdate && credit_overflow(c, f)),
    ensures
        ({
            let r = frame_outcome(c, f);
            let before = c.streams[k].shared;
            let after = r.conn.streams[k].shared;
            &&& waits_for_credit(after)
            &&& before.writer is Some && (after.credit > 0 || !open_to_write(after.state))
                ==> r.wakers.writer == before.writer
            &&& before.writer is Some ==> after.writer == before.writer || r.wakers.writer
                == before.writer
        }),
{
}

/// Credit overflows just when it cannot be counted.
pub proof fn law_credit_overflow<C>(c: ConnectionView<C>, f: FrameView)
    requires
        !flagged(f, RST),
    ensures
        !flagged(f, SYN) && c.streams.contains_key(f.header.stream_id) ==> (credit_overflow(c, f)
            <==> c.streams[f.header.stream_id].shared.credit + f.header.length > u32::MAX),
        flagged(f, SYN) && theirs(c.mode, f.header.stream_id) && !c.streams.contains_key(
            f.header.stream_id,
        ) && c.streams.len() < c.config.max_num_streams ==> (credit_overflow(c, f) <==> DEFAULT_CREDIT
            + f.header.length > u32::MAX),
        !flagged(f, SYN) && !c.streams.contains_key(f.header.stream_id) ==> !credit_overflow(c, f),
{
}

/// A ping of the session, or of a stream that we know, is answered with its nonce. Other pings, and
/// answers to pings, are not.
pub proof fn law_pings_are_answered<C>(c: ConnectionView<C>, f: FrameView)
    requires
        f.header.tag == Tag::Ping,
    ensures
        ({
            let r = frame_outcome(c, f);
            if flagged(f, ACK) || f.header.stream_id != 0 && !c.streams.contains_key(
                f.header.stream_id,
            ) {
                ignores(c, r)
            } else {
                &&& r.conn == c
                &&& r.wakers.reader is None && r.wakers.writer is None
                &&& r.action matches ActionView::Ping(g)
                &&& g.header.version == 0
                &&& g.header.tag == Tag::Ping
                &&& g.header.flags == ACK
                &&& g.header.stream_id == 0
                &&& g.header.length == f.header.length
                &&& g.body.len() == 0
            }
        }),
{
    lemma_single_flags();
}

/// Whatever a frame calls for is in the reply: the frame to send, the stream that was opened and the
/// tasks to wake up.
pub proof fn law_reply_says_it_all<C>(
    c: ConnectionView<C>,
    f: Frame<()>,
    after: ConnectionView<C>,
    r: Result<Reply, ConnectionError>,
)
    requires
        f@.header.tag != Tag::GoAway,
        connection::read_outcome(c, Ok(Some(f)), after, r),
    ensures
        ({
            let d = frame_outcome(c, f@);
            &&& after == d.conn
            &&& r matches Ok(reply)
            &&& reply.wakers == d.wakers
            &&& match d.action {
                ActionView::Nothing => reply.frame is None && reply.stream is None,
                ActionView::New(id, None) => {
                    &&& reply.frame is None
                    &&& reply.stream matches Some(k) && k.0 == id
                },
                ActionView::New(id, Some(g)) => {
                    &&& reply.frame matches Some(h) && h@ == g
                    &&& reply.stream matches Some(k) && k.0 == id
                },
                ActionView::Update(g) | ActionView::Ping(g) | ActionView::Reset(
                    g,
                ) | ActionView::Terminate(g) => {
                    &&& reply.frame matches Some(h) && h@ == g
                    &&& reply.stream is None
                },
            }
        }),
{
}

/// The connection ends, and nothing changes, when the remote says so, when the input ends or when it
/// fails. A connection that was reset counts as closed; any other failure is reported as it is.
pub proof fn law_end_of_input_ends_connection<C>(
    c: ConnectionView<C>,
    input: Result<Option<Frame<()>>, ConnectionError>,
    after: ConnectionView<C>,
    r: Result<Reply, ConnectionError>,
)
    requires
        connection::read_outcome(c, input, after, r),
    ensures
        match input {
            Ok(None) => after == c && r == Err::<Reply, ConnectionError>(ConnectionError::Closed),
            Ok(Some(f)) => f@.header.tag == Tag::GoAway ==> after == c && r == Err::<
                Reply,
                ConnectionError,
            >(ConnectionError::Closed),
            Err(ConnectionError::Io(IoErrorKind::ConnectionReset)) | Err(
                ConnectionError::Decode(FrameDecodeError::Io(IoErrorKind::ConnectionReset)),
            ) => after == c && r == Err::<Reply, ConnectionError>(ConnectionError::Closed),
            Err(e) => after == c && r == Err::<Reply, ConnectionError>(e),
        },
{
}

} // verus!
