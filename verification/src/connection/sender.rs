//! Sending frames to the remote.

use crate::buffer::buffer_of;
use crate::frame::header::{HeaderView, StreamId, Tag, FIN};
use crate::frame::FrameView;
use crate::raw::header::{Header, CODE_TERM};
use crate::raw::{Frame, RawFrame};
use crate::stream::{Item, ItemView};
use crate::Config;
use vstd::prelude::*;

verus! {

/// What a stream has to say to the [`Sender`].
#[derive(Debug)]
pub enum StreamEvent {
    /// An item to send to the remote.
    Item(StreamId, Item),
    /// The stream has failed.
    Error(StreamId),
    /// The stream has ended.
    End(StreamId),
}

/// The messages the [`Sender`] understands.
#[derive(Debug)]
pub enum Message<S> {
    /// Send (but do not flush) a yamux frame.
    Send(RawFrame),
    /// Send and flush a yamux frame.
    SendAndFlush(RawFrame),
    /// Include the given stream as a source of items to send to the remote.
    AddStream(S),
    /// A single items from a stream to send to the remote.
    FromStream(StreamEvent),
    /// Send a GoAway with the given code and close the connection.
    Close(u32),
    /// Closing the connection without a GoAway frame and stop.
    Drop,
}

/// Message the [`Sender`] sends back to the connection if
/// a stream terminated. The connection can then clean up its internal
/// state and--if necessary--tell the sender to send a reset frame to the remote.
#[derive(Copy, Clone, Debug, PartialEq, Eq, Structural)]
pub struct EndOfStream(pub StreamId);

/// What is to be done with the output, in this order: send a frame, flush, close.
#[derive(Debug)]
pub struct Output {
    /// A frame to send.
    pub frame: Option<RawFrame>,
    /// Is the output to be flushed?
    pub flush: bool,
    /// Is the output to be closed?
    pub close: bool,
    /// After how many milliseconds should this be given up?
    pub timeout: Option<u64>,
}

/// What an [`Output`] says.
pub struct OutputView {
    pub frame: Option<FrameView>,
    pub flush: bool,
    pub close: bool,
    pub timeout: Option<u64>,
}

impl View for Output {
    type V = OutputView;

    open spec fn view(&self) -> OutputView {
        OutputView {
            frame: match self.frame {
                Some(f) => Some(f@),
                None => None,
            },
            flush: self.flush,
            close: self.close,
            timeout: self.timeout,
        }
    }
}

/// What the [`Sender`] does about a message.
#[derive(Debug)]
pub enum Step<S> {
    /// Write, and go on.
    Ready(Output),
    /// Go on with another stream as a source of items.
    Stream(S),
    /// Tell the connection that a stream has terminated, and go on.
    Inform(EndOfStream),
    /// Write, and stop.
    Done(Output),
}

/// The sender sends frames to the remote.
#[derive(Debug)]
pub struct Sender {
    /// The credit that is granted to the remote at once.
    receive_window: u32,
    /// After how many milliseconds is a write given up?
    write_timeout: Option<u64>,
}

/// What a [`Sender`] holds.
pub struct SenderView {
    pub receive_window: u32,
    pub write_timeout: Option<u64>,
}

impl View for Sender {
    type V = SenderView;

    closed spec fn view(&self) -> SenderView {
        SenderView { receive_window: self.receive_window, write_timeout: self.write_timeout }
    }
}

impl SenderView {
    /// Send a frame.
    pub open spec fn send(self, f: FrameView) -> OutputView {
        OutputView { frame: Some(f), flush: false, close: false, timeout: self.write_timeout }
    }

    /// Send a frame and flush the connection.
    pub open spec fn send_flush(self, f: FrameView) -> OutputView {
        OutputView { flush: true, ..self.send(f) }
    }

    /// Send a frame and close the connection.
    pub open spec fn send_close(self, f: FrameView) -> OutputView {
        OutputView { close: true, ..self.send(f) }
    }

    /// What is written on behalf of an item from a stream.
    pub open spec fn item(self, id: u32, item: ItemView) -> OutputView {
        match item {
            ItemView::Data(b) => self.send(FrameView::data(id, b)),
            ItemView::Flush => OutputView {
                frame: None,
                flush: true,
                close: false,
                timeout: self.write_timeout,
            },
            ItemView::Credit => self.send_flush(FrameView::window_update(id, self.receive_window)),
            ItemView::HalfClose => self.send_flush(
                FrameView::bare(HeaderView::plain(Tag::Data, id, 0).with(FIN)),
            ),
        }
    }

    /// Is this what is done about a message?
    ///
    /// The end of all messages closes the connection, as if it were told to.
    pub open spec fn does<S>(self, msg: Option<Message<S>>, step: Step<S>) -> bool {
        match msg {
            Some(Message::Send(f)) => step matches Step::Ready(w) && w@ == self.send(f@),
            Some(Message::SendAndFlush(f)) => step matches Step::Ready(w) && w@ == self.send_flush(
                f@,
            ),
            Some(Message::AddStream(s)) => step == Step::Stream(s),
            Some(Message::FromStream(StreamEvent::Item(id, item))) => step matches Step::Ready(w)
                && w@ == self.item(id.0, item@),
            Some(Message::FromStream(StreamEvent::Error(id))) => step == Step::<S>::Inform(
                EndOfStream(id),
            ),
            Some(Message::FromStream(StreamEvent::End(id))) => step == Step::<S>::Inform(
                EndOfStream(id),
            ),
            Some(Message::Close(code)) => step matches Step::Done(w) && w@ == self.send_close(
                FrameView::go_away(code),
            ),
            Some(Message::Drop) => step matches Step::Done(w) && w@ == OutputView {
                frame: None,
                flush: false,
                close: true,
                timeout: None,
            },
            None => step matches Step::Done(w) && w@ == self.send_close(
                FrameView::go_away(CODE_TERM),
            ),
        }
    }
}

impl Sender {
    /// A sender that is configured like this, and that gives up writing after so many milliseconds.
    pub fn new(config: &Config, write_timeout: Option<u64>) -> (s: Self)
        ensures
            s@ == (SenderView { receive_window: config@.receive_window, write_timeout }),
    {
        Sender { receive_window: config.receive_window, write_timeout }
    }

    /// Process a message.
    pub fn process<S>(&self, msg: Option<Message<S>>) -> (step: Step<S>)
        requires
            msg matches Some(Message::FromStream(StreamEvent::Item(_, Item::Data(b))))
                ==> buffer_of(b).len() <= u32::MAX,
        ensures
            self@.does(msg, step),
    {
        match msg {
            Some(Message::Send(frame)) => Step::Ready(self.send_frame(frame)),
            Some(Message::SendAndFlush(frame)) => Step::Ready(self.send_frame_flush(frame)),
            Some(Message::AddStream(stream)) => Step::Stream(stream),
            Some(Message::FromStream(event)) => match event {
                StreamEvent::Item(id, item) => match item {
                    // New data to send to remote.
                    Item::Data(bytes) => {
                        let frame = Frame::data(id, bytes.freeze()).into_raw();
                        Step::Ready(self.send_frame(frame))
                    },
                    // Flush the connection.
                    Item::Flush => Step::Ready(self.flush()),
                    // Grant more credit to the remote stream so it can continue
                    // sending more frames.
                    Item::Credit => {
                        let frame = Frame::window_update(id, self.receive_window);
                        Step::Ready(self.send_frame_flush(frame.into_raw()))
                    },
                    // The stream will stop sending more data but continues to read.
                    Item::HalfClose => {
                        let mut h = Header::data(id, 0);
                        h.fin();
                        let frame = Frame::new(h).into_raw();
                        Step::Ready(self.send_frame_flush(frame))
                    },
                },
                // The stream has terminated. We inform the connection which decides what
                // (if anything) needs to done.
                StreamEvent::Error(stream) | StreamEvent::End(stream) => Step::Inform(
                    EndOfStream(stream),
                ),
            },
            Some(Message::Close(code)) => Step::Done(self.close(code)),
            Some(Message::Drop) => Step::Done(
                Output { frame: None, flush: false, close: true, timeout: None },
            ),
            None => Step::Done(self.close(CODE_TERM)),
        }
    }

    /// Send frame to remote and honour potential write timeout.
    fn send_frame(&self, f: RawFrame) -> (o: Output)
        ensures
            o@ == self@.send(f@),
    {
        Output { frame: Some(f), flush: false, close: false, timeout: self.write_timeout }
    }

    /// Send frame to remote, flush the connection and honour potential write timeout.
    fn send_frame_flush(&self, f: RawFrame) -> (o: Output)
        ensures
            o@ == self@.send_flush(f@),
    {
        Output { frame: Some(f), flush: true, close: false, timeout: self.write_timeout }
    }

    /// Flush the connection and honour potential write timeout.
    fn flush(&self) -> (o: Output)
        ensures
            o@ == (OutputView {
                frame: None,
                flush: true,
                close: false,
                timeout: self@.write_timeout,
            }),
    {
        Output { frame: None, flush: true, close: false, timeout: self.write_timeout }
    }

    /// Send GoAway frame and close output.
    fn close(&self, code: u32) -> (o: Output)
        ensures
            o@ == self@.send_close(FrameView::go_away(code)),
    {
        Output {
            frame: Some(Frame::go_away(code).into_raw()),
            flush: false,
            close: true,
            timeout: self.write_timeout,
        }
    }
}

/// What a stream writes is sent in a data frame of that stream; credit that it grants, and the end of
/// what it writes, are told to the remote at once; and nothing of this ends the connection.
pub proof fn law_items_become_frames(s: SenderView, id: u32, item: ItemView)
    requires
        item matches ItemView::Data(b) ==> b.len() <= u32::MAX,
    ensures
        ({
            let w = s.item(id, item);
            &&& !w.close
            &&& w.timeout == s.write_timeout
            &&& w.flush == !(item is Data)
            &&& w.frame is None <==> item is Flush
            &&& w.frame matches Some(f) ==> {
                &&& f.header.version == 0
                &&& f.header.stream_id == id
                &&& match item {
                    ItemView::Data(b) => {
                        &&& f.header.tag == Tag::Data
                        &&& f.header.flags == 0
                        &&& f.header.length == b.len()
                        &&& f.body == b
                    },
                    ItemView::Credit => {
                        &&& f.header.tag == Tag::WindowUpdate
                        &&& f.header.flags == 0
                        &&& f.header.length == s.receive_window
                        &&& f.body.len() == 0
                    },
                    ItemView::HalfClose => {
                        &&& f.header.tag == Tag::Data
                        &&& f.header.flags == FIN
                        &&& f.header.length == 0
                        &&& f.body.len() == 0
                    },
                    ItemView::Flush => false,
                }
            }
        }),
{
    assert(0u16 | FIN == FIN) by (bit_vector);
}

/// A sender stops just when it is told to, or when nobody is left to tell it anything; and unless it is
/// to drop the connection, it tells the remote. It sends the frames it is given, and flushes them just if
/// asked to; streams that have terminated are reported.
pub proof fn law_sender_does_what_it_is_told<S>(s: SenderView, msg: Option<Message<S>>, step: Step<S>)
    requires
        s.does(msg, step),
    ensures
        step is Done <==> {
            ||| msg is None
            ||| msg matches Some(Message::Close(_))
            ||| msg matches Some(Message::Drop)
        },
        step matches Step::Done(w) ==> {
            &&& w.close
            &&& !w.flush
            &&& w.frame is None <==> (msg matches Some(Message::Drop))
            &&& w.frame matches Some(f) ==> {
                &&& f@.header.tag == Tag::GoAway
                &&& f@.header.stream_id == 0
                &&& f@.header.flags == 0
                &&& f@.body.len() == 0
                &&& f@.header.length == match msg {
                    Some(Message::Close(code)) => code,
                    _ => 0,
                }
                &&& w.timeout == s.write_timeout
            }
        },
        msg matches Some(Message::Send(f)) ==> {
            &&& step matches Step::Ready(w)
            &&& w.frame matches Some(g) && g@ == f@
            &&& !w.flush && !w.close && w.timeout == s.write_timeout
        },
        msg matches Some(Message::SendAndFlush(f)) ==> {
            &&& step matches Step::Ready(w)
            &&& w.frame matches Some(g) && g@ == f@
            &&& w.flush && !w.close && w.timeout == s.write_timeout
        },
        msg matches Some(Message::AddStream(x)) ==> (step matches Step::Stream(y) && y == x),
        msg matches Some(Message::FromStream(StreamEvent::Error(id))) ==> (step matches Step::Inform(
            e,
        ) && e.0 == id),
        msg matches Some(Message::FromStream(StreamEvent::End(id))) ==> (step matches Step::Inform(e)
            && e.0 == id),
        msg matches Some(Message::FromStream(StreamEvent::Item(id, item))) ==> (
        step matches Step::Ready(w) && w@ == s.item(id.0, item@)),
{
}

} // verus!
