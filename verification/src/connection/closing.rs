//! Closing a connection gracefully.

use crate::connection::command::{CommandView, StreamCommand};
use crate::error::ConnectionError;
use crate::frame::header::{StreamId, Tag, ACK, FIN};
use crate::frame::{Frame, FrameView};
use std::collections::VecDeque;
use vstd::prelude::*;

verus! {

/// The stages of closing a connection.
#[derive(Copy, Clone, Debug, PartialEq, Eq, Structural)]
pub enum State {
    /// No more commands are accepted from streams.
    ClosingStreamReceiver,
    /// The commands that streams have sent before are processed.
    DrainingStreamReceiver,
    /// The frames that are left are sent.
    FlushingPendingFrames,
    /// The socket is closed.
    ClosingSocket,
}

/// Gracefully closes the yamux connection.
#[derive(Debug)]
pub struct Closing {
    state: State,
    pending_frames: VecDeque<Frame<()>>,
}

/// What [`Closing`] holds.
pub struct ClosingView {
    pub state: State,
    /// The frames that are still to be sent.
    pub frames: Seq<FrameView>,
}

impl View for Closing {
    type V = ClosingView;

    closed spec fn view(&self) -> ClosingView {
        ClosingView {
            state: self.state,
            frames: self.pending_frames@.map_values(|f: Frame<()>| f@),
        }
    }
}

/// What has happened since the last step.
#[derive(Debug)]
pub enum Event {
    /// Nothing but that the last step was taken.
    Resume,
    /// A command has come from a stream. If there is none, the stream has ended.
    Command(StreamId, Option<StreamCommand>),
    /// No commands have come from any stream, now or ever.
    NoCommand,
    /// The socket can take a frame.
    SocketReady,
    /// The socket cannot take a frame, or be closed, yet.
    SocketPending,
    /// The socket is closed.
    SocketClosed,
    /// The socket has failed.
    SocketFailed(ConnectionError),
}

/// What is to be done next.
#[derive(Debug)]
pub enum Step {
    /// Close all channels from streams.
    CloseReceivers,
    /// See if a command has come from a stream.
    NextCommand,
    /// See if the socket can take a frame.
    AwaitSocket,
    /// Send a frame.
    Send(Frame<()>),
    /// Close the socket.
    CloseSocket,
    /// Wait until the socket is ready.
    Wait,
    /// The connection is closed, or could not be closed.
    Done(Result<(), ConnectionError>),
}

impl ClosingView {
    /// Can this happen at this stage?
    pub open spec fn expects(self, event: Event) -> bool {
        match event {
            Event::Resume => true,
            Event::Command(..) => self.state == State::DrainingStreamReceiver,
            Event::NoCommand => self.state == State::DrainingStreamReceiver,
            Event::SocketReady => self.state == State::FlushingPendingFrames,
            Event::SocketPending => {
                ||| self.state == State::FlushingPendingFrames
                ||| self.state == State::ClosingSocket
            },
            Event::SocketClosed => self.state == State::ClosingSocket,
            Event::SocketFailed(_) => {
                ||| self.state == State::FlushingPendingFrames
                ||| self.state == State::ClosingSocket
            },
        }
    }

    /// The frames that a command from a stream adds.
    pub open spec fn from_command(id: u32, cmd: Option<CommandView>) -> Seq<FrameView> {
        match cmd {
            Some(CommandView::SendFrame(f)) => seq![f],
            Some(CommandView::CloseStream { ack, .. }) => seq![FrameView::close_stream(id, ack)],
            None => Seq::empty(),
        }
    }

    /// What is left to do after an event.
    pub open spec fn after(self, event: Event) -> ClosingView {
        match event {
            Event::Resume => if self.state == State::ClosingStreamReceiver {
                ClosingView { state: State::DrainingStreamReceiver, ..self }
            } else {
                self
            },
            Event::Command(id, cmd) => ClosingView {
                frames: self.frames + Self::from_command(
                    id.0,
                    match cmd {
                        Some(c) => Some(c@),
                        None => None,
                    },
                ),
                ..self
            },
            // No more frames from streams, append a term frame and flush them all.
            Event::NoCommand => ClosingView {
                state: State::FlushingPendingFrames,
                frames: self.frames.push(FrameView::go_away(0)),
            },
            Event::SocketReady => if self.frames.len() == 0 {
                ClosingView { state: State::ClosingSocket, ..self }
            } else {
                ClosingView { frames: self.frames.skip(1), ..self }
            },
            _ => self,
        }
    }

    /// Is this what has to be done about an event?
    pub open spec fn calls_for(self, event: Event, step: Step) -> bool {
        match event {
            Event::Resume => match self.state {
                State::ClosingStreamReceiver => step is CloseReceivers,
                State::DrainingStreamReceiver => step is NextCommand,
                State::FlushingPendingFrames => step is AwaitSocket,
                State::ClosingSocket => step is CloseSocket,
            },
            Event::Command(..) => step is NextCommand,
            Event::NoCommand => step is AwaitSocket,
            Event::SocketReady => if self.frames.len() == 0 {
                step is CloseSocket
            } else {
                step matches Step::Send(f) && f@ == self.frames[0]
            },
            Event::SocketPending => step is Wait,
            Event::SocketClosed => step == Step::Done(Ok(())),
            Event::SocketFailed(e) => step == Step::Done(Err(e)),
        }
    }
}

impl Closing {
    /// Close a connection that still has these frames to send.
    pub fn new(pending_frames: VecDeque<Frame<()>>) -> (c: Self)
        ensures
            c@ == (ClosingView {
                state: State::ClosingStreamReceiver,
                frames: pending_frames@.map_values(|f: Frame<()>| f@),
            }),
    {
        Closing { state: State::ClosingStreamReceiver, pending_frames }
    }

    /// The stage that closing the connection has reached.
    pub fn state(&self) -> (s: State)
        ensures
            s == self@.state,
    {
        self.state
    }

    /// Is there no frame left to be sent?
    pub fn is_flushed(&self) -> (r: bool)
        ensures
            r == (self@.frames.len() == 0),
    {
        self.pending_frames.len() == 0
    }

    /// Add a frame to be sent.
    fn push(&mut self, f: Frame<()>)
        ensures
            final(self)@ == (ClosingView { frames: old(self)@.frames.push(f@), ..old(self)@ }),
    {
        self.pending_frames.push_back(f);
        assert(self@.frames =~= old(self)@.frames.push(f@));
    }

    /// Take note of what has happened, and see what is to be done next.
    pub fn poll(&mut self, event: Event) -> (step: Step)
        requires
            old(self)@.expects(event),
        ensures
            final(self)@ == old(self)@.after(event),
            old(self)@.calls_for(event, step),
    {
        match event {
            Event::Resume => match self.state {
                State::ClosingStreamReceiver => {
                    self.state = State::DrainingStreamReceiver;
                    Step::CloseReceivers
                },
                State::DrainingStreamReceiver => Step::NextCommand,
                State::FlushingPendingFrames => Step::AwaitSocket,
                State::ClosingSocket => Step::CloseSocket,
            },
            Event::Command(id, cmd) => {
                match cmd {
                    Some(StreamCommand::SendFrame(frame)) => {
                        self.push(frame.into_generic_frame());
                    },
                    Some(StreamCommand::CloseStream { ack, .. }) => {
                        self.push(Frame::close_stream(id, ack).into_generic_frame());
                    },
                    None => {},
                }
                assert(self@.frames =~= old(self)@.after(event).frames);
                Step::NextCommand
            },
            Event::NoCommand => {
                self.push(Frame::term().into_generic_frame());
                self.state = State::FlushingPendingFrames;
                Step::AwaitSocket
            },
            Event::SocketReady => match self.pending_frames.pop_front() {
                Some(frame) => {
                    assert(self@.frames =~= old(self)@.frames.skip(1));
                    Step::Send(frame)
                },
                None => {
                    self.state = State::ClosingSocket;
                    Step::CloseSocket
                },
            },
            Event::SocketPending => Step::Wait,
            Event::SocketClosed => Step::Done(Ok(())),
            Event::SocketFailed(e) => Step::Done(Err(e)),
        }
    }
}

/// What is left to do once all of these commands have come from streams, and no more.
pub open spec fn drained(
    c: ClosingView,
    commands: Seq<(StreamId, Option<StreamCommand>)>,
) -> ClosingView
    decreases commands.len(),
{
    if commands.len() == 0 {
        c.after(Event::NoCommand)
    } else {
        drained(c.after(Event::Command(commands[0].0, commands[0].1)), commands.skip(1))
    }
}

/// The frames that commands from streams add.
pub open spec fn frames_of(commands: Seq<(StreamId, Option<StreamCommand>)>) -> Seq<FrameView>
    decreases commands.len(),
{
    if commands.len() == 0 {
        Seq::empty()
    } else {
        let (id, cmd) = commands[0];
        ClosingView::from_command(
            id.0,
            match cmd {
                Some(c) => Some(c@),
                None => None,
            },
        ) + frames_of(commands.skip(1))
    }
}

/// The frames that are sent when the socket is ready as often as needed.
pub open spec fn flushed(c: ClosingView) -> Seq<FrameView>
    decreases c.frames.len(),
{
    if c.frames.len() == 0 {
        Seq::empty()
    } else {
        seq![c.frames[0]] + flushed(c.after(Event::SocketReady))
    }
}

/// Nothing gets lost when a connection is closed: what was pending is sent first, then what the streams
/// have asked for, in that order, and a term frame at last.
pub proof fn law_everything_is_sent_before_the_end(
    c: ClosingView,
    commands: Seq<(StreamId, Option<StreamCommand>)>,
)
    ensures
        flushed(drained(c, commands)) == c.frames + frames_of(commands) + seq![
            FrameView::go_away(0),
        ],
        drained(c, commands).state == State::FlushingPendingFrames,
{
    lemma_drained(c, commands);
    lemma_flushed(drained(c, commands));
}

proof fn lemma_drained(c: ClosingView, commands: Seq<(StreamId, Option<StreamCommand>)>)
    ensures
        drained(c, commands) == (ClosingView {
            state: State::FlushingPendingFrames,
            frames: c.frames + frames_of(commands) + seq![FrameView::go_away(0)],
        }),
    decreases commands.len(),
{
    if commands.len() == 0 {
        assert(c.frames.push(FrameView::go_away(0)) =~= c.frames + frames_of(commands) + seq![
            FrameView::go_away(0),
        ]);
    } else {
        let next = c.after(Event::Command(commands[0].0, commands[0].1));
        lemma_drained(next, commands.skip(1));
        assert(next.frames + frames_of(commands.skip(1)) =~= c.frames + frames_of(commands));
    }
}

proof fn lemma_flushed(c: ClosingView)
    ensures
        flushed(c) == c.frames,
    decreases c.frames.len(),
{
    if c.frames.len() > 0 {
        lemma_flushed(c.after(Event::SocketReady));
        assert(seq![c.frames[0]] + c.frames.skip(1) =~= c.frames);
    } else {
        assert(c.frames =~= Seq::empty());
    }
}

/// The stages come one after the other: closing a connection never goes back.
pub proof fn law_closing_never_goes_back(c: ClosingView, event: Event)
    requires
        c.expects(event),
    ensures
        c.state == State::ClosingSocket ==> c.after(event).state == State::ClosingSocket,
        c.state == State::FlushingPendingFrames ==> {
            ||| c.after(event).state == State::FlushingPendingFrames
            ||| c.after(event).state == State::ClosingSocket && c.frames.len() == 0
        },
        c.state == State::DrainingStreamReceiver ==> c.after(event).state
            != State::ClosingStreamReceiver,
{
}

/// What a stream has asked to be sent is sent as it is, and a stream that was closed is finished; a
/// stream that has ended has nothing to say.
pub proof fn law_commands_become_frames(id: u32, cmd: Option<CommandView>)
    ensures
        ({
            let frames = ClosingView::from_command(id, cmd);
            match cmd {
                None => frames.len() == 0,
                Some(CommandView::SendFrame(f)) => frames.len() == 1 && frames[0] == f,
                Some(CommandView::CloseStream { ack, .. }) => {
                    &&& frames.len() == 1
                    &&& frames[0].header.tag == Tag::Data
                    &&& frames[0].header.stream_id == id
                    &&& frames[0].header.length == 0
                    &&& frames[0].header.flags == if ack {
                        FIN | ACK
                    } else {
                        FIN
                    }
                    &&& frames[0].body.len() == 0
                },
            }
        }),
{
    assert(0u16 | FIN == FIN && 0u16 | FIN | ACK == FIN | ACK) by (bit_vector);
}

/// Commands are collected in their order, after what was pending; what is collected is sent only once no
/// more commands can come, and then a frame that ends the session without an error follows.
pub proof fn law_frames_are_collected(c: ClosingView, event: Event)
    requires
        c.expects(event),
    ensures
        event matches Event::Command(id, cmd) ==> {
            &&& c.after(event).state == c.state
            &&& cmd is None ==> c.after(event).frames == c.frames
            &&& cmd is Some ==> {
                &&& c.after(event).frames.len() == c.frames.len() + 1
                &&& c.after(event).frames.drop_last() == c.frames
            }
        },
        event is NoCommand ==> {
            let after = c.after(event);
            &&& after.frames.len() == c.frames.len() + 1
            &&& after.frames.drop_last() == c.frames
            &&& after.frames.last().header.tag == Tag::GoAway
            &&& after.frames.last().header.stream_id == 0
            &&& after.frames.last().header.length == 0
            &&& after.frames.last().header.flags == 0
            &&& after.frames.last().body.len() == 0
            &&& after.state == State::FlushingPendingFrames
        },
        event is Resume || event is SocketPending || event is SocketClosed || event is SocketFailed
            ==> c.after(event).frames == c.frames,
{
    if let Event::Command(id, cmd) = event {
        if cmd is Some {
            assert(c.after(event).frames.drop_last() =~= c.frames);
        } else {
            assert(c.after(event).frames =~= c.frames);
        }
    }
    if event is NoCommand {
        assert(c.after(event).frames.drop_last() =~= c.frames);
    }
}

/// Each step does what the stage is for: a frame is sent just when the socket is ready and one is left,
/// it is the first, and it is not sent again; the socket is closed just when none is left; and closing
/// ends just when the socket is closed or has failed.
pub proof fn law_steps_lead_to_the_end(c: ClosingView, event: Event, step: Step)
    requires
        c.expects(event),
        c.calls_for(event, step),
    ensures
        step is Send <==> event is SocketReady && c.frames.len() > 0,
        step matches Step::Send(f) ==> c.frames == seq![f@] + c.after(event).frames && c.after(
            event,
        ).state == State::FlushingPendingFrames,
        step is CloseSocket <==> c.after(event).state == State::ClosingSocket && (event is Resume
            || event is SocketReady),
        event is SocketReady ==> (step is CloseSocket <==> c.frames.len() == 0),
        step is CloseReceivers <==> event is Resume && c.state == State::ClosingStreamReceiver,
        step is CloseReceivers ==> c.after(event).state == State::DrainingStreamReceiver,
        step is NextCommand <==> {
            ||| event is Command
            ||| event is Resume && c.state == State::DrainingStreamReceiver
        },
        step is AwaitSocket <==> {
            ||| event is NoCommand
            ||| event is Resume && c.state == State::FlushingPendingFrames
        },
        step is Wait <==> event is SocketPending,
        step is Done <==> event is SocketClosed || event is SocketFailed,
        event is SocketClosed ==> (step matches Step::Done(Ok(_))),
        event matches Event::SocketFailed(e) ==> (step matches Step::Done(Err(f)) && f == e),
{
    if c.frames.len() > 0 {
        assert(c.frames =~= seq![c.frames[0]] + c.frames.skip(1));
    }
}

} // verus!
