//! Commands from streams to their connection.

use crate::error::IoErrorKind;
use crate::frame::header::{Data, StreamId, WindowUpdate};
use crate::frame::{Frame, FrameView};
use crate::{Either, Poll};
use vstd::prelude::*;

verus! {

/// `Stream` to `Connection` commands.
#[derive(Debug)]
pub enum StreamCommand {
    /// A new frame should be sent to the remote.
    SendFrame(Frame<Either<Data, WindowUpdate>>),
    /// Close a stream.
    CloseStream {
        /// The stream to close.
        id: StreamId,
        /// Does the stream still have to be acknowledged?
        ack: bool,
    },
}

/// What a [`StreamCommand`] says.
pub enum CommandView {
    SendFrame(FrameView),
    CloseStream { id: u32, ack: bool },
}

impl View for StreamCommand {
    type V = CommandView;

    open spec fn view(&self) -> CommandView {
        match self {
            StreamCommand::SendFrame(f) => CommandView::SendFrame(f@),
            StreamCommand::CloseStream { id, ack } => CommandView::CloseStream {
                id: id.0,
                ack: *ack,
            },
        }
    }
}

/// The sending half of a bounded channel from a stream to its connection.
///
/// The commands in it are to be put into the channel, in their order.
#[derive(Debug)]
pub struct Outbox {
    closed: bool,
    room: usize,
    commands: Vec<StreamCommand>,
}

/// What an [`Outbox`] holds.
pub struct OutboxView {
    pub closed: bool,
    pub room: nat,
    pub commands: Seq<CommandView>,
}

impl View for Outbox {
    type V = OutboxView;

    closed spec fn view(&self) -> OutboxView {
        OutboxView {
            closed: self.closed,
            room: self.room as nat,
            commands: self.commands@.map_values(|c: StreamCommand| c@),
        }
    }
}

impl OutboxView {
    /// Can a command be sent right now?
    pub open spec fn ready(self) -> bool {
        !self.closed && self.room > 0
    }

    /// The same channel after another command.
    pub open spec fn sent(self, c: CommandView) -> OutboxView {
        OutboxView { room: (self.room - 1) as nat, commands: self.commands.push(c), ..self }
    }
}

impl Outbox {
    /// A channel that takes that many more commands, or one that is closed.
    pub fn new(closed: bool, room: usize) -> (o: Self)
        ensures
            o@ == (OutboxView { closed, room: room as nat, commands: Seq::empty() }),
    {
        let o = Outbox { closed, room, commands: Vec::new() };
        assert(o@.commands =~= Seq::empty());
        o
    }

    /// Has the connection closed the channel?
    pub fn is_closed(&self) -> (r: bool)
        ensures
            r == self@.closed,
    {
        self.closed
    }

    /// Can a command be sent right now?
    ///
    /// If the connection has closed the channel, no command can be sent any more.
    pub fn poll_ready(&self) -> (r: Poll<Result<(), IoErrorKind>>)
        ensures
            r == if self@.closed {
                Poll::Ready(Err(IoErrorKind::WriteZero))
            } else if self@.room == 0 {
                Poll::Pending
            } else {
                Poll::Ready(Ok(()))
            },
    {
        if self.closed {
            Poll::Ready(Err(IoErrorKind::WriteZero))
        } else if self.room == 0 {
            Poll::Pending
        } else {
            Poll::Ready(Ok(()))
        }
    }

    /// Send a command.
    pub fn start_send(&mut self, c: StreamCommand)
        requires
            old(self)@.ready(),
        ensures
            final(self)@ == old(self)@.sent(c@),
    {
        self.room -= 1;
        self.commands.push(c);
        assert(self@.commands =~= old(self)@.commands.push(c@));
    }

    /// The commands that were sent, in their order.
    pub fn into_commands(self) -> (v: Vec<StreamCommand>)
        ensures
            v@.map_values(|c: StreamCommand| c@) == self@.commands,
    {
        self.commands
    }
}

} // verus!
