//! Cleaning up after an error.

use crate::error::ConnectionError;
use vstd::prelude::*;

verus! {

#[derive(Copy, Clone, Debug, PartialEq, Eq, Structural)]
enum State {
    ClosingStreamReceiver,
    DrainingStreamReceiver,
}

/// Cleans up resources in case of an error.
#[derive(Debug)]
pub struct Cleanup {
    state: State,
    error: Option<ConnectionError>,
}

/// What [`Cleanup`] holds.
pub struct CleanupView {
    /// Are the channels from streams closed?
    pub closed: bool,
    /// The error that has occured, until it is told.
    pub error: Option<ConnectionError>,
}

impl View for Cleanup {
    type V = CleanupView;

    closed spec fn view(&self) -> CleanupView {
        CleanupView { closed: self.state == State::DrainingStreamReceiver, error: self.error }
    }
}

/// What has happened since the last step.
#[derive(Copy, Clone, Debug, PartialEq, Eq, Structural)]
pub enum Event {
    /// Nothing but that the last step was taken.
    Resume,
    /// A command has come from a stream, and was dropped.
    Command,
    /// No command has come from a stream; there may be streams left or not.
    NoCommand {
        /// Are there no streams left?
        empty: bool,
    },
}

/// What is to be done next.
#[derive(Copy, Clone, Debug, PartialEq, Eq, Structural)]
pub enum Step {
    /// Close all channels from streams.
    CloseReceivers,
    /// See if a command has come from a stream.
    NextCommand,
    /// Wait for a command from a stream.
    Wait,
    /// Everything is cleaned up: this was the error.
    Done(ConnectionError),
}

impl CleanupView {
    /// What is left to do after an event.
    pub open spec fn after(self, event: Event) -> CleanupView {
        CleanupView {
            closed: true,
            error: if event == (Event::NoCommand { empty: true }) {
                None
            } else {
                self.error
            },
        }
    }

    /// What is to be done about an event.
    pub open spec fn step(self, event: Event) -> Step {
        match event {
            Event::Resume => if self.closed {
                Step::NextCommand
            } else {
                Step::CloseReceivers
            },
            Event::Command => Step::NextCommand,
            Event::NoCommand { empty } => if empty {
                Step::Done(self.error->Some_0)
            } else {
                Step::Wait
            },
        }
    }
}

impl Cleanup {
    /// Clean up after an error.
    pub fn new(error: ConnectionError) -> (c: Self)
        ensures
            c@ == (CleanupView { closed: false, error: Some(error) }),
    {
        Cleanup { state: State::ClosingStreamReceiver, error: Some(error) }
    }

    /// Take note of what has happened, and see what is to be done next.
    ///
    /// This is not to be called after completion.
    pub fn poll(&mut self, event: Event) -> (step: Step)
        requires
            old(self)@.error is Some,
            event != Event::Resume ==> old(self)@.closed,
        ensures
            final(self)@.closed,
            final(self)@ == old(self)@.after(event),
            step == old(self)@.step(event),
    {
        match event {
            Event::Resume => match self.state {
                State::ClosingStreamReceiver => {
                    self.state = State::DrainingStreamReceiver;
                    Step::CloseReceivers
                },
                State::DrainingStreamReceiver => Step::NextCommand,
            },
            Event::Command => Step::NextCommand,
            Event::NoCommand { empty } => {
                if empty {
                    if let Some(e) = self.error.take() {
                        return Step::Done(e);
                    }
                }
                Step::Wait
            },
        }
    }
}

/// The channels are closed first, and once; all commands are drained, as long as there are streams; and
/// then the error that has occured is told, once.
pub proof fn law_error_is_told_last(c: CleanupView, event: Event)
    requires
        c.error is Some,
        event != Event::Resume ==> c.closed,
    ensures
        c.step(event) == Step::CloseReceivers <==> !c.closed,
        c.after(event).closed,
        c.step(event) matches Step::Done(e) ==> c.error == Some(e),
        c.step(event) is Done <==> (event matches Event::NoCommand { empty } && empty),
        c.step(event) == Step::Wait <==> (event matches Event::NoCommand { empty } && !empty),
        event is Command ==> c.step(event) == Step::NextCommand,
        c.after(event).error is None <==> c.step(event) is Done,
        !(c.step(event) is Done) ==> c.after(event).error == c.error,
{
}

} // verus!
