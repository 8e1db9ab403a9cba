//! Waiting for commands from any stream.

use crate::Poll;
use std::task::Waker;
use vstd::prelude::*;

verus! {

/// Waits for commands from a set of streams, which may be empty.
#[derive(Debug)]
pub struct CommandReceivers {
    waker: Option<Waker>,
}

impl View for CommandReceivers {
    type V = Option<Waker>;

    closed spec fn view(&self) -> Option<Waker> {
        self.waker
    }
}

/// What comes of polling all streams, and which task waits afterwards for a stream to come.
pub open spec fn poll_outcome<T>(
    parked: Option<Waker>,
    next: Poll<Option<T>>,
    waker: Waker,
) -> (Poll<T>, Option<Waker>) {
    match next {
        Poll::Ready(Some(cmd)) => (Poll::Ready(cmd), parked),
        Poll::Ready(None) => (Poll::Pending, Some(waker)),
        Poll::Pending => (Poll::Pending, parked),
    }
}

/// Which task is to be woken up when there is a new stream, and which one waits afterwards.
pub open spec fn push_outcome(parked: Option<Waker>) -> (Option<Waker>, Option<Waker>) {
    (parked, None)
}

impl CommandReceivers {
    /// Nobody waits.
    pub fn new() -> (r: Self)
        ensures
            r@ is None,
    {
        CommandReceivers { waker: None }
    }

    /// A new stream can send commands: the task that waits, if any, is to be woken up.
    pub fn push(&mut self) -> (w: Option<Waker>)
        ensures
            (w, final(self)@) == push_outcome(old(self)@),
    {
        self.waker.take()
    }

    /// What came of polling all streams for the next command.
    ///
    /// This will never say that there are no more commands, but park the current task instead.
    pub fn poll_next<T>(&mut self, next: Poll<Option<T>>, waker: Waker) -> (r: Poll<T>)
        ensures
            (r, final(self)@) == poll_outcome(old(self)@, next, waker),
    {
        match next {
            Poll::Ready(Some(cmd)) => Poll::Ready(cmd),
            Poll::Ready(None) => {
                self.waker = Some(waker);
                Poll::Pending
            },
            Poll::Pending => Poll::Pending,
        }
    }
}

/// Each command that comes is handed out, and there never is an end: without any streams, the task waits
/// until there is one. With streams, they know whom to wake up.
pub proof fn law_receivers_never_end<T>(parked: Option<Waker>, next: Poll<Option<T>>, waker: Waker)
    ensures
        next matches Poll::Ready(Some(cmd)) ==> poll_outcome(parked, next, waker).0 == Poll::Ready(
            cmd,
        ),
        poll_outcome(parked, next, waker).0 matches Poll::Ready(x) ==> (next matches Poll::Ready(
            Some(cmd),
        ) && cmd == x),
        next matches Poll::Ready(None) ==> poll_outcome(parked, next, waker).1 == Some(waker),
        !(next matches Poll::Ready(None)) ==> poll_outcome(parked, next, waker).1 == parked,
        next matches Poll::Ready(None) ==> push_outcome(poll_outcome(parked, next, waker).1).0 == Some(
            waker,
        ),
        push_outcome(push_outcome(parked).1).0 is None,
{
}

} // verus!
