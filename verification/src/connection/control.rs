//! Controlling a connection.

use crate::error::ConnectionError;
use crate::Poll;
use vstd::prelude::*;

verus! {

/// What has happened since the last step of a request.
#[derive(Debug)]
pub enum Event<R, T> {
    /// Nothing has happened yet.
    Resume,
    /// The channel to the connection can take a command, or is closed, or is full.
    Sender(Poll<Result<(), ()>>),
    /// The command was sent, and this is where the reply will come; or the channel is closed.
    Sent(Result<R, ()>),
    /// The reply has come, or will never come, or has not come yet.
    Reply(R, Poll<Result<T, ()>>),
}

/// What is to be done next about a request.
#[derive(Debug)]
pub enum Step<R, T> {
    /// See if the channel to the connection can take a command.
    PollSender,
    /// Send the command.
    Send,
    /// See if the reply has come.
    PollReply(R),
    /// The request was answered.
    Ready(Result<T, ConnectionError>),
    /// The request has to wait.
    Pending,
}

/// Can this happen while a reply is awaited, or none?
pub open spec fn expects<R, T>(pending: Option<R>, event: Event<R, T>) -> bool {
    event is Resume || pending is None
}

/// The reply that is still awaited after an event.
pub open spec fn pending_after<R, T>(pending: Option<R>, event: Event<R, T>) -> Option<R> {
    match event {
        Event::Reply(rx, Poll::Pending) => Some(rx),
        _ => None,
    }
}

/// What is to be done about an event.
///
/// A request is sent once the channel can take it, and then its reply is awaited. If the channel is
/// closed, or the reply will never come, the connection is closed.
pub open spec fn step_after<R, T>(pending: Option<R>, event: Event<R, T>) -> Step<R, T> {
    match event {
        Event::Resume => match pending {
            Some(rx) => Step::PollReply(rx),
            None => Step::PollSender,
        },
        Event::Sender(Poll::Ready(Ok(()))) => Step::Send,
        Event::Sender(Poll::Ready(Err(()))) => Step::Ready(Err(ConnectionError::Closed)),
        Event::Sender(Poll::Pending) => Step::Pending,
        Event::Sent(Ok(rx)) => Step::PollReply(rx),
        Event::Sent(Err(())) => Step::Ready(Err(ConnectionError::Closed)),
        Event::Reply(_, Poll::Ready(Ok(reply))) => Step::Ready(Ok(reply)),
        Event::Reply(_, Poll::Ready(Err(()))) => Step::Ready(Err(ConnectionError::Closed)),
        Event::Reply(_, Poll::Pending) => Step::Pending,
    }
}

/// Process one step of a request.
fn poll_request<R, T>(pending: &mut Option<R>, event: Event<R, T>) -> (step: Step<R, T>)
    requires
        expects(*old(pending), event),
    ensures
        *final(pending) == pending_after(*old(pending), event),
        step == step_after(*old(pending), event),
{
    match event {
        Event::Resume => match pending.take() {
            None => Step::PollSender,
            Some(rx) => Step::PollReply(rx),
        },
        Event::Sender(Poll::Ready(Ok(()))) => Step::Send,
        Event::Sender(Poll::Ready(Err(()))) => Step::Ready(Err(ConnectionError::Closed)),
        Event::Sender(Poll::Pending) => Step::Pending,
        Event::Sent(Ok(rx)) => Step::PollReply(rx),
        Event::Sent(Err(())) => Step::Ready(Err(ConnectionError::Closed)),
        Event::Reply(_, Poll::Ready(Ok(reply))) => Step::Ready(Ok(reply)),
        Event::Reply(_, Poll::Ready(Err(()))) => Step::Ready(Err(ConnectionError::Closed)),
        Event::Reply(rx, Poll::Pending) => {
            *pending = Some(rx);
            Step::Pending
        },
    }
}

/// The Yamux `Connection` controller.
///
/// While a Yamux connection makes progress via its `next_stream` method,
/// this controller can be used to asynchronously direct the connection,
/// e.g. to open a new stream to the remote or to close the connection.
///
/// The replies of the connection come by values of type `O` and `C`.
#[derive(Debug)]
pub struct Control<O, C> {
    pending_open: Option<O>,
    pending_close: Option<C>,
}

/// What a [`Control`] holds.
pub struct ControlView<O, C> {
    /// Where the reply to an ongoing open stream operation will come.
    pub open: Option<O>,
    /// Where the reply to an ongoing close operation will come.
    pub close: Option<C>,
}

impl<O, C> View for Control<O, C> {
    type V = ControlView<O, C>;

    closed spec fn view(&self) -> ControlView<O, C> {
        ControlView { open: self.pending_open, close: self.pending_close }
    }
}

impl<O, C> Clone for Control<O, C> {
    /// Another controller of the same connection, with no operation going on.
    fn clone(&self) -> (c: Self)
        ensures
            c@ == (ControlView::<O, C> { open: None, close: None }),
    {
        Control { pending_open: None, pending_close: None }
    }
}

impl<O, C> Control<O, C> {
    /// A controller with no operation going on.
    pub fn new() -> (c: Self)
        ensures
            c@ == (ControlView::<O, C> { open: None, close: None }),
    {
        Control { pending_open: None, pending_close: None }
    }

    /// Open a new stream to the remote.
    pub fn poll_open_stream<T>(&mut self, event: Event<O, Result<T, ConnectionError>>) -> (step:
        Step<O, Result<T, ConnectionError>>)
        requires
            expects(old(self)@.open, event),
        ensures
            final(self)@ == (ControlView {
                open: pending_after(old(self)@.open, event),
                ..old(self)@
            }),
            step == step_after(old(self)@.open, event),
    {
        poll_request(&mut self.pending_open, event)
    }

    /// Abort an ongoing open stream operation started by `poll_open_stream`.
    pub fn abort_open_stream(&mut self)
        ensures
            final(self)@ == (ControlView { open: None, ..old(self)@ }),
    {
        self.pending_open = None
    }

    /// Close the connection.
    pub fn poll_close(&mut self, event: Event<C, ()>) -> (step: Step<C, ()>)
        requires
            expects(old(self)@.close, event),
        ensures
            final(self)@ == (ControlView {
                close: pending_after(old(self)@.close, event),
                ..old(self)@
            }),
            step == step_after(old(self)@.close, event),
    {
        poll_request(&mut self.pending_close, event)
    }
}

/// No command is sent twice: as long as a reply is awaited, resuming a request leads to that reply.
pub proof fn law_request_is_sent_once<R, T>(rx: R, event: Event<R, T>)
    requires
        event == Event::<R, T>::Reply(rx, Poll::Pending),
    ensures
        step_after(None, event) is Pending,
        step_after::<R, T>(pending_after(None, event), Event::Resume) == Step::<R, T>::PollReply(rx),
{
}

/// A request goes through its stages in order: it is sent just when the channel can take it, its reply is
/// awaited just when it was sent, and it is answered with the reply, or as closed just when the channel or
/// the reply is gone. It never waits without anything to wait for.
pub proof fn law_requests_are_answered<R, T>(pending: Option<R>, event: Event<R, T>)
    requires
        expects(pending, event),
    ensures
        ({
            let step = step_after(pending, event);
            let next = pending_after(pending, event);
            &&& step is PollSender <==> event is Resume && pending is None
            &&& step is Send <==> (event matches Event::Sender(Poll::Ready(Ok(_))))
            &&& event matches Event::Sent(Ok(rx)) ==> step == Step::<R, T>::PollReply(rx)
            &&& event is Resume ==> (pending matches Some(rx) ==> step == Step::<R, T>::PollReply(rx))
            &&& step matches Step::PollReply(rx) ==> {
                ||| event is Resume && pending == Some(rx)
                ||| event matches Event::Sent(Ok(tx)) && tx == rx
            }
            &&& event matches Event::Reply(_, Poll::Ready(Ok(x))) ==> step == Step::<R, T>::Ready(Ok(x))
            &&& step matches Step::Ready(Err(e)) ==> e == ConnectionError::Closed
            &&& (step matches Step::Ready(Err(_))) <==> {
                ||| event matches Event::Sender(Poll::Ready(Err(_)))
                ||| event matches Event::Sent(Err(_))
                ||| event matches Event::Reply(_, Poll::Ready(Err(_)))
            }
            &&& step is Pending <==> {
                ||| event matches Event::Sender(Poll::Pending)
                ||| event matches Event::Reply(_, Poll::Pending)
            }
            &&& event matches Event::Reply(rx, Poll::Pending) ==> next == Some(rx)
            &&& next is Some ==> (event matches Event::Reply(_, Poll::Pending))
        }),
{
}

} // verus!
