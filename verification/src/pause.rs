//! Streams that can be paused.

use std::task::Waker;
use vstd::prelude::*;

verus! {

/// Wraps a stream and adds the ability to pause it.
///
/// While the stream is paused, it cannot be polled, and the waker will be saved (only the most recent
/// one). When unpaused, the waker is to be notified and the next poll can proceed as normal.
#[derive(Debug)]
pub struct Pausable<S> {
    paused: bool,
    stream: S,
    waker: Option<Waker>,
}

/// What a [`Pausable`] stream holds.
pub struct PausableView<S> {
    pub paused: bool,
    pub stream: S,
    pub waker: Option<Waker>,
}

impl<S> View for Pausable<S> {
    type V = PausableView<S>;

    closed spec fn view(&self) -> PausableView<S> {
        PausableView { paused: self.paused, stream: self.stream, waker: self.waker }
    }
}

impl<S> PausableView<S> {
    /// The same stream, paused.
    pub open spec fn paused(self) -> PausableView<S> {
        PausableView { paused: true, ..self }
    }

    /// The same stream, not paused, and the task that is to be woken up.
    pub open spec fn unpaused(self) -> (Option<Waker>, PausableView<S>) {
        (self.waker, PausableView { paused: false, waker: None, ..self })
    }

    /// Can the stream be polled?
    pub open spec fn proceeds(self) -> bool {
        !self.paused
    }

    /// The same stream, with a task that waits for it.
    pub open spec fn parked(self, waker: Waker) -> PausableView<S> {
        PausableView { waker: Some(waker), ..self }
    }
}

impl<S> Pausable<S> {
    /// A stream that is not paused.
    pub fn new(stream: S) -> (p: Self)
        ensures
            p@ == (PausableView { paused: false, stream, waker: None }),
    {
        Pausable { paused: false, stream, waker: None }
    }

    /// Is the stream paused?
    pub fn is_paused(&mut self) -> (r: bool)
        ensures
            r == old(self)@.paused,
            final(self)@ == old(self)@,
    {
        self.paused
    }

    /// Pause the stream.
    pub fn pause(&mut self)
        ensures
            final(self)@ == old(self)@.paused(),
    {
        self.paused = true
    }

    /// Unpause the stream, and tell which task is to be woken up.
    pub fn unpause(&mut self) -> (w: Option<Waker>)
        ensures
            (w, final(self)@) == old(self)@.unpaused(),
    {
        self.paused = false;
        self.waker.take()
    }

    /// The stream itself, paused or not.
    pub fn stream(&mut self) -> (s: &mut S)
        ensures
            *s == old(self)@.stream,
            final(self)@ == (PausableView { stream: *final(s), ..old(self)@ }),
    {
        &mut self.stream
    }

    /// The stream, if it can be polled. Otherwise the task has to wait until it is woken up.
    pub fn poll_next(&mut self, waker: Waker) -> (r: Option<&mut S>)
        ensures
            r is Some <==> old(self)@.proceeds(),
            match r {
                Some(s) => {
                    &&& *s == old(self)@.stream
                    &&& final(self)@ == (PausableView { stream: *final(s), ..old(self)@ })
                },
                None => final(self)@ == old(self)@.parked(waker),
            },
    {
        if !self.paused {
            return Some(&mut self.stream);
        }
        self.waker = Some(waker);
        None
    }
}

/// A stream cannot be polled while it is paused, and can be as soon as it is not. Whoever tried last in
/// the meantime is woken up then, once; and the stream itself is not touched.
pub proof fn law_paused_streams_wait<S>(p: PausableView<S>, waker: Waker)
    ensures
        !p.paused().proceeds(),
        !p.paused().parked(waker).proceeds(),
        p.unpaused().1.proceeds(),
        p.parked(waker).unpaused().0 == Some(waker),
        p.paused().parked(waker).unpaused().0 == Some(waker),
        p.unpaused().1.unpaused().0 is None,
        p.paused().unpaused().0 == p.unpaused().0,
        p.paused().stream == p.stream,
        p.parked(waker).stream == p.stream,
        p.unpaused().1.stream == p.stream,
        p.parked(waker).proceeds() == p.proceeds(),
{
}

} // verus!
