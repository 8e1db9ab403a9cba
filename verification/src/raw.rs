//! Messages as they are encoded and decoded, whatever their kind.

pub mod codec;
pub mod header;

use crate::buffer::bytes_of;
use crate::frame::header::{Data, GoAway, StreamId, WindowUpdate};
use crate::frame::FrameView;
use crate::raw::header::{Header, RawHeader, Type};
use bytes::Bytes;
use vstd::prelude::*;

verus! {

/// A message frame of any kind.
#[derive(Debug, PartialEq, Eq)]
pub struct RawFrame {
    /// The header of the frame.
    pub header: RawHeader,
    /// The body of the frame.
    pub body: Bytes,
}

impl View for RawFrame {
    type V = FrameView;

    open spec fn view(&self) -> FrameView {
        FrameView { header: self.header@, body: bytes_of(self.body) }
    }
}

impl RawFrame {
    /// The kind of the message.
    pub fn dyn_type(&self) -> (t: Type)
        ensures
            t.tag() == self@.header.tag,
    {
        self.header.typ
    }
}

/// A message frame of a known kind.
#[derive(Debug)]
pub struct Frame<T> {
    header: Header<T>,
    body: Bytes,
}

impl<T> View for Frame<T> {
    type V = FrameView;

    closed spec fn view(&self) -> FrameView {
        FrameView { header: self.header@, body: bytes_of(self.body) }
    }
}

impl<T> Frame<T> {
    /// Assume that this is a frame of that kind.
    pub fn assert_kind(raw: RawFrame) -> (f: Self)
        ensures
            f@ == raw@,
    {
        Frame { header: Header::assert_kind(raw.header), body: raw.body }
    }

    /// A frame that has this header and no body.
    pub fn new(header: Header<T>) -> (f: Frame<T>)
        ensures
            f@ == FrameView::bare(header@),
    {
        Frame { header, body: Bytes::new() }
    }

    /// The header of the frame.
    pub fn header(&self) -> (h: &Header<T>)
        ensures
            h@ == self@.header,
    {
        &self.header
    }

    /// The header of the frame, to be changed.
    pub fn header_mut(&mut self) -> (h: &mut Header<T>)
        ensures
            h@ == old(self)@.header,
            final(self)@ == (FrameView { header: final(h)@, ..old(self)@ }),
    {
        &mut self.header
    }

    /// Forget of what kind the message is.
    pub fn into_raw(self) -> (f: RawFrame)
        ensures
            f@ == self@,
    {
        RawFrame { header: self.header.into_raw(), body: self.body }
    }
}

impl Frame<Data> {
    /// A data frame with the given body.
    pub fn data(id: StreamId, b: Bytes) -> (f: Self)
        requires
            bytes_of(b).len() <= u32::MAX,
        ensures
            f@ == FrameView::data(id.0, bytes_of(b)),
            f@.wf(),
    {
        Frame { header: Header::data(id, b.len() as u32), body: b }
    }

    /// The body of the frame.
    pub fn body(&self) -> (b: &Bytes)
        ensures
            bytes_of(*b) == self@.body,
    {
        &self.body
    }
}

impl Frame<WindowUpdate> {
    /// A frame that grants the remote more credit.
    pub fn window_update(id: StreamId, n: u32) -> (f: Self)
        ensures
            f@ == FrameView::window_update(id.0, n),
    {
        Frame { header: Header::window_update(id, n), body: Bytes::new() }
    }
}

impl Frame<GoAway> {
    /// A frame that ends the session.
    pub fn go_away(error: u32) -> (f: Self)
        ensures
            f@ == FrameView::go_away(error),
    {
        Frame { header: Header::go_away(error), body: Bytes::new() }
    }
}

} // verus!
