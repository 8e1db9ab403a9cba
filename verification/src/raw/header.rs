//! Headers of messages, whatever their kind.

use crate::frame::header::{
    Data, Flags, GoAway, HeaderView, Len, Ping, StreamId, Tag, Version, WindowUpdate, ACK, FIN, RST,
    SYN,
};
use std::marker::PhantomData;
use vstd::prelude::*;

verus! {

/// The kinds of messages.
#[derive(Copy, Clone, Debug, PartialEq, Eq, Structural)]
pub enum Type {
    /// Data is transmitted.
    Data,
    /// The window of a stream is updated.
    WindowUpdate,
    /// The connection is probed.
    Ping,
    /// The session ends.
    GoAway,
}

impl Type {
    /// The tag of messages of this kind.
    pub open spec fn tag(self) -> Tag {
        match self {
            Type::Data => Tag::Data,
            Type::WindowUpdate => Tag::WindowUpdate,
            Type::Ping => Tag::Ping,
            Type::GoAway => Tag::GoAway,
        }
    }

    /// The octet that stands for this kind.
    pub fn to_octet(self) -> (octet: u8)
        ensures
            octet == self.tag().octet(),
    {
        match self {
            Type::Data => 0,
            Type::WindowUpdate => 1,
            Type::Ping => 2,
            Type::GoAway => 3,
        }
    }

    /// The kind that an octet stands for, if it stands for one.
    pub fn from_octet(octet: u8) -> (t: Option<Type>)
        ensures
            match (t, Tag::of_octet(octet)) {
                (Some(x), Some(y)) => x.tag() == y,
                (None, None) => true,
                _ => false,
            },
    {
        match octet {
            0 => Some(Type::Data),
            1 => Some(Type::WindowUpdate),
            2 => Some(Type::Ping),
            3 => Some(Type::GoAway),
            _ => None,
        }
    }
}

/// Termination code for use with GoAway frames.
pub const CODE_TERM: u32 = 0;

/// Protocol error code for use with GoAway frames.
pub const ECODE_PROTO: u32 = 1;

/// Internal error code for use with GoAway frames.
pub const ECODE_INTERNAL: u32 = 2;

/// The header of a message of any kind.
#[derive(Copy, Clone, Debug, PartialEq, Eq, Structural)]
pub struct RawHeader {
    pub version: Version,
    pub typ: Type,
    pub flags: Flags,
    pub stream_id: StreamId,
    pub length: Len,
}

impl View for RawHeader {
    type V = HeaderView;

    open spec fn view(&self) -> HeaderView {
        HeaderView {
            version: self.version.0,
            tag: self.typ.tag(),
            flags: self.flags.0,
            stream_id: self.stream_id.0,
            length: self.length.0,
        }
    }
}

/// The header of a message of a known kind.
#[derive(Debug)]
pub struct Header<T> {
    raw_header: RawHeader,
    header_type: PhantomData<T>,
}

impl<T> View for Header<T> {
    type V = HeaderView;

    closed spec fn view(&self) -> HeaderView {
        self.raw_header@
    }
}

impl<T> Header<T> {
    /// Assume that this is the header of a message of that kind.
    pub fn assert_kind(raw: RawHeader) -> (h: Self)
        ensures
            h@ == raw@,
    {
        Header { raw_header: raw, header_type: PhantomData }
    }

    /// The stream the message belongs to.
    pub fn id(&self) -> (id: StreamId)
        ensures
            id.0 == self@.stream_id,
    {
        self.raw_header.stream_id
    }

    /// The flags that are set.
    pub fn flags(&self) -> (f: Flags)
        ensures
            f.0 == self@.flags,
    {
        self.raw_header.flags
    }

    /// Forget of what kind the message is.
    pub fn into_raw(self) -> (h: RawHeader)
        ensures
            h@ == self@,
    {
        self.raw_header
    }

    /// A header without flags.
    fn plain(typ: Type, stream_id: StreamId, length: u32) -> (h: Self)
        ensures
            h@ == HeaderView::plain(typ.tag(), stream_id.0, length),
    {
        Header {
            raw_header: RawHeader {
                version: Version(0),
                typ,
                flags: Flags(0),
                stream_id,
                length: Len(length),
            },
            header_type: PhantomData,
        }
    }

    /// Set some more flags.
    fn set(&mut self, flags: u16)
        ensures
            final(self)@ == old(self)@.with(flags),
    {
        self.raw_header.flags = Flags(self.raw_header.flags.0 | flags)
    }
}

impl Header<Data> {
    /// The header of a data frame.
    pub fn data(id: StreamId, len: u32) -> (h: Self)
        ensures
            h@ == HeaderView::plain(Tag::Data, id.0, len),
    {
        Header::plain(Type::Data, id, len)
    }

    /// Set the SYN flag.
    pub fn syn(&mut self)
        ensures
            final(self)@ == old(self)@.with(SYN),
    {
        self.set(SYN)
    }

    /// Set the ACK flag.
    pub fn ack(&mut self)
        ensures
            final(self)@ == old(self)@.with(ACK),
    {
        self.set(ACK)
    }

    /// Set the FIN flag.
    pub fn fin(&mut self)
        ensures
            final(self)@ == old(self)@.with(FIN),
    {
        self.set(FIN)
    }

    /// Set the RST flag.
    pub fn rst(&mut self)
        ensures
            final(self)@ == old(self)@.with(RST),
    {
        self.set(RST)
    }

    /// The length of the body.
    pub fn len(&self) -> (n: u32)
        ensures
            n == self@.length,
    {
        self.raw_header.length.0
    }
}

impl Header<WindowUpdate> {
    /// The header of a window update.
    pub fn window_update(id: StreamId, credit: u32) -> (h: Self)
        ensures
            h@ == HeaderView::plain(Tag::WindowUpdate, id.0, credit),
    {
        Header::plain(Type::WindowUpdate, id, credit)
    }

    /// Set the SYN flag.
    pub fn syn(&mut self)
        ensures
            final(self)@ == old(self)@.with(SYN),
    {
        self.set(SYN)
    }

    /// Set the ACK flag.
    pub fn ack(&mut self)
        ensures
            final(self)@ == old(self)@.with(ACK),
    {
        self.set(ACK)
    }

    /// Set the FIN flag.
    pub fn fin(&mut self)
        ensures
            final(self)@ == old(self)@.with(FIN),
    {
        self.set(FIN)
    }

    /// Set the RST flag.
    pub fn rst(&mut self)
        ensures
            final(self)@ == old(self)@.with(RST),
    {
        self.set(RST)
    }

    /// The credit that is granted.
    pub fn credit(&self) -> (n: u32)
        ensures
            n == self@.length,
    {
        self.raw_header.length.0
    }
}

impl Header<Ping> {
    /// The header of a ping.
    pub fn ping(nonce: u32) -> (h: Self)
        ensures
            h@ == HeaderView::plain(Tag::Ping, 0, nonce),
    {
        Header::plain(Type::Ping, StreamId::new(0), nonce)
    }

    /// Set the SYN flag.
    pub fn syn(&mut self)
        ensures
            final(self)@ == old(self)@.with(SYN),
    {
        self.set(SYN)
    }

    /// Set the ACK flag.
    pub fn ack(&mut self)
        ensures
            final(self)@ == old(self)@.with(ACK),
    {
        self.set(ACK)
    }

    /// The nonce of the ping.
    pub fn nonce(&self) -> (n: u32)
        ensures
            n == self@.length,
    {
        self.raw_header.length.0
    }
}

impl Header<GoAway> {
    /// The header of a message that ends the session.
    pub fn go_away(error_code: u32) -> (h: Self)
        ensures
            h@ == HeaderView::plain(Tag::GoAway, 0, error_code),
    {
        Header::plain(Type::GoAway, StreamId::new(0), error_code)
    }

    /// Why the session ends.
    pub fn error_code(&self) -> (n: u32)
        ensures
            n == self@.length,
    {
        self.raw_header.length.0
    }
}

} // verus!
