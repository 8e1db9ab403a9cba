//! What is shown to people.

use crate::connection::stream::Stream;
use crate::connection::{Connection, ConnectionView, Id, Mode};
use crate::error::{ConnectionError, IoErrorKind};
use crate::frame::header::{Header, HeaderDecodeError, HeaderView, StreamId};
use crate::frame::io::FrameDecodeError;
use crate::stream;
use vstd::prelude::*;
use vstd::string::*;

verus! {

/// The digit of a number less than sixteen.
pub open spec fn digit(n: int) -> char {
    if n < 10 {
        ('0' as int + n) as char
    } else {
        ('a' as int + n - 10) as char
    }
}

/// A number in decimal notation.
pub open spec fn decimal(n: nat) -> Seq<char>
    decreases n,
{
    if n < 10 {
        seq![digit(n as int)]
    } else {
        decimal(n / 10).push(digit(n as int % 10))
    }
}

/// The last digits of a number in hexadecimal notation.
pub open spec fn hexadecimal(n: nat, digits: nat) -> Seq<char>
    decreases digits,
{
    if digits == 0 {
        Seq::empty()
    } else {
        hexadecimal(n / 16, (digits - 1) as nat).push(digit(n as int % 16))
    }
}

/// The digit of a number less than sixteen.
fn digit_text(n: u32) -> (s: &'static str)
    requires
        n < 16,
    ensures
        s@ == seq![digit(n as int)],
{
    proof {
        reveal_strlit("0");
        reveal_strlit("1");
        reveal_strlit("2");
        reveal_strlit("3");
        reveal_strlit("4");
        reveal_strlit("5");
        reveal_strlit("6");
        reveal_strlit("7");
        reveal_strlit("8");
        reveal_strlit("9");
        reveal_strlit("a");
        reveal_strlit("b");
        reveal_strlit("c");
        reveal_strlit("d");
        reveal_strlit("e");
        reveal_strlit("f");
    }
    let s = match n {
        0 => "0",
        1 => "1",
        2 => "2",
        3 => "3",
        4 => "4",
        5 => "5",
        6 => "6",
        7 => "7",
        8 => "8",
        9 => "9",
        10 => "a",
        11 => "b",
        12 => "c",
        13 => "d",
        14 => "e",
        _ => "f",
    };
    assert(s@ =~= seq![digit(n as int)]);
    s
}

/// A number in decimal notation.
pub fn decimal_text(n: u64) -> (s: String)
    ensures
        s@ == decimal(n as nat),
    decreases n,
{
    if n < 10 {
        let mut s = String::new();
        s.append(digit_text(n as u32));
        assert(s@ =~= decimal(n as nat));
        s
    } else {
        let mut s = decimal_text(n / 10);
        s.append(digit_text((n % 10) as u32));
        assert(s@ =~= decimal(n as nat));
        s
    }
}

/// The last digits of a number in hexadecimal notation.
pub fn hexadecimal_text(n: u32, digits: u32) -> (s: String)
    ensures
        s@ == hexadecimal(n as nat, digits as nat),
    decreases digits,
{
    if digits == 0 {
        return String::new();
    }
    let mut s = hexadecimal_text(n / 16, digits - 1);
    s.append(digit_text(n % 16));
    assert(s@ =~= hexadecimal(n as nat, digits as nat));
    s
}

impl IoErrorKind {
    /// What the error means.
    pub open spec fn text(self) -> Seq<char> {
        match self {
            IoErrorKind::NotFound => "entity not found"@,
            IoErrorKind::PermissionDenied => "permission denied"@,
            IoErrorKind::ConnectionRefused => "connection refused"@,
            IoErrorKind::ConnectionReset => "connection reset"@,
            IoErrorKind::HostUnreachable => "host unreachable"@,
            IoErrorKind::NetworkUnreachable => "network unreachable"@,
            IoErrorKind::ConnectionAborted => "connection aborted"@,
            IoErrorKind::NotConnected => "not connected"@,
            IoErrorKind::AddrInUse => "address in use"@,
            IoErrorKind::AddrNotAvailable => "address not available"@,
            IoErrorKind::NetworkDown => "network down"@,
            IoErrorKind::BrokenPipe => "broken pipe"@,
            IoErrorKind::AlreadyExists => "entity already exists"@,
            IoErrorKind::WouldBlock => "operation would block"@,
            IoErrorKind::NotADirectory => "not a directory"@,
            IoErrorKind::IsADirectory => "is a directory"@,
            IoErrorKind::DirectoryNotEmpty => "directory not empty"@,
            IoErrorKind::ReadOnlyFilesystem => "read-only filesystem or storage medium"@,
            IoErrorKind::StaleNetworkFileHandle => "stale network file handle"@,
            IoErrorKind::InvalidInput => "invalid input parameter"@,
            IoErrorKind::InvalidData => "invalid data"@,
            IoErrorKind::TimedOut => "timed out"@,
            IoErrorKind::WriteZero => "write zero"@,
            IoErrorKind::StorageFull => "no storage space"@,
            IoErrorKind::NotSeekable => "seek on unseekable file"@,
            IoErrorKind::QuotaExceeded => "quota exceeded"@,
            IoErrorKind::FileTooLarge => "file too large"@,
            IoErrorKind::ResourceBusy => "resource busy"@,
            IoErrorKind::ExecutableFileBusy => "executable file busy"@,
            IoErrorKind::Deadlock => "deadlock"@,
            IoErrorKind::CrossesDevices => "cross-device link or rename"@,
            IoErrorKind::TooManyLinks => "too many links"@,
            IoErrorKind::InvalidFilename => "invalid filename"@,
            IoErrorKind::ArgumentListTooLong => "argument list too long"@,
            IoErrorKind::Interrupted => "operation interrupted"@,
            IoErrorKind::Unsupported => "unsupported"@,
            IoErrorKind::UnexpectedEof => "unexpected end of file"@,
            IoErrorKind::OutOfMemory => "out of memory"@,
            IoErrorKind::Other => "other error"@,
        }
    }

    /// What the error means.
    pub fn message(&self) -> (s: &'static str)
        ensures
            s@ == self.text(),
    {
        match self {
            IoErrorKind::NotFound => "entity not found",
            IoErrorKind::PermissionDenied => "permission denied",
            IoErrorKind::ConnectionRefused => "connection refused",
            IoErrorKind::ConnectionReset => "connection reset",
            IoErrorKind::HostUnreachable => "host unreachable",
            IoErrorKind::NetworkUnreachable => "network unreachable",
            IoErrorKind::ConnectionAborted => "connection aborted",
            IoErrorKind::NotConnected => "not connected",
            IoErrorKind::AddrInUse => "address in use",
            IoErrorKind::AddrNotAvailable => "address not available",
            IoErrorKind::NetworkDown => "network down",
            IoErrorKind::BrokenPipe => "broken pipe",
            IoErrorKind::AlreadyExists => "entity already exists",
            IoErrorKind::WouldBlock => "operation would block",
            IoErrorKind::NotADirectory => "not a directory",
            IoErrorKind::IsADirectory => "is a directory",
            IoErrorKind::DirectoryNotEmpty => "directory not empty",
            IoErrorKind::ReadOnlyFilesystem => "read-only filesystem or storage medium",
            IoErrorKind::StaleNetworkFileHandle => "stale network file handle",
            IoErrorKind::InvalidInput => "invalid input parameter",
            IoErrorKind::InvalidData => "invalid data",
            IoErrorKind::TimedOut => "timed out",
            IoErrorKind::WriteZero => "write zero",
            IoErrorKind::StorageFull => "no storage space",
            IoErrorKind::NotSeekable => "seek on unseekable file",
            IoErrorKind::QuotaExceeded => "quota exceeded",
            IoErrorKind::FileTooLarge => "file too large",
            IoErrorKind::ResourceBusy => "resource busy",
            IoErrorKind::ExecutableFileBusy => "executable file busy",
            IoErrorKind::Deadlock => "deadlock",
            IoErrorKind::CrossesDevices => "cross-device link or rename",
            IoErrorKind::TooManyLinks => "too many links",
            IoErrorKind::InvalidFilename => "invalid filename",
            IoErrorKind::ArgumentListTooLong => "argument list too long",
            IoErrorKind::Interrupted => "operation interrupted",
            IoErrorKind::Unsupported => "unsupported",
            IoErrorKind::UnexpectedEof => "unexpected end of file",
            IoErrorKind::OutOfMemory => "out of memory",
            IoErrorKind::Other => "other error",
        }
    }
}

impl HeaderDecodeError {
    /// What the error means.
    pub open spec fn text(self) -> Seq<char> {
        match self {
            HeaderDecodeError::Version(v) => "unknown version: "@ + decimal(v as nat),
            HeaderDecodeError::Type(t) => "unknown frame type: "@ + decimal(t as nat),
        }
    }

    /// What the error means.
    pub fn message(&self) -> (s: String)
        ensures
            s@ == self.text(),
    {
        match self {
            HeaderDecodeError::Version(v) => {
                let mut s = String::from_str("unknown version: ");
                s.append(decimal_text(*v as u64).as_str());
                s
            },
            HeaderDecodeError::Type(t) => {
                let mut s = String::from_str("unknown frame type: ");
                s.append(decimal_text(*t as u64).as_str());
                s
            },
        }
    }
}

impl FrameDecodeError {
    /// What the error means.
    pub open spec fn text(self) -> Seq<char> {
        match self {
            FrameDecodeError::Io(k) => "i/o error: "@ + k.text(),
            FrameDecodeError::Header(e) => "decode error: "@ + e.text(),
            FrameDecodeError::FrameTooLarge(n) => "frame body is too large ("@ + decimal(n as nat)
                + ")"@,
        }
    }

    /// What the error means.
    pub fn message(&self) -> (s: String)
        ensures
            s@ == self.text(),
    {
        match self {
            FrameDecodeError::Io(k) => {
                let mut s = String::from_str("i/o error: ");
                s.append(k.message());
                s
            },
            FrameDecodeError::Header(e) => {
                let mut s = String::from_str("decode error: ");
                s.append(e.message().as_str());
                s
            },
            FrameDecodeError::FrameTooLarge(n) => {
                let mut s = String::from_str("frame body is too large (");
                s.append(decimal_text(*n as u64).as_str());
                s.append(")");
                s
            },
        }
    }
}

impl ConnectionError {
    /// What the error means.
    pub open spec fn text(self) -> Seq<char> {
        match self {
            ConnectionError::Io(k) => "i/o error: "@ + k.text(),
            ConnectionError::Decode(e) => "decode error: "@ + e.text(),
            ConnectionError::NoMoreStreamIds => "number of stream ids has been exhausted"@,
            ConnectionError::Closed => "connection is closed"@,
            ConnectionError::TooManyStreams => "maximum number of streams reached"@,
        }
    }

    /// What the error means.
    pub fn message(&self) -> (s: String)
        ensures
            s@ == self.text(),
    {
        match self {
            ConnectionError::Io(k) => {
                let mut s = String::from_str("i/o error: ");
                s.append(k.message());
                s
            },
            ConnectionError::Decode(e) => {
                let mut s = String::from_str("decode error: ");
                s.append(e.message().as_str());
                s
            },
            ConnectionError::NoMoreStreamIds => String::from_str(
                "number of stream ids has been exhausted",
            ),
            ConnectionError::Closed => String::from_str("connection is closed"),
            ConnectionError::TooManyStreams => String::from_str(
                "maximum number of streams reached",
            ),
        }
    }
}

impl StreamId {
    /// The identifier in decimal notation.
    pub fn text(&self) -> (s: String)
        ensures
            s@ == decimal(self.0 as nat),
    {
        decimal_text(self.0 as u64)
    }
}

impl stream::Id {
    /// The identifier in decimal notation, with spaces in front of it if it has less than three digits.
    pub fn text(&self) -> (s: String)
        ensures
            s@ == (if self@ < 10 {
                "  "@
            } else if self@ < 100 {
                " "@
            } else {
                ""@
            }) + decimal(self@ as nat),
    {
        let n: u32 = self.as_u32();
        let mut s = String::from_str(
            if n < 10 {
                "  "
            } else if n < 100 {
                " "
            } else {
                ""
            },
        );
        s.append(decimal_text(n as u64).as_str());
        s
    }
}

impl Id {
    /// The identifier as eight hexadecimal digits.
    pub fn text(&self) -> (s: String)
        ensures
            s@ == hexadecimal(self.0 as nat, 8),
    {
        hexadecimal_text(self.0, 8)
    }
}

impl HeaderView {
    /// The kind of the message, its stream, its length and its flags.
    pub open spec fn text(self) -> Seq<char> {
        "(Header "@ + decimal(self.tag.octet() as nat) + " "@ + decimal(self.stream_id as nat) + " (len "@ + decimal(
            self.length as nat,
        ) + ") (flags "@ + decimal(self.flags as nat) + "))"@
    }
}

impl<T> Header<T> {
    /// The kind of the message, its stream, its length and its flags.
    pub fn text(&self) -> (s: String)
        ensures
            s@ == self@.text(),
    {
        let mut s = String::from_str("(Header ");
        s.append(decimal_text(self.tag().to_octet() as u64).as_str());
        s.append(" ");
        s.append(self.stream_id().text().as_str());
        s.append(" (len ");
        s.append(decimal_text(self.len().val() as u64).as_str());
        s.append(") (flags ");
        s.append(decimal_text(self.flags().val() as u64).as_str());
        s.append("))");
        s
    }
}

impl Stream {
    /// The identifiers of the connection and of the stream.
    pub fn text(&self) -> (s: String)
        ensures
            s@ == "(Stream "@ + hexadecimal(self@.conn.0 as nat, 8) + "/"@ + decimal(
                self@.id as nat,
            ) + ")"@,
    {
        let mut s = String::from_str("(Stream ");
        s.append(self.conn().text().as_str());
        s.append("/");
        s.append(self.id().text().as_str());
        s.append(")");
        s
    }
}

impl Mode {
    /// How the connection is used.
    pub open spec fn name(self) -> Seq<char> {
        match self {
            Mode::Client => "Client"@,
            Mode::Server => "Server"@,
        }
    }

    /// How the connection is used.
    pub fn text(&self) -> (s: &'static str)
        ensures
            s@ == self.name(),
    {
        match self {
            Mode::Client => "Client",
            Mode::Server => "Server",
        }
    }
}

impl<C> ConnectionView<C> {
    /// The identifier of the connection, how it is used and how many streams it has.
    pub open spec fn text(self) -> Seq<char> {
        "(Connection "@ + hexadecimal(self.id.0 as nat, 8) + " "@ + self.mode.name() + " (streams "@
            + decimal(self.streams.len()) + "))"@
    }
}

impl<C> Connection<C> {
    /// The identifier of the connection, how it is used and how many streams it has.
    pub fn text(&self) -> (s: String)
        ensures
            s@ == self@.text(),
    {
        let mut s = String::from_str("(Connection ");
        s.append(self.id().text().as_str());
        s.append(" ");
        s.append(self.mode().text());
        s.append(" (streams ");
        s.append(decimal_text(self.num_streams() as u64).as_str());
        s.append("))");
        s
    }
}

} // verus!
