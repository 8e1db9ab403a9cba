//! What can go wrong on a connection.

use crate::frame::io::FrameDecodeError;
use vstd::prelude::*;

verus! {

/// The kinds of I/O errors.
#[derive(Copy, Clone, Debug, PartialEq, Eq, Structural)]
pub enum IoErrorKind {
    /// An entity was not found.
    NotFound,
    /// The operation lacked the necessary privileges.
    PermissionDenied,
    /// The connection was refused by the remote.
    ConnectionRefused,
    /// The connection was reset by the remote.
    ConnectionReset,
    /// The remote host is not reachable.
    HostUnreachable,
    /// The network of the remote host is not reachable.
    NetworkUnreachable,
    /// The connection was aborted by the remote.
    ConnectionAborted,
    /// There is no connection yet.
    NotConnected,
    /// The address is already in use.
    AddrInUse,
    /// The address does not exist or is not local.
    AddrNotAvailable,
    /// The network is down.
    NetworkDown,
    /// The other end of the pipe was closed.
    BrokenPipe,
    /// An entity already exists.
    AlreadyExists,
    /// The operation would have to wait.
    WouldBlock,
    /// Something is not a directory.
    NotADirectory,
    /// Something is a directory.
    IsADirectory,
    /// A directory is not empty.
    DirectoryNotEmpty,
    /// The filesystem is read-only.
    ReadOnlyFilesystem,
    /// A network file handle is stale.
    StaleNetworkFileHandle,
    /// A parameter was not correct.
    InvalidInput,
    /// Data was not valid for the operation.
    InvalidData,
    /// The operation took too long.
    TimedOut,
    /// Nothing more can be written.
    WriteZero,
    /// The storage is full.
    StorageFull,
    /// A file cannot be sought.
    NotSeekable,
    /// A quota was exceeded.
    QuotaExceeded,
    /// A file is too large.
    FileTooLarge,
    /// A resource is busy.
    ResourceBusy,
    /// An executable file is busy.
    ExecutableFileBusy,
    /// A deadlock was avoided.
    Deadlock,
    /// Something would cross devices.
    CrossesDevices,
    /// There are too many links.
    TooManyLinks,
    /// A filename is invalid.
    InvalidFilename,
    /// A list of arguments is too long.
    ArgumentListTooLong,
    /// The operation was interrupted.
    Interrupted,
    /// The operation is not supported.
    Unsupported,
    /// The input ended in the middle of a frame.
    UnexpectedEof,
    /// There was not enough memory.
    OutOfMemory,
    /// Any other kind.
    Other,
}

/// Possible errors while decoding a message.
#[derive(Copy, Clone, Debug, PartialEq, Eq, Structural)]
pub enum DecodeError {
    /// An I/O error.
    Io(IoErrorKind),
    /// An unknown frame type.
    Type(u8),
    /// A data frame body length is larger than the configured maximum.
    FrameTooLarge(usize),
}

/// The various error cases a connection may encounter.
#[derive(Copy, Clone, Debug, PartialEq, Eq, Structural)]
#[non_exhaustive]
pub enum ConnectionError {
    /// An underlying I/O error occured.
    Io(IoErrorKind),
    /// Decoding a Yamux message frame failed.
    Decode(FrameDecodeError),
    /// The whole range of stream IDs has been used up.
    NoMoreStreamIds,
    /// An operation fails because the connection is closed.
    Closed,
    /// Too many streams are open, so no further ones can be opened at this time.
    TooManyStreams,
}

impl ConnectionError {
    /// The kind of I/O error that is behind this error, if one is.
    pub open spec fn kind(self) -> Option<IoErrorKind> {
        match self {
            ConnectionError::Io(k) => Some(k),
            ConnectionError::Decode(FrameDecodeError::Io(k)) => Some(k),
            _ => None,
        }
    }

    /// The kind of I/O error that is behind this error, if one is.
    pub fn io_kind(&self) -> (k: Option<IoErrorKind>)
        ensures
            k == self.kind(),
    {
        match self {
            ConnectionError::Io(k) => Some(*k),
            ConnectionError::Decode(FrameDecodeError::Io(k)) => Some(*k),
            _ => None,
        }
    }
}

impl From<FrameDecodeError> for ConnectionError {
    fn from(e: FrameDecodeError) -> (r: Self) {
        ConnectionError::Decode(e)
    }
}

impl vstd::std_specs::convert::FromSpecImpl<FrameDecodeError> for ConnectionError {
    open spec fn obeys_from_spec() -> bool {
        true
    }

    open spec fn from_spec(e: FrameDecodeError) -> Self {
        ConnectionError::Decode(e)
    }
}

} // verus!
