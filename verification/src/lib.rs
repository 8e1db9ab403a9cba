//! A verified core of the yamux stream multiplexer, a protocol that runs many flow-controlled byte
//! streams over one reliable, ordered connection such as TCP/IP.
//!
//! The crate performs no I/O and spawns no tasks. Its types hold the state of a connection, of its
//! streams and of the wire codecs; each method takes what the outside world has to say (bytes that
//! were read, a command that arrived, a channel that is full) and returns what is to be done about
//! it (a frame to send, a task to wake, an error to report).

use vstd::prelude::*;

pub mod buffer;
pub mod byteorder;
pub mod chunks;
pub mod connection;
pub mod error;
pub mod frame;
pub mod harness;
pub mod int_map;
pub mod notify;
pub mod pause;
pub mod raw;
pub mod stream;
pub mod task;
pub mod text;

verus! {

/// The credit every stream starts with in both directions, in every yamux session.
pub const DEFAULT_CREDIT: u32 = 262144;

/// The default limit on the body of a single data frame.
pub const DEFAULT_SPLIT_SEND_SIZE: usize = 16384;

/// The result of an operation that may have to wait.
#[derive(Debug, PartialEq, Eq)]
pub enum Poll<T> {
    /// The operation is done.
    Ready(T),
    /// The operation cannot finish yet.
    Pending,
}

/// A value of one of two types.
#[derive(Debug, PartialEq, Eq)]
pub enum Either<A, B> {
    /// A value of the first type.
    Left(A),
    /// A value of the second type.
    Right(B),
}

/// Specifies when window update frames are sent.
#[derive(Clone, Copy, Debug, PartialEq, Eq, Structural)]
pub enum WindowUpdateMode {
    /// Send window updates as data arrives.
    ///
    /// This ensures that the sender can resume sending more data as soon as possible
    /// but a slow reader on the receiving side may be overwhelmed, i.e. it accumulates
    /// data in its buffer which may reach its limit (see `set_max_buffer_size`).
    /// In this mode, window updates merely prevent head of line blocking but do not
    /// effectively exercise back-pressure on senders.
    OnReceive,
    /// Send window updates only when data is read on the receiving end.
    ///
    /// This ensures that senders do not overwhelm receivers and keeps buffer usage
    /// low. However, depending on the protocol, there is a risk of deadlock, namely
    /// if both endpoints want to send data larger than the receivers window and they
    /// do not read before finishing their writes. Use this mode only if you are sure
    /// that this will never happen, i.e. if
    ///
    /// - Endpoints *A* and *B* never write at the same time, or
    /// - Endpoints *A* and *B* write at most *n* frames concurrently such that the sum
    ///   of the frame lengths is less or equal to the available credit of *A* and *B*
    ///   respectively.
    OnRead,
}

/// Yamux configuration.
///
/// The default configuration values are as follows:
///
/// - receive window = 256 KiB
/// - max. buffer size (per stream) = 1 MiB
/// - max. number of streams = 8192
/// - window update mode = on receive
/// - read after close = true
/// - split send size = 16 KiB
#[derive(Debug, Clone, Copy)]
pub struct Config {
    pub(crate) receive_window: u32,
    pub(crate) max_buffer_size: usize,
    pub(crate) max_num_streams: usize,
    pub(crate) window_update_mode: WindowUpdateMode,
    pub(crate) read_after_close: bool,
    pub(crate) split_send_size: usize,
}

/// What a [`Config`] says.
pub struct ConfigView {
    pub receive_window: u32,
    pub max_buffer_size: usize,
    pub max_num_streams: usize,
    pub window_update_mode: WindowUpdateMode,
    pub read_after_close: bool,
    pub split_send_size: usize,
}

impl View for Config {
    type V = ConfigView;

    closed spec fn view(&self) -> ConfigView {
        ConfigView {
            receive_window: self.receive_window,
            max_buffer_size: self.max_buffer_size,
            max_num_streams: self.max_num_streams,
            window_update_mode: self.window_update_mode,
            read_after_close: self.read_after_close,
            split_send_size: self.split_send_size,
        }
    }
}

impl ConfigView {
    /// The receive window never is smaller than the credit every remote assumes.
    pub open spec fn wf(self) -> bool {
        self.receive_window >= DEFAULT_CREDIT
    }
}

impl Default for Config {
    fn default() -> (c: Self)
        ensures
            c@.wf(),
            c@ == (ConfigView {
                receive_window: DEFAULT_CREDIT,
                max_buffer_size: 1048576,
                max_num_streams: 8192,
                window_update_mode: WindowUpdateMode::OnReceive,
                read_after_close: true,
                split_send_size: DEFAULT_SPLIT_SEND_SIZE,
            }),
    {
        Config {
            receive_window: DEFAULT_CREDIT,
            max_buffer_size: 1024 * 1024,
            max_num_streams: 8192,
            window_update_mode: WindowUpdateMode::OnReceive,
            read_after_close: true,
            split_send_size: DEFAULT_SPLIT_SEND_SIZE,
        }
    }
}

impl Config {
    /// The max. buffer size per stream, which is also the largest body of a frame that is read.
    pub fn max_buffer_size(&self) -> (n: usize)
        ensures
            n == self@.max_buffer_size,
    {
        self.max_buffer_size
    }

    /// Set the receive window (must be >= 256 KiB).
    pub fn set_receive_window(&mut self, n: u32) -> (r: Result<(), ()>)
        ensures
            r is Ok <==> n >= DEFAULT_CREDIT,
            r is Ok ==> final(self)@ == (ConfigView { receive_window: n, ..old(self)@ }),
            r is Err ==> final(self)@ == old(self)@,
            old(self)@.wf() ==> final(self)@.wf(),
    {
        if n >= DEFAULT_CREDIT {
            self.receive_window = n;
            return Ok(());
        }
        Err(())
    }

    /// Set the max. buffer size per stream.
    pub fn set_max_buffer_size(&mut self, n: usize)
        ensures
            final(self)@ == (ConfigView { max_buffer_size: n, ..old(self)@ }),
    {
        self.max_buffer_size = n
    }

    /// Set the max. number of streams.
    pub fn set_max_num_streams(&mut self, n: usize)
        ensures
            final(self)@ == (ConfigView { max_num_streams: n, ..old(self)@ }),
    {
        self.max_num_streams = n
    }

    /// Set the window update mode to use.
    pub fn set_window_update_mode(&mut self, m: WindowUpdateMode)
        ensures
            final(self)@ == (ConfigView { window_update_mode: m, ..old(self)@ }),
    {
        self.window_update_mode = m
    }

    /// Allow or disallow streams to read from buffered data after
    /// the connection has been closed.
    pub fn set_read_after_close(&mut self, b: bool)
        ensures
            final(self)@ == (ConfigView { read_after_close: b, ..old(self)@ }),
    {
        self.read_after_close = b
    }

    /// Set the max. payload size used when sending data frames. Payloads larger
    /// than the configured max. will be split.
    pub fn set_split_send_size(&mut self, n: usize)
        ensures
            final(self)@ == (ConfigView { split_send_size: n, ..old(self)@ }),
    {
        self.split_send_size = n
    }
}

} // verus!
