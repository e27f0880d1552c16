//! The transport capability contract: every backend exposes a connection
//! that is readable, writable, cloneable and timeout-settable, plus the
//! listener/client roles that produce connections, and a plain model of
//! the operating-system I/O failures the engine has to tell apart.

use vstd::prelude::*;

verus! {

/// Declares which end pushes payload bytes during the data phase; the
/// other end consumes and measures.
#[derive(Clone, Copy, Debug, PartialEq, Eq, Structural)]
pub enum TransportMode {
    Send,
    Receive,
}

/// The failure classes the engine's logic distinguishes. Everything else
/// is carried as `Other`, with the raw error code kept for reporting.
#[derive(Clone, Copy, Debug, PartialEq, Eq, Structural)]
pub enum IoErrorKind {
    /// A read exceeded the configured receive timeout.
    WouldBlock,
    /// The peer reset the connection; the sender loop treats this as a stop.
    ConnectionReset,
    /// Outbound buffer exhaustion; the sender loop retries the same write.
    NoBufferSpace,
    /// The byte source ended while a frame was still incomplete.
    UnexpectedEof,
    Other,
}

/// An operating-system I/O failure, reduced to what the library's logic
/// reads: its class and the raw error code.
#[derive(Clone, Copy, Debug, PartialEq, Eq, Structural)]
pub struct IoError {
    pub kind: IoErrorKind,
    /// The raw OS error code, or 0 where none applies.
    pub os_code: i64,
}

impl IoError {
    pub fn of_kind(kind: IoErrorKind) -> (r: IoError)
        ensures
            r == (IoError { kind, os_code: 0int as i64 }),
    {
        IoError { kind, os_code: 0 }
    }
}

/// Arms or clears the receive timeout of a channel. With `Some(ms)`,
/// later reads that wait longer fail with `WouldBlock`; `None` clears it.
pub trait SetReadTimeout {
    fn set_read_timeout(&mut self, milliseconds: Option<u64>) -> Result<(), IoError>;
}

/// A handle to an established point-to-point channel. Cloning shares the
/// same underlying channel, so reader and writer halves can coexist.
pub trait Connection: Clone + SetReadTimeout {
    /// The transport's fixed framing overhead, as a specification-level
    /// constant callers can rely on.
    spec fn spec_header_size() -> usize;

    /// How many leading bytes of every inbound frame are transport framing
    /// rather than application payload (0 for stream sockets, the fixed
    /// IPv4 header size for raw sockets).
    fn header_size() -> (r: usize)
        ensures
            r == Self::spec_header_size(),
    ;

    /// Reads at most `max` bytes; an empty result means end-of-stream.
    fn read(&mut self, max: usize) -> Result<Vec<u8>, IoError>;

    /// Writes from `buf`, returning how many bytes were accepted.
    fn write(&mut self, buf: &Vec<u8>) -> Result<usize, IoError>;

    fn flush(&mut self) -> Result<(), IoError>;
}

/// Server side of a backend: accepts new connections.
pub trait Listener<Conn: Connection> {
    fn accept(&self) -> Result<Conn, IoError>;
}

/// A bound backend that can start listening.
pub trait Server<L: Listener<Conn>, Conn: Connection> {
    fn listen(&self) -> Result<L, IoError>;
}

/// Client side of a backend: produces one connection.
pub trait Client<Conn: Connection> {
    fn connect(&self) -> Result<Conn, IoError>;
}

} // verus!
