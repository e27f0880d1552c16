//! A network throughput benchmark: a controller pair establishes a
//! measurement session over a chosen transport, streams data for a
//! configured duration, and reports live statistics.
//!
//! The library is organised around three subsystems: the transport
//! capability contract ([`transport`]) with connection emulation for
//! connectionless sockets ([`dgram`]); the framed control-message
//! protocol ([`message`]) over the byte primitives of [`bytes`]; and the
//! measurement engine ([`test`]) with its report cadence. Session
//! orchestration ([`program`]) drives the handshake and the data loops,
//! [`test_format`] renders events, [`cli`] resolves the command line,
//! and [`os`] models the socket-layer boundary as plain values.

pub mod bytes;
pub mod cli;
pub mod clock;
pub mod dgram;
pub mod message;
pub mod os;
pub mod program;
pub mod test_format;
pub mod transport;
