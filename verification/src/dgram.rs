//! Connection emulation over connectionless sockets: a single shared
//! datagram socket serves every connection, a zero-length datagram from
//! a peer opens a connection pinned to that peer, and another closes it.
//! Raw-IP datagrams carry a full IPv4 header that is validated and
//! counted as transport framing; malformed headers are silently
//! discarded and the accept loop retries.

use vstd::prelude::*;

use crate::bytes::{spec_u16_from_be, u16_from_be};
use crate::os::SockAddrV4;
use crate::transport::{Connection, IoError, IoErrorKind, Listener, SetReadTimeout};

verus! {

/// The fixed size of an IPv4 header without options; the raw transport's
/// framing overhead on every inbound datagram.
pub const IPV4_HEADER_LEN: usize = 20;

/// Largest datagram the accept loop reads at once.
const ACCEPT_BUFFER: usize = 1050;

/// One unit per accept-loop iteration, so the loop provably terminates
/// while being blocking in practice; waiting on a silent socket blocks
/// inside `recvfrom` and spends nothing.
const ACCEPT_BUDGET: u64 = 0xffff_ffff_ffff_ffff;

/// A well-formed IPv4 header at the start of `b`: version 4, no options
/// (so the header is exactly `IPV4_HEADER_LEN` bytes), and a total
/// length that matches the datagram.
pub open spec fn spec_ipv4_header_valid(b: Seq<u8>) -> bool {
    &&& b.len() >= 20
    &&& b.len() <= u16::MAX as int
    &&& b[0] >> 4 == 4
    &&& b[0] & 0xf == 5
    &&& spec_u16_from_be(b[2], b[3]) as int == b.len()
}

/// Checks the IPv4 header that a raw socket delivers in front of every
/// datagram.
pub fn ipv4_header_valid(b: &Vec<u8>) -> (r: bool)
    ensures
        r == spec_ipv4_header_valid(b@),
{
    if b.len() < 20 {
        return false;
    }
    if b.len() > u16::MAX as usize {
        return false;
    }
    let v = b[0];
    if v >> 4 != 4 {
        return false;
    }
    if v & 0xf != 5 {
        return false;
    }
    let total = u16_from_be(b[2], b[3]);
    total as usize == b.len()
}

/// What the accept loop does with one inbound datagram.
#[derive(Clone, Copy, Debug, PartialEq, Eq, Structural)]
pub enum DatagramClass {
    /// Zero application payload: a connection-establishment request from
    /// the sending peer.
    Connect,
    /// Carries application payload; not an accept-loop matter.
    Payload,
    /// Shorter than the transport framing, or a broken IPv4 header:
    /// silently discarded.
    Malformed,
}

/// Classifies one inbound datagram: the first `header_size` bytes are
/// transport framing (validated as an IPv4 header when nonzero), and a
/// datagram whose payload beyond the framing is empty is exactly a
/// connection request.
pub open spec fn spec_classify_datagram(b: Seq<u8>, header_size: int) -> DatagramClass {
    if b.len() < header_size {
        DatagramClass::Malformed
    } else if header_size > 0 && !spec_ipv4_header_valid(b) {
        DatagramClass::Malformed
    } else if b.len() == header_size {
        DatagramClass::Connect
    } else {
        DatagramClass::Payload
    }
}

pub fn classify_datagram(b: &Vec<u8>, header_size: usize) -> (r: DatagramClass)
    ensures
        r == spec_classify_datagram(b@, header_size as int),
{
    if b.len() < header_size {
        DatagramClass::Malformed
    } else if header_size > 0 && !ipv4_header_valid(b) {
        DatagramClass::Malformed
    } else if b.len() == header_size {
        DatagramClass::Connect
    } else {
        DatagramClass::Payload
    }
}

/// Connection emulation: a datagram opens a connection exactly when its
/// framing is intact and it carries zero application payload, and such a
/// datagram is never classified as payload for an existing connection.
pub proof fn lemma_empty_datagram_connects(b: Seq<u8>, header_size: int)
    requires
        header_size >= 0,
    ensures
        spec_classify_datagram(b, header_size) is Connect <==> (b.len() == header_size && (
        header_size > 0 ==> spec_ipv4_header_valid(b))),
        spec_classify_datagram(b, header_size) is Connect ==> !(spec_classify_datagram(
            b,
            header_size,
        ) is Payload),
{
}

/// The socket capability the datagram transports need: receive with the
/// sender's address, send to a fixed peer, and a settable receive
/// timeout. One socket is shared by a listener and all its connections.
pub trait PacketSocket: Clone {
    /// Receives one datagram of at most `max` bytes, with its sender.
    fn recvfrom(&self, max: usize) -> Result<(Vec<u8>, SockAddrV4), IoError>;

    /// Sends one datagram to `destination`; a zero-length `buf` sends
    /// the empty connect/disconnect marker.
    fn sendto(&self, buf: &Vec<u8>, destination: &SockAddrV4) -> Result<usize, IoError>;

    fn set_timeout(&self, milliseconds: Option<u64>) -> Result<(), IoError>;
}

/// Builds the transport's connection type around the shared socket and a
/// newly seen peer.
pub trait ConnectionFactory<S: PacketSocket, Conn: Connection> {
    fn new_connection(&self, socket: S, destination: SockAddrV4) -> Conn;
}

/// The accept side of a connectionless transport: waits for a
/// zero-payload datagram from a peer and pins a new connection to that
/// peer. Payload datagrams and malformed headers are discarded and the
/// loop retries.
pub struct DgramListener<S: PacketSocket, Conn: Connection, F: ConnectionFactory<S, Conn>> {
    socket: S,
    connection_factory: F,
    phantom_connection: core::marker::PhantomData<Conn>,
}

impl<S: PacketSocket, Conn: Connection, F: ConnectionFactory<S, Conn>> DgramListener<S, Conn, F> {
    pub fn new(socket: S, connection_factory: F) -> (r: DgramListener<S, Conn, F>) {
        DgramListener { socket, connection_factory, phantom_connection: core::marker::PhantomData }
    }
}

impl<S: PacketSocket, Conn: Connection, F: ConnectionFactory<S, Conn>> Listener<Conn>
    for DgramListener<S, Conn, F> {
    fn accept(&self) -> Result<Conn, IoError> {
        let mut budget: u64 = ACCEPT_BUDGET;
        loop
            decreases budget,
        {
            if budget == 0 {
                return Err(IoError::of_kind(IoErrorKind::Other));
            }
            budget = budget - 1;
            let (data, address) = match self.socket.recvfrom(ACCEPT_BUFFER) {
                Ok(p) => p,
                Err(e) => {
                    return Err(e);
                },
            };
            match classify_datagram(&data, Conn::header_size()) {
                DatagramClass::Connect => {
                    return Ok(self.connection_factory.new_connection(self.socket.clone(), address));
                },
                DatagramClass::Payload => {},
                DatagramClass::Malformed => {},
            }
        }
    }
}

/// A UDP connection: the shared socket with the peer address pinned.
/// Stream sockets carry no per-datagram framing, so `header_size` is 0.
#[derive(Clone)]
pub struct UdpConnection<S: PacketSocket> {
    pub socket: S,
    /// The peer this connection is pinned to.
    pub destination: SockAddrV4,
}

impl<S: PacketSocket> UdpConnection<S> {
    pub fn new(socket: S, destination: SockAddrV4) -> (r: UdpConnection<S>)
        ensures
            r.destination == destination,
    {
        UdpConnection { socket, destination }
    }

    /// Best-effort disconnect notice: the zero-length goodbye datagram.
    pub fn close(&self) {
        let empty: Vec<u8> = Vec::new();
        let outcome = self.socket.sendto(&empty, &self.destination);
        match outcome {
            Ok(_) => {},
            Err(_) => {},
        }
    }
}

impl<S: PacketSocket> SetReadTimeout for UdpConnection<S> {
    fn set_read_timeout(&mut self, milliseconds: Option<u64>) -> Result<(), IoError> {
        self.socket.set_timeout(milliseconds)
    }
}

impl<S: PacketSocket> Connection for UdpConnection<S> {
    open spec fn spec_header_size() -> usize {
        0
    }

    fn header_size() -> (r: usize) {
        0
    }

    fn read(&mut self, max: usize) -> Result<Vec<u8>, IoError> {
        // Reads from any source address; the socket is shared.
        match self.socket.recvfrom(max) {
            Ok((data, _)) => Ok(data),
            Err(e) => Err(e),
        }
    }

    fn write(&mut self, buf: &Vec<u8>) -> Result<usize, IoError> {
        self.socket.sendto(buf, &self.destination)
    }

    fn flush(&mut self) -> Result<(), IoError> {
        Ok(())
    }
}

/// Pins the shared socket to a newly seen UDP peer.
pub struct UdpConnectionFactory;

impl<S: PacketSocket> ConnectionFactory<S, UdpConnection<S>> for UdpConnectionFactory {
    fn new_connection(&self, socket: S, destination: SockAddrV4) -> UdpConnection<S> {
        UdpConnection::new(socket, destination)
    }
}

/// A raw-IP connection: as UDP, but every inbound datagram starts with
/// the IPv4 header the kernel delivers, so that many leading bytes are
/// transport framing.
#[derive(Clone)]
pub struct RawConnection<S: PacketSocket> {
    pub socket: S,
    /// The peer this connection is pinned to.
    pub destination: SockAddrV4,
}

impl<S: PacketSocket> RawConnection<S> {
    pub fn new(socket: S, destination: SockAddrV4) -> (r: RawConnection<S>)
        ensures
            r.destination == destination,
    {
        RawConnection { socket, destination }
    }

    /// Best-effort disconnect notice: the zero-length goodbye datagram.
    pub fn close(&self) {
        let empty: Vec<u8> = Vec::new();
        let outcome = self.socket.sendto(&empty, &self.destination);
        match outcome {
            Ok(_) => {},
            Err(_) => {},
        }
    }
}

impl<S: PacketSocket> SetReadTimeout for RawConnection<S> {
    fn set_read_timeout(&mut self, milliseconds: Option<u64>) -> Result<(), IoError> {
        self.socket.set_timeout(milliseconds)
    }
}

impl<S: PacketSocket> Connection for RawConnection<S> {
    open spec fn spec_header_size() -> usize {
        IPV4_HEADER_LEN
    }

    fn header_size() -> (r: usize) {
        IPV4_HEADER_LEN
    }

    fn read(&mut self, max: usize) -> Result<Vec<u8>, IoError> {
        // Reads from any source address; the socket is shared.
        match self.socket.recvfrom(max) {
            Ok((data, _)) => Ok(data),
            Err(e) => Err(e),
        }
    }

    fn write(&mut self, buf: &Vec<u8>) -> Result<usize, IoError> {
        self.socket.sendto(buf, &self.destination)
    }

    fn flush(&mut self) -> Result<(), IoError> {
        Ok(())
    }
}

/// Pins the shared socket to a newly seen raw-IP peer.
pub struct RawConnectionFactory;

impl<S: PacketSocket> ConnectionFactory<S, RawConnection<S>> for RawConnectionFactory {
    fn new_connection(&self, socket: S, destination: SockAddrV4) -> RawConnection<S> {
        RawConnection::new(socket, destination)
    }
}

} // verus!
