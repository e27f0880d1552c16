//! The boundary to the operating-system socket layer, reduced to plain
//! values: the host representation of an IPv4 endpoint, its conversion
//! to and from the standard 16-byte wire socket-address structure, the
//! receive-timeout structure, and the sign convention of OS call
//! results.

use vstd::prelude::*;

use crate::bytes::{spec_u16_swap, u16_swap};

verus! {

/// The address family tag of an IPv4 socket address.
pub const AF_INET_FAMILY: u16 = 2;

/// An IPv4 address as its four dotted-quad octets.
#[derive(Clone, Copy, Debug, PartialEq, Eq, Structural)]
pub struct Ipv4Address {
    pub o0: u8,
    pub o1: u8,
    pub o2: u8,
    pub o3: u8,
}

/// An IPv4 endpoint in host representation.
#[derive(Clone, Copy, Debug, PartialEq, Eq, Structural)]
pub struct SockAddrV4 {
    pub ip: Ipv4Address,
    pub port: u16,
}

/// The big-endian interpretation of the four address octets: the
/// numeric value whose in-memory little-endian layout puts the first
/// octet at the lowest address, as the wire structure requires.
pub open spec fn spec_addr_net(ip: Ipv4Address) -> u32 {
    ((ip.o0 as u32) << 24) | ((ip.o1 as u32) << 16) | ((ip.o2 as u32) << 8) | (ip.o3 as u32)
}

/// The standard 16-byte IPv4 socket address structure, field by field:
/// family in host order, port and address in network order, and eight
/// bytes of zero padding.
#[derive(Clone, Copy, Debug, PartialEq, Eq, Structural)]
pub struct Sockaddr {
    /// Address family, host byte order.
    pub family: u16,
    /// Port, network byte order (byte-swapped from host order).
    pub port: u16,
    /// IPv4 address, network byte order.
    pub addr: u32,
    /// Zero padding filling the structure to 16 bytes.
    pub zero: u64,
}

pub open spec fn spec_sockaddr_of(address: SockAddrV4) -> Sockaddr {
    Sockaddr {
        family: AF_INET_FAMILY,
        port: spec_u16_swap(address.port),
        addr: spec_addr_net(address.ip),
        zero: 0,
    }
}

impl SockAddrV4 {
    /// Converts the endpoint to the wire socket-address structure, with
    /// documented byte-order conversions and zero padding.
    pub fn into_c(&self) -> (r: Sockaddr)
        ensures
            r == spec_sockaddr_of(*self),
    {
        Sockaddr {
            family: AF_INET_FAMILY,
            port: u16_swap(self.port),
            addr: ((self.ip.o0 as u32) << 24) | ((self.ip.o1 as u32) << 16) | ((
            self.ip.o2 as u32) << 8) | (self.ip.o3 as u32),
            zero: 0,
        }
    }

    /// Reads an endpoint back out of a wire socket-address structure.
    pub fn from_c(address: &Sockaddr) -> (r: SockAddrV4)
        ensures
            r.port == spec_u16_swap(address.port),
            spec_addr_net(r.ip) == address.addr,
    {
        let a = address.addr;
        let r = SockAddrV4 {
            ip: Ipv4Address {
                o0: ((a >> 24) & 0xff) as u8,
                o1: ((a >> 16) & 0xff) as u8,
                o2: ((a >> 8) & 0xff) as u8,
                o3: (a & 0xff) as u8,
            },
            port: u16_swap(address.port),
        };
        proof {
            let o0 = ((a >> 24) & 0xff) as u8;
            let o1 = ((a >> 16) & 0xff) as u8;
            let o2 = ((a >> 8) & 0xff) as u8;
            let o3 = (a & 0xff) as u8;
            assert(((o0 as u32) << 24) | ((o1 as u32) << 16) | ((o2 as u32) << 8) | (o3 as u32)
                == a) by (bit_vector)
                requires
                    o0 == ((a >> 24) & 0xff) as u8,
                    o1 == ((a >> 16) & 0xff) as u8,
                    o2 == ((a >> 8) & 0xff) as u8,
                    o3 == (a & 0xff) as u8,
            ;
        }
        r
    }
}

/// Address conversion round trip: converting an endpoint to the wire
/// structure and back yields the endpoint unchanged.
pub proof fn lemma_sockaddr_round_trip(address: SockAddrV4)
    ensures
        ({
            let c = spec_sockaddr_of(address);
            let o0 = ((c.addr >> 24) & 0xff) as u8;
            let o1 = ((c.addr >> 16) & 0xff) as u8;
            let o2 = ((c.addr >> 8) & 0xff) as u8;
            let o3 = (c.addr & 0xff) as u8;
            o0 == address.ip.o0 && o1 == address.ip.o1 && o2 == address.ip.o2 && o3
                == address.ip.o3 && spec_u16_swap(c.port) == address.port
        }),
{
    let x0 = address.ip.o0;
    let x1 = address.ip.o1;
    let x2 = address.ip.o2;
    let x3 = address.ip.o3;
    let a = spec_addr_net(address.ip);
    assert(((a >> 24) & 0xff) as u8 == x0 && ((a >> 16) & 0xff) as u8 == x1 && ((a >> 8)
        & 0xff) as u8 == x2 && (a & 0xff) as u8 == x3) by (bit_vector)
        requires
            a == ((x0 as u32) << 24) | ((x1 as u32) << 16) | ((x2 as u32) << 8) | (x3 as u32),
    ;
    crate::bytes::lemma_u16_swap_involution(address.port);
}

/// The receive-timeout structure handed to the socket option: whole
/// seconds and remaining microseconds. `None` clears the timeout and
/// maps to the zero-valued structure, which the OS treats as no timeout.
pub fn timeval_of_timeout(milliseconds: Option<u64>) -> (r: (u64, u64))
    ensures
        match milliseconds {
            Some(ms) => r.0 == ms / 1000 && r.1 == (ms % 1000) * 1000,
            None => r.0 == 0 && r.1 == 0,
        },
{
    match milliseconds {
        Some(ms) => (ms / 1000, (ms % 1000) * 1000),
        None => (0, 0),
    }
}

/// The sign convention of OS socket calls: a negative result means the
/// call failed and the error is in the thread's last-error slot; zero or
/// positive is success.
pub fn handle_os_result(value: i64) -> (r: Option<u64>)
    ensures
        value >= 0 ==> r == Some(value as u64),
        value < 0 ==> r is None,
{
    if value >= 0 {
        Some(value as u64)
    } else {
        None
    }
}

} // verus!
