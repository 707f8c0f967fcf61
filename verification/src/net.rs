//! Network addresses and socket handles.
//!
//! The stack itself — access-point association, TCP and UDP transfers —
//! runs on the platform outside this library; here live the plain-value
//! pieces: addresses and the granted socket descriptors.

use vstd::prelude::*;

verus! {

/// Error from a network operation, wrapping the raw device code.
#[derive(Debug, Clone, Copy, PartialEq, Eq, Structural)]
pub struct NetError(pub i32);

/// An IPv4 address as four octets.
#[derive(Debug, Clone, Copy, PartialEq, Eq, Structural)]
pub struct Ipv4Addr(pub u8, pub u8, pub u8, pub u8);

impl Ipv4Addr {
    /// The address as a big-endian 32-bit value: the first octet highest.
    pub fn to_u32_be(self) -> (r: u32)
        ensures
            r == self.0 as int * 0x1000000 + self.1 as int * 0x10000 + self.2 as int * 0x100
                + self.3 as int,
    {
        (self.0 as u32) * 0x1000000 + (self.1 as u32) * 0x10000 + (self.2 as u32) * 0x100 + (
        self.3 as u32)
    }
}

/// A connected TCP socket: the descriptor the platform granted.
pub struct TcpStream {
    /// The granted socket descriptor.
    pub fd: i32,
}

impl TcpStream {
    /// Record a connect outcome: a non-negative descriptor becomes a
    /// stream, a negative return the error code.
    pub fn from_connect_result(fd: i32) -> (r: Result<Self, NetError>)
        ensures
            fd >= 0 ==> (r matches Ok(s) && s.fd == fd),
            fd < 0 ==> r == Err::<Self, NetError>(NetError(fd)),
    {
        if fd < 0 {
            Err(NetError(fd))
        } else {
            Ok(TcpStream { fd })
        }
    }
}

/// A bound UDP socket: the descriptor the platform granted.
pub struct UdpSocket {
    /// The granted socket descriptor.
    pub fd: i32,
}

impl UdpSocket {
    /// Record a bind outcome: a non-negative descriptor becomes a
    /// socket, a negative return the error code.
    pub fn from_bind_result(fd: i32) -> (r: Result<Self, NetError>)
        ensures
            fd >= 0 ==> (r matches Ok(s) && s.fd == fd),
            fd < 0 ==> r == Err::<Self, NetError>(NetError(fd)),
    {
        if fd < 0 {
            Err(NetError(fd))
        } else {
            Ok(UdpSocket { fd })
        }
    }
}

} // verus!
