//! Where the daemon's server listens.

use vstd::prelude::*;

verus! {

/// An IP address: four octets, or eight 16-bit segments.
#[derive(Debug, Clone, Copy, PartialEq, Eq)]
pub enum IpAddress {
    V4([u8; 4]),
    V6([u16; 8]),
}

/// The address and port the server is to listen on.
#[derive(Debug, Clone, Copy, PartialEq, Eq)]
pub struct ServerOptions {
    pub address: IpAddress,
    pub port: u16,
}

/// `address` is the IPv6 loopback address, `::1`.
pub open spec fn is_ipv6_loopback(address: IpAddress) -> bool {
    address matches IpAddress::V6(segments) && segments@ == seq![0u16, 0, 0, 0, 0, 0, 0, 1]
}

impl Default for ServerOptions {
    /// The server listens on `::1`, port 50051, unless told otherwise.
    fn default() -> (options: Self)
        ensures
            is_ipv6_loopback(options.address),
            options.port == 50051,
    {
        let segments: [u16; 8] = [0, 0, 0, 0, 0, 0, 0, 1];
        assert(segments@ =~= seq![0u16, 0, 0, 0, 0, 0, 0, 1]);
        ServerOptions { address: IpAddress::V6(segments), port: 50051 }
    }
}

/// A socket address: an IP address of either family and a port.
#[derive(Debug, Clone, Copy, PartialEq, Eq)]
pub struct SocketAddress {
    pub ip: IpAddress,
    pub port: u16,
}

/// The socket address the server binds: the options' address, in its own
/// family, with the options' port.
pub fn socket_address(options: &ServerOptions) -> (addr: SocketAddress)
    ensures
        addr.ip == options.address,
        addr.port == options.port,
{
    SocketAddress { ip: options.address, port: options.port }
}

} // verus!
