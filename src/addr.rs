use vstd::prelude::*;

verus! {

/// The IP part of a peer's network address.
#[derive(Clone, Copy, Debug, PartialEq, Eq, Hash, Structural)]
pub enum IpAddress {
    /// An IPv4 address, most significant octet in the high bits.
    V4(u32),
    /// An IPv6 address, most significant segment in the high bits.
    V6(u128),
}

/// A peer's network address: IP and UDP port.
#[derive(Clone, Copy, Debug, PartialEq, Eq, Hash, Structural)]
pub struct PeerAddr {
    pub ip: IpAddress,
    pub port: u16,
}

impl PeerAddr {
    /// An IPv4 address from its four octets and a port.
    pub fn v4(a: u8, b: u8, c: u8, d: u8, port: u16) -> (r: PeerAddr)
        ensures
            r.ip == IpAddress::V4(
                ((a as int) * 0x100_0000 + (b as int) * 0x1_0000 + (c as int) * 0x100 + (d as int)) as u32,
            ),
            r.port == port,
    {
        let ip: u32 = (a as u32) * 0x100_0000 + (b as u32) * 0x1_0000 + (c as u32) * 0x100 + (d as u32);
        PeerAddr { ip: IpAddress::V4(ip), port }
    }
}

} // verus!
