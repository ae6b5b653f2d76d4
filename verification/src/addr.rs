use vstd::prelude::*;

verus! {

/// An IPv4 socket address; the octets stand in network order.
#[derive(Clone, Copy, Debug, PartialEq, Eq)]
pub struct SocketAddrV4 {
    pub octets: [u8; 4],
    pub port: u16,
}

/// An IPv6 socket address; the octets stand in network order.
#[derive(Clone, Copy, Debug, PartialEq, Eq)]
pub struct SocketAddrV6 {
    pub octets: [u8; 16],
    pub port: u16,
    pub flowinfo: u32,
    pub scope_id: u32,
}

/// The address of a socket.
#[derive(Clone, Copy, Debug, PartialEq, Eq)]
pub enum SocketAddr {
    V4(SocketAddrV4),
    V6(SocketAddrV6),
}

impl SocketAddr {
    /// Says that the address is `0.0.0.0:0`: any IPv4 interface and any free port.
    pub open spec fn is_any_v4(self) -> bool {
        self matches SocketAddr::V4(addr) && addr.octets@ == seq![0u8, 0u8, 0u8, 0u8] && addr.port
            == 0
    }

    /// Returns `0.0.0.0:0`.
    pub fn any_v4() -> (addr: SocketAddr)
        ensures
            addr.is_any_v4(),
            addr matches SocketAddr::V4(v4) && v4.octets@ == seq![0u8, 0u8, 0u8, 0u8] && v4.port
                == 0,
    {
        let octets: [u8; 4] = [0, 0, 0, 0];
        assert(octets@ =~= seq![0u8, 0u8, 0u8, 0u8]);
        SocketAddr::V4(SocketAddrV4 { octets, port: 0 })
    }
}

/// An address is `0.0.0.0:0` if and only if it is an IPv4 address whose four octets and whose port
/// are all zero.
pub proof fn law_any_v4(addr: SocketAddr)
    ensures
        addr.is_any_v4() <==> (addr matches SocketAddr::V4(v4) && v4.octets[0] == 0
            && v4.octets[1] == 0 && v4.octets[2] == 0 && v4.octets[3] == 0 && v4.port == 0),
{
    if let SocketAddr::V4(v4) = addr {
        if v4.octets[0] == 0 && v4.octets[1] == 0 && v4.octets[2] == 0 && v4.octets[3] == 0 {
            assert(v4.octets@ =~= seq![0u8, 0u8, 0u8, 0u8]);
        }
        if v4.octets@ == seq![0u8, 0u8, 0u8, 0u8] {
            assert(v4.octets@[0] == 0 && v4.octets@[1] == 0);
            assert(v4.octets@[2] == 0 && v4.octets@[3] == 0);
        }
    }
}

} // verus!
