//! Plain-value address types.
//!
//! The discovery procedures compare mapped addresses for exact equality on
//! both the IP and the port, so the addresses are held as plain integers: a
//! 32-bit value for IPv4, a 128-bit value for IPv6, and a 16-bit port.

use vstd::prelude::*;

verus! {

/// An IP address as a plain integer: the 32 bits of an IPv4 address or the
/// 128 bits of an IPv6 address, in network order.
#[derive(Clone, Copy, Debug, PartialEq, Eq, Structural, Hash)]
pub enum IpAddress {
    V4(u32),
    V6(u128),
}

/// A socket address: an IP address and a port. Equality is exact on both.
#[derive(Clone, Copy, Debug, PartialEq, Eq, Structural, Hash)]
pub struct SocketAddress {
    pub ip: IpAddress,
    pub port: u16,
}

/// Two socket addresses are equal exactly when both the IP and the port
/// agree; in particular, a matching IP with a differing port is not equal.
pub proof fn lemma_socket_address_equality_exact(a: SocketAddress, b: SocketAddress)
    ensures
        (a == b) <==> (a.ip == b.ip && a.port == b.port),
{
}

/// Whether `ip` is one of the addresses in `list`.
pub fn contains_ip(list: &Vec<IpAddress>, ip: IpAddress) -> (r: bool)
    ensures
        r == list@.contains(ip),
{
    let mut i: usize = 0;
    while i < list.len()
        invariant
            0 <= i <= list@.len(),
            forall|k: int| 0 <= k < i ==> list@[k] != ip,
        decreases list@.len() - i,
    {
        if list[i] == ip {
            return true;
        }
        i = i + 1;
    }
    false
}

} // verus!
