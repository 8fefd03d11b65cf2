//! Socket addresses as plain values, and their canonical (IPv6-mapped) form.
//!
//! The membership registry is keyed by a canonical address: every IPv4
//! address is mapped into the IPv6 space (`::ffff:a.b.c.d`), so that the same
//! peer is named the same way whichever address family a datagram travelled
//! over.

use vstd::prelude::*;

verus! {

/// A datagram socket address: an IP address paired with a port.
///
/// An IPv4 address is held as one 32-bit value in network order
/// (`a.b.c.d` is `a * 2^24 + b * 2^16 + c * 2^8 + d`); an IPv6 address as the
/// high and low halves of its 128-bit value.
#[derive(Clone, Copy, PartialEq, Eq, Structural, Debug)]
pub enum NetAddr {
    V4 { ip: u32, port: u16 },
    V6 { hi: u64, lo: u64, port: u16 },
}

impl NetAddr {
    /// The all-zero, port-zero sentinel that fills the destination slot
    /// before any frame has been submitted.
    pub fn unspecified() -> (a: NetAddr)
        ensures
            a == (NetAddr::V4 { ip: 0u32, port: 0u16 }),
    {
        NetAddr::V4 { ip: 0, port: 0 }
    }

    /// The canonical form of an address, as a spec-level value: an IPv4
    /// address becomes the IPv6-mapped address `::ffff:a.b.c.d` with the same
    /// port; an IPv6 address is already canonical.
    pub open spec fn canonical_spec(self) -> NetAddr {
        match self {
            NetAddr::V4 { ip, port } => NetAddr::V6 {
                hi: 0u64,
                lo: (0xffff_0000_0000u64 | ip as u64),
                port,
            },
            NetAddr::V6 { .. } => self,
        }
    }

    /// Map an address of either family to the canonical form used as the
    /// registry key.
    pub fn to_canonical(self) -> (c: NetAddr)
        ensures
            c == self.canonical_spec(),
    {
        match self {
            NetAddr::V4 { ip, port } => NetAddr::V6 {
                hi: 0,
                lo: 0xffff_0000_0000u64 | ip as u64,
                port,
            },
            NetAddr::V6 { .. } => self,
        }
    }
}

} // verus!
