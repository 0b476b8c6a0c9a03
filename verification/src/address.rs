//! A peer's network address: the services it advertises, its IP address as
//! eight 16-bit groups, and its port.
//!
//! The address is always kept in IPv6 form. An IPv4 address is stored as the
//! IPv4-mapped address `::ffff:a.b.c.d`, so that one peer has one stored form
//! whichever family its socket was opened with.

use crate::address_laws::lemma_mapped_round_trip;
use crate::service_flags::ServiceFlags;
use vstd::prelude::*;

verus! {

/// An endpoint of a connection: an IP address of either family, and a port.
#[derive(Debug, Clone, Copy)]
pub enum SocketEndpoint {
    /// An IPv4 address, its four octets in network order, and a port.
    V4 { octets: [u8; 4], port: u16 },
    /// An IPv6 address, its eight groups in network order, and a port.
    V6 { segments: [u16; 8], port: u16 },
}

/// The 16-bit group that holds `high` in its upper byte and `low` in its lower
/// byte.
pub open spec fn group_of(high: u8, low: u8) -> u16 {
    ((high as u16) << 8) | (low as u16)
}

/// The groups of the IPv4-mapped IPv6 address of the IPv4 address `octets`:
/// `::ffff:a.b.c.d` for `a.b.c.d`.
pub open spec fn ipv4_mapped(octets: Seq<u8>) -> Seq<u16> {
    seq![
        0u16,
        0u16,
        0u16,
        0u16,
        0u16,
        0xffffu16,
        group_of(octets[0], octets[1]),
        group_of(octets[2], octets[3]),
    ]
}

/// Whether `groups` is an IPv4-mapped address: eight groups, of which the first
/// five are zero and the sixth is `ffff`.
pub open spec fn is_ipv4_mapped(groups: Seq<u16>) -> bool {
    &&& groups.len() == 8
    &&& groups[0] == 0
    &&& groups[1] == 0
    &&& groups[2] == 0
    &&& groups[3] == 0
    &&& groups[4] == 0
    &&& groups[5] == 0xffff
}

/// The four octets that the last two groups of `groups` hold.
pub open spec fn mapped_octets(groups: Seq<u16>) -> Seq<u8> {
    seq![
        (groups[6] >> 8) as u8,
        (groups[6] & 0xff) as u8,
        (groups[7] >> 8) as u8,
        (groups[7] & 0xff) as u8,
    ]
}

impl SocketEndpoint {
    /// The endpoint's port.
    pub open spec fn port(self) -> u16 {
        match self {
            SocketEndpoint::V4 { port, .. } => port,
            SocketEndpoint::V6 { port, .. } => port,
        }
    }

    /// The address of the endpoint as eight groups: an IPv6 address as it is,
    /// an IPv4 address mapped.
    pub open spec fn groups(self) -> Seq<u16> {
        match self {
            SocketEndpoint::V4 { octets, .. } => ipv4_mapped(octets@),
            SocketEndpoint::V6 { segments, .. } => segments@,
        }
    }
}

/// The address of a peer, with the services that the peer advertises.
#[derive(Debug, Clone, Copy)]
pub struct Address {
    /// The services that the peer says it offers.
    pub services: ServiceFlags,
    /// The IP address as eight 16-bit groups, an IPv4 address in mapped form.
    pub address: [u16; 8],
    /// The port.
    pub port: u16,
}

impl Address {
    /// The record of the peer at `socket` that advertises `services`: the port
    /// and the services as they are given, the address in IPv6 form.
    pub fn new(socket: &SocketEndpoint, services: ServiceFlags) -> (record: Address)
        ensures
            record.services == services,
            record.address@ == socket.groups(),
            record.port == socket.port(),
    {
        match *socket {
            SocketEndpoint::V4 { octets, port } => {
                let high: u16 = ((octets[0] as u16) << 8) | (octets[1] as u16);
                let low: u16 = ((octets[2] as u16) << 8) | (octets[3] as u16);
                let address: [u16; 8] = [0, 0, 0, 0, 0, 0xffff, high, low];
                assert(address@ =~= ipv4_mapped(octets@));
                Address { services, address, port }
            },
            SocketEndpoint::V6 { segments, port } => Address { services, address: segments, port },
        }
    }

    /// The IPv4 address that this record holds in mapped form, if it holds one:
    /// the octets whose mapping is the stored address.
    pub fn to_ipv4_mapped(&self) -> (octets: Option<[u8; 4]>)
        ensures
            octets is Some <==> is_ipv4_mapped(self.address@),
            octets matches Some(o) ==> o@ == mapped_octets(self.address@),
            octets matches Some(o) ==> ipv4_mapped(o@) == self.address@,
    {
        proof {
            if is_ipv4_mapped(self.address@) {
                lemma_mapped_round_trip(self.address@);
            }
        }
        let a: &[u16; 8] = &self.address;
        if a[0] == 0 && a[1] == 0 && a[2] == 0 && a[3] == 0 && a[4] == 0 && a[5] == 0xffff {
            let octets: [u8; 4] = [
                (a[6] >> 8) as u8,
                (a[6] & 0xff) as u8,
                (a[7] >> 8) as u8,
                (a[7] & 0xff) as u8,
            ];
            assert(octets@ =~= mapped_octets(self.address@));
            Some(octets)
        } else {
            None
        }
    }
}

} // verus!
