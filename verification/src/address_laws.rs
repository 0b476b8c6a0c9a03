//! What holds of every [`Address`](crate::address::Address) that is built
//! from an endpoint.

use crate::address::{group_of, ipv4_mapped, is_ipv4_mapped, mapped_octets, SocketEndpoint};
use vstd::prelude::*;

verus! {

/// A group is its upper byte times 256 plus its lower byte, and both bytes can
/// be read back from it.
pub proof fn lemma_group_of(high: u8, low: u8)
    ensures
        group_of(high, low) == high * 256 + low,
        (group_of(high, low) >> 8) as u8 == high,
        (group_of(high, low) & 0xff) as u8 == low,
{
    let group = group_of(high, low);
    assert(group == high * 256 + low && (group >> 8) as u8 == high && (group & 0xff) as u8 == low)
        by (bit_vector)
        requires
            group == ((high as u16) << 8) | (low as u16),
    ;
}

/// The two bytes read from a group are its quotient and its remainder by 256,
/// and the group is made of them.
pub proof fn lemma_bytes_of_group(group: u16)
    ensures
        (group >> 8) as u8 == group / 256,
        (group & 0xff) as u8 == group % 256,
        group_of((group >> 8) as u8, (group & 0xff) as u8) == group,
{
    let high = (group >> 8) as u8;
    let low = (group & 0xff) as u8;
    assert(high == group / 256 && low == group % 256 && ((high as u16) << 8) | (low as u16)
        == group) by (bit_vector)
        requires
            high == (group >> 8) as u8,
            low == (group & 0xff) as u8,
    ;
}

/// Built from an IPv4 endpoint and read back, a record gives the octets of
/// the endpoint: `Address::new` stores `socket.groups()`, which is then a
/// mapped address, and `Address::to_ipv4_mapped` reads `mapped_octets` of it.
pub proof fn lemma_ipv4_round_trip(socket: SocketEndpoint)
    requires
        socket is V4,
    ensures
        is_ipv4_mapped(socket.groups()),
        mapped_octets(socket.groups()) == socket->octets@,
{
    let octets = socket->octets@;
    lemma_group_of(octets[0], octets[1]);
    lemma_group_of(octets[2], octets[3]);
    assert(mapped_octets(socket.groups()) =~= octets);
}

/// A mapped address is the mapping of the octets read from it: whichever
/// endpoint a record was built from, if `Address::to_ipv4_mapped` gives octets
/// then the record is that of the IPv4 endpoint with those octets.
pub proof fn lemma_mapped_round_trip(groups: Seq<u16>)
    requires
        is_ipv4_mapped(groups),
    ensures
        ipv4_mapped(mapped_octets(groups)) == groups,
{
    lemma_bytes_of_group(groups[6]);
    lemma_bytes_of_group(groups[7]);
    assert(ipv4_mapped(mapped_octets(groups)) =~= groups);
}

} // verus!
