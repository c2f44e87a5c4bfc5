//! Reading fields of an RFC 826 ARP packet carried in an Ethernet II frame.

use vstd::prelude::*;
use vstd::slice::slice_subrange;

verus! {

/// Octets of an Ethernet II header: destination, source, and `EtherType`.
pub const ETHERNET_II_HEADER_LENGTH: usize = 14;

/// The `length` octets of the ARP packet starting `offset` octets after the Ethernet II
/// header of `frame`.
pub fn rfc_826_arp_field(frame: &[u8], offset: usize, length: usize) -> (field: &[u8])
    requires
        ETHERNET_II_HEADER_LENGTH + offset + length <= frame@.len(),
    ensures
        field@ == frame@.subrange(
            ETHERNET_II_HEADER_LENGTH + offset,
            ETHERNET_II_HEADER_LENGTH + offset + length,
        ),
{
    let total = frame.len();
    assert(total == frame@.len());
    let start = ETHERNET_II_HEADER_LENGTH + offset;
    slice_subrange(frame, start, start + length)
}

} // verus!
