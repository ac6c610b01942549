use vstd::prelude::*;

use crate::packet::packet_type::PacketType;

verus! {

/// The two-byte header that opens every continuity payload: the packet type
/// code followed by the number of bytes that remain after it.
#[derive(Debug, Clone, Copy)]
pub struct Header {
    pub packet_type: PacketType,
    pub remaining_length: u8,
}

} // verus!
