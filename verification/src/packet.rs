//! Wire-level pieces of the proximity-pairing record: the enumerated byte
//! codes and the single/double-byte bitfield views.

pub mod battery;
pub mod color;
pub mod flags;
pub mod header;
pub mod lid;
pub mod packet_type;

pub use battery::Battery;
pub use color::Color;
pub use flags::Flags;
pub use header::Header;
pub use lid::Lid;
pub use packet_type::PacketType;
