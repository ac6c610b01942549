use vstd::prelude::*;

verus! {

/// The case colour code carried in byte 9 of the proximity-pairing record.
/// Unmapped codes degrade to `Unknown` instead of failing.
#[derive(Debug, Clone, Copy, PartialEq, Eq, Structural)]
pub enum Color {
    Unknown,
    White,
    Black,
    Red,
    Blue,
    Pink,
    Gray,
    Silver,
    Gold,
    RoseGold,
    SpaceGray,
    DarkBlue,
    LightBlue,
    Yellow,
}

impl Color {
    /// Total mapping from the raw wire code; unmapped codes fall back to
    /// `Unknown`.
    pub open spec fn spec_from_code(code: u8) -> Color {
        match code {
            0x0 => Color::White,
            0x1 => Color::Black,
            0x2 => Color::Red,
            0x3 => Color::Blue,
            0x4 => Color::Pink,
            0x5 => Color::Gray,
            0x6 => Color::Silver,
            0x7 => Color::Gold,
            0x8 => Color::RoseGold,
            0x9 => Color::SpaceGray,
            0xA => Color::DarkBlue,
            0xB => Color::LightBlue,
            0xC => Color::Yellow,
            _ => Color::Unknown,
        }
    }

    /// The variant's name, as it appears in the diagnostic report.
    pub open spec fn spec_name(self) -> Seq<char> {
        match self {
            Color::Unknown => "Unknown"@,
            Color::White => "White"@,
            Color::Black => "Black"@,
            Color::Red => "Red"@,
            Color::Blue => "Blue"@,
            Color::Pink => "Pink"@,
            Color::Gray => "Gray"@,
            Color::Silver => "Silver"@,
            Color::Gold => "Gold"@,
            Color::RoseGold => "RoseGold"@,
            Color::SpaceGray => "SpaceGray"@,
            Color::DarkBlue => "DarkBlue"@,
            Color::LightBlue => "LightBlue"@,
            Color::Yellow => "Yellow"@,
        }
    }

    /// The variant's name as a string slice.
    pub fn as_str(&self) -> (r: &'static str)
        ensures
            r@ == self.spec_name(),
    {
        match self {
            Color::Unknown => "Unknown",
            Color::White => "White",
            Color::Black => "Black",
            Color::Red => "Red",
            Color::Blue => "Blue",
            Color::Pink => "Pink",
            Color::Gray => "Gray",
            Color::Silver => "Silver",
            Color::Gold => "Gold",
            Color::RoseGold => "RoseGold",
            Color::SpaceGray => "SpaceGray",
            Color::DarkBlue => "DarkBlue",
            Color::LightBlue => "LightBlue",
            Color::Yellow => "Yellow",
        }
    }
}

impl vstd::std_specs::convert::FromSpecImpl<u8> for Color {
    open spec fn obeys_from_spec() -> bool {
        true
    }

    open spec fn from_spec(v: u8) -> Color {
        Color::spec_from_code(v)
    }
}

impl From<u8> for Color {
    fn from(code: u8) -> (r: Color) {
        match code {
            0x0 => Color::White,
            0x1 => Color::Black,
            0x2 => Color::Red,
            0x3 => Color::Blue,
            0x4 => Color::Pink,
            0x5 => Color::Gray,
            0x6 => Color::Silver,
            0x7 => Color::Gold,
            0x8 => Color::RoseGold,
            0x9 => Color::SpaceGray,
            0xA => Color::DarkBlue,
            0xB => Color::LightBlue,
            0xC => Color::Yellow,
            _ => Color::Unknown,
        }
    }
}

} // verus!
