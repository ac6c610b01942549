use vstd::prelude::*;

verus! {

/// The advertisement subtype carried in byte 0 of an Apple continuity
/// payload.  Only `ProximityPairing` records are decoded further; every code
/// outside the table degrades to `Unknown` instead of failing.
#[derive(Debug, Clone, Copy, PartialEq, Eq, Structural)]
pub enum PacketType {
    Unknown,
    AirPrint,
    AirDrop,
    HomeKit,
    ProximityPairing,
    HeySiri,
    AirPlay,
    MagicSwitch,
    Handoff,
    InstantHotspotTetheringTargetPresence,
    InstantHotspotTetheringSourcePresence,
    NearbyAction,
    NearbyInfo,
}

impl PacketType {
    /// Total mapping from the raw wire code; unmapped codes fall back to
    /// `Unknown`.
    pub open spec fn spec_from_code(code: u8) -> PacketType {
        match code {
            0x3 => PacketType::AirPrint,
            0x5 => PacketType::AirDrop,
            0x6 => PacketType::HomeKit,
            0x7 => PacketType::ProximityPairing,
            0x8 => PacketType::HeySiri,
            0x9 => PacketType::AirPlay,
            0xB => PacketType::MagicSwitch,
            0xC => PacketType::Handoff,
            0xD => PacketType::InstantHotspotTetheringTargetPresence,
            0xE => PacketType::InstantHotspotTetheringSourcePresence,
            0xF => PacketType::NearbyAction,
            0x10 => PacketType::NearbyInfo,
            _ => PacketType::Unknown,
        }
    }

    /// The variant's name, as it appears in the diagnostic report.
    pub open spec fn spec_name(self) -> Seq<char> {
        match self {
            PacketType::Unknown => "Unknown"@,
            PacketType::AirPrint => "AirPrint"@,
            PacketType::AirDrop => "AirDrop"@,
            PacketType::HomeKit => "HomeKit"@,
            PacketType::ProximityPairing => "ProximityPairing"@,
            PacketType::HeySiri => "HeySiri"@,
            PacketType::AirPlay => "AirPlay"@,
            PacketType::MagicSwitch => "MagicSwitch"@,
            PacketType::Handoff => "Handoff"@,
            PacketType::InstantHotspotTetheringTargetPresence => {
                "InstantHotspotTetheringTargetPresence"@
            },
            PacketType::InstantHotspotTetheringSourcePresence => {
                "InstantHotspotTetheringSourcePresence"@
            },
            PacketType::NearbyAction => "NearbyAction"@,
            PacketType::NearbyInfo => "NearbyInfo"@,
        }
    }

    /// The variant's name as a string slice.
    pub fn as_str(&self) -> (r: &'static str)
        ensures
            r@ == self.spec_name(),
    {
        match self {
            PacketType::Unknown => "Unknown",
            PacketType::AirPrint => "AirPrint",
            PacketType::AirDrop => "AirDrop",
            PacketType::HomeKit => "HomeKit",
            PacketType::ProximityPairing => "ProximityPairing",
            PacketType::HeySiri => "HeySiri",
            PacketType::AirPlay => "AirPlay",
            PacketType::MagicSwitch => "MagicSwitch",
            PacketType::Handoff => "Handoff",
            PacketType::InstantHotspotTetheringTargetPresence => {
                "InstantHotspotTetheringTargetPresence"
            },
            PacketType::InstantHotspotTetheringSourcePresence => {
                "InstantHotspotTetheringSourcePresence"
            },
            PacketType::NearbyAction => "NearbyAction",
            PacketType::NearbyInfo => "NearbyInfo",
        }
    }
}

impl vstd::std_specs::convert::FromSpecImpl<u8> for PacketType {
    open spec fn obeys_from_spec() -> bool {
        true
    }

    open spec fn from_spec(v: u8) -> PacketType {
        PacketType::spec_from_code(v)
    }
}

impl From<u8> for PacketType {
    fn from(code: u8) -> (r: PacketType) {
        match code {
            0x3 => PacketType::AirPrint,
            0x5 => PacketType::AirDrop,
            0x6 => PacketType::HomeKit,
            0x7 => PacketType::ProximityPairing,
            0x8 => PacketType::HeySiri,
            0x9 => PacketType::AirPlay,
            0xB => PacketType::MagicSwitch,
            0xC => PacketType::Handoff,
            0xD => PacketType::InstantHotspotTetheringTargetPresence,
            0xE => PacketType::InstantHotspotTetheringSourcePresence,
            0xF => PacketType::NearbyAction,
            0x10 => PacketType::NearbyInfo,
            _ => PacketType::Unknown,
        }
    }
}

} // verus!
