use vstd::prelude::*;

use std::collections::HashMap;

use vstd::string::StringExecFns;

use crate::model::Model;
use crate::render::bool_str;
use crate::render::charging_suffix;
use crate::render::spec_bool_str;
use crate::render::spec_charging_suffix;
use crate::render::spec_u8_str;
use crate::render::u8_str;
use crate::packet::battery::Battery;
use crate::packet::color::Color;
use crate::packet::flags::Flags;
use crate::packet::lid::Lid;
use crate::packet::packet_type::PacketType;

verus! {

broadcast use vstd::std_specs::hash::group_hash_axioms, vstd::array::group_array_axioms;

/// The Bluetooth company identifier under which the proximity-pairing
/// payload is broadcast.
pub const VENDOR_ID: u16 = 76;

/// Total size of a proximity-pairing record in bytes.
pub const RECORD_SIZE: usize = 27;

/// A decoded 27-byte proximity-pairing record, laid out field by field.
/// The `unk` fields are reserved regions of unidentified meaning; `unk12`
/// in particular must be zeroed (see [`AirPods::desensitize`]) before any
/// external disclosure.
#[derive(Clone, Copy)]
#[verifier::ext_equal]
pub struct AirPods {
    pub packet_type: PacketType,
    pub remaining_length: u8,
    pub unk1: [u8; 1],
    pub model_id: u16,
    pub flags: Flags,
    pub battery: Battery,
    pub lid: Lid,
    pub color: Color,
    pub unk11: u8,
    pub unk12: [u8; 16],
}

/// What it means for a record to be the decoding of a byte sequence: every
/// field equals the value the fixed little-endian layout assigns to it.
pub open spec fn decodes_to(data: Seq<u8>, ap: AirPods) -> bool {
    &&& ap.packet_type == PacketType::spec_from_code(data[0])
    &&& ap.remaining_length == data[1]
    &&& ap.unk1@ == seq![data[2]]
    &&& ap.model_id == data[3] + 0x100 * data[4]
    &&& ap.flags.bits == data[5]
    &&& ap.battery.bits == data[6]
    &&& ap.battery.extra == data[7]
    &&& ap.lid.bits == data[8]
    &&& ap.color == Color::spec_from_code(data[9])
    &&& ap.unk11 == data[10]
    &&& ap.unk12@ == data.subrange(11, 27)
}

/// Decodes a raw manufacturer-data payload into a record.  Returns `None`
/// exactly when the payload fails the wire contract (wrong length or wrong
/// header bytes); on success every field of the record is pinned down by
/// [`decodes_to`].
pub fn as_airpods(data: &[u8]) -> (r: Option<AirPods>)
    ensures
        r is Some <==> AirPods::spec_is_valid(data@),
        r matches Some(ap) ==> decodes_to(data@, ap),
        r matches Some(ap) ==> ap.packet_type == PacketType::ProximityPairing
            && ap.remaining_length == 25,
{
    if !AirPods::is_valid(data) {
        return None;
    }
    let model_id: u16 = (data[3] as u16) + 0x100u16 * (data[4] as u16);
    let ap = AirPods {
        packet_type: PacketType::from(data[0]),
        remaining_length: data[1],
        unk1: [data[2]],
        model_id,
        flags: Flags { bits: data[5] },
        battery: Battery { bits: data[6], extra: data[7] },
        lid: Lid { bits: data[8] },
        color: Color::from(data[9]),
        unk11: data[10],
        unk12: [
            data[11],
            data[12],
            data[13],
            data[14],
            data[15],
            data[16],
            data[17],
            data[18],
            data[19],
            data[20],
            data[21],
            data[22],
            data[23],
            data[24],
            data[25],
            data[26],
        ],
    };
    proof {
        assert(ap.unk1@ =~= seq![data@[2]]);
        assert(ap.unk12@ =~= data@.subrange(11, 27));
    }
    Some(ap)
}

/// Whether a manufacturer-data map (keyed by company identifier) carries a
/// valid proximity-pairing payload under the AirPods vendor id.
pub fn is_desired_adv(manufacturer_data_map: &HashMap<u16, Vec<u8>>) -> (r: bool)
    ensures
        r == (manufacturer_data_map@.contains_key(VENDOR_ID) && AirPods::spec_is_valid(
            manufacturer_data_map@[VENDOR_ID]@,
        )),
{
    match manufacturer_data_map.get(&VENDOR_ID) {
        Some(data) => AirPods::is_valid(data.as_slice()),
        None => false,
    }
}

impl AirPods {
    /// The wire contract a payload must meet to be decoded: exactly 27
    /// bytes, byte 0 the proximity-pairing type code (7), byte 1 the
    /// remaining length (25).
    pub open spec fn spec_is_valid(data: Seq<u8>) -> bool {
        &&& data.len() == RECORD_SIZE
        &&& data[0] == 7
        &&& data[1] == 25
    }

    /// Checks the wire contract on a raw payload of any length.
    pub fn is_valid(data: &[u8]) -> (r: bool)
        ensures
            r == AirPods::spec_is_valid(data@),
    {
        if data.len() != RECORD_SIZE {
            return false;
        }
        // byte 0: the proximity-pairing type code; byte 1: total length - 2
        data[0] == 7 && data[1] == 25
    }

    /// Closed lookup table from the vendor model code to a model name;
    /// codes outside the table map to `Unknown`.
    pub open spec fn spec_model_for(model_id: u16) -> Model {
        match model_id {
            0x2002 => Model::AirPods1,
            0x200F => Model::AirPods2,
            0x2013 => Model::AirPods3,
            0x200E => Model::AirPodsPro,
            0x2014 => Model::AirPodsPro2,
            0x2024 => Model::AirPodsPro2UsbC,
            0x200A => Model::AirPodsMax,
            _ => Model::Unknown,
        }
    }

    /// Resolves a vendor model code to a model name.
    pub fn get_model(model_id: u16) -> (r: Model)
        ensures
            r == AirPods::spec_model_for(model_id),
    {
        match model_id {
            0x2002 => Model::AirPods1,
            0x200F => Model::AirPods2,
            0x2013 => Model::AirPods3,
            0x200E => Model::AirPodsPro,
            0x2014 => Model::AirPodsPro2,
            0x2024 => Model::AirPodsPro2UsbC,
            0x200A => Model::AirPodsMax,
            _ => Model::Unknown,
        }
    }

    /// The broadcast-side pivot: true when the "current" slot of the flags
    /// and battery fields describes the left earbud.
    pub open spec fn spec_broadcast_side(self) -> bool {
        self.flags.spec_broadcast_from()
    }

    fn broadcast_side(&self) -> (r: bool)
        ensures
            r == self.spec_broadcast_side(),
    {
        self.flags.broadcast_from()
    }

    pub open spec fn spec_is_left_broadcasted(self) -> bool {
        self.spec_broadcast_side()
    }

    pub open spec fn spec_is_right_broadcasted(self) -> bool {
        !self.spec_broadcast_side()
    }

    /// Whether the left earbud occupies the "current" slot.
    pub fn is_left_broadcasted(&self) -> (r: bool)
        ensures
            r == self.spec_is_left_broadcasted(),
    {
        self.broadcast_side()
    }

    /// Whether the right earbud occupies the "current" slot.
    pub fn is_right_broadcasted(&self) -> (r: bool)
        ensures
            r == self.spec_is_right_broadcasted(),
    {
        !self.broadcast_side()
    }

    /// The model this record's vendor code resolves to.
    pub fn get_model_instance(&self) -> (r: Model)
        ensures
            r == AirPods::spec_model_for(self.model_id),
    {
        Self::get_model(self.model_id)
    }

    /// The raw battery nibble describing the left earbud, before the
    /// out-of-range clamp.
    pub open spec fn spec_raw_left_battery(self) -> u8 {
        if self.spec_is_left_broadcasted() {
            self.battery.spec_curr()
        } else {
            self.battery.spec_anot()
        }
    }

    /// The raw battery nibble describing the right earbud, before the
    /// out-of-range clamp.
    pub open spec fn spec_raw_right_battery(self) -> u8 {
        if self.spec_is_right_broadcasted() {
            self.battery.spec_curr()
        } else {
            self.battery.spec_anot()
        }
    }

    /// Clamp-and-scale policy for battery nibbles: values 0–10 are tenths
    /// of a full charge and map to a percentage in steps of ten; anything
    /// above 10 is treated as "not a real reading" and reported as 0.
    pub open spec fn spec_battery_percent(raw: u8) -> u8 {
        if raw <= 10 {
            (10 * raw) as u8
        } else {
            0
        }
    }

    pub open spec fn spec_left_battery(self) -> u8 {
        AirPods::spec_battery_percent(self.spec_raw_left_battery())
    }

    pub open spec fn spec_right_battery(self) -> u8 {
        AirPods::spec_battery_percent(self.spec_raw_right_battery())
    }

    pub open spec fn spec_case_battery(self) -> u8 {
        AirPods::spec_battery_percent(self.battery.spec_case_box())
    }

    /// Left earbud battery as a percentage (0–100 in steps of ten),
    /// side-resolved and clamped.
    pub fn left_battery(&self) -> (r: u8)
        ensures
            r == self.spec_left_battery(),
            r <= 100,
            r % 10 == 0,
    {
        let val = if self.is_left_broadcasted() {
            self.battery.curr()
        } else {
            self.battery.anot()
        };
        if val <= 10 {
            10 * val
        } else {
            0
        }
    }

    /// Right earbud battery as a percentage (0–100 in steps of ten),
    /// side-resolved and clamped.
    pub fn right_battery(&self) -> (r: u8)
        ensures
            r == self.spec_right_battery(),
            r <= 100,
            r % 10 == 0,
    {
        let val = if self.is_right_broadcasted() {
            self.battery.curr()
        } else {
            self.battery.anot()
        };
        if val <= 10 {
            10 * val
        } else {
            0
        }
    }

    /// Case battery as a percentage (0–100 in steps of ten), clamped.
    pub fn case_battery(&self) -> (r: u8)
        ensures
            r == self.spec_case_battery(),
            r <= 100,
            r % 10 == 0,
    {
        let val = self.battery.case_box();
        if val <= 10 {
            10 * val
        } else {
            0
        }
    }

    pub open spec fn spec_is_left_charging(self) -> bool {
        if self.spec_is_left_broadcasted() {
            self.battery.spec_curr_charging()
        } else {
            self.battery.spec_anot_charging()
        }
    }

    pub open spec fn spec_is_right_charging(self) -> bool {
        if self.spec_is_right_broadcasted() {
            self.battery.spec_curr_charging()
        } else {
            self.battery.spec_anot_charging()
        }
    }

    /// Whether the left earbud is charging, side-resolved.
    pub fn is_left_charging(&self) -> (r: bool)
        ensures
            r == self.spec_is_left_charging(),
    {
        if self.is_left_broadcasted() {
            self.battery.curr_charging()
        } else {
            self.battery.anot_charging()
        }
    }

    /// Whether the right earbud is charging, side-resolved.
    pub fn is_right_charging(&self) -> (r: bool)
        ensures
            r == self.spec_is_right_charging(),
    {
        if self.is_right_broadcasted() {
            self.battery.curr_charging()
        } else {
            self.battery.anot_charging()
        }
    }

    pub open spec fn spec_is_both_in_case(self) -> bool {
        self.flags.spec_both_in_case()
    }

    /// Whether both earbuds are in the case.
    pub fn is_both_in_case(&self) -> (r: bool)
        ensures
            r == self.spec_is_both_in_case(),
    {
        self.flags.both_in_case()
    }

    pub open spec fn spec_is_lid_opened(self) -> bool {
        !self.lid.spec_closed()
    }

    /// Whether the case lid is open.
    pub fn is_lid_opened(&self) -> (r: bool)
        ensures
            r == self.spec_is_lid_opened(),
    {
        !self.lid.closed()
    }

    pub open spec fn spec_is_case_charging(self) -> bool {
        self.battery.spec_case_charging()
    }

    /// Whether the case is charging.
    pub fn is_case_charging(&self) -> (r: bool)
        ensures
            r == self.spec_is_case_charging(),
    {
        self.battery.case_charging()
    }

    /// An earbud that is charging sits in the case, which is mutually
    /// exclusive with being in an ear, so the in-ear bit only counts while
    /// the side-resolved charging bit is clear.
    pub open spec fn spec_is_left_in_ear(self) -> bool {
        !self.spec_is_left_charging() && (if self.spec_is_left_broadcasted() {
            self.flags.spec_curr_in_ear()
        } else {
            self.flags.spec_anot_in_ear()
        })
    }

    pub open spec fn spec_is_right_in_ear(self) -> bool {
        !self.spec_is_right_charging() && (if self.spec_is_right_broadcasted() {
            self.flags.spec_curr_in_ear()
        } else {
            self.flags.spec_anot_in_ear()
        })
    }

    /// Whether the left earbud is in an ear; always false while it charges.
    pub fn is_left_in_ear(&self) -> (r: bool)
        ensures
            r == self.spec_is_left_in_ear(),
    {
        !self.is_left_charging() && (if self.is_left_broadcasted() {
            self.flags.curr_in_ear()
        } else {
            self.flags.anot_in_ear()
        })
    }

    /// Whether the right earbud is in an ear; always false while it charges.
    pub fn is_right_in_ear(&self) -> (r: bool)
        ensures
            r == self.spec_is_right_in_ear(),
    {
        !self.is_right_charging() && (if self.is_right_broadcasted() {
            self.flags.curr_in_ear()
        } else {
            self.flags.anot_in_ear()
        })
    }

    /// The record with its unidentified 16-byte tail zeroed and every other
    /// field untouched.
    pub open spec fn spec_desensitized(self) -> AirPods {
        AirPods {
            packet_type: self.packet_type,
            remaining_length: self.remaining_length,
            unk1: self.unk1,
            model_id: self.model_id,
            flags: self.flags,
            battery: self.battery,
            lid: self.lid,
            color: self.color,
            unk11: self.unk11,
            unk12: vstd::array::spec_array_fill_for_copy_type::<u8, 16>(0u8),
        }
    }

    /// Returns a copy of the record with the unidentified 16-byte tail
    /// zeroed; mandatory before the record leaves the process in any form.
    pub fn desensitize(&self) -> (r: AirPods)
        ensures
            r == self.spec_desensitized(),
    {
        let mut result = *self;
        result.unk12 = [0u8; 16];
        result
    }

    /// The full diagnostic report for a record.  The reserved tail is shown
    /// in its redacted form, so its rendering is the same sixteen zero bytes
    /// for every record.
    pub open spec fn spec_debug_info(self) -> Seq<char> {
        "AirPods Debug Info:\nModel: "@ + AirPods::spec_model_for(self.model_id).spec_name()
            + "\nPacket Type: "@ + self.packet_type.spec_name() + "\nRemaining Length: "@
            + spec_u8_str(self.remaining_length) + "\nColor: "@ + self.color.spec_name()
            + "\nLeft Battery: "@ + spec_u8_str(self.spec_left_battery())
            + spec_charging_suffix(self.spec_is_left_charging()) + "\nRight Battery: "@
            + spec_u8_str(self.spec_right_battery()) + spec_charging_suffix(
            self.spec_is_right_charging(),
        ) + "\nCase Battery: "@ + spec_u8_str(self.spec_case_battery())
            + spec_charging_suffix(self.spec_is_case_charging()) + "\nBoth in Case: "@
            + spec_bool_str(self.spec_is_both_in_case()) + "\nLid Opened: "@ + spec_bool_str(
            self.spec_is_lid_opened(),
        ) + "\nLeft In Ear: "@ + spec_bool_str(self.spec_is_left_in_ear()) + "\nRight In Ear: "@
            + spec_bool_str(self.spec_is_right_in_ear())
            + "\nDesensitized Payload: [00, 00, 00, 00, 00, 00, 00, 00, 00, 00, 00, 00, 00, 00, 00, 00]"@
    }

    /// Renders the fixed multi-line diagnostic report.  Battery levels are
    /// shown as percentages in steps of ten with a charging suffix; the
    /// reserved tail is always rendered redacted (all zero), never the raw
    /// bytes.
    pub fn debug_info(&self) -> (r: String)
        ensures
            r@ == self.spec_debug_info(),
    {
        let mut s = String::new();
        s.append("AirPods Debug Info:\nModel: ");
        s.append(self.get_model_instance().as_str());
        s.append("\nPacket Type: ");
        s.append(self.packet_type.as_str());
        s.append("\nRemaining Length: ");
        let remaining = u8_str(self.remaining_length);
        s.append(remaining.as_str());
        s.append("\nColor: ");
        s.append(self.color.as_str());
        s.append("\nLeft Battery: ");
        let left = u8_str(self.left_battery());
        s.append(left.as_str());
        s.append(charging_suffix(self.is_left_charging()));
        s.append("\nRight Battery: ");
        let right = u8_str(self.right_battery());
        s.append(right.as_str());
        s.append(charging_suffix(self.is_right_charging()));
        s.append("\nCase Battery: ");
        let case = u8_str(self.case_battery());
        s.append(case.as_str());
        s.append(charging_suffix(self.is_case_charging()));
        s.append("\nBoth in Case: ");
        s.append(bool_str(self.is_both_in_case()));
        s.append("\nLid Opened: ");
        s.append(bool_str(self.is_lid_opened()));
        s.append("\nLeft In Ear: ");
        s.append(bool_str(self.is_left_in_ear()));
        s.append("\nRight In Ear: ");
        s.append(bool_str(self.is_right_in_ear()));
        s.append(
            "\nDesensitized Payload: [00, 00, 00, 00, 00, 00, 00, 00, 00, 00, 00, 00, 00, 00, 00, 00]",
        );
        s
    }
}

/// Redaction is idempotent and touches nothing but the reserved tail: the
/// desensitized record has an all-zero tail, desensitizing it again changes
/// nothing, and every other field keeps its value.
pub proof fn lemma_desensitize_idempotent(ap: AirPods)
    ensures
        ap.spec_desensitized().spec_desensitized() == ap.spec_desensitized(),
        ap.spec_desensitized().unk12@ == Seq::new(16, |i: int| 0u8),
        ap.spec_desensitized().packet_type == ap.packet_type,
        ap.spec_desensitized().remaining_length == ap.remaining_length,
        ap.spec_desensitized().unk1 == ap.unk1,
        ap.spec_desensitized().model_id == ap.model_id,
        ap.spec_desensitized().flags == ap.flags,
        ap.spec_desensitized().battery == ap.battery,
        ap.spec_desensitized().lid == ap.lid,
        ap.spec_desensitized().color == ap.color,
        ap.spec_desensitized().unk11 == ap.unk11,
{
    assert(ap.spec_desensitized().unk12@ =~= Seq::new(16, |i: int| 0u8));
}

/// The diagnostic report never depends on the reserved tail: redacting a
/// record first changes nothing in what is rendered, so the report always
/// shows the redacted tail whether or not the caller desensitized the
/// record beforehand.
pub proof fn lemma_report_ignores_reserved_tail(ap: AirPods)
    ensures
        ap.spec_desensitized().spec_debug_info() == ap.spec_debug_info(),
{
}

/// Decoding is a function of the bytes alone: two records decoded from the
/// same byte sequence agree on every field.
pub proof fn lemma_decode_deterministic(data: Seq<u8>, ap1: AirPods, ap2: AirPods)
    requires
        decodes_to(data, ap1),
        decodes_to(data, ap2),
    ensures
        ap1 == ap2,
{
    assert(ap1.unk1 =~= ap2.unk1);
    assert(ap1.unk12 =~= ap2.unk12);
    assert(ap1 =~= ap2);
}

/// The charging bit wins over the in-ear bit: whenever the side-resolved
/// charging bit is set, that side never reports in-ear, whatever the in-ear
/// bits hold.
pub proof fn lemma_charging_excludes_in_ear(ap: AirPods)
    ensures
        ap.spec_is_left_charging() ==> !ap.spec_is_left_in_ear(),
        ap.spec_is_right_charging() ==> !ap.spec_is_right_in_ear(),
{
}

/// A battery nibble above 10 is not a real reading: that side reports 0.
pub proof fn lemma_overrange_battery_reports_zero(ap: AirPods)
    ensures
        ap.spec_raw_left_battery() > 10 ==> ap.spec_left_battery() == 0,
        ap.spec_raw_right_battery() > 10 ==> ap.spec_right_battery() == 0,
        ap.battery.spec_case_box() > 10 ==> ap.spec_case_battery() == 0,
{
}

} // verus!
