use airpods_adv::airpods::{as_airpods, AirPods, RECORD_SIZE, VENDOR_ID};
use airpods_adv::model::Model;
use airpods_adv::packet::color::Color;
use airpods_adv::packet::packet_type::PacketType;

/// A well-formed all-zero payload: correct header, everything else zero.
fn base_payload() -> Vec<u8> {
    let mut data = vec![0u8; 27];
    data[0] = 0x07;
    data[1] = 0x19;
    data
}

#[test]
fn rejects_wrong_length() {
    for len in [0usize, 1, 2, 10, 26, 28, 54, 100] {
        let mut data = vec![0u8; len];
        if len > 0 {
            data[0] = 0x07;
        }
        if len > 1 {
            data[1] = 0x19;
        }
        assert!(!AirPods::is_valid(&data));
        assert!(as_airpods(&data).is_none());
    }
}

#[test]
fn rejects_wrong_type_byte() {
    let mut data = base_payload();
    data[0] = 0x08;
    assert!(!AirPods::is_valid(&data));
    assert!(as_airpods(&data).is_none());
}

#[test]
fn rejects_wrong_remaining_length_byte() {
    let mut data = base_payload();
    data[1] = 0x18;
    assert!(!AirPods::is_valid(&data));
    assert!(as_airpods(&data).is_none());
}

#[test]
fn decodes_all_zero_payload() {
    let data = base_payload();
    assert!(AirPods::is_valid(&data));
    let ap = as_airpods(&data).expect("valid header must decode");
    assert_eq!(AirPods::get_model(0), Model::Unknown);
    assert_eq!(ap.get_model_instance(), Model::Unknown);
    assert_eq!(ap.color, Color::White);
    assert_eq!(ap.packet_type, PacketType::ProximityPairing);
    assert_eq!(ap.remaining_length, 0x19);
    assert!(!ap.is_left_broadcasted());
    assert!(!ap.is_both_in_case());
    assert!(!ap.is_left_charging());
    assert!(!ap.is_right_charging());
    assert!(!ap.is_case_charging());
    assert!(!ap.is_left_in_ear());
    assert!(!ap.is_right_in_ear());
    // lid bit 3 is zero, so the lid is not closed
    assert!(ap.is_lid_opened());
    assert_eq!(ap.left_battery(), 0);
    assert_eq!(ap.right_battery(), 0);
    assert_eq!(ap.case_battery(), 0);
}

#[test]
fn extracts_every_field() {
    let mut data = base_payload();
    data[2] = 0xAA; // unk1
    data[3] = 0x0E; // model id, low byte
    data[4] = 0x20; // model id, high byte
    data[5] = 0x2E; // flags
    data[6] = 0x53; // battery nibbles
    data[7] = 0x71; // case nibble and charging bits
    data[8] = 0x0D; // lid
    data[9] = 0x03; // color
    data[10] = 0xBB; // unk11
    for i in 0..16 {
        data[11 + i] = 0xC0 + i as u8;
    }
    let ap = as_airpods(&data).expect("valid header must decode");
    assert_eq!(ap.packet_type, PacketType::ProximityPairing);
    assert_eq!(ap.remaining_length, 0x19);
    assert_eq!(ap.unk1, [0xAA]);
    assert_eq!(ap.model_id, 0x200E); // little-endian
    assert_eq!(ap.get_model_instance(), Model::AirPodsPro);
    assert_eq!(ap.flags.bits, 0x2E);
    assert_eq!(ap.battery.bits, 0x53);
    assert_eq!(ap.battery.extra, 0x71);
    assert_eq!(ap.lid.bits, 0x0D);
    assert_eq!(ap.color, Color::Blue);
    assert_eq!(ap.unk11, 0xBB);
    let expected_tail: Vec<u8> = (0..16).map(|i| 0xC0 + i as u8).collect();
    assert_eq!(ap.unk12.to_vec(), expected_tail);
}

#[test]
fn round_trip_stable() {
    let mut data = base_payload();
    data[3] = 0x13;
    data[4] = 0x20;
    data[5] = 0x2E;
    data[6] = 0x84;
    data[7] = 0x55;
    data[8] = 0x09;
    data[9] = 0x0C;
    for i in 0..16 {
        data[11 + i] = 0x30 + i as u8;
    }
    let a = as_airpods(&data).expect("valid header must decode");
    let b = as_airpods(&data).expect("valid header must decode");
    assert_eq!(a.packet_type, b.packet_type);
    assert_eq!(a.remaining_length, b.remaining_length);
    assert_eq!(a.unk1, b.unk1);
    assert_eq!(a.model_id, b.model_id);
    assert_eq!(a.flags.bits, b.flags.bits);
    assert_eq!(a.battery.bits, b.battery.bits);
    assert_eq!(a.battery.extra, b.battery.extra);
    assert_eq!(a.lid.bits, b.lid.bits);
    assert_eq!(a.color, b.color);
    assert_eq!(a.unk11, b.unk11);
    assert_eq!(a.unk12, b.unk12);
}

#[test]
fn model_table_is_closed() {
    assert_eq!(AirPods::get_model(0x2002), Model::AirPods1);
    assert_eq!(AirPods::get_model(0x200F), Model::AirPods2);
    assert_eq!(AirPods::get_model(0x2013), Model::AirPods3);
    assert_eq!(AirPods::get_model(0x200E), Model::AirPodsPro);
    assert_eq!(AirPods::get_model(0x2014), Model::AirPodsPro2);
    assert_eq!(AirPods::get_model(0x2024), Model::AirPodsPro2UsbC);
    assert_eq!(AirPods::get_model(0x200A), Model::AirPodsMax);
    assert_eq!(AirPods::get_model(0x0000), Model::Unknown);
    assert_eq!(AirPods::get_model(0x2003), Model::Unknown);
    assert_eq!(AirPods::get_model(0xFFFF), Model::Unknown);
}

#[test]
fn color_codes_map_with_fallback() {
    assert_eq!(Color::from(0x0), Color::White);
    assert_eq!(Color::from(0x1), Color::Black);
    assert_eq!(Color::from(0x2), Color::Red);
    assert_eq!(Color::from(0x3), Color::Blue);
    assert_eq!(Color::from(0x4), Color::Pink);
    assert_eq!(Color::from(0x5), Color::Gray);
    assert_eq!(Color::from(0x6), Color::Silver);
    assert_eq!(Color::from(0x7), Color::Gold);
    assert_eq!(Color::from(0x8), Color::RoseGold);
    assert_eq!(Color::from(0x9), Color::SpaceGray);
    assert_eq!(Color::from(0xA), Color::DarkBlue);
    assert_eq!(Color::from(0xB), Color::LightBlue);
    assert_eq!(Color::from(0xC), Color::Yellow);
    assert_eq!(Color::from(0xD), Color::Unknown);
    assert_eq!(Color::from(0xFF), Color::Unknown);
}

#[test]
fn packet_type_codes_map_with_fallback() {
    assert_eq!(PacketType::from(0x3), PacketType::AirPrint);
    assert_eq!(PacketType::from(0x5), PacketType::AirDrop);
    assert_eq!(PacketType::from(0x6), PacketType::HomeKit);
    assert_eq!(PacketType::from(0x7), PacketType::ProximityPairing);
    assert_eq!(PacketType::from(0x8), PacketType::HeySiri);
    assert_eq!(PacketType::from(0x9), PacketType::AirPlay);
    assert_eq!(PacketType::from(0xB), PacketType::MagicSwitch);
    assert_eq!(PacketType::from(0xC), PacketType::Handoff);
    assert_eq!(
        PacketType::from(0xD),
        PacketType::InstantHotspotTetheringTargetPresence
    );
    assert_eq!(
        PacketType::from(0xE),
        PacketType::InstantHotspotTetheringSourcePresence
    );
    assert_eq!(PacketType::from(0xF), PacketType::NearbyAction);
    assert_eq!(PacketType::from(0x10), PacketType::NearbyInfo);
    assert_eq!(PacketType::from(0x0), PacketType::Unknown);
    assert_eq!(PacketType::from(0x4), PacketType::Unknown);
    assert_eq!(PacketType::from(0xFF), PacketType::Unknown);
}

#[test]
fn record_size_matches_wire_contract() {
    assert_eq!(RECORD_SIZE, 27);
    assert_eq!(VENDOR_ID, 76);
}
