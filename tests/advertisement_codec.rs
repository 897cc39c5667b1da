use bluest::advertisement::{
    encode_sections, parse_sections, read_uuid, AdvertisementData, DataSection, ManufacturerData, UuidKind,
};
use bluest::Uuid;

fn section(data_type: u8, data: &[u8]) -> DataSection {
    DataSection { data_type, data: data.to_vec() }
}

const HEART_RATE: u128 = 0x0000180d_0000_1000_8000_00805f9b34fb;
const BATTERY: u128 = 0x0000180f_0000_1000_8000_00805f9b34fb;

#[test]
fn manufacturer_data_strips_company_id() {
    let m = ManufacturerData::from_bytes(&[0x4c, 0x00, 0x02, 0x15, 0xaa, 0x01]).unwrap();
    assert_eq!(m.company_id, 0x004c);
    assert_eq!(m.data, vec![0x02, 0x15, 0xaa, 0x01]);
}

#[test]
fn manufacturer_section_decodes_in_order() {
    let adv = AdvertisementData::from_sections(&[section(0xff, &[0x4c, 0x00, 0x02, 0x15])], false);
    let m = adv.manufacturer_data.unwrap();
    assert_eq!(m.company_id, 0x004c);
    assert_eq!(m.data, vec![0x02, 0x15]);
}

#[test]
fn manufacturer_data_too_short_is_dropped() {
    assert_eq!(ManufacturerData::from_bytes(&[0x4c]), None);
    let adv = AdvertisementData::from_sections(&[section(0xff, &[0x4c]), section(0x09, b"x")], false);
    assert_eq!(adv.manufacturer_data, None);
    assert_eq!(adv.local_name, Some("x".to_string()));
}

#[test]
fn first_manufacturer_section_is_kept() {
    let adv = AdvertisementData::from_sections(
        &[section(0xff, &[0x01, 0x02, 0x03]), section(0xff, &[0x04, 0x05])],
        false,
    );
    let m = adv.manufacturer_data.unwrap();
    assert_eq!(m.company_id, 0x0201);
    assert_eq!(m.data, vec![0x03]);
}

#[test]
fn manufacturer_data_encodes_little_endian() {
    let m = ManufacturerData { company_id: 0x1234, data: vec![9, 8] };
    assert_eq!(m.to_bytes(), vec![0x34, 0x12, 9, 8]);
    assert_eq!(ManufacturerData::from_bytes(&m.to_bytes()), Some(m));
}

#[test]
fn decoding_twice_gives_equal_data() {
    let raw = [
        0x02, 0x01, 0x06, 0x03, 0x03, 0x0d, 0x18, 0x05, 0x09, b'a', b'b', b'c', b'd', 0x05, 0xff, 0x4c, 0x00,
        0x02, 0x15,
    ];
    let a = AdvertisementData::from_payload(&raw, true);
    let b = AdvertisementData::from_payload(&raw, true);
    assert_eq!(a, b);
}

#[test]
fn unknown_section_is_ignored() {
    let with = [
        section(0x09, b"tag"),
        section(0x99, &[1, 2, 3]),
        section(0x03, &[0x0d, 0x18]),
    ];
    let without = [section(0x09, b"tag"), section(0x03, &[0x0d, 0x18])];
    let a = AdvertisementData::from_sections(&with, false);
    let b = AdvertisementData::from_sections(&without, false);
    assert_eq!(a, b);
    assert_eq!(a.local_name, Some("tag".to_string()));
    assert_eq!(a.services, vec![Uuid::from_u128(HEART_RATE)]);
}

#[test]
fn short_service_uuids_are_expanded() {
    let adv = AdvertisementData::from_sections(
        &[section(0x02, &[0x0d, 0x18, 0x0f, 0x18]), section(0x05, &[0x78, 0x56, 0x34, 0x12])],
        false,
    );
    assert_eq!(
        adv.services,
        vec![
            Uuid::from_u128(HEART_RATE),
            Uuid::from_u128(BATTERY),
            Uuid::from_u128(0x12345678_0000_1000_8000_00805f9b34fb),
        ]
    );
}

#[test]
fn long_service_uuid_is_little_endian() {
    let mut bytes = [0u8; 16];
    for (i, b) in bytes.iter_mut().enumerate() {
        *b = i as u8;
    }
    let adv = AdvertisementData::from_sections(&[section(0x07, &bytes)], false);
    assert_eq!(adv.services, vec![Uuid::from_u128(0x0f0e0d0c_0b0a_0908_0706_050403020100)]);
}

#[test]
fn malformed_service_list_is_dropped() {
    let adv = AdvertisementData::from_sections(&[section(0x03, &[0x0d, 0x18, 0x0f])], false);
    assert!(adv.services.is_empty());
}

#[test]
fn repeated_service_is_listed_once() {
    let adv = AdvertisementData::from_sections(
        &[section(0x03, &[0x0d, 0x18, 0x0d, 0x18]), section(0x02, &[0x0d, 0x18])],
        false,
    );
    assert_eq!(adv.services, vec![Uuid::from_u128(HEART_RATE)]);
}

#[test]
fn solicited_services_are_decoded() {
    let adv = AdvertisementData::from_sections(&[section(0x14, &[0x0f, 0x18])], false);
    assert_eq!(adv.solicited_services, vec![Uuid::from_u128(BATTERY)]);
    assert!(adv.services.is_empty());
}

#[test]
fn service_data_keyed_by_uuid() {
    let adv = AdvertisementData::from_sections(
        &[section(0x16, &[0x0f, 0x18, 0x64]), section(0x20, &[0x0d, 0x18, 0x00, 0x00, 0x01, 0x02])],
        false,
    );
    assert_eq!(adv.service_data.len(), 2);
    assert_eq!(adv.service_data[0].uuid, Uuid::from_u128(BATTERY));
    assert_eq!(adv.service_data[0].data, vec![0x64]);
    assert_eq!(adv.service_data[1].uuid, Uuid::from_u128(HEART_RATE));
    assert_eq!(adv.service_data[1].data, vec![0x01, 0x02]);
}

#[test]
fn later_service_data_replaces_earlier() {
    let adv = AdvertisementData::from_sections(
        &[section(0x16, &[0x0f, 0x18, 0x10]), section(0x16, &[0x0f, 0x18, 0x20, 0x21])],
        false,
    );
    assert_eq!(adv.service_data.len(), 1);
    assert_eq!(adv.service_data[0].data, vec![0x20, 0x21]);
}

#[test]
fn service_data_too_short_is_dropped() {
    let adv = AdvertisementData::from_sections(&[section(0x21, &[1, 2, 3])], false);
    assert!(adv.service_data.is_empty());
}

#[test]
fn tx_power_level_is_signed() {
    let adv = AdvertisementData::from_sections(&[section(0x0a, &[0xf4])], true);
    assert_eq!(adv.tx_power_level, Some(-12));
    assert!(adv.is_connectable);
    let bad = AdvertisementData::from_sections(&[section(0x0a, &[1, 2])], false);
    assert_eq!(bad.tx_power_level, None);
}

#[test]
fn local_name_is_decoded_lossily() {
    let adv = AdvertisementData::from_sections(&[section(0x08, &[b'h', 0xff, b'i'])], false);
    assert_eq!(adv.local_name, Some("h\u{fffd}i".to_string()));
    let empty = AdvertisementData::from_sections(&[section(0x09, &[])], false);
    assert_eq!(empty.local_name, None);
}

#[test]
fn empty_payload_decodes_to_nothing() {
    let adv = AdvertisementData::from_payload(&[], false);
    assert_eq!(adv, AdvertisementData::empty(false));
    assert_eq!(adv.local_name, None);
    assert!(adv.services.is_empty());
}

#[test]
fn payload_splits_into_sections() {
    let raw = [0x02, 0x01, 0x06, 0x03, 0x03, 0x0d, 0x18, 0x00, 0x02, 0x09, b'z'];
    let sections = parse_sections(&raw);
    assert_eq!(sections, vec![section(0x01, &[0x06]), section(0x03, &[0x0d, 0x18])]);
}

#[test]
fn truncated_section_ends_payload() {
    let raw = [0x02, 0x0a, 0x05, 0x09, 0x09, b'a'];
    let sections = parse_sections(&raw);
    assert_eq!(sections, vec![section(0x0a, &[0x05])]);
    let adv = AdvertisementData::from_payload(&raw, false);
    assert_eq!(adv.tx_power_level, Some(5));
    assert_eq!(adv.local_name, None);
}

#[test]
fn sections_encode_and_split_back() {
    let sections = vec![section(0x09, b"name"), section(0xff, &[0x4c, 0x00]), section(0x01, &[])];
    let raw = encode_sections(&sections);
    assert_eq!(raw, vec![0x05, 0x09, b'n', b'a', b'm', b'e', 0x03, 0xff, 0x4c, 0x00, 0x01, 0x01]);
    assert_eq!(parse_sections(&raw), sections);
}

#[test]
fn read_uuid_of_each_width() {
    let bytes = [0xaa, 0x0d, 0x18, 0x00, 0x00];
    assert_eq!(read_uuid(&bytes, 1, UuidKind::U16), Uuid::from_u128(HEART_RATE));
    assert_eq!(read_uuid(&bytes, 1, UuidKind::U32), Uuid::from_u128(HEART_RATE));
    let long = [0x11u8; 16];
    assert_eq!(read_uuid(&long, 0, UuidKind::U128), Uuid::from_u128(0x11111111_1111_1111_1111_111111111111));
}

#[test]
fn short_uuid_expansion() {
    assert_eq!(Uuid::from_u16(0x180d).as_u128(), HEART_RATE);
    assert_eq!(Uuid::from_u32(0xffff_ffff).as_u128(), 0xffffffff_0000_1000_8000_00805f9b34fb);
}

#[test]
fn uuid_text_is_hyphenated_lower_case() {
    assert_eq!(Uuid::from_u16(0x180d).to_hyphenated_string(), "0000180d-0000-1000-8000-00805f9b34fb");
}
