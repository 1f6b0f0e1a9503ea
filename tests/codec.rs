use dsrelay::checksum::{calculate_checksum_bt, transform_u32_to_array_of_u8};
use dsrelay::device::DSType;
use dsrelay::input::{
    decode, DS4PacketBT, DS4PacketUSB, DSensePacketBT, DSensePacketUSB, DecodeError,
};
use dsrelay::output::{
    get_player_led_from_battery, ControlRelay, ControlType, DS4Controls, DSenseControls,
};

/// Bitwise CRC-32 (reflected, polynomial 0xEDB88320), written out here so that
/// the library's checksum is compared with a computation of its own.
fn reference_crc32(data: &[u8]) -> u32 {
    let mut crc: u32 = 0xFFFF_FFFF;
    for &byte in data {
        crc ^= byte as u32;
        for _ in 0..8 {
            if crc & 1 != 0 {
                crc = (crc >> 1) ^ 0xEDB8_8320;
            } else {
                crc >>= 1;
            }
        }
    }
    !crc
}

fn reference_bt_checksum(report: &[u8]) -> [u8; 4] {
    let mut buf = vec![0xA2u8];
    buf.extend_from_slice(&report[0..74]);
    reference_crc32(&buf).to_le_bytes()
}

/// A report of the given length whose byte i is i + 100 (mod 256), with the
/// signature and battery bytes set.
fn raw_report(len: usize, signature: u8, battery_at: usize, battery: u8) -> Vec<u8> {
    let mut raw: Vec<u8> = (0..len).map(|i| (i as u8).wrapping_add(100)).collect();
    raw[0] = signature;
    raw[battery_at] = battery;
    raw
}

#[test]
fn reference_crc_matches_published_check_value() {
    assert_eq!(reference_crc32(b"123456789"), 0xCBF4_3926);
}

#[test]
fn checksum_of_zero_report_matches_reference() {
    let body = [0u8; 74];
    let mut report = body.to_vec();
    report.extend_from_slice(&[0, 0, 0, 0]);
    assert_eq!(calculate_checksum_bt(&body), reference_bt_checksum(&report));
    assert_ne!(calculate_checksum_bt(&body), [0, 0, 0, 0]);
}

#[test]
fn u32_bytes_are_little_endian() {
    assert_eq!(transform_u32_to_array_of_u8(0x1234_5678), [0x78, 0x56, 0x34, 0x12]);
    assert_eq!(transform_u32_to_array_of_u8(0), [0, 0, 0, 0]);
    assert_eq!(transform_u32_to_array_of_u8(u32::MAX), [0xFF; 4]);
}

#[test]
fn decode_ds4_bt_follows_layout() {
    let raw = raw_report(78, 0x11, 32, 0x07);
    let d = decode(DSType::DS4BT, &raw).unwrap();
    assert_eq!(d.frame.len(), 64);
    assert_eq!(d.frame, raw[2..66].to_vec());
    for k in 0..4 {
        assert_eq!(d.frame[1 + k], raw[3 + k]);
    }
    assert_eq!(d.frame[8], raw[10]);
    assert_eq!(d.frame[9], raw[11]);
    assert_eq!(d.frame[5], raw[7]);
    assert_eq!(d.frame[6], raw[8]);
    assert_eq!(d.battery, 70);
}

#[test]
fn decode_ds4_usb_follows_layout() {
    let raw = raw_report(64, 0x01, 30, 0x1A);
    let d = decode(DSType::DS4USB, &raw).unwrap();
    assert_eq!(d.frame, raw);
    assert_eq!(d.battery, 100);
}

#[test]
fn decode_dsense_bt_follows_layout() {
    let raw = raw_report(78, 0x31, 54, 0x05);
    let d = decode(DSType::SenseBT, &raw).unwrap();
    assert_eq!(d.frame.len(), 64);
    assert_eq!(&d.frame[1..5], &raw[2..6]);
    assert_eq!(d.frame[5], raw[9]);
    assert_eq!(d.frame[6], raw[10]);
    assert_eq!(d.frame[8], raw[6]);
    assert_eq!(d.frame[9], raw[7]);
    assert_eq!(d.frame[0], 0);
    assert_eq!(d.frame[7], 0);
    assert!(d.frame[10..].iter().all(|&b| b == 0));
    assert_eq!(d.battery, 50);
}

#[test]
fn decode_dsense_usb_follows_layout() {
    let raw = raw_report(64, 0x01, 53, 0x13);
    let d = decode(DSType::SenseUSB, &raw).unwrap();
    assert_eq!(&d.frame[1..5], &raw[1..5]);
    assert_eq!(d.frame[5], raw[8]);
    assert_eq!(d.frame[6], raw[9]);
    assert_eq!(d.frame[8], raw[5]);
    assert_eq!(d.frame[9], raw[6]);
    assert_eq!(d.battery, 30);
}

#[test]
fn dsense_full_status_reads_as_full() {
    let raw = raw_report(64, 0x01, 53, 0x23);
    assert_eq!(decode(DSType::SenseUSB, &raw).unwrap().battery, 100);
}

#[test]
fn dsense_unknown_status_is_refused() {
    let raw = raw_report(78, 0x31, 54, 0x35);
    assert_eq!(decode(DSType::SenseBT, &raw).unwrap_err(), DecodeError::BadChargingStatus);
    let mut p = DSensePacketBT::new();
    assert!(p.read(&raw).is_ok());
    assert_eq!(p.battery_capacity(), Err(DecodeError::BadChargingStatus));
}

#[test]
fn wrong_length_is_refused() {
    let raw = raw_report(64, 0x11, 32, 0);
    assert_eq!(decode(DSType::DS4BT, &raw).unwrap_err(), DecodeError::WrongLength);
    let raw = raw_report(78, 0x01, 30, 0);
    assert_eq!(decode(DSType::DS4USB, &raw).unwrap_err(), DecodeError::WrongLength);
    assert_eq!(decode(DSType::SenseUSB, &[]).unwrap_err(), DecodeError::WrongLength);
}

#[test]
fn wrong_signature_is_refused() {
    let raw = raw_report(78, 0x12, 32, 0);
    assert_eq!(decode(DSType::DS4BT, &raw).unwrap_err(), DecodeError::InvalidFrame);
    let raw = raw_report(78, 0x11, 54, 0);
    assert_eq!(decode(DSType::SenseBT, &raw).unwrap_err(), DecodeError::InvalidFrame);
    let mut p = DS4PacketUSB::new();
    let raw = raw_report(64, 0x02, 30, 0);
    assert_eq!(p.read(&raw), Err(DecodeError::InvalidFrame));
    assert!(!p.is_valid());
}

#[test]
fn packet_methods_agree_with_decode() {
    let raw = raw_report(78, 0x11, 32, 0x04);
    let mut p = DS4PacketBT::new();
    assert_eq!(p.get_size(), 78);
    p.read(&raw).unwrap();
    assert!(p.is_valid());
    assert_eq!(p.battery_capacity(), 40);
    assert_eq!(p.to_ds4_packet(), raw[2..66].to_vec());
    let mut q = DSensePacketUSB::new();
    assert_eq!(q.get_size(), 64);
    let raw = raw_report(64, 0x01, 53, 0x09);
    q.read(&raw).unwrap();
    assert_eq!(q.battery_capacity(), Ok(90));
}

#[test]
fn ds4_usb_report_layout() {
    let mut c = DS4Controls::new();
    c.set_rumble(200, 10);
    c.set_color(1, 2, 3);
    let r = c.make_packet_usb();
    let mut expected = vec![0u8; 32];
    expected[0] = 0x05;
    expected[1] = 0x07;
    expected[4] = 10;
    expected[5] = 200;
    expected[6] = 1;
    expected[7] = 2;
    expected[8] = 3;
    assert_eq!(r, expected);
}

#[test]
fn ds4_empty_battery_turns_light_red() {
    let mut c = DS4Controls::new();
    c.set_battery(0);
    let r = c.make_packet_usb();
    assert_eq!(&r[6..9], &[255, 0, 0]);
    assert_eq!(c.fill_packet(), vec![0, 0, 255, 0, 0, 0, 0]);
}

#[test]
fn ds4_bt_report_checksum_matches_reference() {
    let mut c = DS4Controls::new();
    c.set_rumble(0x40, 0x80);
    let r = c.make_packet_with_checksum();
    assert_eq!(r.len(), 78);
    assert_eq!(r[0], 0x11);
    assert_eq!(r[1], 0xC4);
    assert_eq!(r[3], 0x07);
    assert_eq!(r[6], 0x80);
    assert_eq!(r[7], 0x40);
    assert_eq!(&r[8..11], &[0, 0, 255]);
    assert_eq!(r[23], 0x49);
    assert_eq!(r[25], 0x85);
    assert_eq!(&r[74..78], &reference_bt_checksum(&r));
}

#[test]
fn dsense_bt_report_checksum_matches_reference() {
    let mut c = DSenseControls::new();
    c.set_rumble(9, 8);
    c.set_color(10, 20, 30);
    c.set_battery(75);
    let r = c.make_packet_with_checksum();
    assert_eq!(r.len(), 78);
    assert_eq!(&r[0..3], &[0x31, 0x00, 0x10]);
    assert_eq!(&r[3..7], &[0x0F, 0x55, 8, 9]);
    assert_eq!(r[3 + 38], 0x05);
    assert_eq!(r[3 + 42], 0x02);
    assert_eq!(r[3 + 43], 0x1B);
    assert_eq!(&r[3 + 44..3 + 47], &[10, 20, 30]);
    assert_eq!(&r[74..78], &reference_bt_checksum(&r));
}

#[test]
fn dsense_usb_report_layout() {
    let mut c = DSenseControls::new();
    c.set_rumble(1, 2);
    let r = c.make_packet_usb();
    assert_eq!(r.len(), 63);
    assert_eq!(&r[0..5], &[0x02, 0x0F, 0x55, 2, 1]);
    assert_eq!(r[44], 0x1F);
    assert_eq!(&r[45..48], &[0, 0, 255]);
    assert_eq!(c.fill_packet(), r[1..48].to_vec());
}

#[test]
fn player_led_thresholds() {
    let cases = [
        (100, 0x1F),
        (90, 0x1F),
        (89, 0x1B),
        (70, 0x1B),
        (69, 0x15),
        (50, 0x15),
        (49, 0x06),
        (20, 0x06),
        (19, 0x04),
        (10, 0x04),
        (9, 0),
        (0, 0),
    ];
    for (battery, led) in cases {
        assert_eq!(get_player_led_from_battery(battery), led);
    }
}

#[test]
fn encoding_the_same_state_twice_is_identical() {
    let mut c = DS4Controls::new();
    c.set_color(5, 6, 7);
    assert_eq!(c.make_packet_with_checksum(), c.make_packet_with_checksum());
    assert_eq!(c.make_packet_usb(), c.make_packet_usb());
    let d = DSenseControls::new();
    assert_eq!(d.make_packet_usb(), d.make_packet_usb());
}

#[test]
fn dsense_sequence_advances_by_one_mod_16() {
    let mut c = DSenseControls::new();
    let first = c.make_packet_with_checksum();
    let mut prev = first.clone();
    for n in 1..=16u8 {
        let r = c.make_packet_with_checksum();
        assert_eq!(r[1], (n % 16) << 4);
        assert_eq!(&r[2..74], &prev[2..74]);
        assert_eq!(&r[74..78], &reference_bt_checksum(&r));
        prev = r;
    }
    assert_eq!(prev, first);
}

#[test]
fn control_relay_folds_commands_in_order() {
    let mut relay = ControlRelay::new(DSType::DS4USB);
    relay.apply_command(ControlType::Color { r: 1, g: 2, b: 3 });
    let r = relay.apply_command(ControlType::Rumble { large: 7, small: 8 });
    assert_eq!(&r[4..9], &[8, 7, 1, 2, 3]);
    let r = relay.apply_command(ControlType::Battery(0));
    assert_eq!(&r[4..9], &[8, 7, 255, 0, 0]);
    let r = relay.apply_command(ControlType::Battery(50));
    assert_eq!(&r[4..9], &[8, 7, 1, 2, 3]);

    let mut relay = ControlRelay::new(DSType::SenseBT);
    let a = relay.apply_command(ControlType::Battery(15));
    let b = relay.apply_command(ControlType::Battery(15));
    assert_eq!(a[1], 0x00);
    assert_eq!(b[1], 0x10);
    assert_eq!(a[3 + 43], 0x04);
    assert_eq!(&a[2..74], &b[2..74]);
}
