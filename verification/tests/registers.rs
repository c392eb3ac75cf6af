use wlink::bytes::{from_le_bytes, to_le_bytes};
use wlink::dmi::{decode_dmi, encode_dmi, DmiAccess};
use wlink::link::WchLink;
use wlink::text::{push_decimal, push_hex_byte};

#[test]
fn numbers_become_little_endian_bytes() {
    assert_eq!(to_le_bytes(0x71, 4), 0x71_u32.to_le_bytes().to_vec());
    assert_eq!(to_le_bytes(0x1234_5678, 4), vec![0x78, 0x56, 0x34, 0x12]);
    assert_eq!(to_le_bytes(u128::MAX - 5, 16), (u128::MAX - 5).to_le_bytes().to_vec());
    assert_eq!(to_le_bytes(0x1_0203, 2), vec![3, 2]);
    assert_eq!(to_le_bytes(7, 0), vec![]);
}

#[test]
fn little_endian_bytes_become_numbers() {
    assert_eq!(from_le_bytes(&[]), 0);
    assert_eq!(from_le_bytes(&[0x78, 0x56, 0x34, 0x12]), 0x1234_5678);
    assert_eq!(from_le_bytes(&[0xff; 16]), u128::MAX);
}

#[test]
fn bytes_and_numbers_round_trip() {
    let value: u128 = 0x0011_2233_4455_6677_8899_aabb_ccdd_eeff;
    assert_eq!(from_le_bytes(&to_le_bytes(value, 16)), value);
    let bytes = [9u8, 8, 7, 6];
    assert_eq!(to_le_bytes(from_le_bytes(&bytes), 4), bytes.to_vec());
}

#[test]
fn an_access_is_split_into_its_fields() {
    let word = (0x11u128 << 34) | (0xdead_beefu128 << 2) | 2;
    assert_eq!(decode_dmi(word), DmiAccess { addr: 0x11, value: 0xdead_beef, op: 2 });
}

#[test]
fn the_address_has_seven_bits() {
    let word = (0x3fu128 << 34) | 1;
    assert_eq!(decode_dmi(word), DmiAccess { addr: 0x3f, value: 0, op: 1 });
    assert_eq!(decode_dmi(word | (1 << 40)), DmiAccess { addr: 0x7f, value: 0, op: 1 });
    assert_eq!(decode_dmi(1 << 40), DmiAccess { addr: 0x40, value: 0, op: 0 });
}

#[test]
fn bits_beyond_the_address_are_dropped() {
    let word = (0x7fu128 << 34) | 1;
    assert_eq!(decode_dmi(word), DmiAccess { addr: 0x7f, value: 0, op: 1 });
    assert_eq!(decode_dmi(word | (1 << 41)), decode_dmi(word));
    assert_eq!(decode_dmi(u128::MAX), DmiAccess { addr: 0x7f, value: u32::MAX, op: 3 });
}

#[test]
fn an_answer_is_merged_into_a_word() {
    assert_eq!(encode_dmi(0x11, 0x0040_0382, 0), 0x0044_0100_0e08);
    assert_eq!(encode_dmi(0xff, u32::MAX, 3), 0xff * 0x4_0000_0000 + u32::MAX as u128 * 4 + 3);
    // A status of more than two bits falls onto the data.
    assert_eq!(encode_dmi(0, 1, 4), 4);
}

#[test]
fn an_answer_is_found_again() {
    let word = encode_dmi(0x38, 0x2004_0404, 3);
    assert_eq!(decode_dmi(word), DmiAccess { addr: 0x38, value: 0x2004_0404, op: 3 });
    let word = encode_dmi(0x7f, 1, 0);
    assert_eq!(decode_dmi(word), DmiAccess { addr: 0x7f, value: 1, op: 0 });
}

#[test]
fn numbers_are_written_out() {
    for number in 0..=255u8 {
        let mut text = String::from("n");
        push_decimal(&mut text, number);
        assert_eq!(text, format!("n{}", number));
        let mut text = String::from("x");
        push_hex_byte(&mut text, number);
        assert_eq!(text, format!("x{:02x}", number));
    }
}

#[test]
fn readable_registers() {
    assert!(WchLink::can_read_register(0x01, 32));
    assert!(WchLink::can_read_register(0x10, 32));
    assert!(WchLink::can_read_register(0x1f, 32));
    assert!(WchLink::can_read_register(0x101, 32));
    assert!(!WchLink::can_read_register(0x10, 41));
    assert!(!WchLink::can_read_register(0x11, 32));
    assert!(!WchLink::can_read_register(0x00, 32));
}

#[test]
fn writable_registers() {
    assert!(WchLink::can_write_register(0x10, &[0; 4], 32));
    assert!(WchLink::can_write_register(0x10, &[0; 4], 7));
    assert!(!WchLink::can_write_register(0x10, &[0; 16], 32));
    assert!(WchLink::can_write_register(0x11, &[0; 16], 41));
    assert!(!WchLink::can_write_register(0x11, &[0; 16], 42));
    assert!(!WchLink::can_write_register(0x11, &[0; 8], 41));
    assert!(!WchLink::can_write_register(0x11, &[3; 16], 41));
    assert!(!WchLink::can_write_register(0x01, &[0; 4], 32));
}

#[test]
fn hard_resets() {
    assert!(WchLink::asks_for_hard_reset(0x10, &[0, 0, 2, 0]));
    assert!(WchLink::asks_for_hard_reset(0x110, &[0xff, 0xff, 0xfe, 0xff]));
    assert!(!WchLink::asks_for_hard_reset(0x10, &[0, 0, 3, 0]));
    assert!(!WchLink::asks_for_hard_reset(0x10, &[0, 0, 0, 0]));
    assert!(!WchLink::asks_for_hard_reset(0x10, &[0, 0, 2]));
    assert!(!WchLink::asks_for_hard_reset(0x11, &[0, 0, 2, 0]));
}
