use sensirion_slf::crc8::{compute_crc8, crc8_matches};

#[test]
fn test_crc8() {
    assert!(crc8_matches(&[0xBE, 0xEF], 0x92))
}

#[test]
fn crc8_of_the_datasheet_example() {
    assert_eq!(compute_crc8(&[0xBE, 0xEF]), 0x92);
}

#[test]
fn crc8_check_value_of_the_nrsc5_catalogue() {
    assert_eq!(compute_crc8(b"123456789"), 0xF7);
}

#[test]
fn crc8_of_nothing_is_the_initial_value() {
    assert_eq!(compute_crc8(&[]), 0xFF);
}

#[test]
fn crc8_of_a_single_byte() {
    assert_eq!(compute_crc8(&[0x00]), 0xAC);
}

#[test]
fn crc8_mismatch_is_detected() {
    assert!(!crc8_matches(&[0xBE, 0xEF], 0x93));
    assert!(!crc8_matches(&[0xBE, 0xEE], 0x92));
}

#[test]
fn crc8_residue_of_a_message_and_its_checksum_is_zero() {
    assert_eq!(compute_crc8(&[0xBE, 0xEF, 0x92]), 0x00);
    let message = b"123456789";
    let mut with_crc = message.to_vec();
    with_crc.push(compute_crc8(message));
    assert_eq!(compute_crc8(&with_crc), 0x00);
}

#[test]
fn crc8_changes_when_any_one_byte_changes() {
    let message = *b"123456789";
    let reference = compute_crc8(&message);
    for position in 0..message.len() {
        for delta in 1..=255u8 {
            let mut corrupted = message;
            corrupted[position] ^= delta;
            assert_ne!(compute_crc8(&corrupted), reference);
        }
    }
}
