use sensirion_slf::crc8::compute_crc8;
use sensirion_slf::identifier::{parse_product_identifier, ProductIdentifier, SensorModel};

fn answer(words: [u16; 6]) -> Vec<u8> {
    let mut bytes = Vec::new();
    for w in words {
        let pair = w.to_be_bytes();
        bytes.push(pair[0]);
        bytes.push(pair[1]);
        bytes.push(compute_crc8(&pair));
    }
    bytes
}

#[test]
fn identifier_of_an_slf3s_0600f() {
    let bytes = answer([0x0703, 0x0302, 0x0000, 0x0001, 0x2345, 0x6789]);
    assert_eq!(
        parse_product_identifier(&bytes),
        Some(ProductIdentifier { product_number: 0x07030302, serial_number: 0x0000_0001_2345_6789 })
    );
    assert_eq!(SensorModel::from_product_number(0x07030302), Some(SensorModel::Slf3s0600F));
}

#[test]
fn identifier_with_a_corrupted_word_is_refused() {
    let mut bytes = answer([0x0703, 0x0202, 0xFFFF, 0x0000, 0x1234, 0xABCD]);
    bytes[10] ^= 0x01;
    assert_eq!(parse_product_identifier(&bytes), None);
    let mut bytes = answer([0x0703, 0x0202, 0xFFFF, 0x0000, 0x1234, 0xABCD]);
    bytes[17] ^= 0x80;
    assert_eq!(parse_product_identifier(&bytes), None);
}

#[test]
fn identifier_of_the_wrong_length_is_refused() {
    let bytes = answer([0x0703, 0x0202, 0xFFFF, 0x0000, 0x1234, 0xABCD]);
    assert_eq!(parse_product_identifier(&bytes[..17]), None);
    assert_eq!(parse_product_identifier(&[]), None);
    let mut longer = bytes.clone();
    longer.push(0);
    assert_eq!(parse_product_identifier(&longer), None);
}

#[test]
fn identifier_of_a_silent_bus_is_refused() {
    assert_eq!(parse_product_identifier(&[0u8; 18]), None);
}

#[test]
fn models_are_recognised_by_their_product_numbers() {
    let models = [
        (SensorModel::Slf3s1300F, 0x07030202, "SLF3S-1300F"),
        (SensorModel::Slf3s0600F, 0x07030302, "SLF3S-0600F"),
        (SensorModel::Slf3c1300F, 0x07030402, "SLF3C-1300F"),
        (SensorModel::Slf3s4000B, 0x07030501, "SLF3S-4000B"),
    ];
    for (model, number, name) in models {
        assert_eq!(model.product_number(), number);
        assert_eq!(SensorModel::from_product_number(number), Some(model));
        assert_eq!(model.name(), name);
    }
    assert_eq!(SensorModel::from_product_number(0x07030502), None);
    assert_eq!(SensorModel::from_product_number(0), None);
}
