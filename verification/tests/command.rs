use sensirion_slf::command::Command;

#[test]
fn commands_are_sent_big_endian() {
    assert_eq!(Command::ContinuousMeasurementWater.to_be_bytes(), [0x36, 0x08]);
    assert_eq!(Command::ContinuousMeasurementIsopropylAlcohol.to_be_bytes(), [0x36, 0x15]);
    assert_eq!(Command::StopContinuousMeasurment.to_be_bytes(), [0x3F, 0xF9]);
    assert_eq!(Command::GeneralCallReset.to_be_bytes(), [0x00, 0x06]);
    assert_eq!(Command::ReadProductIdentifier32.to_be_bytes(), [0x36, 0x7C]);
    assert_eq!(Command::ReadProductIdentifier64.to_be_bytes(), [0xE1, 0x02]);
}

#[test]
fn command_codes_match_the_datasheet() {
    assert_eq!(Command::ContinuousMeasurementWater.code(), 0x3608);
    assert_eq!(Command::ContinuousMeasurementIsopropylAlcohol.code(), 0x3615);
    assert_eq!(Command::StopContinuousMeasurment.code(), 0x3FF9);
    assert_eq!(Command::GeneralCallReset.code(), 0x0006);
    assert_eq!(Command::ReadProductIdentifier32.code(), 0x367C);
    assert_eq!(Command::ReadProductIdentifier64.code(), 0xE102);
}

#[test]
fn encodings_of_distinct_commands_differ() {
    let all = [
        Command::ContinuousMeasurementWater,
        Command::ContinuousMeasurementIsopropylAlcohol,
        Command::StopContinuousMeasurment,
        Command::GeneralCallReset,
        Command::ReadProductIdentifier32,
        Command::ReadProductIdentifier64,
    ];
    for a in all.iter() {
        for b in all.iter() {
            assert_eq!(a == b, a.to_be_bytes() == b.to_be_bytes());
        }
    }
}
