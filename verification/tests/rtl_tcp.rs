use adsbee::rtlsdr::{
    COMMAND_CENTER_FREQUENCY,
    DongleInfo,
    command_bytes,
    nearest_supported_gain,
    samples_after_read,
};

#[test]
fn header_gives_dongle_info() {
    let header = [b'R', b'T', b'L', b'0', 0, 0, 0, 5, 0, 0, 0, 29];
    let info = DongleInfo::from_header(header);
    assert_eq!(&info.magic, b"RTL0");
    assert_eq!(info.tuner_type, 5);
    assert_eq!(info.tuner_gain_type, 29);
}

#[test]
fn commands_carry_big_endian_arguments() {
    assert_eq!(
        command_bytes(COMMAND_CENTER_FREQUENCY, 1_090_000_000),
        [0x01, 0x40, 0xf8, 0x14, 0x80]
    );
}

#[test]
fn odd_reads_keep_a_byte() {
    assert_eq!(samples_after_read(0, 7), (3, true));
    assert_eq!(samples_after_read(1, 7), (4, false));
    assert_eq!(samples_after_read(1, 0), (0, true));
    assert_eq!(samples_after_read(0, 8), (4, false));
}

#[test]
fn gains_are_rounded_to_supported_ones() {
    let supported = [0, 9, 14, 27, 37, 77, 87, 125, 144, 157];
    assert_eq!(nearest_supported_gain(&supported, 100), Some(87));
    assert_eq!(nearest_supported_gain(&supported, -50), Some(0));
    assert_eq!(nearest_supported_gain(&supported, 1000), Some(157));
    // between 10 and 14 at the same distance, the first one is taken
    assert_eq!(nearest_supported_gain(&[10, 14], 12), Some(10));
    assert_eq!(nearest_supported_gain(&[14, 10], 12), Some(14));
    assert_eq!(nearest_supported_gain(&[9, 14], 12), Some(14));
    assert_eq!(nearest_supported_gain(&[], 12), None);
    assert_eq!(nearest_supported_gain(&[i32::MIN], i32::MAX), Some(i32::MIN));
}
