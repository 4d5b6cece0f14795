use adsbee::rtlsdr::{
    RawFrame,
    command::{
        Error,
        hex_decode,
        parse_line,
    },
};

#[test]
fn lines_hold_frames() {
    match parse_line("*8d4074b52315a676dd13a0662967;\n").unwrap() {
        Some(RawFrame::ModeSLong { data }) => assert_eq!(
            data,
            [0x8d, 0x40, 0x74, 0xb5, 0x23, 0x15, 0xa6, 0x76, 0xdd, 0x13, 0xa0, 0x66, 0x29, 0x67]
        ),
        other => panic!("unexpected: {other:?}"),
    }
    match parse_line("*5D4CA2D6A8C1F1;\r\n").unwrap() {
        Some(RawFrame::ModeSShort { data }) => {
            assert_eq!(data, [0x5d, 0x4c, 0xa2, 0xd6, 0xa8, 0xc1, 0xf1])
        }
        other => panic!("unexpected: {other:?}"),
    }
}

#[test]
fn other_lines_hold_nothing() {
    assert!(parse_line("").unwrap().is_none());
    assert!(parse_line("Found 1 device(s):\n").unwrap().is_none());
}

#[test]
fn invalid_digits_make_invalid_lines() {
    match parse_line("*8d4074b52315a676dd13a06629zz;\n") {
        Err(Error::InvalidLine(line)) => assert_eq!(line, "*8d4074b52315a676dd13a06629zz;"),
        other => panic!("unexpected: {other:?}"),
    }
    // the digits are taken from the line as read, before whitespace is
    // removed
    match parse_line(" *5d4ca2d6a8c1f1;") {
        Err(Error::InvalidLine(line)) => assert_eq!(line, "*5d4ca2d6a8c1f1;"),
        other => panic!("unexpected: {other:?}"),
    }
}

#[test]
fn hex_decodes_pairs_of_digits() {
    assert_eq!(hex_decode(b"00ffA5"), Some(vec![0x00, 0xff, 0xa5]));
    assert_eq!(hex_decode(b"0"), None);
    assert_eq!(hex_decode(b"0g"), None);
    assert_eq!(hex_decode(b""), Some(vec![]));
}
