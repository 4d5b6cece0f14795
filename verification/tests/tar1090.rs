use adsbee::tar1090::{
    AircraftFlags,
    INTERESTING,
    LADD,
    MILITARY,
    PIA,
    aircraft_tags,
    needs_update,
    parse_binary_u16,
};

#[test]
fn flags_read_binary_numbers() {
    let flags = AircraftFlags::from_str("1").unwrap();
    assert_eq!(flags.bits(), MILITARY);
    assert!(flags.contains(AircraftFlags::from_bits_retain(MILITARY)));
    assert!(!flags.contains(AircraftFlags::from_bits_retain(PIA)));

    let flags = AircraftFlags::from_str("1110").unwrap();
    assert_eq!(flags.bits(), INTERESTING | PIA | LADD);

    // unknown bits are kept
    assert_eq!(AircraftFlags::from_str("10000").unwrap().bits(), 0b10000);
}

#[test]
fn flags_reject_what_is_not_binary() {
    for input in ["", "+", "-1", "2", "1a", " 1", "10000000000000000"] {
        let error = AircraftFlags::from_str(input).unwrap_err();
        assert_eq!(error.input, input);
    }
}

#[test]
fn binary_numbers_read_as_std_reads_them() {
    let inputs = [
        "0",
        "1",
        "+1",
        "+",
        "++1",
        "-0",
        "",
        "0000000000000000000000001",
        "1111111111111111",
        "10000000000000000",
        "101x",
        "12",
        "0b1",
    ];
    for input in inputs {
        assert_eq!(
            parse_binary_u16(input),
            u16::from_str_radix(input, 2).ok(),
            "{input:?}"
        );
    }
}

#[test]
fn military_flag_gives_tag() {
    assert_eq!(aircraft_tags(AircraftFlags::from_bits_retain(0b1001)), vec!["military"]);
    assert!(aircraft_tags(AircraftFlags::from_bits_retain(0b1110)).is_empty());
}

#[test]
fn database_update_follows_commits() {
    assert!(needs_update(None, "abc"));
    assert!(needs_update(Some("abc"), "abd"));
    assert!(!needs_update(Some("abc"), "abc"));
}
