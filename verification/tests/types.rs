use adsbee::{
    mode_ac::ModeA,
    types::{
        IcaoAddress,
        Squawk,
        Wtc,
    },
};

#[test]
fn icao_addresses() {
    let address = IcaoAddress::from_bytes([0x40, 0x74, 0xb5]);
    assert_eq!(address.as_u32(), 0x4074b5);
    assert_eq!(address.as_bytes(), [0x40, 0x74, 0xb5]);
    assert!(!address.is_non_icao());
    assert!(address.with_non_icao_flag().is_non_icao());
    assert!(IcaoAddress::from_u32(0x100_0000).is_none());
    assert_eq!(IcaoAddress::from_str("4ca4e5").unwrap().as_u32(), 0x4ca4e5);
    assert_eq!(IcaoAddress::from_str("4CA4E5X").unwrap_err().input, "4CA4E5X");
    assert!(IcaoAddress::from_str("").is_err());
}

#[test]
fn squawks() {
    assert_eq!(Squawk::from_str("7700").unwrap().as_u16(), 0o7700);
    assert!(Squawk::from_str("7800").is_err());
    assert!(Squawk::from_str("770").is_err());
    assert!(Squawk::from_u16(0o10000).is_none());
}

#[test]
fn wake_turbulence_categories() {
    for wtc in [Wtc::Light, Wtc::Medium, Wtc::Heavy, Wtc::Super] {
        assert_eq!(Wtc::from_char(wtc.as_char()), Some(wtc));
    }
    assert_eq!(Wtc::from_str("h").unwrap(), Wtc::Heavy);
    assert_eq!(Wtc::from_str("HH").unwrap_err().input, "HH");
    assert!(Wtc::from_str("").is_err());
}

#[test]
fn mode_a_words() {
    let mode_a = ModeA::from_u16(0b0111_0101_0011_0001 | 0x0080);
    assert_eq!(mode_a.squawk.as_u16(), 0o7531);
    assert!(mode_a.ident);
    let mode_a = ModeA::from_bytes([0x12, 0x34]);
    assert_eq!(mode_a, ModeA::from_u16(0x1234));
}

#[test]
fn database_values_read_back() {
    let icao = IcaoAddress {
        address: 0x4ca2d6,
        non_icao: false,
    };
    assert_eq!(icao.to_database(), 0x4ca2d6);
    assert_eq!(IcaoAddress::from_database(icao.to_database()), icao);

    let non_icao = IcaoAddress {
        address: 0x123,
        non_icao: true,
    };
    assert_eq!(non_icao.to_database(), -0x123);
    assert_eq!(IcaoAddress::from_database(-0x123), non_icao);

    let squawk = Squawk::from_u16_unchecked(0o7700);
    assert_eq!(Squawk::from_database(squawk.to_database()), squawk);
    assert_eq!(Squawk::from_database(-1).as_u16(), 0xffff);

    for wtc in [Wtc::Light, Wtc::Medium, Wtc::Heavy, Wtc::Super] {
        assert_eq!(wtc.to_database(), wtc.as_char() as i8);
        assert_eq!(Wtc::from_database(wtc.to_database()), wtc);
    }
    assert_eq!(Wtc::from_database(b'm' as i8), Wtc::Medium);
}
