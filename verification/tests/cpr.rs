use adsbee::mode_s::{
    VerticalStatus,
    adsb::cpr::{
        AlgorithmKind,
        CoodinateCode,
        Cpr,
        Decoder,
        Format,
        PositionCode,
    },
    cpr::{
        CprFormat,
        CprValue,
    },
};

fn cpr(format: Format, latitude: u32, longitude: u32) -> Cpr {
    Cpr {
        format,
        position: PositionCode {
            latitude: CoodinateCode::from_u32(latitude).unwrap(),
            longitude: CoodinateCode::from_u32(longitude).unwrap(),
        },
    }
}

#[test]
fn the_decoder_plans_global_decoding_with_both_formats() {
    let mut decoder = Decoder::new();
    let even = cpr(Format::Even, 93000, 51372);
    let odd = cpr(Format::Odd, 74158, 50194);
    let plan = decoder.push(even, VerticalStatus::Airborne, 1).unwrap();
    assert_eq!(plan.algorithm, AlgorithmKind::Airborne);
    assert!(plan.global.is_none());
    let plan = decoder.push(odd, VerticalStatus::Airborne, 2).unwrap();
    let global = plan.global.expect("no global decoding");
    assert_eq!(global.even, even.position);
    assert_eq!(global.odd, odd.position);
    assert_eq!(global.most_recent, Format::Odd);
}

#[test]
fn the_decoder_ignores_older_values() {
    let mut decoder = Decoder::new();
    let even = cpr(Format::Even, 1, 2);
    assert!(decoder.push(even, VerticalStatus::Ground, 5).is_some());
    let before = decoder;
    assert!(decoder.push(cpr(Format::Even, 3, 4), VerticalStatus::Ground, 5).is_none());
    assert_eq!(decoder, before);
}

#[test]
fn the_decoder_does_not_mix_vertical_statuses() {
    let mut decoder = Decoder::new();
    decoder.push(cpr(Format::Even, 1, 2), VerticalStatus::Ground, 1);
    let plan = decoder.push(cpr(Format::Odd, 1, 2), VerticalStatus::Airborne, 2).unwrap();
    assert!(plan.global.is_none());
    assert_eq!(plan.algorithm, AlgorithmKind::Airborne);
}

#[test]
fn formats() {
    assert_eq!(Format::from_bit(true), Format::Odd);
    assert_eq!(Format::Even.other(), Format::Odd);
    assert_eq!(CprFormat::from_bool(true), CprFormat::Odd);
    assert!(CprFormat::Odd.as_bool());
    assert_eq!(CprValue::from_u32(0x1_ffff).unwrap().as_u32(), 0x1_ffff);
    assert!(CprValue::from_u32(0x2_0000).is_none());
}

#[test]
fn negating_a_format_gives_the_other() {
    assert_eq!(!Format::Even, Format::Odd);
    assert_eq!(!Format::Odd, Format::Even);
    assert_eq!(!!Format::Even, Format::Even);
}
