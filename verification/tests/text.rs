use adsbee::text::{
    is_float_literal,
    parse_i32,
    parse_u32,
    split_commas,
};

#[test]
fn numbers() {
    assert_eq!(parse_u32("42"), Some(42));
    assert_eq!(parse_u32("+42"), Some(42));
    assert_eq!(parse_u32("4294967295"), Some(u32::MAX));
    assert_eq!(parse_u32("4294967296"), None);
    assert_eq!(parse_u32(""), None);
    assert_eq!(parse_u32("-1"), None);
    assert_eq!(parse_i32("-832"), Some(-832));
    assert_eq!(parse_i32("-2147483648"), Some(i32::MIN));
    assert_eq!(parse_i32("2147483648"), None);
    assert_eq!(parse_i32("-"), None);
}

#[test]
fn floating_point_literals_match_the_standard_parser() {
    for s in [
        "76.4", "-4.38826", ".5", "5.", "1e5", "1E-5", "+inf", "NaN", "infinity", "", ".", "e5",
        "1e", "1.2.3", " 1", "0x10", "-", "1_0",
    ] {
        assert_eq!(is_float_literal(s), s.parse::<f32>().is_ok(), "{s:?}");
    }
}

#[test]
fn commas_split_fields() {
    assert_eq!(split_commas("a,,b"), vec!["a", "", "b"]);
    assert_eq!(split_commas(""), vec![""]);
    assert_eq!(split_commas("x,"), vec!["x", ""]);
}
