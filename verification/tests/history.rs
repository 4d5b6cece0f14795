use adsbee::{
    history::{
        Aircraft,
        Emergency,
        TraceError,
        index_trace,
    },
    types::{
        IcaoAddress,
        Squawk,
    },
};

fn aircraft(flight: Option<&str>, squawk: Option<&str>) -> Option<Aircraft> {
    Some(Aircraft {
        squawk: squawk.map(|s| s.to_owned()),
        nav_modes: vec![],
        emergency: Some(Emergency::NoEmergency),
        flight: flight.map(|s| s.to_owned()),
    })
}

#[test]
fn trace_records_changes_and_ends() {
    let points = vec![
        None,
        aircraft(Some(" KLM1023 "), Some("1000")),
        aircraft(Some("KLM1023"), Some("1000")),
        aircraft(Some("\u{3000}KLM1023\t"), Some("7700")),
        None,
        aircraft(None, None),
        None,
    ];
    let (address, rows) = index_trace("4ca2d6", &points).unwrap();
    assert_eq!(
        address,
        IcaoAddress {
            address: 0x4ca2d6,
            non_icao: false
        }
    );
    let recorded: Vec<(usize, Option<String>, Option<Squawk>)> = rows
        .into_iter()
        .map(|row| (row.point, row.callsign, row.squawk))
        .collect();
    assert_eq!(
        recorded,
        vec![
            (0, None, None),
            (
                1,
                Some("KLM1023".to_owned()),
                Some(Squawk::from_u16_unchecked(0o1000))
            ),
            (
                3,
                Some("KLM1023".to_owned()),
                Some(Squawk::from_u16_unchecked(0o7700))
            ),
            (
                6,
                Some("KLM1023".to_owned()),
                Some(Squawk::from_u16_unchecked(0o7700))
            ),
        ]
    );
}

#[test]
fn trace_with_one_point_records_it_once() {
    let points = vec![aircraft(Some("EZY67QN"), None)];
    let (_, rows) = index_trace("4074B5", &points).unwrap();
    assert_eq!(rows.len(), 1);
    assert_eq!(rows[0].point, 0);
    assert_eq!(rows[0].callsign.as_deref(), Some("EZY67QN"));
}

#[test]
fn empty_trace_records_nothing() {
    let (_, rows) = index_trace("abc", &vec![]).unwrap();
    assert!(rows.is_empty());
}

#[test]
fn trace_with_bad_address_fails() {
    match index_trace("xyz", &vec![None]) {
        Err(TraceError::IcaoAddress(e)) => assert_eq!(e.input, "xyz"),
        other => panic!("unexpected result: {other:?}"),
    }
}

#[test]
fn trace_with_bad_squawk_fails() {
    let points = vec![
        aircraft(Some("KLM1023"), Some("1000")),
        aircraft(Some("KLM1023"), Some("12")),
        aircraft(Some("KLM1023"), Some("99")),
    ];
    match index_trace("4ca2d6", &points) {
        Err(TraceError::Squawk(e)) => assert_eq!(e.input, "12"),
        other => panic!("unexpected result: {other:?}"),
    }
}
