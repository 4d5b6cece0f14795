use adsbee::{
    tracker::subscriptions::{
        AircraftQuery,
        Error,
        SubscriptionFilter,
        Subscriptions,
    },
    types::{
        IcaoAddress,
        Squawk,
    },
};

fn filter() -> SubscriptionFilter<()> {
    SubscriptionFilter {
        aircraft: AircraftQuery {
            icao: vec![
                IcaoAddress {
                    address: 0x4074b5,
                    non_icao: false,
                },
                IcaoAddress {
                    address: 0x4074b5,
                    non_icao: false,
                },
            ],
            callsign: vec!["EZY67QN".to_owned(), "KLM1023".to_owned(), "EZY67QN".to_owned()],
            squawk: vec![Squawk::from_u16_unchecked(0o7700)],
        },
        area: vec![],
    }
}

#[test]
fn subscribing_succeeds() {
    let mut subscriptions: Subscriptions<u32> = Subscriptions::new();
    assert!(subscriptions.subscribe(1, 42, filter(), 7).is_ok());
    assert!(subscriptions.subscribe(1, 43, filter(), 8).is_ok());
    // subscriptions are not registered by client and id: the same id again
    // is a new subscription
    assert!(subscriptions.subscribe(1, 42, filter(), 9).is_ok());
}

#[test]
fn unsubscribing_finds_no_subscription() {
    let mut subscriptions: Subscriptions<u32> = Subscriptions::default();
    subscriptions.subscribe(3, 99, filter(), 0).unwrap();
    match subscriptions.unsubscribe(3, 99) {
        Err(Error::InvalidSubscriptionId { client_id, id }) => {
            assert_eq!(client_id, 3);
            assert_eq!(id, 99);
        }
        other => panic!("unexpected result: {other:?}"),
    }
}
