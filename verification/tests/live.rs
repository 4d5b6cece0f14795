use adsbee::live::{
    ClientToServerMessage,
    CloseCode,
    Error,
    GOING_AWAY,
    INTERNAL_ERROR,
    PROTOCOL_ERROR,
    Request,
    ServerToClientMessage,
    reply,
    request_of,
    shutdown_close_reason,
};

#[test]
fn errors_close_the_connection() {
    let reason = Error::Json {
        message: "expected value at line 1 column 1".to_owned(),
    }
    .as_close_reason();
    assert_eq!(reason.code, CloseCode(PROTOCOL_ERROR));
    assert_eq!(reason.reason, "expected value at line 1 column 1");

    let reason = Error::Axum.as_close_reason();
    assert_eq!(reason.code, CloseCode(INTERNAL_ERROR));
    assert_eq!(reason.reason, "internal error");

    let reason = shutdown_close_reason();
    assert_eq!(reason.code, CloseCode(GOING_AWAY));
    assert!(reason.reason.is_empty());
}

#[test]
fn requests_are_answered() {
    let message = ClientToServerMessage::Subscribe {
        id: 7,
        filter: (),
        start_keyframe: false,
    };
    assert_eq!(request_of(&message), (Request::Subscribe, 7));
    assert_eq!(
        request_of(&ClientToServerMessage::<()>::Unsubscribe { id: 9 }),
        (Request::Unsubscribe, 9)
    );

    assert!(matches!(
        reply(Request::Subscribe, 7, Ok(())),
        ServerToClientMessage::Subscribed { id: 7 }
    ));
    assert!(matches!(
        reply(Request::Unsubscribe, 9, Ok(())),
        ServerToClientMessage::Unsubscribed { id: 9 }
    ));
    match reply(Request::Unsubscribe, 9, Err("invalid subscription".to_owned())) {
        ServerToClientMessage::Error {
            id: Some(9),
            message: Some(message),
        } => assert_eq!(message, "invalid subscription"),
        other => panic!("unexpected reply: {other:?}"),
    }
}
