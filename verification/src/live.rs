//! The live API: the messages between clients and the server over a
//! WebSocket, and how the server answers.

use vstd::prelude::*;

verus! {

/// A message from a client. The filter of a subscription has the type `F`.
#[derive(Clone, Debug)]
pub enum ClientToServerMessage<F> {
    Subscribe { id: u128, filter: F, start_keyframe: bool },
    Unsubscribe { id: u128 },
}

/// A message to a client about its subscriptions.
#[derive(Clone, Debug)]
pub enum ServerToClientMessage {
    Subscribed { id: u128 },
    Unsubscribed { id: u128 },
    Error { id: Option<u128>, message: Option<String> },
}

/// The code of a WebSocket close frame.
#[derive(Clone, Copy, Debug, PartialEq, Eq, PartialOrd, Ord, Hash)]
pub struct CloseCode(pub u16);

pub const INTERNAL_ERROR: u16 = 1011;

pub const GOING_AWAY: u16 = 1001;

pub const PROTOCOL_ERROR: u16 = 1002;

/// Why the server closes a WebSocket.
#[derive(Clone, Debug)]
pub struct CloseReason {
    pub code: CloseCode,
    pub reason: String,
}

/// An error of a WebSocket connection: of the connection itself, or a
/// message that is not valid JSON (with the text of the JSON error).
#[derive(Debug)]
pub enum Error {
    Axum,
    Json { message: String },
}

impl Error {
    /// How the connection is closed after the error: a JSON error is the
    /// client's protocol error, and the client is told what it was; any
    /// other error is an internal error.
    pub fn as_close_reason(&self) -> (r: CloseReason)
        ensures
            match self {
                Error::Json { message } => r.code == CloseCode(PROTOCOL_ERROR) && r.reason@
                    == message@,
                Error::Axum => r.code == CloseCode(INTERNAL_ERROR) && r.reason@ == "internal error"@,
            },
    {
        match self {
            Error::Json { message } => CloseReason {
                code: CloseCode(PROTOCOL_ERROR),
                reason: message.clone(),
            },
            Error::Axum => CloseReason {
                code: CloseCode(INTERNAL_ERROR),
                reason: "internal error".to_owned(),
            },
        }
    }
}

/// The reason for closing a WebSocket when the server shuts down.
pub fn shutdown_close_reason() -> (r: CloseReason)
    ensures
        r.code == CloseCode(GOING_AWAY),
        r.reason@ == Seq::<char>::empty(),
{
    CloseReason { code: CloseCode(GOING_AWAY), reason: String::new() }
}

/// What a client asked for.
#[derive(Clone, Copy, Debug, PartialEq, Eq)]
pub enum Request {
    Subscribe,
    Unsubscribe,
}

/// The request of a client's message and the subscription id it names.
pub fn request_of<F>(message: &ClientToServerMessage<F>) -> (r: (Request, u128))
    ensures
        r == match message {
            ClientToServerMessage::Subscribe { id, .. } => (Request::Subscribe, *id),
            ClientToServerMessage::Unsubscribe { id } => (Request::Unsubscribe, *id),
        },
{
    match message {
        ClientToServerMessage::Subscribe { id, .. } => (Request::Subscribe, *id),
        ClientToServerMessage::Unsubscribe { id } => (Request::Unsubscribe, *id),
    }
}

/// The answer to a request about subscription `id`: on success, that the
/// subscription was made or ended; on failure, the error's text, with the
/// subscription it is about.
pub fn reply(request: Request, id: u128, outcome: Result<(), String>) -> (r: ServerToClientMessage)
    ensures
        match outcome {
            Ok(()) => match request {
                Request::Subscribe => r == ServerToClientMessage::Subscribed { id },
                Request::Unsubscribe => r == ServerToClientMessage::Unsubscribed { id },
            },
            Err(text) => r matches ServerToClientMessage::Error { id: Some(i), message: Some(m) }
                && i == id && m@ == text@,
        },
{
    match outcome {
        Ok(()) => match request {
            Request::Subscribe => ServerToClientMessage::Subscribed { id },
            Request::Unsubscribe => ServerToClientMessage::Unsubscribed { id },
        },
        Err(text) => ServerToClientMessage::Error { id: Some(id), message: Some(text) },
    }
}

} // verus!
