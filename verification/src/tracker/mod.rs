//! Tracks aircrafts' state and the subscriptions of clients.
//!
//! The tracker's work is done by a [`Reactor`] that handles one [`Command`]
//! at a time. Where handling a command needs floating point (decoding a
//! position from CPR values, reading an MLAT position), the reactor hands the
//! work back as a [`Followup`], which the caller completes on the reactor's
//! state.

pub mod processor;
pub mod state;
pub mod subscriptions;

use vstd::prelude::*;

use crate::{
    beast::output::OutputPacket,
    live::{
        reply,
        Request,
        ServerToClientMessage,
    },
    mode_s::Frame,
    sbs,
    tracker::{
        state::{
            spec_update_with_mode_s,
            PositionFix,
            State,
            StateModel,
        },
        subscriptions::{
            spec_query_size,
            spec_room,
            spec_subscribe,
            ClientId,
            Error,
            SubscriptionFilter,
            Subscriptions,
            SubscriptionsModel,
        },
    },
    types::IcaoAddress,
};

verus! {

/// How many commands wait for the reactor at most.
pub const COMMAND_QUEUE_SIZE: usize = 32;

/// The number a data source is known by.
#[derive(Clone, Copy, Debug, PartialEq, Eq, PartialOrd, Ord, Hash)]
pub struct SourceId(pub usize);

/// A command for the reactor. Messages for a client go to its sender of type
/// `S`; areas of subscription filters are bounding boxes of type `B`.
#[derive(Debug)]
pub enum Command<S, B> {
    Subscribe {
        client_id: ClientId,
        id: u128,
        filter: SubscriptionFilter<B>,
        start_keyframe: bool,
        message_sender: S,
    },
    Unsubscribe { client_id: ClientId, id: u128, message_sender: S },
    PushBeast {
        source_id: SourceId,
        receiver_id: Option<u128>,
        /// When the packet was received, in nanoseconds since the Unix epoch.
        time_received: i64,
        packet: OutputPacket,
    },
    PushSbs { source_id: SourceId, mlat: bool, message: sbs::Message },
}

/// The work that handling a command leaves to the caller.
#[derive(Debug)]
pub enum Followup<S, P> {
    Nothing,
    /// A message to send to a client through its sender: the answer to a
    /// request about a subscription that failed.
    Reply { message_sender: S, message: ServerToClientMessage },
    /// A position to decode, and to store with
    /// [`State::complete_position_fix`].
    DecodePosition(PositionFix<P>),
    /// A position from multilateration, given as the texts of its latitude
    /// and longitude in degrees, to store with
    /// [`State::update_mlat_position`].
    MlatPosition {
        icao_address: IcaoAddress,
        time_generated: sbs::Timestamp,
        latitude: String,
        longitude: String,
    },
}

/// The Mode S frame that a BEAST packet carries, if any.
pub open spec fn spec_packet_mode_s_data(packet: OutputPacket) -> Option<Seq<u8>> {
    match packet {
        OutputPacket::ModeSShort { data, .. } => Some(data@),
        OutputPacket::ModeSLong { data, .. } => Some(data@),
        _ => None,
    }
}

/// The bytes of a Mode S frame that the reactor handles: no surplus bytes
/// after the frame, and not a military extended squitter.
pub open spec fn spec_frame_bytes_acceptable(data: Seq<u8>) -> bool {
    &&& !crate::mode_s::spec_has_surplus_bytes(data)
    &&& !(Frame::spec_decode(data) matches Ok(frame) && frame is MilitaryExtendedSquitter)
}

/// The tracker's state after a BEAST packet: a Mode S frame that decodes
/// updates the aircraft, at the time the packet was received; other packets,
/// and frames that do not decode, change nothing.
pub open spec fn spec_handle_beast_packet<P: Copy>(
    m: StateModel<P>,
    time_received: i64,
    packet: OutputPacket,
) -> (StateModel<P>, Option<PositionFix<P>>) {
    match spec_packet_mode_s_data(packet) {
        Some(data) => match Frame::spec_decode(data) {
            Ok(frame) => spec_update_with_mode_s(m, time_received, frame),
            Err(_) => (m, None),
        },
        None => (m, None),
    }
}

/// The commands that the reactor handles: a subscription may not ask for a
/// keyframe nor name an area, and must fit into the indices; the Mode S
/// frame of a BEAST packet may not be followed by surplus bytes, nor be a
/// military extended squitter; SBS messages must come from multilateration.
pub open spec fn spec_command_acceptable<S, B, P>(
    subscriptions: SubscriptionsModel<S>,
    state: StateModel<P>,
    command: Command<S, B>,
) -> bool {
    match command {
        Command::Subscribe { filter, start_keyframe, .. } => {
            &&& !start_keyframe
            &&& filter.area@.len() == 0
            &&& spec_room(subscriptions, spec_query_size(filter.aircraft@))
        },
        Command::Unsubscribe { .. } => true,
        Command::PushBeast { packet, .. } => {
            &&& state.aircraft.len() < usize::MAX
            &&& spec_packet_mode_s_data(packet) matches Some(data) ==> spec_frame_bytes_acceptable(data)
        },
        Command::PushSbs { mlat, .. } => mlat,
    }
}

/// The subscriptions and the state of all tracked aircraft.
#[derive(Debug)]
pub struct Reactor<S, P> {
    pub subscriptions: Subscriptions<S>,
    pub state: State<P>,
}

impl<S, P: Copy> Reactor<S, P> {
    pub open spec fn wf(&self) -> bool {
        self.subscriptions.wf() && self.state.wf()
    }

    /// A reactor without subscriptions that knows no aircraft.
    pub fn new() -> (r: Self)
        ensures
            r.wf(),
            r.subscriptions@.subscriptions.len() == 0,
            r.state@.aircraft.len() == 0,
    {
        Reactor { subscriptions: Subscriptions::new(), state: State::new() }
    }

    /// Handles a command.
    ///
    /// Subscribing and unsubscribing change the subscriptions as
    /// [`Subscriptions::subscribe`] and [`Subscriptions::unsubscribe`] do.
    /// Where that fails, the client is to be told: the followup is an error
    /// message with the subscription id and the error's text, for the
    /// client's message sender. Subscribing does not fail; unsubscribing
    /// always does, as subscriptions are not found by their id.
    ///
    /// A BEAST packet with a Mode S frame updates the aircraft, at the time
    /// the packet was received (the BEAST sources in use send synthetic MLAT
    /// timestamps); a frame that brings a CPR value leaves its position to
    /// decode. An SBS message from multilateration with an airborne position
    /// leaves that position to store.
    pub fn handle_command<B>(&mut self, command: Command<S, B>) -> (r: Result<Followup<S, P>, Error>) where
        S: Clone,
        requires
            old(self).wf(),
            spec_command_acceptable(old(self).subscriptions@, old(self).state@, command),
        ensures
            final(self).wf(),
            r is Ok,
            match command {
                Command::Subscribe { client_id, id, filter, message_sender, .. } => {
                    &&& final(self).subscriptions@ == spec_subscribe(
                        old(self).subscriptions@,
                        client_id,
                        id,
                        filter.aircraft@,
                        message_sender,
                    )
                    &&& final(self).state@ == old(self).state@
                    &&& r matches Ok(Followup::Nothing)
                },
                Command::Unsubscribe { client_id, id, message_sender } => {
                    &&& final(self).subscriptions@ == old(self).subscriptions@
                    &&& final(self).state@ == old(self).state@
                    &&& r matches Ok(
                        Followup::Reply {
                            message_sender: s,
                            message: ServerToClientMessage::Error { id: Some(i), message: Some(text) },
                        },
                    ) && s == message_sender && i == id && text@ == (Error::InvalidSubscriptionId {
                        client_id,
                        id,
                    }).spec_message()
                },
                Command::PushBeast { time_received, packet, .. } => {
                    let (m, fix) = spec_handle_beast_packet(old(self).state@, time_received, packet);
                    &&& final(self).subscriptions@ == old(self).subscriptions@
                    &&& final(self).state@ == m
                    &&& match fix {
                        Some(fix) => r matches Ok(Followup::DecodePosition(f)) && f == fix,
                        None => r matches Ok(Followup::Nothing),
                    }
                },
                Command::PushSbs { message, .. } => {
                    &&& final(self).subscriptions@ == old(self).subscriptions@
                    &&& final(self).state@ == old(self).state@
                    &&& match message@ {
                        sbs::MessageView::Transmission {
                            hex_ident,
                            time_generated,
                            transmission: sbs::TransmissionView::EsAirbornePosition { latitude, longitude, .. },
                            ..
                        } => r matches Ok(Followup::MlatPosition { icao_address, time_generated: t, latitude: lat, longitude: lon })
                            && icao_address == hex_ident && t == time_generated && lat@ == latitude
                            && lon@ == longitude,
                        _ => r matches Ok(Followup::Nothing),
                    }
                },
            },
    {
        match command {
            Command::Subscribe { client_id, id, filter, start_keyframe: _, message_sender } => {
                let reply_sender = message_sender.clone();
                match self.subscriptions.subscribe(client_id, id, filter, message_sender) {
                    Ok(()) => Ok(Followup::Nothing),
                    Err(error) => Ok(
                        Followup::Reply {
                            message_sender: reply_sender,
                            message: reply(Request::Subscribe, id, Err(error.message())),
                        },
                    ),
                }
            },
            Command::Unsubscribe { client_id, id, message_sender } => {
                match self.subscriptions.unsubscribe(client_id, id) {
                    Ok(()) => Ok(Followup::Nothing),
                    Err(error) => Ok(
                        Followup::Reply {
                            message_sender,
                            message: reply(Request::Unsubscribe, id, Err(error.message())),
                        },
                    ),
                }
            },
            Command::PushBeast { source_id: _, receiver_id: _, time_received, packet } => {
                self.handle_beast_packet(time_received, packet)
            },
            Command::PushSbs { source_id: _, mlat: _, message } => self.handle_sbs_mlat_message(message),
        }
    }

    fn handle_beast_packet(&mut self, time_received: i64, packet: OutputPacket) -> (r: Result<Followup<S, P>, Error>)
        requires
            old(self).wf(),
            old(self).state@.aircraft.len() < usize::MAX,
            spec_packet_mode_s_data(packet) matches Some(data) ==> spec_frame_bytes_acceptable(data),
        ensures
            final(self).wf(),
            final(self).subscriptions@ == old(self).subscriptions@,
            ({
                let (m, fix) = spec_handle_beast_packet(old(self).state@, time_received, packet);
                &&& final(self).state@ == m
                &&& match fix {
                    Some(fix) => r matches Ok(Followup::DecodePosition(f)) && f == fix,
                    None => r matches Ok(Followup::Nothing),
                }
            }),
    {
        match packet {
            OutputPacket::ModeSShort { timestamp: _, signal_level: _, data } => {
                self.handle_modes_packet(time_received, &data)
            },
            OutputPacket::ModeSLong { timestamp: _, signal_level: _, data } => {
                self.handle_modes_packet(time_received, &data)
            },
            _ => Ok(Followup::Nothing),
        }
    }

    fn handle_modes_packet(&mut self, time: i64, data: &[u8]) -> (r: Result<Followup<S, P>, Error>)
        requires
            old(self).wf(),
            old(self).state@.aircraft.len() < usize::MAX,
            spec_frame_bytes_acceptable(data@),
        ensures
            final(self).wf(),
            final(self).subscriptions@ == old(self).subscriptions@,
            ({
                let (m, fix) = match Frame::spec_decode(data@) {
                    Ok(frame) => spec_update_with_mode_s(old(self).state@, time, frame),
                    Err(_) => (old(self).state@, None),
                };
                &&& final(self).state@ == m
                &&& match fix {
                    Some(fix) => r matches Ok(Followup::DecodePosition(f)) && f == fix,
                    None => r matches Ok(Followup::Nothing),
                }
            }),
    {
        match Frame::decode(data) {
            Ok(frame) => {
                proof {
                    crate::tracker::state::lemma_decoded_frame_adsb_acceptable(data@);
                }
                match self.state.update_with_mode_s(time, &frame) {
                    Some(fix) => Ok(Followup::DecodePosition(fix)),
                    None => Ok(Followup::Nothing),
                }
            },
            Err(_error) => Ok(Followup::Nothing),
        }
    }

    fn handle_sbs_mlat_message(&mut self, message: sbs::Message) -> (r: Result<Followup<S, P>, Error>)
        ensures
            *final(self) == *old(self),
            match message@ {
                sbs::MessageView::Transmission {
                    hex_ident,
                    time_generated,
                    transmission: sbs::TransmissionView::EsAirbornePosition { latitude, longitude, .. },
                    ..
                } => r matches Ok(Followup::MlatPosition { icao_address, time_generated: t, latitude: lat, longitude: lon })
                    && icao_address == hex_ident && t == time_generated && lat@ == latitude && lon@
                    == longitude,
                _ => r matches Ok(Followup::Nothing),
            },
    {
        match message {
            sbs::Message::Transmission {
                hex_ident,
                time_generated,
                transmission: sbs::Transmission::EsAirbornePosition { latitude, longitude, .. },
                ..
            } => Ok(
                Followup::MlatPosition {
                    icao_address: hex_ident,
                    time_generated,
                    latitude,
                    longitude,
                },
            ),
            _ => Ok(Followup::Nothing),
        }
    }
}

} // verus!
