//! What the tracker knows of each aircraft.
//!
//! Times are nanoseconds since the Unix epoch.
//!
//! Positions are decoded from CPR values with floating point, which this
//! library does not do: an update that brings a CPR value hands back a
//! [`PositionFix`], and [`State::complete_position_fix`] stores the position
//! that the decoding gave. Speeds, tracks and headings are kept as they were
//! received; turning them into knots and radians is floating point as well.

use std::collections::HashMap;

use vstd::prelude::*;

use crate::{
    mode_s::{
        adsb::{
            self,
            cpr::{
                Cpr,
                DecodePlan,
                Decoder,
            },
            Callsign,
            EncodedCallsign,
            GroundTrack,
            MagneticHeading,
        },
        VerticalStatus,
    },
    mode_s::{
        ExtendedSquitter,
        ExtendedSquitterNonTransponder,
        Frame,
    },
    sparse_list::{
        spec_insert,
        spec_values,
        spec_wf,
        SparseList,
    },
    types::{
        IcaoAddress,
        Squawk,
    },
};

verus! {

/// Nanoseconds in a second.
pub const NANOS_PER_SECOND: i64 = 1_000_000_000;

/// A value together with the time it was last updated.
#[derive(Clone, Copy, Debug)]
pub struct Timestamped<T> {
    pub last_update: i64,
    pub value: T,
}

/// Storing a value that was received at some time.
pub trait UpdateTimestamped<T>: Sized {
    /// What is held after an update at `time`, and whether the value was
    /// stored.
    spec fn spec_update(self, time: i64, value: T) -> (Self, bool);

    /// Stores `value` unless what is held is at least as new as `time`.
    fn update(&mut self, time: i64, value: T) -> (r: bool)
        ensures
            (*final(self), r) == old(self).spec_update(time, value),
    ;
}

impl<T> UpdateTimestamped<T> for Timestamped<T> {
    /// The value is replaced when `time` is later than the last update. The
    /// time of the last update is left as it is.
    open spec fn spec_update(self, time: i64, value: T) -> (Self, bool) {
        if self.last_update < time {
            (Timestamped { last_update: self.last_update, value }, true)
        } else {
            (self, false)
        }
    }

    fn update(&mut self, time: i64, value: T) -> (r: bool) {
        if self.last_update < time {
            self.value = value;
            true
        } else {
            false
        }
    }
}

impl<T> UpdateTimestamped<T> for Option<Timestamped<T>> {
    /// A held value is updated as a [`Timestamped`] is; when nothing is held,
    /// the value is stored with `time`.
    open spec fn spec_update(self, time: i64, value: T) -> (Self, bool) {
        match self {
            Some(current) => {
                let (c, r) = current.spec_update(time, value);
                (Some(c), r)
            },
            None => (Some(Timestamped { last_update: time, value }), true),
        }
    }

    fn update(&mut self, time: i64, value: T) -> (r: bool) {
        match self {
            Some(current) => current.update(time, value),
            None => {
                *self = Some(Timestamped { last_update: time, value });
                true
            },
        }
    }
}

/// Values that can be compared for equality.
pub trait SameValue: Sized {
    fn same(&self, other: &Self) -> (r: bool)
        ensures
            r == (*self == *other),
    ;
}

impl SameValue for Callsign {
    fn same(&self, other: &Self) -> (r: bool) {
        self.same_as(other)
    }
}

impl SameValue for Squawk {
    fn same(&self, other: &Self) -> (r: bool) {
        self.code == other.code
    }
}

/// What [`update_timestamped_option_with_index_update`] does: the new value
/// is stored and the time of the update is recorded whatever it is. The
/// second result tells an index what changed: nothing when the same value
/// was held, the value held before when it differs, and `Some(None)` when
/// nothing was held.
pub open spec fn spec_update_with_index<T>(state_value: Option<Timestamped<T>>, time: i64, new_value: T) -> (
    Option<Timestamped<T>>,
    Option<Option<T>>,
) {
    (
        Some(Timestamped { last_update: time, value: new_value }),
        match state_value {
            Some(old) => if old.value == new_value {
                None
            } else {
                Some(Some(old.value))
            },
            None => Some(None),
        },
    )
}

/// Updates an optional timestamped value and reports whether the value
/// changed, and from what, so that an index over the values can follow.
pub fn update_timestamped_option_with_index_update<T: SameValue + Copy>(
    state_value: &mut Option<Timestamped<T>>,
    time: i64,
    new_value: T,
) -> (r: Option<Option<T>>)
    ensures
        (*final(state_value), r) == spec_update_with_index(*old(state_value), time, new_value),
{
    match state_value {
        Some(old_value) => {
            let changed = if !old_value.value.same(&new_value) {
                let previous = old_value.value;
                old_value.value = new_value;
                Some(Some(previous))
            } else {
                None
            };
            old_value.last_update = time;
            changed
        },
        None => {
            *state_value = Some(Timestamped { last_update: time, value: new_value });
            Some(None)
        },
    }
}

/// Where a position came from.
#[derive(Clone, Copy, Debug, PartialEq, Eq, PartialOrd, Ord, Hash)]
pub enum PositionSource {
    Gnss,
    Mlat,
}

/// A position, with coordinates of whatever type the caller decodes into.
#[derive(Clone, Copy, Debug)]
pub struct Position<P> {
    pub coordinates: P,
    pub source: PositionSource,
}

/// Speed over ground, as received.
#[derive(Clone, Copy, Debug, PartialEq, Eq)]
pub enum GroundSpeedValue {
    /// The movement of a surface position, in eighths of a knot.
    EighthKnots(u32),
    /// The velocity of an airborne aircraft, in knots towards east and
    /// towards north.
    Components { east: i16, north: i16 },
}

/// Track over ground, as received.
#[derive(Clone, Copy, Debug, PartialEq, Eq)]
pub enum TrackValue {
    /// The ground track of a surface position.
    GroundTrack(GroundTrack),
    /// The direction of the velocity of an airborne aircraft, in knots
    /// towards east and towards north.
    Components { east: i16, north: i16 },
}

/// The decoding of a CPR value into a position: the decoding that the CPR
/// decoder plans, the reference position for a local decoding (a recent
/// position of the aircraft), and the aircraft and time it is for.
#[derive(Clone, Copy, Debug)]
pub struct PositionFix<P> {
    pub index: usize,
    pub time: i64,
    pub plan: DecodePlan,
    pub reference: Option<P>,
}

/// What the tracker knows of an aircraft.
#[derive(Debug)]
pub struct AircraftState<P> {
    pub icao_address: IcaoAddress,
    pub last_seen: Timestamped<()>,
    pub callsign: Option<Timestamped<Callsign>>,
    pub squawk: Option<Timestamped<Squawk>>,
    pub position: Option<Timestamped<Position<P>>>,
    /// in ft
    pub altitude_barometric: Option<Timestamped<i32>>,
    /// in m
    pub altitude_gnss: Option<Timestamped<i32>>,
    pub ground_speed: Option<Timestamped<GroundSpeedValue>>,
    /// in kt
    pub airspeed: Option<Timestamped<u16>>,
    pub track: Option<Timestamped<TrackValue>>,
    pub magnetic_heading: Option<Timestamped<MagneticHeading>>,
    pub vertical_status: Option<VerticalStatus>,
    pub cpr_decoder: Decoder,
}

/// How old a position may be to serve as the reference for decoding a CPR
/// value locally (from the MOPS appendix): 10 seconds in the air, 50 seconds
/// on the ground.
pub open spec fn spec_max_reference_age(vertical_status: VerticalStatus) -> int {
    match vertical_status {
        VerticalStatus::Airborne => 10 * NANOS_PER_SECOND,
        VerticalStatus::Ground => 50 * NANOS_PER_SECOND,
    }
}

/// The speeds of an airborne velocity can be turned into knots: every speed
/// code that is present is at least 1, and the components of a ground speed
/// fit into 16 bits.
pub open spec fn spec_velocity_in_range(velocity: adsb::AirborneVelocity) -> bool {
    match velocity.velocity_type {
        adsb::VelocityType::GroundSpeed(gs) => {
            &&& gs.velocity_east_west matches Some(v) ==> v.spec_knots_in_range(velocity.supersonic)
                && v.spec_as_knots(velocity.supersonic) <= i16::MAX
            &&& gs.velocity_north_south matches Some(v) ==> v.spec_knots_in_range(velocity.supersonic)
                && v.spec_as_knots(velocity.supersonic) <= i16::MAX
        },
        adsb::VelocityType::Airspeed(a) => a.airspeed_value matches Some(v)
            ==> v.spec_knots_in_range(velocity.supersonic),
    }
}

impl<P: Copy> AircraftState<P> {
    /// An aircraft seen for the first time, at `time`.
    pub open spec fn spec_new(icao_address: IcaoAddress, time: i64) -> Self {
        AircraftState {
            icao_address,
            last_seen: Timestamped { last_update: time, value: () },
            callsign: None,
            squawk: None,
            position: None,
            altitude_barometric: None,
            altitude_gnss: None,
            ground_speed: None,
            airspeed: None,
            track: None,
            magnetic_heading: None,
            vertical_status: None,
            cpr_decoder: Decoder { even: None, odd: None },
        }
    }

    pub fn new(icao_address: IcaoAddress, time: i64) -> (r: Self)
        ensures
            r == Self::spec_new(icao_address, time),
    {
        Self {
            icao_address,
            last_seen: Timestamped { last_update: time, value: () },
            callsign: None,
            squawk: None,
            position: None,
            altitude_barometric: None,
            altitude_gnss: None,
            ground_speed: None,
            airspeed: None,
            track: None,
            magnetic_heading: None,
            vertical_status: None,
            cpr_decoder: Decoder::new(),
        }
    }

    /// The reference position for decoding a CPR value received at `time`:
    /// the stored position, if it was last updated no longer ago than
    /// [`spec_max_reference_age`] allows.
    pub open spec fn spec_reference(self, time: i64, vertical_status: VerticalStatus) -> Option<P> {
        match self.position {
            Some(reference) => if time - reference.last_update <= spec_max_reference_age(
                vertical_status,
            ) {
                Some(reference.value.coordinates)
            } else {
                None
            },
            None => None,
        }
    }

    /// The aircraft after a CPR value arrived: the CPR decoder holds it, and
    /// the decoding it plans comes with the reference position.
    pub open spec fn spec_update_position(self, time: i64, cpr: Cpr, vertical_status: VerticalStatus) -> (
        Self,
        Option<(DecodePlan, Option<P>)>,
    ) {
        let (decoder, plan) = self.cpr_decoder.spec_push(cpr, vertical_status, time);
        (
            AircraftState { cpr_decoder: decoder, ..self },
            match plan {
                Some(plan) => Some((plan, self.spec_reference(time, vertical_status))),
                None => None,
            },
        )
    }

    /// Hands a CPR value to the CPR decoder; returns the decoding to do and
    /// the reference position for it.
    pub fn update_position(&mut self, time: i64, cpr: Cpr, vertical_status: VerticalStatus) -> (r: Option<
        (DecodePlan, Option<P>),
    >)
        ensures
            (*final(self), r) == old(self).spec_update_position(time, cpr, vertical_status),
    {
        let reference = match &self.position {
            Some(reference) => {
                let max_age: i128 = match vertical_status {
                    VerticalStatus::Airborne => 10 * (NANOS_PER_SECOND as i128),
                    VerticalStatus::Ground => 50 * (NANOS_PER_SECOND as i128),
                };
                if (time as i128) - (reference.last_update as i128) <= max_age {
                    Some(reference.value.coordinates)
                } else {
                    None
                }
            },
            None => None,
        };
        match self.cpr_decoder.push(cpr, vertical_status, time) {
            Some(plan) => Some((plan, reference)),
            None => None,
        }
    }

    /// Stores a position that was decoded from a CPR value received at
    /// `time`.
    pub fn store_decoded_position(&mut self, time: i64, coordinates: P)
        ensures
            *final(self) == (AircraftState {
                position: old(self).position.spec_update(
                    time,
                    Position { coordinates, source: PositionSource::Gnss },
                ).0,
                ..*old(self)
            }),
    {
        self.position.update(time, Position { coordinates, source: PositionSource::Gnss });
    }

    /// The aircraft after a surface position: its CPR value goes to the
    /// decoder (as on the ground), its movement (if known) becomes the ground
    /// speed and its ground track (if known) the track, and the aircraft is
    /// on the ground.
    pub open spec fn spec_update_surface_position(self, time: i64, position: adsb::SurfacePosition) -> (
        Self,
        Option<(DecodePlan, Option<P>)>,
    ) {
        let (a, fix) = self.spec_update_position(time, position.cpr, VerticalStatus::Ground);
        let ground_speed = match position.movement.spec_decode_as_1_8th_kt() {
            Some(speed) => a.ground_speed.spec_update(time, GroundSpeedValue::EighthKnots(speed)).0,
            None => a.ground_speed,
        };
        let track = match position.ground_track {
            Some(track) => a.track.spec_update(time, TrackValue::GroundTrack(track)).0,
            None => a.track,
        };
        (
            AircraftState {
                ground_speed,
                track,
                vertical_status: Some(VerticalStatus::Ground),
                ..a
            },
            fix,
        )
    }

    pub fn update_surface_position(&mut self, time: i64, position: &adsb::SurfacePosition) -> (r: Option<
        (DecodePlan, Option<P>),
    >)
        ensures
            (*final(self), r) == old(self).spec_update_surface_position(time, *position),
    {
        let fix = self.update_position(time, position.cpr, VerticalStatus::Ground);
        if let Some(speed) = position.movement.decode_as_1_8th_kt() {
            self.ground_speed.update(time, GroundSpeedValue::EighthKnots(speed));
        }
        if let Some(track) = position.ground_track {
            self.track.update(time, TrackValue::GroundTrack(track));
        }
        self.vertical_status = Some(VerticalStatus::Ground);
        fix
    }

    /// The aircraft after an airborne position: its CPR value (if any) goes
    /// to the decoder, as on the ground, its altitude (if known) is stored by
    /// kind, and the aircraft is airborne.
    pub open spec fn spec_update_airborne_position(self, time: i64, position: adsb::AirbornePosition) -> (
        Self,
        Option<(DecodePlan, Option<P>)>,
    ) {
        let (a, fix) = match position.cpr {
            Some(cpr) => self.spec_update_position(time, cpr, VerticalStatus::Ground),
            None => (self, None),
        };
        let a2 = match position.spec_altitude() {
            Some(adsb::Altitude::Barometric(altitude)) => AircraftState {
                altitude_barometric: a.altitude_barometric.spec_update(time, altitude).0,
                ..a
            },
            Some(adsb::Altitude::Gnss(altitude)) => AircraftState {
                altitude_gnss: a.altitude_gnss.spec_update(time, altitude).0,
                ..a
            },
            None => a,
        };
        (AircraftState { vertical_status: Some(VerticalStatus::Airborne), ..a2 }, fix)
    }

    pub fn update_airborne_position(&mut self, time: i64, position: &adsb::AirbornePosition) -> (r: Option<
        (DecodePlan, Option<P>),
    >)
        ensures
            (*final(self), r) == old(self).spec_update_airborne_position(time, *position),
    {
        let fix = match position.cpr {
            Some(cpr) => self.update_position(time, cpr, VerticalStatus::Ground),
            None => None,
        };
        match position.altitude() {
            Some(adsb::Altitude::Barometric(altitude)) => {
                self.altitude_barometric.update(time, altitude);
            },
            Some(adsb::Altitude::Gnss(altitude)) => {
                self.altitude_gnss.update(time, altitude);
            },
            None => {},
        }
        self.vertical_status = Some(VerticalStatus::Airborne);
        fix
    }

    /// The aircraft after an airborne velocity: a ground speed with both
    /// components gives the ground speed and the track; an airspeed with a
    /// magnetic heading gives the heading, and its speed (if known) the
    /// airspeed. The aircraft is airborne.
    pub open spec fn spec_update_airborne_velocity(self, time: i64, velocity: adsb::AirborneVelocity) -> Self {
        let a = match velocity.velocity_type {
            adsb::VelocityType::GroundSpeed(gs) => match (
                gs.velocity_east_west,
                gs.velocity_north_south,
            ) {
                (Some(ew), Some(ns)) => {
                    let east = (if gs.direction_east_west == adsb::DirectionEastWest::WestToEast {
                        ew.spec_as_knots(velocity.supersonic) as int
                    } else {
                        -(ew.spec_as_knots(velocity.supersonic) as int)
                    }) as i16;
                    let north = (if gs.direction_north_south
                        == adsb::DirectionNorthSouth::SouthToNorth {
                        ns.spec_as_knots(velocity.supersonic) as int
                    } else {
                        -(ns.spec_as_knots(velocity.supersonic) as int)
                    }) as i16;
                    AircraftState {
                        ground_speed: self.ground_speed.spec_update(
                            time,
                            GroundSpeedValue::Components { east, north },
                        ).0,
                        track: self.track.spec_update(time, TrackValue::Components { east, north }).0,
                        ..self
                    }
                },
                _ => self,
            },
            adsb::VelocityType::Airspeed(airspeed) => match airspeed.magnetic_heading {
                Some(heading) => {
                    let with_heading = AircraftState {
                        magnetic_heading: self.magnetic_heading.spec_update(time, heading).0,
                        ..self
                    };
                    match airspeed.airspeed_value {
                        Some(v) => AircraftState {
                            airspeed: with_heading.airspeed.spec_update(
                                time,
                                v.spec_as_knots(velocity.supersonic),
                            ).0,
                            ..with_heading
                        },
                        None => with_heading,
                    }
                },
                None => self,
            },
        };
        AircraftState { vertical_status: Some(VerticalStatus::Airborne), ..a }
    }

    pub fn update_airborne_velocity(&mut self, time: i64, velocity: &adsb::AirborneVelocity)
        requires
            spec_velocity_in_range(*velocity),
        ensures
            *final(self) == old(self).spec_update_airborne_velocity(time, *velocity),
    {
        match velocity.velocity_type {
            adsb::VelocityType::GroundSpeed(ground_speed) => {
                if let Some(components) = ground_speed.components(velocity.supersonic) {
                    let east = components[0];
                    let north = components[1];
                    self.ground_speed.update(time, GroundSpeedValue::Components { east, north });
                    self.track.update(time, TrackValue::Components { east, north });
                }
            },
            adsb::VelocityType::Airspeed(airspeed) => {
                if let Some(magnetic_heading) = airspeed.magnetic_heading {
                    self.magnetic_heading.update(time, magnetic_heading);
                    if let Some(airspeed_value) = airspeed.airspeed_value {
                        let knots = airspeed_value.as_knots(velocity.supersonic);
                        self.airspeed.update(time, knots);
                    }
                }
            },
        }
        self.vertical_status = Some(VerticalStatus::Airborne);
    }
}

/// The key of an ICAO address in the index of aircraft: the address, plus
/// 2^32 for an address that is not an ICAO address.
pub open spec fn spec_icao_key(address: IcaoAddress) -> u64 {
    if address.non_icao {
        (address.address as int + 0x1_0000_0000) as u64
    } else {
        address.address as u64
    }
}

pub(crate) fn icao_key(address: IcaoAddress) -> (k: u64)
    ensures
        k == spec_icao_key(address),
{
    if address.non_icao {
        address.address as u64 + 0x1_0000_0000
    } else {
        address.address as u64
    }
}

/// Different addresses have different keys.
pub proof fn lemma_icao_key_injective(a: IcaoAddress, b: IcaoAddress)
    ensures
        spec_icao_key(a) == spec_icao_key(b) ==> a == b,
{
}

/// Bytes read as a big-endian number.
pub open spec fn spec_big_endian(bytes: Seq<u8>) -> int
    decreases bytes.len(),
{
    if bytes.len() == 0 {
        0
    } else {
        spec_big_endian(bytes.drop_last()) * 256 + bytes.last()
    }
}

/// The key of a callsign in the index of callsigns: its 8 bytes as a
/// big-endian number.
pub open spec fn spec_callsign_key(callsign: Callsign) -> u64 {
    spec_big_endian(callsign@) as u64
}

/// 256 to the power of `n`.
pub open spec fn spec_pow256(n: nat) -> int
    decreases n,
{
    if n == 0 {
        1
    } else {
        spec_pow256((n - 1) as nat) * 256
    }
}

proof fn lemma_big_endian_step(k: int, b: u8, p: int)
    requires
        0 <= k < p,
    ensures
        0 <= k * 256 + b < p * 256,
{
    assert(0 <= k * 256 + b < p * 256) by (nonlinear_arith)
        requires
            0 <= k < p,
            0 <= b < 256,
    ;
}

fn callsign_key(callsign: &Callsign) -> (k: u64)
    ensures
        k == spec_callsign_key(*callsign),
{
    let bytes = callsign.as_bytes();
    let mut k: u64 = 0;
    let mut i: usize = 0;
    while i < 8
        invariant
            0 <= i <= 8,
            bytes@ == callsign@,
            k == spec_big_endian(bytes@.take(i as int)),
            0 <= spec_big_endian(bytes@.take(i as int)) < spec_pow256(i as nat),
        decreases 8 - i,
    {
        assert(bytes@.take(i as int + 1).drop_last() == bytes@.take(i as int));
        proof {
            lemma_big_endian_step(k as int, bytes[i as int], spec_pow256(i as nat));
            reveal_with_fuel(spec_pow256, 8);
            assert(spec_pow256(7) == 0x100_0000_0000_0000);
        }
        k = k * 256 + bytes[i] as u64;
        i += 1;
    }
    assert(bytes@.take(8) == bytes@);
    k
}

/// The callsign that an encoded callsign decodes to, reading every
/// character code in the permissive character set.
pub open spec fn spec_permissive_callsign(encoded: EncodedCallsign) -> Callsign {
    choose|c: Callsign| #![trigger c@] c@ == encoded.spec_expand()@.map_values(
        |b: u8| adsb::spec_callsign_char_permissive(b),
    )
}

/// The tracker's state as plain values: the aircraft slots, the free slots,
/// and the indices from ICAO addresses, callsigns and squawks to slots.
pub struct StateModel<P> {
    pub aircraft: Seq<Option<AircraftState<P>>>,
    pub free_slots: Seq<usize>,
    pub by_icao_address: Map<u64, usize>,
    pub by_callsign: Map<u64, usize>,
    pub by_squawk: Map<u16, usize>,
}

/// The aircraft list is consistent, and every ICAO address in the index
/// names a slot that holds the aircraft with that address.
pub open spec fn spec_state_wf<P>(m: StateModel<P>) -> bool {
    &&& spec_wf(m.aircraft, m.free_slots)
    &&& forall|k: u64| #[trigger]
        m.by_icao_address.contains_key(k) ==> {
            let i = m.by_icao_address[k];
            &&& i < m.aircraft.len()
            &&& m.aircraft[i as int] is Some
            &&& spec_icao_key(m.aircraft[i as int]->0.icao_address) == k
        }
}

/// The slot of the aircraft with an ICAO address, if the tracker knows it.
pub open spec fn spec_lookup<P>(m: StateModel<P>, address: IcaoAddress) -> Option<usize> {
    if m.by_icao_address.contains_key(spec_icao_key(address)) {
        Some(m.by_icao_address[spec_icao_key(address)])
    } else {
        None
    }
}

/// The state with the aircraft in slot `index` replaced.
pub open spec fn spec_set_aircraft<P>(m: StateModel<P>, index: usize, a: AircraftState<P>) -> StateModel<
    P,
> {
    StateModel { aircraft: m.aircraft.update(index as int, Some(a)), ..m }
}

/// Noting that an aircraft was seen: an aircraft the tracker knows has its
/// last-seen time updated; an unknown one is inserted, and indexed by its
/// address. The result also has the aircraft's slot.
pub open spec fn spec_update_aircraft<P: Copy>(m: StateModel<P>, address: IcaoAddress, time: i64) -> (
    StateModel<P>,
    usize,
) {
    match spec_lookup(m, address) {
        Some(i) => {
            let a = m.aircraft[i as int]->0;
            (
                spec_set_aircraft(
                    m,
                    i,
                    AircraftState { last_seen: a.last_seen.spec_update(time, ()).0, ..a },
                ),
                i,
            )
        },
        None => {
            let (items, free, i) = spec_insert(
                m.aircraft,
                m.free_slots,
                AircraftState::spec_new(address, time),
            );
            (
                StateModel {
                    aircraft: items,
                    free_slots: free,
                    by_icao_address: m.by_icao_address.insert(spec_icao_key(address), i),
                    ..m
                },
                i,
            )
        },
    }
}

/// A new callsign for the aircraft in slot `index`. When the aircraft had
/// another callsign before, the index of callsigns drops the old one and
/// names the slot under the new one; otherwise that index stays as it is.
pub open spec fn spec_update_callsign<P>(m: StateModel<P>, index: usize, time: i64, callsign: Callsign) -> StateModel<
    P,
> {
    let a = m.aircraft[index as int]->0;
    let (value, change) = spec_update_with_index(a.callsign, time, callsign);
    StateModel {
        aircraft: m.aircraft.update(index as int, Some(AircraftState { callsign: value, ..a })),
        by_callsign: match change {
            Some(Some(old)) => m.by_callsign.remove(spec_callsign_key(old)).insert(
                spec_callsign_key(callsign),
                index,
            ),
            _ => m.by_callsign,
        },
        ..m
    }
}

/// A new squawk for the aircraft in slot `index`, with the index of squawks
/// following as the index of callsigns does for callsigns.
pub open spec fn spec_update_squawk<P>(m: StateModel<P>, index: usize, time: i64, squawk: Squawk) -> StateModel<
    P,
> {
    let a = m.aircraft[index as int]->0;
    let (value, change) = spec_update_with_index(a.squawk, time, squawk);
    StateModel {
        aircraft: m.aircraft.update(index as int, Some(AircraftState { squawk: value, ..a })),
        by_squawk: match change {
            Some(Some(old)) => m.by_squawk.remove(old.code).insert(squawk.code, index),
            _ => m.by_squawk,
        },
        ..m
    }
}

/// The position fix of a planned decoding for the aircraft in slot `index`.
pub open spec fn spec_fix<P>(index: usize, time: i64, planned: Option<(DecodePlan, Option<P>)>) -> Option<
    PositionFix<P>,
> {
    match planned {
        Some((plan, reference)) => Some(PositionFix { index, time, plan, reference }),
        None => None,
    }
}

/// An aircraft status message: an emergency/priority status brings the
/// squawk; other statuses change nothing.
pub open spec fn spec_update_aircraft_status<P>(
    m: StateModel<P>,
    index: usize,
    time: i64,
    status: adsb::AircraftStatus,
) -> StateModel<P> {
    match status {
        adsb::AircraftStatus::EmergencyPriorityStatusAndModeACode(s) => spec_update_squawk(
            m,
            index,
            time,
            s.mode_a_code,
        ),
        _ => m,
    }
}

/// An ADS-B message from an aircraft: the aircraft is noted as seen, then
/// updated from the message. Identification, positions, velocities and
/// statuses update it; other messages do not.
pub open spec fn spec_update_with_adsb<P: Copy>(
    m: StateModel<P>,
    time: i64,
    address: IcaoAddress,
    message: adsb::Message,
) -> (StateModel<P>, Option<PositionFix<P>>) {
    let (m1, i) = spec_update_aircraft(m, address, time);
    let a = m1.aircraft[i as int]->0;
    match message {
        adsb::Message::AircraftIdentification(identification) => (
            spec_update_callsign(m1, i, time, spec_permissive_callsign(identification.callsign)),
            None,
        ),
        adsb::Message::SurfacePosition(position) => {
            let (a2, planned) = a.spec_update_surface_position(time, position);
            (spec_set_aircraft(m1, i, a2), spec_fix(i, time, planned))
        },
        adsb::Message::AirbornePosition(position) => {
            let (a2, planned) = a.spec_update_airborne_position(time, position);
            (spec_set_aircraft(m1, i, a2), spec_fix(i, time, planned))
        },
        adsb::Message::AirborneVelocity(velocity) => (
            spec_set_aircraft(m1, i, a.spec_update_airborne_velocity(time, velocity)),
            None,
        ),
        adsb::Message::AircraftStatus(status) => (
            spec_update_aircraft_status(m1, i, time, status),
            None,
        ),
        _ => (m1, None),
    }
}

/// The ADS-B messages that the tracker can take: an airborne velocity must
/// have speeds that can be turned into knots.
pub open spec fn spec_adsb_acceptable(message: adsb::Message) -> bool {
    message matches adsb::Message::AirborneVelocity(v) ==> spec_velocity_in_range(v)
}

/// The ADS-B message of a Mode S frame that the tracker reads, with the
/// address it came from: extended squitters, and non-transponder extended
/// squitters with an ICAO address.
pub open spec fn spec_frame_adsb(frame: Frame) -> Option<(IcaoAddress, adsb::Message)> {
    match frame {
        Frame::ExtendedSquitter(ExtendedSquitter { address_announced, adsb_message, .. }) => Some(
            (address_announced, adsb_message),
        ),
        Frame::ExtendedSquitterNonTransponder(
            ExtendedSquitterNonTransponder::AdsbWithIcaoAddress {
                address_announced,
                adsb_message,
                ..
            },
        ) => Some((address_announced, adsb_message)),
        _ => None,
    }
}

/// A Mode S frame: an all-call reply notes its aircraft as seen, an ADS-B
/// message updates its aircraft; other frames change nothing.
pub open spec fn spec_update_with_mode_s<P: Copy>(m: StateModel<P>, time: i64, frame: Frame) -> (
    StateModel<P>,
    Option<PositionFix<P>>,
) {
    match frame {
        Frame::AllCallReply(reply) => (spec_update_aircraft(m, reply.address_announced, time).0, None),
        _ => match spec_frame_adsb(frame) {
            Some((address, message)) => spec_update_with_adsb(m, time, address, message),
            None => (m, None),
        },
    }
}

/// The frames that the tracker can take: not military extended squitters,
/// and only ADS-B messages it can take.
pub open spec fn spec_frame_acceptable(frame: Frame) -> bool {
    &&& !(frame is MilitaryExtendedSquitter)
    &&& spec_frame_adsb(frame) matches Some((_, message)) ==> spec_adsb_acceptable(message)
}

/// A new aircraft can be added: the aircraft list has room for one more.
pub open spec fn spec_room_for<P>(m: StateModel<P>, address: IcaoAddress) -> bool {
    spec_lookup(m, address) is None ==> m.aircraft.len() < usize::MAX
}

/// The aircraft whose state the tracker keeps, indexed by ICAO address,
/// callsign and squawk.
#[derive(Debug)]
struct AircraftIndices {
    by_icao_address: HashMap<u64, usize>,
    by_callsign: HashMap<u64, usize>,
    by_squawk: HashMap<u16, usize>,
}

/// The state of all tracked aircraft.
#[derive(Debug)]
pub struct State<P> {
    aircraft: SparseList<AircraftState<P>>,
    indices: AircraftIndices,
}

impl<P> View for State<P> {
    type V = StateModel<P>;

    closed spec fn view(&self) -> StateModel<P> {
        StateModel {
            aircraft: self.aircraft@,
            free_slots: self.aircraft.free_slots(),
            by_icao_address: self.indices.by_icao_address@,
            by_callsign: self.indices.by_callsign@,
            by_squawk: self.indices.by_squawk@,
        }
    }
}

impl<P: Copy> State<P> {
    pub open spec fn wf(&self) -> bool {
        spec_state_wf(self@)
    }

    /// A state that knows no aircraft.
    pub fn new() -> (r: Self)
        ensures
            r@.aircraft == Seq::<Option<AircraftState<P>>>::empty(),
            r@.free_slots == Seq::<usize>::empty(),
            r@.by_icao_address == Map::<u64, usize>::empty(),
            r@.by_callsign == Map::<u64, usize>::empty(),
            r@.by_squawk == Map::<u16, usize>::empty(),
            r.wf(),
    {
        State {
            aircraft: SparseList::new(),
            indices: AircraftIndices {
                by_icao_address: HashMap::new(),
                by_callsign: HashMap::new(),
                by_squawk: HashMap::new(),
            },
        }
    }

    /// Notes that the aircraft with an ICAO address was seen at `time`, and
    /// returns its slot.
    pub fn update_aircraft(&mut self, icao_address: IcaoAddress, time: i64) -> (index: usize)
        requires
            old(self).wf(),
            spec_room_for(old(self)@, icao_address),
        ensures
            (final(self)@, index) == spec_update_aircraft(old(self)@, icao_address, time),
            final(self).wf(),
    {
        broadcast use vstd::std_specs::hash::group_hash_axioms;

        let key = icao_key(icao_address);
        match self.indices.by_icao_address.get(&key) {
            Some(index) => {
                let index = *index;
                let a = self.aircraft.index_mut(index);
                a.last_seen.update(time, ());
                index
            },
            None => {
                proof {
                    crate::sparse_list::law_insert_then_get(
                        self.aircraft@,
                        self.aircraft.free_slots(),
                        AircraftState::spec_new(icao_address, time),
                    );
                }
                let index = self.aircraft.insert(AircraftState::new(icao_address, time));
                self.indices.by_icao_address.insert(key, index);
                index
            },
        }
    }

    /// References to the aircraft the tracker knows, in the order of their
    /// slots.
    pub fn iter_aircraft(&self) -> (r: Vec<&AircraftState<P>>)
        ensures
            r@.map_values(|x: &AircraftState<P>| *x) == spec_values(self@.aircraft),
    {
        self.aircraft.iter()
    }
    /// Stores a position from multilateration for the aircraft with an ICAO
    /// address, which is noted as seen.
    pub fn update_mlat_position(&mut self, icao_address: IcaoAddress, time: i64, position: Position<P>)
        requires
            old(self).wf(),
            spec_room_for(old(self)@, icao_address),
        ensures
            ({
                let (m1, i) = spec_update_aircraft(old(self)@, icao_address, time);
                let a = m1.aircraft[i as int]->0;
                final(self)@ == spec_set_aircraft(
                    m1,
                    i,
                    AircraftState { position: a.position.spec_update(time, position).0, ..a },
                )
            }),
            final(self).wf(),
    {
        let index = self.update_aircraft(icao_address, time);
        let a = self.aircraft.index_mut(index);
        a.position.update(time, position);
    }

    /// A new callsign for the aircraft in slot `index`.
    pub fn update_callsign(&mut self, index: usize, time: i64, callsign: Callsign)
        requires
            old(self).wf(),
            index < old(self)@.aircraft.len(),
            old(self)@.aircraft[index as int] is Some,
        ensures
            final(self)@ == spec_update_callsign(old(self)@, index, time, callsign),
            final(self).wf(),
    {
        broadcast use vstd::std_specs::hash::group_hash_axioms;

        let change = {
            let a = self.aircraft.index_mut(index);
            update_timestamped_option_with_index_update(&mut a.callsign, time, callsign)
        };
        if let Some(Some(old_callsign)) = change {
            self.indices.by_callsign.remove(&callsign_key(&old_callsign));
            self.indices.by_callsign.insert(callsign_key(&callsign), index);
        }
    }

    /// A new squawk for the aircraft in slot `index`.
    pub fn update_squawk(&mut self, index: usize, time: i64, squawk: Squawk)
        requires
            old(self).wf(),
            index < old(self)@.aircraft.len(),
            old(self)@.aircraft[index as int] is Some,
        ensures
            final(self)@ == spec_update_squawk(old(self)@, index, time, squawk),
            final(self).wf(),
    {
        broadcast use vstd::std_specs::hash::group_hash_axioms;

        let change = {
            let a = self.aircraft.index_mut(index);
            update_timestamped_option_with_index_update(&mut a.squawk, time, squawk)
        };
        if let Some(Some(old_squawk)) = change {
            self.indices.by_squawk.remove(&old_squawk.code);
            self.indices.by_squawk.insert(squawk.code, index);
        }
    }

    /// The callsign of an identification message, for the aircraft in slot
    /// `index`.
    pub fn update_aircraft_identification(
        &mut self,
        index: usize,
        time: i64,
        identification: &adsb::AircraftIdentification,
    )
        requires
            old(self).wf(),
            index < old(self)@.aircraft.len(),
            old(self)@.aircraft[index as int] is Some,
        ensures
            final(self)@ == spec_update_callsign(
                old(self)@,
                index,
                time,
                spec_permissive_callsign(identification.callsign),
            ),
            final(self).wf(),
    {
        let callsign = identification.callsign.decode_permissive();
        proof {
            let c = spec_permissive_callsign(identification.callsign);
            Callsign::lemma_view_injective(c, callsign);
        }
        self.update_callsign(index, time, callsign);
    }

    /// An aircraft status for the aircraft in slot `index`.
    pub fn update_aircraft_status(&mut self, index: usize, time: i64, status: &adsb::AircraftStatus)
        requires
            old(self).wf(),
            index < old(self)@.aircraft.len(),
            old(self)@.aircraft[index as int] is Some,
        ensures
            final(self)@ == spec_update_aircraft_status(old(self)@, index, time, *status),
            final(self).wf(),
    {
        match status {
            adsb::AircraftStatus::EmergencyPriorityStatusAndModeACode(s) => {
                self.update_squawk(index, time, s.mode_a_code);
            },
            _ => {},
        }
    }

    /// An ADS-B message from the aircraft with an ICAO address. A message
    /// that brings a CPR value returns the position fix to complete.
    pub fn update_with_adsb(&mut self, time: i64, icao_address: IcaoAddress, message: &adsb::Message) -> (r:
        Option<PositionFix<P>>)
        requires
            old(self).wf(),
            spec_room_for(old(self)@, icao_address),
            spec_adsb_acceptable(*message),
        ensures
            (final(self)@, r) == spec_update_with_adsb(old(self)@, time, icao_address, *message),
            final(self).wf(),
    {
        let index = self.update_aircraft(icao_address, time);
        match message {
            adsb::Message::AircraftIdentification(identification) => {
                self.update_aircraft_identification(index, time, identification);
                None
            },
            adsb::Message::SurfacePosition(position) => {
                let a = self.aircraft.index_mut(index);
                match a.update_surface_position(time, position) {
                    Some((plan, reference)) => Some(PositionFix { index, time, plan, reference }),
                    None => None,
                }
            },
            adsb::Message::AirbornePosition(position) => {
                let a = self.aircraft.index_mut(index);
                match a.update_airborne_position(time, position) {
                    Some((plan, reference)) => Some(PositionFix { index, time, plan, reference }),
                    None => None,
                }
            },
            adsb::Message::AirborneVelocity(velocity) => {
                let a = self.aircraft.index_mut(index);
                a.update_airborne_velocity(time, velocity);
                None
            },
            adsb::Message::AircraftStatus(status) => {
                self.update_aircraft_status(index, time, status);
                None
            },
            _ => None,
        }
    }

    /// A Mode S frame received at `time`. A frame that brings a CPR value
    /// returns the position fix to complete.
    pub fn update_with_mode_s(&mut self, time: i64, frame: &Frame) -> (r: Option<PositionFix<P>>)
        requires
            old(self).wf(),
            spec_frame_acceptable(*frame),
            spec_frame_adsb(*frame) matches Some((address, _)) ==> spec_room_for(
                old(self)@,
                address,
            ),
            frame matches Frame::AllCallReply(reply) ==> spec_room_for(
                old(self)@,
                reply.address_announced,
            ),
        ensures
            (final(self)@, r) == spec_update_with_mode_s(old(self)@, time, *frame),
            final(self).wf(),
    {
        match frame {
            Frame::AllCallReply(reply) => {
                self.update_aircraft(reply.address_announced, time);
                None
            },
            Frame::ExtendedSquitter(squitter) => {
                self.update_with_adsb(time, squitter.address_announced, &squitter.adsb_message)
            },
            Frame::ExtendedSquitterNonTransponder(
                ExtendedSquitterNonTransponder::AdsbWithIcaoAddress {
                    address_announced,
                    adsb_message,
                    ..
                },
            ) => self.update_with_adsb(time, *address_announced, adsb_message),
            _ => None,
        }
    }

    /// Stores what decoding a position fix gave: a decoded position becomes
    /// the aircraft's position, unless the aircraft holds a newer one.
    pub fn complete_position_fix(&mut self, fix: PositionFix<P>, decoded: Option<P>)
        requires
            old(self).wf(),
            fix.index < old(self)@.aircraft.len(),
            old(self)@.aircraft[fix.index as int] is Some,
        ensures
            final(self)@ == (match decoded {
                Some(coordinates) => {
                    let a = old(self)@.aircraft[fix.index as int]->0;
                    spec_set_aircraft(
                        old(self)@,
                        fix.index,
                        AircraftState {
                            position: a.position.spec_update(
                                fix.time,
                                Position { coordinates, source: PositionSource::Gnss },
                            ).0,
                            ..a
                        },
                    )
                },
                None => old(self)@,
            }),
            final(self).wf(),
    {
        if let Some(coordinates) = decoded {
            let a = self.aircraft.index_mut(fix.index);
            a.store_decoded_position(fix.time, coordinates);
        }
    }
}

/// A stored value is never replaced by one received at the same time or
/// earlier.
pub proof fn law_older_update_changes_nothing<T>(held: Timestamped<T>, time: i64, value: T)
    requires
        time <= held.last_update,
    ensures
        held.spec_update(time, value) == (held, false),
        Some(held).spec_update(time, value) == (Some(held), false),
{
}

/// Once seen, an aircraft keeps its slot: its address then leads to that
/// slot, and seeing it again returns the same slot and leaves the indices
/// as they are.
pub proof fn law_seen_aircraft_keeps_slot<P: Copy>(m: StateModel<P>, address: IcaoAddress, time: i64, later: i64)
    requires
        spec_state_wf(m),
        spec_room_for(m, address),
    ensures
        ({
            let (m1, i) = spec_update_aircraft(m, address, time);
            let (m2, j) = spec_update_aircraft(m1, address, later);
            &&& spec_lookup(m1, address) == Some(i)
            &&& m1.aircraft[i as int]->0.icao_address == address
            &&& j == i
            &&& m2.by_icao_address == m1.by_icao_address
            &&& m2.free_slots == m1.free_slots
        }),
{
    let (m1, i) = spec_update_aircraft(m, address, time);
    if spec_lookup(m, address) is None {
        crate::sparse_list::law_insert_then_get(
            m.aircraft,
            m.free_slots,
            AircraftState::<P>::spec_new(address, time),
        );
    }
    let k = spec_icao_key(address);
    assert(m1.by_icao_address.contains_key(k));
    lemma_icao_key_injective(m1.aircraft[i as int]->0.icao_address, address);
}

/// A CPR value only comes with a reference position that is recent enough:
/// the aircraft holds a position that was last updated no longer before the
/// CPR value than the vertical status allows.
pub proof fn law_reference_is_recent<P: Copy>(
    a: AircraftState<P>,
    time: i64,
    cpr: Cpr,
    vertical_status: VerticalStatus,
)
    ensures
        a.spec_update_position(time, cpr, vertical_status).1 matches Some((_, Some(reference)))
            ==> a.position matches Some(p) && p.value.coordinates == reference && time
            - p.last_update <= spec_max_reference_age(vertical_status),
{
}

/// The speeds of a decoded airborne velocity can always be turned into
/// knots: speed codes are read from at most 11 bits, and a zero code means
/// no speed.
pub proof fn lemma_decoded_velocity_in_range(body: [u8; 6], sub_type: u8)
    ensures
        spec_velocity_in_range(adsb::AirborneVelocity::spec_decode(body, sub_type)),
{
    let b0 = body[0];
    let b1 = body[1];
    let b2 = body[2];
    let b3 = body[3];
    assert((((b0 & 0b1100_0000) as u16) << 3u16) | (b1 as u16) <= 1791) by (bit_vector);
    assert((((b2 & 0b0111_1111) as u16) << 3u16) | ((b3 >> 5u8) as u16) <= 1023) by (bit_vector);
}

/// Every decoded ADS-B message can be taken by the tracker.
pub proof fn lemma_decoded_message_acceptable(me: [u8; 7])
    ensures
        spec_adsb_acceptable(adsb::Message::spec_decode(me)),
{
    lemma_decoded_velocity_in_range(adsb::spec_body(me), me[0] & 0b111u8);
}

/// The ADS-B message of every decoded frame can be taken by the tracker.
pub proof fn lemma_decoded_frame_adsb_acceptable(b: Seq<u8>)
    ensures
        Frame::spec_decode(b) matches Ok(frame) ==> (spec_frame_adsb(frame) matches Some((_, message))
            ==> spec_adsb_acceptable(message)),
{
    if b.len() >= 14 {
        lemma_decoded_message_acceptable(crate::mode_s::arr7(crate::mode_s::arr13(b, 1)@, 3));
    }
}

} // verus!
