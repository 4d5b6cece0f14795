//! SBS (BaseStation) messages: comma-separated lines of text.
//!
//! - [readsb encoder][1]
//! - [Reference][2] ([archived][3])
//!
//! Reading lines from a stream is done outside this library: it fills a
//! [`ReceiveBuffer`], which cuts the received bytes into lines, and each line
//! is parsed with [`Message::from_str`]. Dates and times are read with
//! `chrono`; a decimal number is kept as its text, checked to be a
//! floating-point literal as the standard library's parser accepts it.
//!
//! [1]: https://github.com/wiedehopf/readsb/blob/75decb53c0e66f4c12cf24127578a3fe7d919219/net_io.c#L3318
//! [2]: http://www.homepages.mcb.net/bones/SBS/Article/Barebones42_Socket_Data.htm
//! [3]: https://web.archive.org/web/20150107063617/http://www.homepages.mcb.net/bones/SBS/Article/Barebones42_Socket_Data.htm

use vstd::prelude::*;

use crate::{
    text::{
        chars_eq,
        chars_of,
        is_float_literal,
        parse_i32,
        parse_u32,
        spec_parse_i32,
        spec_is_float_literal,
        spec_parse_u32,
        spec_split_commas,
        split_commas,
        string_from_chars,
    },
    types::{
        IcaoAddress,
        Squawk,
        SquawkFromStrError,
    },
};

verus! {

/// A calendar date.
#[derive(Clone, Copy, Debug, PartialEq, Eq)]
pub struct Date {
    pub year: i32,
    pub month: u32,
    pub day: u32,
}

/// A time of day.
#[derive(Clone, Copy, Debug, PartialEq, Eq)]
pub struct Time {
    pub hour: u32,
    pub minute: u32,
    pub second: u32,
    pub nanosecond: u32,
}

/// A date and a time of day, in UTC.
#[derive(Clone, Copy, Debug, PartialEq, Eq)]
pub struct Timestamp {
    pub date: Date,
    pub time: Time,
}

/// The date that `chrono::NaiveDate::parse_from_str` reads from a text in
/// the format `%Y/%m/%d`, if it reads one.
pub uninterp spec fn spec_parse_date(s: Seq<char>) -> Option<Date>;

/// The time that `chrono::NaiveTime::parse_from_str` reads from a text in
/// the format `%H:%M:%S%.3f`, if it reads one.
pub uninterp spec fn spec_parse_time(s: Seq<char>) -> Option<Time>;

/// Calls `chrono::NaiveDate::parse_from_str` with the format `%Y/%m/%d`.
///
/// Trusted: the result is the named date of exactly the given text; its
/// year, month and day are those of the parsed `NaiveDate`.
#[verifier::external_body]
fn parse_date(s: &str) -> (r: Option<Date>)
    ensures
        r == spec_parse_date(s@),
{
    match chrono::NaiveDate::parse_from_str(s, "%Y/%m/%d") {
        Ok(d) => Some(
            Date {
                year: chrono::Datelike::year(&d),
                month: chrono::Datelike::month(&d),
                day: chrono::Datelike::day(&d),
            },
        ),
        Err(_) => None,
    }
}

/// Calls `chrono::NaiveTime::parse_from_str` with the format `%H:%M:%S%.3f`.
///
/// Trusted: the result is the named time of exactly the given text; its
/// fields are those of the parsed `NaiveTime`.
#[verifier::external_body]
fn parse_time(s: &str) -> (r: Option<Time>)
    ensures
        r == spec_parse_time(s@),
{
    match chrono::NaiveTime::parse_from_str(s, "%H:%M:%S%.3f") {
        Ok(t) => Some(
            Time {
                hour: chrono::Timelike::hour(&t),
                minute: chrono::Timelike::minute(&t),
                second: chrono::Timelike::second(&t),
                nanosecond: chrono::Timelike::nanosecond(&t),
            },
        ),
        Err(_) => None,
    }
}

#[derive(Clone, Copy, Debug, PartialEq, Eq, Hash)]
pub enum StatusChange {
    PositionLost,
    SignalLost,
    Remove,
    Delete,
    /// The status `OK`.
    Okay,
}

/// The text could not be read as a status change.
#[derive(Clone, Debug)]
pub struct StatusChangeFromStrError {
    pub input: String,
}

impl StatusChange {
    /// `PL`, `SL`, `RM`, `AD` and `OK`.
    pub open spec fn spec_from_str(s: Seq<char>) -> Option<StatusChange> {
        if s == seq!['P', 'L'] {
            Some(StatusChange::PositionLost)
        } else if s == seq!['S', 'L'] {
            Some(StatusChange::SignalLost)
        } else if s == seq!['R', 'M'] {
            Some(StatusChange::Remove)
        } else if s == seq!['A', 'D'] {
            Some(StatusChange::Delete)
        } else if s == seq!['O', 'K'] {
            Some(StatusChange::Okay)
        } else {
            None
        }
    }

    pub fn from_str(s: &str) -> (r: Result<Self, StatusChangeFromStrError>)
        ensures
            match r {
                Ok(c) => Self::spec_from_str(s@) == Some(c),
                Err(e) => Self::spec_from_str(s@) is None && e.input@ == s@,
            },
    {
        if chars_eq(s, &['P', 'L']) {
            Ok(StatusChange::PositionLost)
        } else if chars_eq(s, &['S', 'L']) {
            Ok(StatusChange::SignalLost)
        } else if chars_eq(s, &['R', 'M']) {
            Ok(StatusChange::Remove)
        } else if chars_eq(s, &['A', 'D']) {
            Ok(StatusChange::Delete)
        } else if chars_eq(s, &['O', 'K']) {
            Ok(StatusChange::Okay)
        } else {
            proof {
                assert(['P', 'L']@ =~= seq!['P', 'L']);
                assert(['S', 'L']@ =~= seq!['S', 'L']);
                assert(['R', 'M']@ =~= seq!['R', 'M']);
                assert(['A', 'D']@ =~= seq!['A', 'D']);
                assert(['O', 'K']@ =~= seq!['O', 'K']);
            }
            Err(StatusChangeFromStrError { input: s.to_owned() })
        }
    }
}


/// Why a line could not be read as a message.
#[derive(Debug)]
pub enum MessageFromStrError {
    /// truncated message
    Truncated,
    /// invalid session id
    InvalidSessionId { value: String },
    /// invalid aircraft id
    InvalidAircraftId { value: String },
    /// invalid hex ident
    InvalidHexIdent { value: String },
    /// invalid flight id
    InvalidFlightId { value: String },
    /// invalid date message generated
    InvalidDateMessageGenerated { value: String },
    /// invalid time message generated
    InvalidTimeMessageGenerated { value: String },
    /// invalid date message logged
    InvalidDateMessageLogged { value: String },
    /// invalid time message logged
    InvalidTimeMessageLogged { value: String },
    /// invalid message type
    InvalidMessageType { value: String },
    /// invalid transmission type
    InvalidTransmissionType { value: String },
    /// invalid status change
    InvalidStatusChange(StatusChangeFromStrError),
    /// invalid altitude
    InvalidAltitude { value: String },
    /// invalid ground speed
    InvalidGroundSpeed { value: String },
    /// invalid track
    InvalidTrack { value: String },
    /// invalid latitude
    InvalidLatitude { value: String },
    /// invalid longitude
    InvalidLongitude { value: String },
    /// invalid vertical rate
    InvalidVerticalRate { value: String },
    /// invalid squawk
    InvalidSquawk(SquawkFromStrError),
    /// invalid alert
    InvalidAlert { value: String },
    /// invalid emergency
    InvalidEmergency { value: String },
    /// invalid spi
    InvalidSpi { value: String },
    /// invalid is_on_ground
    InvalidIsOnGround { value: String },
}

/// A [`MessageFromStrError`] with the text it holds as characters.
pub enum MessageErrorView {
    Truncated,
    InvalidSessionId(Seq<char>),
    InvalidAircraftId(Seq<char>),
    InvalidHexIdent(Seq<char>),
    InvalidFlightId(Seq<char>),
    InvalidDateMessageGenerated(Seq<char>),
    InvalidTimeMessageGenerated(Seq<char>),
    InvalidDateMessageLogged(Seq<char>),
    InvalidTimeMessageLogged(Seq<char>),
    InvalidMessageType(Seq<char>),
    InvalidTransmissionType(Seq<char>),
    InvalidStatusChange(Seq<char>),
    InvalidAltitude(Seq<char>),
    InvalidGroundSpeed(Seq<char>),
    InvalidTrack(Seq<char>),
    InvalidLatitude(Seq<char>),
    InvalidLongitude(Seq<char>),
    InvalidVerticalRate(Seq<char>),
    InvalidSquawk(Seq<char>),
    InvalidAlert(Seq<char>),
    InvalidEmergency(Seq<char>),
    InvalidSpi(Seq<char>),
    InvalidIsOnGround(Seq<char>),
}

impl View for MessageFromStrError {
    type V = MessageErrorView;

    open spec fn view(&self) -> MessageErrorView {
        match self {
            MessageFromStrError::Truncated => MessageErrorView::Truncated,
            MessageFromStrError::InvalidSessionId { value } => MessageErrorView::InvalidSessionId(value@),
            MessageFromStrError::InvalidAircraftId { value } => MessageErrorView::InvalidAircraftId(value@),
            MessageFromStrError::InvalidHexIdent { value } => MessageErrorView::InvalidHexIdent(value@),
            MessageFromStrError::InvalidFlightId { value } => MessageErrorView::InvalidFlightId(value@),
            MessageFromStrError::InvalidDateMessageGenerated { value } => MessageErrorView::InvalidDateMessageGenerated(value@),
            MessageFromStrError::InvalidTimeMessageGenerated { value } => MessageErrorView::InvalidTimeMessageGenerated(value@),
            MessageFromStrError::InvalidDateMessageLogged { value } => MessageErrorView::InvalidDateMessageLogged(value@),
            MessageFromStrError::InvalidTimeMessageLogged { value } => MessageErrorView::InvalidTimeMessageLogged(value@),
            MessageFromStrError::InvalidMessageType { value } => MessageErrorView::InvalidMessageType(value@),
            MessageFromStrError::InvalidTransmissionType { value } => MessageErrorView::InvalidTransmissionType(value@),
            MessageFromStrError::InvalidStatusChange(e) => MessageErrorView::InvalidStatusChange(e.input@),
            MessageFromStrError::InvalidAltitude { value } => MessageErrorView::InvalidAltitude(value@),
            MessageFromStrError::InvalidGroundSpeed { value } => MessageErrorView::InvalidGroundSpeed(value@),
            MessageFromStrError::InvalidTrack { value } => MessageErrorView::InvalidTrack(value@),
            MessageFromStrError::InvalidLatitude { value } => MessageErrorView::InvalidLatitude(value@),
            MessageFromStrError::InvalidLongitude { value } => MessageErrorView::InvalidLongitude(value@),
            MessageFromStrError::InvalidVerticalRate { value } => MessageErrorView::InvalidVerticalRate(value@),
            MessageFromStrError::InvalidSquawk(e) => MessageErrorView::InvalidSquawk(e.input@),
            MessageFromStrError::InvalidAlert { value } => MessageErrorView::InvalidAlert(value@),
            MessageFromStrError::InvalidEmergency { value } => MessageErrorView::InvalidEmergency(value@),
            MessageFromStrError::InvalidSpi { value } => MessageErrorView::InvalidSpi(value@),
            MessageFromStrError::InvalidIsOnGround { value } => MessageErrorView::InvalidIsOnGround(value@),
        }
    }
}

/// The data of a transmission message (`MSG`), by transmission type. A
/// decimal number is the text of the field, which is a floating-point literal.
#[derive(Clone, Debug)]
pub enum Transmission {
    EsIdentificationAndCategory {
        callsign: String,
    },
    EsSurfacePosition {
        altitude: Option<u32>,
        ground_speed: String,
        track: String,
        latitude: String,
        longitude: String,
        is_on_ground: Option<bool>,
    },
    EsAirbornePosition {
        altitude: Option<u32>,
        latitude: String,
        longitude: String,
        alert: bool,
        emergency: bool,
        spi: bool,
        is_on_ground: Option<bool>,
    },
    EsAirborneVelocity {
        ground_speed: String,
        track: String,
        vertical_rate: i32,
    },
    SurveillanceAltMessage {
        altitude: Option<u32>,
        alert: bool,
        spi: bool,
        is_on_ground: Option<bool>,
    },
    SurveillanceIdMessage {
        altitude: Option<u32>,
        squawk: Squawk,
        alert: bool,
        emergency: bool,
        spi: bool,
        is_on_ground: Option<bool>,
    },
    AirToAirMessage {
        altitude: Option<u32>,
        is_on_ground: Option<bool>,
    },
    AllCallReply {
        is_on_ground: Option<bool>,
    },
}

/// A [`Transmission`] with its texts as characters.
pub enum TransmissionView {
    EsIdentificationAndCategory {
        callsign: Seq<char>,
    },
    EsSurfacePosition {
        altitude: Option<u32>,
        ground_speed: Seq<char>,
        track: Seq<char>,
        latitude: Seq<char>,
        longitude: Seq<char>,
        is_on_ground: Option<bool>,
    },
    EsAirbornePosition {
        altitude: Option<u32>,
        latitude: Seq<char>,
        longitude: Seq<char>,
        alert: bool,
        emergency: bool,
        spi: bool,
        is_on_ground: Option<bool>,
    },
    EsAirborneVelocity {
        ground_speed: Seq<char>,
        track: Seq<char>,
        vertical_rate: i32,
    },
    SurveillanceAltMessage {
        altitude: Option<u32>,
        alert: bool,
        spi: bool,
        is_on_ground: Option<bool>,
    },
    SurveillanceIdMessage {
        altitude: Option<u32>,
        squawk: Squawk,
        alert: bool,
        emergency: bool,
        spi: bool,
        is_on_ground: Option<bool>,
    },
    AirToAirMessage {
        altitude: Option<u32>,
        is_on_ground: Option<bool>,
    },
    AllCallReply {
        is_on_ground: Option<bool>,
    },
}

impl View for Transmission {
    type V = TransmissionView;

    open spec fn view(&self) -> TransmissionView {
        match self {
            Transmission::EsIdentificationAndCategory { callsign } => TransmissionView::EsIdentificationAndCategory { callsign: callsign@ },
            Transmission::EsSurfacePosition { altitude, ground_speed, track, latitude, longitude, is_on_ground } => TransmissionView::EsSurfacePosition { altitude: *altitude, ground_speed: ground_speed@, track: track@, latitude: latitude@, longitude: longitude@, is_on_ground: *is_on_ground },
            Transmission::EsAirbornePosition { altitude, latitude, longitude, alert, emergency, spi, is_on_ground } => TransmissionView::EsAirbornePosition { altitude: *altitude, latitude: latitude@, longitude: longitude@, alert: *alert, emergency: *emergency, spi: *spi, is_on_ground: *is_on_ground },
            Transmission::EsAirborneVelocity { ground_speed, track, vertical_rate } => TransmissionView::EsAirborneVelocity { ground_speed: ground_speed@, track: track@, vertical_rate: *vertical_rate },
            Transmission::SurveillanceAltMessage { altitude, alert, spi, is_on_ground } => TransmissionView::SurveillanceAltMessage { altitude: *altitude, alert: *alert, spi: *spi, is_on_ground: *is_on_ground },
            Transmission::SurveillanceIdMessage { altitude, squawk, alert, emergency, spi, is_on_ground } => TransmissionView::SurveillanceIdMessage { altitude: *altitude, squawk: *squawk, alert: *alert, emergency: *emergency, spi: *spi, is_on_ground: *is_on_ground },
            Transmission::AirToAirMessage { altitude, is_on_ground } => TransmissionView::AirToAirMessage { altitude: *altitude, is_on_ground: *is_on_ground },
            Transmission::AllCallReply { is_on_ground } => TransmissionView::AllCallReply { is_on_ground: *is_on_ground },
        }
    }
}

/// An SBS message.
#[derive(Clone, Debug)]
pub enum Message {
    SelectionChange {
        session_id: u32,
        aircraft_id: u32,
        hex_ident: IcaoAddress,
        flight_id: u32,
        time_generated: Timestamp,
        time_logged: Timestamp,
        callsign: String,
    },
    NewId {
        session_id: u32,
        aircraft_id: u32,
        hex_ident: IcaoAddress,
        flight_id: u32,
        time_generated: Timestamp,
        time_logged: Timestamp,
        callsign: String,
    },
    NewAircraft {
        session_id: u32,
        aircraft_id: u32,
        hex_ident: IcaoAddress,
        flight_id: u32,
        time_generated: Timestamp,
        time_logged: Timestamp,
    },
    StatusChange {
        session_id: u32,
        aircraft_id: u32,
        hex_ident: IcaoAddress,
        flight_id: u32,
        time_generated: Timestamp,
        time_logged: Timestamp,
        status_change: StatusChange,
    },
    Click {
        session_id: u32,
        time_generated: Timestamp,
        time_logged: Timestamp,
    },
    Transmission {
        session_id: u32,
        aircraft_id: u32,
        hex_ident: IcaoAddress,
        flight_id: u32,
        time_generated: Timestamp,
        time_logged: Timestamp,
        transmission: Transmission,
    },
}

/// A [`Message`] with its texts as characters.
pub enum MessageView {
    SelectionChange {
        session_id: u32,
        aircraft_id: u32,
        hex_ident: IcaoAddress,
        flight_id: u32,
        time_generated: Timestamp,
        time_logged: Timestamp,
        callsign: Seq<char>,
    },
    NewId {
        session_id: u32,
        aircraft_id: u32,
        hex_ident: IcaoAddress,
        flight_id: u32,
        time_generated: Timestamp,
        time_logged: Timestamp,
        callsign: Seq<char>,
    },
    NewAircraft {
        session_id: u32,
        aircraft_id: u32,
        hex_ident: IcaoAddress,
        flight_id: u32,
        time_generated: Timestamp,
        time_logged: Timestamp,
    },
    StatusChange {
        session_id: u32,
        aircraft_id: u32,
        hex_ident: IcaoAddress,
        flight_id: u32,
        time_generated: Timestamp,
        time_logged: Timestamp,
        status_change: StatusChange,
    },
    Click {
        session_id: u32,
        time_generated: Timestamp,
        time_logged: Timestamp,
    },
    Transmission {
        session_id: u32,
        aircraft_id: u32,
        hex_ident: IcaoAddress,
        flight_id: u32,
        time_generated: Timestamp,
        time_logged: Timestamp,
        transmission: TransmissionView,
    },
}

impl View for Message {
    type V = MessageView;

    open spec fn view(&self) -> MessageView {
        match self {
            Message::SelectionChange { session_id, aircraft_id, hex_ident, flight_id, time_generated, time_logged, callsign } => MessageView::SelectionChange { session_id: *session_id, aircraft_id: *aircraft_id, hex_ident: *hex_ident, flight_id: *flight_id, time_generated: *time_generated, time_logged: *time_logged, callsign: callsign@ },
            Message::NewId { session_id, aircraft_id, hex_ident, flight_id, time_generated, time_logged, callsign } => MessageView::NewId { session_id: *session_id, aircraft_id: *aircraft_id, hex_ident: *hex_ident, flight_id: *flight_id, time_generated: *time_generated, time_logged: *time_logged, callsign: callsign@ },
            Message::NewAircraft { session_id, aircraft_id, hex_ident, flight_id, time_generated, time_logged } => MessageView::NewAircraft { session_id: *session_id, aircraft_id: *aircraft_id, hex_ident: *hex_ident, flight_id: *flight_id, time_generated: *time_generated, time_logged: *time_logged },
            Message::StatusChange { session_id, aircraft_id, hex_ident, flight_id, time_generated, time_logged, status_change } => MessageView::StatusChange { session_id: *session_id, aircraft_id: *aircraft_id, hex_ident: *hex_ident, flight_id: *flight_id, time_generated: *time_generated, time_logged: *time_logged, status_change: *status_change },
            Message::Click { session_id, time_generated, time_logged } => MessageView::Click { session_id: *session_id, time_generated: *time_generated, time_logged: *time_logged },
            Message::Transmission { session_id, aircraft_id, hex_ident, flight_id, time_generated, time_logged, transmission } => MessageView::Transmission { session_id: *session_id, aircraft_id: *aircraft_id, hex_ident: *hex_ident, flight_id: *flight_id, time_generated: *time_generated, time_logged: *time_logged, transmission: transmission@ },
        }
    }
}

impl Message {
    pub open spec fn spec_session_id(self) -> u32 {
        match self {
            Message::SelectionChange { session_id, .. } => session_id,
            Message::NewId { session_id, .. } => session_id,
            Message::NewAircraft { session_id, .. } => session_id,
            Message::StatusChange { session_id, .. } => session_id,
            Message::Click { session_id, .. } => session_id,
            Message::Transmission { session_id, .. } => session_id,
        }
    }

    pub fn session_id(&self) -> (r: u32)
        ensures
            r == self.spec_session_id(),
    {
        match self {
            Message::SelectionChange { session_id, .. } => *session_id,
            Message::NewId { session_id, .. } => *session_id,
            Message::NewAircraft { session_id, .. } => *session_id,
            Message::StatusChange { session_id, .. } => *session_id,
            Message::Click { session_id, .. } => *session_id,
            Message::Transmission { session_id, .. } => *session_id,
        }
    }

    pub open spec fn spec_time_generated(self) -> Timestamp {
        match self {
            Message::SelectionChange { time_generated, .. } => time_generated,
            Message::NewId { time_generated, .. } => time_generated,
            Message::NewAircraft { time_generated, .. } => time_generated,
            Message::StatusChange { time_generated, .. } => time_generated,
            Message::Click { time_generated, .. } => time_generated,
            Message::Transmission { time_generated, .. } => time_generated,
        }
    }

    pub fn time_generated(&self) -> (r: Timestamp)
        ensures
            r == self.spec_time_generated(),
    {
        match self {
            Message::SelectionChange { time_generated, .. } => *time_generated,
            Message::NewId { time_generated, .. } => *time_generated,
            Message::NewAircraft { time_generated, .. } => *time_generated,
            Message::StatusChange { time_generated, .. } => *time_generated,
            Message::Click { time_generated, .. } => *time_generated,
            Message::Transmission { time_generated, .. } => *time_generated,
        }
    }

    pub open spec fn spec_time_logged(self) -> Timestamp {
        match self {
            Message::SelectionChange { time_logged, .. } => time_logged,
            Message::NewId { time_logged, .. } => time_logged,
            Message::NewAircraft { time_logged, .. } => time_logged,
            Message::StatusChange { time_logged, .. } => time_logged,
            Message::Click { time_logged, .. } => time_logged,
            Message::Transmission { time_logged, .. } => time_logged,
        }
    }

    pub fn time_logged(&self) -> (r: Timestamp)
        ensures
            r == self.spec_time_logged(),
    {
        match self {
            Message::SelectionChange { time_logged, .. } => *time_logged,
            Message::NewId { time_logged, .. } => *time_logged,
            Message::NewAircraft { time_logged, .. } => *time_logged,
            Message::StatusChange { time_logged, .. } => *time_logged,
            Message::Click { time_logged, .. } => *time_logged,
            Message::Transmission { time_logged, .. } => *time_logged,
        }
    }
}

/// Maps the error of a result to its view.
pub open spec fn result_view<T>(r: Result<T, MessageFromStrError>) -> Result<T, MessageErrorView> {
    match r {
        Ok(v) => Ok(v),
        Err(e) => Err(e@),
    }
}

/// Maps a text result to the characters of its text, and its error to the
/// error's view.
pub open spec fn text_result_view(r: Result<String, MessageFromStrError>) -> Result<Seq<char>, MessageErrorView> {
    match r {
        Ok(v) => Ok(v@),
        Err(e) => Err(e@),
    }
}

/// `0` is false, `-1` is true.
pub open spec fn spec_parse_bool(s: Seq<char>) -> Option<bool> {
    if s == seq!['0'] {
        Some(false)
    } else if s == seq!['-', '1'] {
        Some(true)
    } else {
        None
    }
}

/// An SBS flag is set by `-1` and clear by `0`: a flag text that parses is
/// set exactly when it is a negative number (starts with `-`), and no two
/// different texts parse to the same flag, so set and clear never share a
/// text.
pub proof fn law_flag_texts(a: Seq<char>, b: Seq<char>)
    ensures
        spec_parse_bool(a) matches Some(set) ==> a.len() > 0 && (set <==> a[0] == '-'),
        spec_parse_bool(a) is Some && spec_parse_bool(a) == spec_parse_bool(b) ==> a == b,
{
}

/// The alert, emergency, SPI and on-ground fields of a transmission are SBS
/// flags: each reads as set exactly when its text is a negative number
/// (`-1`), and two different texts never read as the same flag.
pub proof fn law_transmission_flags(a: Seq<char>, b: Seq<char>)
    ensures
        spec_alert(a) matches Ok(set) ==> a.len() > 0 && (set <==> a[0] == '-'),
        spec_alert(a) is Ok && spec_alert(a) == spec_alert(b) ==> a == b,
        spec_emergency(a) matches Ok(set) ==> a.len() > 0 && (set <==> a[0] == '-'),
        spec_emergency(a) is Ok && spec_emergency(a) == spec_emergency(b) ==> a == b,
        spec_spi(a) matches Ok(set) ==> a.len() > 0 && (set <==> a[0] == '-'),
        spec_spi(a) is Ok && spec_spi(a) == spec_spi(b) ==> a == b,
        spec_is_on_ground(a) matches Ok(Some(set)) ==> a.len() > 0 && (set <==> a[0] == '-'),
        spec_is_on_ground(a) matches Ok(Some(_)) && spec_is_on_ground(a) == spec_is_on_ground(b)
            ==> a == b,
        spec_is_on_ground(a) == Ok::<Option<bool>, MessageErrorView>(None) <==> a.len() == 0,
{
}

fn parse_bool(s: &str) -> (r: Option<bool>)
    ensures
        r == spec_parse_bool(s@),
{
    proof {
        assert(['0']@ =~= seq!['0']);
        assert(['-', '1']@ =~= seq!['-', '1']);
    }
    if chars_eq(s, &['0']) {
        Some(false)
    } else if chars_eq(s, &['-', '1']) {
        Some(true)
    } else {
        None
    }
}

/// A callsign with each `@` replaced by a space.
pub open spec fn spec_callsign(s: Seq<char>) -> Seq<char> {
    s.map_values(|c: char| if c == '@' { ' ' } else { c })
}

/// Reads a callsign: each `@` becomes a space; this always succeeds.
pub fn parse_callsign(s: &str) -> (r: Result<String, MessageFromStrError>)
    ensures
        r matches Ok(c) && c@ == spec_callsign(s@),
{
    let chars = chars_of(s);
    let mut replaced: Vec<char> = Vec::new();
    let mut i: usize = 0;
    while i < chars.len()
        invariant
            chars@ == s@,
            i <= chars@.len(),
            replaced@ == spec_callsign(s@.take(i as int)),
        decreases chars.len() - i,
    {
        let c = chars[i];
        replaced.push(if c == '@' { ' ' } else { c });
        i += 1;
        assert(replaced@ =~= spec_callsign(s@.take(i as int)));
    }
    assert(s@.take(i as int) =~= s@);
    Ok(string_from_chars(&replaced))
}

/// An empty altitude is none; otherwise it must read as a `u32`.
pub open spec fn spec_altitude(s: Seq<char>) -> Result<Option<u32>, MessageErrorView> {
    if s.len() == 0 {
        Ok(None)
    } else {
        match spec_parse_u32(s) {
            Some(v) => Ok(Some(v)),
            None => Err(MessageErrorView::InvalidAltitude(s)),
        }
    }
}

fn altitude(s: &str) -> (r: Result<Option<u32>, MessageFromStrError>)
    ensures
        result_view(r) == spec_altitude(s@),
{
    if s.as_bytes().len() == 0 {
        assert(s@.len() == 0) by {
            crate::text::lemma_char_count_at_most_bytes(s);
        }
        return Ok(None);
    }
    proof {
        if s@.len() == 0 {
            crate::text::lemma_empty_chars_no_bytes(s);
        }
    }
    match parse_u32(s) {
        Some(v) => Ok(Some(v)),
        None => Err(MessageFromStrError::InvalidAltitude { value: s.to_owned() }),
    }
}

/// An empty on-ground flag is none; otherwise it must read as a flag.
pub open spec fn spec_is_on_ground(s: Seq<char>) -> Result<Option<bool>, MessageErrorView> {
    if s.len() == 0 {
        Ok(None)
    } else {
        match spec_parse_bool(s) {
            Some(v) => Ok(Some(v)),
            None => Err(MessageErrorView::InvalidIsOnGround(s)),
        }
    }
}

fn is_on_ground(s: &str) -> (r: Result<Option<bool>, MessageFromStrError>)
    ensures
        result_view(r) == spec_is_on_ground(s@),
{
    if s.as_bytes().len() == 0 {
        assert(s@.len() == 0) by {
            crate::text::lemma_char_count_at_most_bytes(s);
        }
        return Ok(None);
    }
    proof {
        if s@.len() == 0 {
            crate::text::lemma_empty_chars_no_bytes(s);
        }
    }
    match parse_bool(s) {
        Some(v) => Ok(Some(v)),
        None => Err(MessageFromStrError::InvalidIsOnGround { value: s.to_owned() }),
    }
}

/// The vertical rate must read as an `i32`.
pub open spec fn spec_vertical_rate(s: Seq<char>) -> Result<i32, MessageErrorView> {
    match spec_parse_i32(s) {
        Some(v) => Ok(v),
        None => Err(MessageErrorView::InvalidVerticalRate(s)),
    }
}

fn vertical_rate(s: &str) -> (r: Result<i32, MessageFromStrError>)
    ensures
        result_view(r) == spec_vertical_rate(s@),
{
    match parse_i32(s) {
        Some(v) => Ok(v),
        None => Err(MessageFromStrError::InvalidVerticalRate { value: s.to_owned() }),
    }
}

/// The squawk must read as four octal digits.
pub open spec fn spec_squawk(s: Seq<char>) -> Result<Squawk, MessageErrorView> {
    match Squawk::spec_from_str(s) {
        Some(q) => Ok(q),
        None => Err(MessageErrorView::InvalidSquawk(s)),
    }
}

fn squawk(s: &str) -> (r: Result<Squawk, MessageFromStrError>)
    ensures
        result_view(r) == spec_squawk(s@),
{
    match Squawk::from_str(s) {
        Ok(q) => Ok(q),
        Err(e) => Err(MessageFromStrError::InvalidSquawk(e)),
    }
}

/// The ground speed must be a floating-point literal; its text is kept.
pub open spec fn spec_ground_speed(s: Seq<char>) -> Result<Seq<char>, MessageErrorView> {
    if spec_is_float_literal(s) {
        Ok(s)
    } else {
        Err(MessageErrorView::InvalidGroundSpeed(s))
    }
}

fn ground_speed(s: &str) -> (r: Result<String, MessageFromStrError>)
    ensures
        text_result_view(r) == spec_ground_speed(s@),
{
    if is_float_literal(s) {
        Ok(s.to_owned())
    } else {
        Err(MessageFromStrError::InvalidGroundSpeed { value: s.to_owned() })
    }
}

/// The track must be a floating-point literal; its text is kept.
pub open spec fn spec_track(s: Seq<char>) -> Result<Seq<char>, MessageErrorView> {
    if spec_is_float_literal(s) {
        Ok(s)
    } else {
        Err(MessageErrorView::InvalidTrack(s))
    }
}

fn track(s: &str) -> (r: Result<String, MessageFromStrError>)
    ensures
        text_result_view(r) == spec_track(s@),
{
    if is_float_literal(s) {
        Ok(s.to_owned())
    } else {
        Err(MessageFromStrError::InvalidTrack { value: s.to_owned() })
    }
}

/// The latitude must be a floating-point literal; its text is kept.
pub open spec fn spec_latitude(s: Seq<char>) -> Result<Seq<char>, MessageErrorView> {
    if spec_is_float_literal(s) {
        Ok(s)
    } else {
        Err(MessageErrorView::InvalidLatitude(s))
    }
}

fn latitude(s: &str) -> (r: Result<String, MessageFromStrError>)
    ensures
        text_result_view(r) == spec_latitude(s@),
{
    if is_float_literal(s) {
        Ok(s.to_owned())
    } else {
        Err(MessageFromStrError::InvalidLatitude { value: s.to_owned() })
    }
}

/// The longitude must be a floating-point literal; its text is kept.
pub open spec fn spec_longitude(s: Seq<char>) -> Result<Seq<char>, MessageErrorView> {
    if spec_is_float_literal(s) {
        Ok(s)
    } else {
        Err(MessageErrorView::InvalidLongitude(s))
    }
}

fn longitude(s: &str) -> (r: Result<String, MessageFromStrError>)
    ensures
        text_result_view(r) == spec_longitude(s@),
{
    if is_float_literal(s) {
        Ok(s.to_owned())
    } else {
        Err(MessageFromStrError::InvalidLongitude { value: s.to_owned() })
    }
}

/// The alert flag must read as a flag.
pub open spec fn spec_alert(s: Seq<char>) -> Result<bool, MessageErrorView> {
    match spec_parse_bool(s) {
        Some(v) => Ok(v),
        None => Err(MessageErrorView::InvalidAlert(s)),
    }
}

fn alert(s: &str) -> (r: Result<bool, MessageFromStrError>)
    ensures
        result_view(r) == spec_alert(s@),
{
    match parse_bool(s) {
        Some(v) => Ok(v),
        None => Err(MessageFromStrError::InvalidAlert { value: s.to_owned() }),
    }
}

/// The emergency flag must read as a flag.
pub open spec fn spec_emergency(s: Seq<char>) -> Result<bool, MessageErrorView> {
    match spec_parse_bool(s) {
        Some(v) => Ok(v),
        None => Err(MessageErrorView::InvalidEmergency(s)),
    }
}

fn emergency(s: &str) -> (r: Result<bool, MessageFromStrError>)
    ensures
        result_view(r) == spec_emergency(s@),
{
    match parse_bool(s) {
        Some(v) => Ok(v),
        None => Err(MessageFromStrError::InvalidEmergency { value: s.to_owned() }),
    }
}

/// The spi flag must read as a flag.
pub open spec fn spec_spi(s: Seq<char>) -> Result<bool, MessageErrorView> {
    match spec_parse_bool(s) {
        Some(v) => Ok(v),
        None => Err(MessageErrorView::InvalidSpi(s)),
    }
}

fn spi(s: &str) -> (r: Result<bool, MessageFromStrError>)
    ensures
        result_view(r) == spec_spi(s@),
{
    match parse_bool(s) {
        Some(v) => Ok(v),
        None => Err(MessageFromStrError::InvalidSpi { value: s.to_owned() }),
    }
}

/// The aircraft ID, hex ident and flight ID of fields 3, 4 and 5, read in
/// that order.
pub open spec fn spec_ids(f: Seq<Seq<char>>) -> Result<(u32, IcaoAddress, u32), MessageErrorView> {
    match spec_parse_u32(f[3]) {
        None => Err(MessageErrorView::InvalidAircraftId(f[3])),
        Some(aircraft_id) => match IcaoAddress::spec_from_str(f[4]) {
            None => Err(MessageErrorView::InvalidHexIdent(f[4])),
            Some(hex_ident) => match spec_parse_u32(f[5]) {
                None => Err(MessageErrorView::InvalidFlightId(f[5])),
                Some(flight_id) => Ok((aircraft_id, hex_ident, flight_id)),
            },
        },
    }
}

fn ids(f: &Vec<&str>) -> (r: Result<(u32, IcaoAddress, u32), MessageFromStrError>)
    requires
        f@.len() >= 6,
    ensures
        result_view(r) == spec_ids(f@.map_values(|x: &str| x@)),
{
    let aircraft_id = match parse_u32(f[3]) {
        Some(v) => v,
        None => return Err(MessageFromStrError::InvalidAircraftId { value: f[3].to_owned() }),
    };
    let hex_ident = match IcaoAddress::from_str(f[4]) {
        Ok(v) => v,
        Err(error) => return Err(MessageFromStrError::InvalidHexIdent { value: error.input }),
    };
    let flight_id = match parse_u32(f[5]) {
        Some(v) => v,
        None => return Err(MessageFromStrError::InvalidFlightId { value: f[5].to_owned() }),
    };
    Ok((aircraft_id, hex_ident, flight_id))
}

/// The transmission of a `MSG` line by its transmission type (field 1), its
/// fields read in the order of the variant's fields. An unknown
/// transmission type is reported with the message type (field 0).
pub open spec fn spec_transmission(f: Seq<Seq<char>>) -> Result<TransmissionView, MessageErrorView> {
    if f[1] == seq!['1'] {
        Ok(TransmissionView::EsIdentificationAndCategory { callsign: spec_callsign(f[10]) })
    } else if f[1] == seq!['2'] {
        match spec_altitude(f[11]) {
            Err(e) => Err(e),
            Ok(altitude) =>             match spec_ground_speed(f[12]) {
                Err(e) => Err(e),
                Ok(ground_speed) =>                 match spec_track(f[13]) {
                    Err(e) => Err(e),
                    Ok(track) =>                     match spec_latitude(f[14]) {
                        Err(e) => Err(e),
                        Ok(latitude) =>                         match spec_longitude(f[15]) {
                            Err(e) => Err(e),
                            Ok(longitude) =>                             match spec_is_on_ground(f[21]) {
                                Err(e) => Err(e),
                                Ok(is_on_ground) => Ok(TransmissionView::EsSurfacePosition { altitude, ground_speed, track, latitude, longitude, is_on_ground }),
                            },
                        },
                    },
                },
            },
        }
    } else if f[1] == seq!['3'] {
        match spec_altitude(f[11]) {
            Err(e) => Err(e),
            Ok(altitude) =>             match spec_latitude(f[14]) {
                Err(e) => Err(e),
                Ok(latitude) =>                 match spec_longitude(f[15]) {
                    Err(e) => Err(e),
                    Ok(longitude) =>                     match spec_alert(f[18]) {
                        Err(e) => Err(e),
                        Ok(alert) =>                         match spec_emergency(f[19]) {
                            Err(e) => Err(e),
                            Ok(emergency) =>                             match spec_spi(f[20]) {
                                Err(e) => Err(e),
                                Ok(spi) =>                                 match spec_is_on_ground(f[21]) {
                                    Err(e) => Err(e),
                                    Ok(is_on_ground) => Ok(TransmissionView::EsAirbornePosition { altitude, latitude, longitude, alert, emergency, spi, is_on_ground }),
                                },
                            },
                        },
                    },
                },
            },
        }
    } else if f[1] == seq!['4'] {
        match spec_ground_speed(f[12]) {
            Err(e) => Err(e),
            Ok(ground_speed) =>             match spec_track(f[13]) {
                Err(e) => Err(e),
                Ok(track) =>                 match spec_vertical_rate(f[16]) {
                    Err(e) => Err(e),
                    Ok(vertical_rate) => Ok(TransmissionView::EsAirborneVelocity { ground_speed, track, vertical_rate }),
                },
            },
        }
    } else if f[1] == seq!['5'] {
        match spec_altitude(f[11]) {
            Err(e) => Err(e),
            Ok(altitude) =>             match spec_alert(f[18]) {
                Err(e) => Err(e),
                Ok(alert) =>                 match spec_spi(f[20]) {
                    Err(e) => Err(e),
                    Ok(spi) =>                     match spec_is_on_ground(f[21]) {
                        Err(e) => Err(e),
                        Ok(is_on_ground) => Ok(TransmissionView::SurveillanceAltMessage { altitude, alert, spi, is_on_ground }),
                    },
                },
            },
        }
    } else if f[1] == seq!['6'] {
        match spec_altitude(f[11]) {
            Err(e) => Err(e),
            Ok(altitude) =>             match spec_squawk(f[17]) {
                Err(e) => Err(e),
                Ok(squawk) =>                 match spec_alert(f[18]) {
                    Err(e) => Err(e),
                    Ok(alert) =>                     match spec_emergency(f[19]) {
                        Err(e) => Err(e),
                        Ok(emergency) =>                         match spec_spi(f[20]) {
                            Err(e) => Err(e),
                            Ok(spi) =>                             match spec_is_on_ground(f[21]) {
                                Err(e) => Err(e),
                                Ok(is_on_ground) => Ok(TransmissionView::SurveillanceIdMessage { altitude, squawk, alert, emergency, spi, is_on_ground }),
                            },
                        },
                    },
                },
            },
        }
    } else if f[1] == seq!['7'] {
        match spec_altitude(f[11]) {
            Err(e) => Err(e),
            Ok(altitude) =>             match spec_is_on_ground(f[21]) {
                Err(e) => Err(e),
                Ok(is_on_ground) => Ok(TransmissionView::AirToAirMessage { altitude, is_on_ground }),
            },
        }
    } else if f[1] == seq!['8'] {
        match spec_is_on_ground(f[21]) {
            Err(e) => Err(e),
            Ok(is_on_ground) => Ok(TransmissionView::AllCallReply { is_on_ground }),
        }
    } else {
        Err(MessageErrorView::InvalidTransmissionType(f[0]))
    }
}

fn transmission(f: &Vec<&str>, callsign: &String) -> (r: Result<Transmission, MessageFromStrError>)
    requires
        f@.len() >= 22,
        callsign@ == spec_callsign(f@[10]@),
    ensures
        match r {
            Ok(t) => spec_transmission(f@.map_values(|x: &str| x@)) == Ok::<TransmissionView, MessageErrorView>(t@),
            Err(e) => spec_transmission(f@.map_values(|x: &str| x@)) == Err::<TransmissionView, MessageErrorView>(e@),
        },
{
    let ghost fv = f@.map_values(|x: &str| x@);
    let tt = f[1];
    if chars_eq(tt, &['1']) {
        assert(['1']@ =~= seq!['1']);
        Ok(Transmission::EsIdentificationAndCategory { callsign: callsign.clone() })
    } else if chars_eq(tt, &['2']) {
        assert(['2']@ =~= seq!['2']);
        let altitude = match altitude(f[11]) {
            Ok(v) => v,
            Err(e) => return Err(e),
        };
        let ground_speed = match ground_speed(f[12]) {
            Ok(v) => v,
            Err(e) => return Err(e),
        };
        let track = match track(f[13]) {
            Ok(v) => v,
            Err(e) => return Err(e),
        };
        let latitude = match latitude(f[14]) {
            Ok(v) => v,
            Err(e) => return Err(e),
        };
        let longitude = match longitude(f[15]) {
            Ok(v) => v,
            Err(e) => return Err(e),
        };
        let is_on_ground = match is_on_ground(f[21]) {
            Ok(v) => v,
            Err(e) => return Err(e),
        };
        Ok(Transmission::EsSurfacePosition { altitude, ground_speed, track, latitude, longitude, is_on_ground })
    } else if chars_eq(tt, &['3']) {
        assert(['3']@ =~= seq!['3']);
        let altitude = match altitude(f[11]) {
            Ok(v) => v,
            Err(e) => return Err(e),
        };
        let latitude = match latitude(f[14]) {
            Ok(v) => v,
            Err(e) => return Err(e),
        };
        let longitude = match longitude(f[15]) {
            Ok(v) => v,
            Err(e) => return Err(e),
        };
        let alert = match alert(f[18]) {
            Ok(v) => v,
            Err(e) => return Err(e),
        };
        let emergency = match emergency(f[19]) {
            Ok(v) => v,
            Err(e) => return Err(e),
        };
        let spi = match spi(f[20]) {
            Ok(v) => v,
            Err(e) => return Err(e),
        };
        let is_on_ground = match is_on_ground(f[21]) {
            Ok(v) => v,
            Err(e) => return Err(e),
        };
        Ok(Transmission::EsAirbornePosition { altitude, latitude, longitude, alert, emergency, spi, is_on_ground })
    } else if chars_eq(tt, &['4']) {
        assert(['4']@ =~= seq!['4']);
        let ground_speed = match ground_speed(f[12]) {
            Ok(v) => v,
            Err(e) => return Err(e),
        };
        let track = match track(f[13]) {
            Ok(v) => v,
            Err(e) => return Err(e),
        };
        let vertical_rate = match vertical_rate(f[16]) {
            Ok(v) => v,
            Err(e) => return Err(e),
        };
        Ok(Transmission::EsAirborneVelocity { ground_speed, track, vertical_rate })
    } else if chars_eq(tt, &['5']) {
        assert(['5']@ =~= seq!['5']);
        let altitude = match altitude(f[11]) {
            Ok(v) => v,
            Err(e) => return Err(e),
        };
        let alert = match alert(f[18]) {
            Ok(v) => v,
            Err(e) => return Err(e),
        };
        let spi = match spi(f[20]) {
            Ok(v) => v,
            Err(e) => return Err(e),
        };
        let is_on_ground = match is_on_ground(f[21]) {
            Ok(v) => v,
            Err(e) => return Err(e),
        };
        Ok(Transmission::SurveillanceAltMessage { altitude, alert, spi, is_on_ground })
    } else if chars_eq(tt, &['6']) {
        assert(['6']@ =~= seq!['6']);
        let altitude = match altitude(f[11]) {
            Ok(v) => v,
            Err(e) => return Err(e),
        };
        let squawk = match squawk(f[17]) {
            Ok(v) => v,
            Err(e) => return Err(e),
        };
        let alert = match alert(f[18]) {
            Ok(v) => v,
            Err(e) => return Err(e),
        };
        let emergency = match emergency(f[19]) {
            Ok(v) => v,
            Err(e) => return Err(e),
        };
        let spi = match spi(f[20]) {
            Ok(v) => v,
            Err(e) => return Err(e),
        };
        let is_on_ground = match is_on_ground(f[21]) {
            Ok(v) => v,
            Err(e) => return Err(e),
        };
        Ok(Transmission::SurveillanceIdMessage { altitude, squawk, alert, emergency, spi, is_on_ground })
    } else if chars_eq(tt, &['7']) {
        assert(['7']@ =~= seq!['7']);
        let altitude = match altitude(f[11]) {
            Ok(v) => v,
            Err(e) => return Err(e),
        };
        let is_on_ground = match is_on_ground(f[21]) {
            Ok(v) => v,
            Err(e) => return Err(e),
        };
        Ok(Transmission::AirToAirMessage { altitude, is_on_ground })
    } else if chars_eq(tt, &['8']) {
        assert(['8']@ =~= seq!['8']);
        let is_on_ground = match is_on_ground(f[21]) {
            Ok(v) => v,
            Err(e) => return Err(e),
        };
        Ok(Transmission::AllCallReply { is_on_ground })
    } else {
        assert(['1']@ =~= seq!['1']);
        assert(['2']@ =~= seq!['2']);
        assert(['3']@ =~= seq!['3']);
        assert(['4']@ =~= seq!['4']);
        assert(['5']@ =~= seq!['5']);
        assert(['6']@ =~= seq!['6']);
        assert(['7']@ =~= seq!['7']);
        assert(['8']@ =~= seq!['8']);
        Err(MessageFromStrError::InvalidTransmissionType { value: f[0].to_owned() })
    }
}

/// The message of a line whose first ten fields were read: the session ID
/// and the two timestamps, then the fields of its message type (field 0).
pub open spec fn spec_message_body(
    f: Seq<Seq<char>>,
    session_id: u32,
    time_generated: Timestamp,
    time_logged: Timestamp,
) -> Result<MessageView, MessageErrorView> {
    if f[0] == seq!['S', 'E', 'L'] {
        if f.len() < 11 {
            Err(MessageErrorView::Truncated)
        } else {
            match spec_ids(f) {
                Err(e) => Err(e),
                Ok((aircraft_id, hex_ident, flight_id)) => Ok(
                    MessageView::SelectionChange {
                        session_id,
                        aircraft_id,
                        hex_ident,
                        flight_id,
                        time_generated,
                        time_logged,
                        callsign: spec_callsign(f[10]),
                    },
                ),
            }
        }
    } else if f[0] == seq!['I', 'D'] {
        if f.len() < 11 {
            Err(MessageErrorView::Truncated)
        } else {
            match spec_ids(f) {
                Err(e) => Err(e),
                Ok((aircraft_id, hex_ident, flight_id)) => Ok(
                    MessageView::NewId {
                        session_id,
                        aircraft_id,
                        hex_ident,
                        flight_id,
                        time_generated,
                        time_logged,
                        callsign: spec_callsign(f[10]),
                    },
                ),
            }
        }
    } else if f[0] == seq!['A', 'I', 'R'] {
        match spec_ids(f) {
            Err(e) => Err(e),
            Ok((aircraft_id, hex_ident, flight_id)) => Ok(
                MessageView::NewAircraft {
                    session_id,
                    aircraft_id,
                    hex_ident,
                    flight_id,
                    time_generated,
                    time_logged,
                },
            ),
        }
    } else if f[0] == seq!['S', 'T', 'A'] {
        if f.len() < 11 {
            Err(MessageErrorView::Truncated)
        } else {
            match StatusChange::spec_from_str(f[10]) {
                None => Err(MessageErrorView::InvalidStatusChange(f[10])),
                Some(status_change) => match spec_ids(f) {
                    Err(e) => Err(e),
                    Ok((aircraft_id, hex_ident, flight_id)) => Ok(
                        MessageView::StatusChange {
                            session_id,
                            aircraft_id,
                            hex_ident,
                            flight_id,
                            time_generated,
                            time_logged,
                            status_change,
                        },
                    ),
                },
            }
        }
    } else if f[0] == seq!['C', 'L', 'K'] {
        Ok(MessageView::Click { session_id, time_generated, time_logged })
    } else if f[0] == seq!['M', 'S', 'G'] {
        if f.len() < 22 {
            Err(MessageErrorView::Truncated)
        } else {
            match spec_transmission(f) {
                Err(e) => Err(e),
                Ok(transmission) => match spec_ids(f) {
                    Err(e) => Err(e),
                    Ok((aircraft_id, hex_ident, flight_id)) => Ok(
                        MessageView::Transmission {
                            session_id,
                            aircraft_id,
                            hex_ident,
                            flight_id,
                            time_generated,
                            time_logged,
                            transmission,
                        },
                    ),
                },
            }
        }
    } else {
        Err(MessageErrorView::InvalidMessageType(f[0]))
    }
}

/// The message of a line: its comma-separated fields must be at least ten
/// (message type, transmission type, session ID, aircraft ID, hex ident,
/// flight ID, date and time generated, date and time logged); the session ID
/// and the four date and time fields are read first, in that order, and
/// then the fields of the message type.
pub open spec fn spec_from_str(s: Seq<char>) -> Result<MessageView, MessageErrorView> {
    let f = spec_split_commas(s);
    if f.len() < 10 {
        Err(MessageErrorView::Truncated)
    } else {
        match spec_parse_u32(f[2]) {
            None => Err(MessageErrorView::InvalidSessionId(f[2])),
            Some(session_id) => match spec_parse_date(f[6]) {
                None => Err(MessageErrorView::InvalidDateMessageGenerated(f[6])),
                Some(date_generated) => match spec_parse_time(f[7]) {
                    None => Err(MessageErrorView::InvalidTimeMessageGenerated(f[7])),
                    Some(time_generated) => match spec_parse_date(f[8]) {
                        None => Err(MessageErrorView::InvalidDateMessageLogged(f[8])),
                        Some(date_logged) => match spec_parse_time(f[9]) {
                            None => Err(MessageErrorView::InvalidTimeMessageLogged(f[9])),
                            Some(time_logged) => spec_message_body(
                                f,
                                session_id,
                                Timestamp { date: date_generated, time: time_generated },
                                Timestamp { date: date_logged, time: time_logged },
                            ),
                        },
                    },
                },
            },
        }
    }
}

/// Maps a message result to the views of its message and error.
pub open spec fn message_result_view(r: Result<Message, MessageFromStrError>) -> Result<
    MessageView,
    MessageErrorView,
> {
    match r {
        Ok(m) => Ok(m@),
        Err(e) => Err(e@),
    }
}

impl Message {
    /// Reads a message from a line (without its line break).
    pub fn from_str(s: &str) -> (r: Result<Self, MessageFromStrError>)
        ensures
            message_result_view(r) == spec_from_str(s@),
    {
        let f = split_commas(s);
        let ghost fv = f@.map_values(|x: &str| x@);
        assert(fv =~= spec_split_commas(s@));
        if f.len() < 10 {
            return Err(MessageFromStrError::Truncated);
        }
        let session_id = match parse_u32(f[2]) {
            Some(v) => v,
            None => return Err(MessageFromStrError::InvalidSessionId { value: f[2].to_owned() }),
        };
        let date_generated = match parse_date(f[6]) {
            Some(v) => v,
            None => return Err(
                MessageFromStrError::InvalidDateMessageGenerated { value: f[6].to_owned() },
            ),
        };
        let time_generated = match parse_time(f[7]) {
            Some(v) => v,
            None => return Err(
                MessageFromStrError::InvalidTimeMessageGenerated { value: f[7].to_owned() },
            ),
        };
        let date_logged = match parse_date(f[8]) {
            Some(v) => v,
            None => return Err(
                MessageFromStrError::InvalidDateMessageLogged { value: f[8].to_owned() },
            ),
        };
        let time_logged = match parse_time(f[9]) {
            Some(v) => v,
            None => return Err(
                MessageFromStrError::InvalidTimeMessageLogged { value: f[9].to_owned() },
            ),
        };
        let time_generated = Timestamp { date: date_generated, time: time_generated };
        let time_logged = Timestamp { date: date_logged, time: time_logged };
        let message_type = f[0];
        proof {
            assert(['S', 'E', 'L']@ =~= seq!['S', 'E', 'L']);
            assert(['I', 'D']@ =~= seq!['I', 'D']);
            assert(['A', 'I', 'R']@ =~= seq!['A', 'I', 'R']);
            assert(['S', 'T', 'A']@ =~= seq!['S', 'T', 'A']);
            assert(['C', 'L', 'K']@ =~= seq!['C', 'L', 'K']);
            assert(['M', 'S', 'G']@ =~= seq!['M', 'S', 'G']);
        }
        if chars_eq(message_type, &['S', 'E', 'L']) {
            if f.len() < 11 {
                return Err(MessageFromStrError::Truncated);
            }
            let callsign = match parse_callsign(f[10]) {
                Ok(c) => c,
                Err(e) => return Err(e),
            };
            let (aircraft_id, hex_ident, flight_id) = match ids(&f) {
                Ok(v) => v,
                Err(e) => return Err(e),
            };
            Ok(
                Message::SelectionChange {
                    session_id,
                    aircraft_id,
                    hex_ident,
                    flight_id,
                    time_generated,
                    time_logged,
                    callsign,
                },
            )
        } else if chars_eq(message_type, &['I', 'D']) {
            if f.len() < 11 {
                return Err(MessageFromStrError::Truncated);
            }
            let callsign = match parse_callsign(f[10]) {
                Ok(c) => c,
                Err(e) => return Err(e),
            };
            let (aircraft_id, hex_ident, flight_id) = match ids(&f) {
                Ok(v) => v,
                Err(e) => return Err(e),
            };
            Ok(
                Message::NewId {
                    session_id,
                    aircraft_id,
                    hex_ident,
                    flight_id,
                    time_generated,
                    time_logged,
                    callsign,
                },
            )
        } else if chars_eq(message_type, &['A', 'I', 'R']) {
            let (aircraft_id, hex_ident, flight_id) = match ids(&f) {
                Ok(v) => v,
                Err(e) => return Err(e),
            };
            Ok(
                Message::NewAircraft {
                    session_id,
                    aircraft_id,
                    hex_ident,
                    flight_id,
                    time_generated,
                    time_logged,
                },
            )
        } else if chars_eq(message_type, &['S', 'T', 'A']) {
            if f.len() < 11 {
                return Err(MessageFromStrError::Truncated);
            }
            let status_change = match StatusChange::from_str(f[10]) {
                Ok(c) => c,
                Err(e) => return Err(MessageFromStrError::InvalidStatusChange(e)),
            };
            let (aircraft_id, hex_ident, flight_id) = match ids(&f) {
                Ok(v) => v,
                Err(e) => return Err(e),
            };
            Ok(
                Message::StatusChange {
                    session_id,
                    aircraft_id,
                    hex_ident,
                    flight_id,
                    time_generated,
                    time_logged,
                    status_change,
                },
            )
        } else if chars_eq(message_type, &['C', 'L', 'K']) {
            Ok(Message::Click { session_id, time_generated, time_logged })
        } else if chars_eq(message_type, &['M', 'S', 'G']) {
            if f.len() < 22 {
                return Err(MessageFromStrError::Truncated);
            }
            let callsign = match parse_callsign(f[10]) {
                Ok(c) => c,
                Err(e) => return Err(e),
            };
            let transmission = match transmission(&f, &callsign) {
                Ok(t) => t,
                Err(e) => return Err(e),
            };
            let (aircraft_id, hex_ident, flight_id) = match ids(&f) {
                Ok(v) => v,
                Err(e) => return Err(e),
            };
            Ok(
                Message::Transmission {
                    session_id,
                    aircraft_id,
                    hex_ident,
                    flight_id,
                    time_generated,
                    time_logged,
                    transmission,
                },
            )
        } else {
            Err(MessageFromStrError::InvalidMessageType { value: message_type.to_owned() })
        }
    }
}

/// Size of the buffer that lines are read into.
pub const RECEIVE_BUFFER_SIZE: usize = 1024;

/// A line break: `\r` or `\n`. SBS uses `\r\n`, which makes an empty line
/// between the two.
pub open spec fn spec_is_line_break(b: u8) -> bool {
    b == 0x0d || b == 0x0a
}

/// The index of the first line break in `bytes[i..]`, if there is one.
pub open spec fn spec_first_line_break(bytes: Seq<u8>, i: int) -> Option<int>
    decreases bytes.len() - i,
{
    if i < 0 || i >= bytes.len() {
        None
    } else if spec_is_line_break(bytes[i]) {
        Some(i)
    } else {
        spec_first_line_break(bytes, i + 1)
    }
}

proof fn lemma_first_line_break(bytes: Seq<u8>, i: int)
    ensures
        spec_first_line_break(bytes, i) matches Some(j) ==> 0 <= i <= j < bytes.len()
            && spec_is_line_break(bytes[j]),
    decreases bytes.len() - i,
{
    if 0 <= i < bytes.len() && !spec_is_line_break(bytes[i]) {
        lemma_first_line_break(bytes, i + 1);
    }
}

/// Received bytes, cut into lines.
///
/// `read_pos` is where the next line starts, `write_pos` where the next read
/// goes, and up to `no_newline_until` the bytes were already searched for a
/// line break.
#[derive(Debug)]
pub struct ReceiveBuffer {
    pub buffer: [u8; 1024],
    pub read_pos: usize,
    pub write_pos: usize,
    pub no_newline_until: usize,
}

impl ReceiveBuffer {
    pub open spec fn wf(&self) -> bool {
        self.read_pos <= self.no_newline_until <= self.write_pos <= 1024
    }

    /// The bytes received so far.
    pub open spec fn filled(&self) -> Seq<u8> {
        self.buffer@.take(self.write_pos as int)
    }

    /// An empty buffer.
    pub fn new() -> (r: Self)
        ensures
            r.wf(),
            r.read_pos == 0,
            r.write_pos == 0,
            r.no_newline_until == 0,
    {
        Self { buffer: [0u8; 1024], read_pos: 0, write_pos: 0, no_newline_until: 0 }
    }

    /// Whether there are received bytes not searched for a line break yet.
    pub fn has_data(&self) -> (r: bool)
        ensures
            r == (self.no_newline_until < self.write_pos),
    {
        self.no_newline_until < self.write_pos
    }

    /// Searches the bytes not searched yet for a line break: the first one
    /// is where the search stops; without one, all bytes were searched.
    pub fn scan_for_newline(&mut self) -> (r: Option<usize>)
        requires
            old(self).wf(),
        ensures
            final(self).wf(),
            final(self).buffer == old(self).buffer,
            final(self).read_pos == old(self).read_pos,
            final(self).write_pos == old(self).write_pos,
            match spec_first_line_break(old(self).filled(), old(self).no_newline_until as int) {
                Some(i) => r == Some(i as usize) && final(self).no_newline_until == i,
                None => r is None && final(self).no_newline_until == old(self).write_pos,
            },
    {
        let ghost bytes = self.filled();
        let mut i = self.no_newline_until;
        while i < self.write_pos
            invariant
                self.wf(),
                *self == *old(self),
                bytes == self.filled(),
                self.no_newline_until <= i <= self.write_pos,
                self.write_pos == bytes.len(),
                spec_first_line_break(bytes, self.no_newline_until as int) == spec_first_line_break(
                    bytes,
                    i as int,
                ),
            decreases self.write_pos - i,
        {
            let byte = self.buffer[i];
            if byte == 0x0d || byte == 0x0a {
                self.no_newline_until = i;
                return Some(i);
            }
            i += 1;
        }
        self.no_newline_until = self.write_pos;
        None
    }

    /// The next line, without its line break, if a line break was received;
    /// reading goes on after the line break.
    pub fn next_line(&mut self) -> (r: Option<&[u8]>)
        requires
            old(self).wf(),
        ensures
            final(self).wf(),
            final(self).buffer == old(self).buffer,
            final(self).write_pos == old(self).write_pos,
            match spec_first_line_break(old(self).filled(), old(self).no_newline_until as int) {
                Some(i) => r matches Some(line) && line@ == old(self).buffer@.subrange(
                    old(self).read_pos as int,
                    i,
                ) && final(self).read_pos == i + 1 && final(self).no_newline_until == i + 1,
                None => r is None && final(self).read_pos == old(self).read_pos
                    && final(self).no_newline_until == old(self).write_pos,
            },
    {
        proof {
            lemma_first_line_break(old(self).filled(), old(self).no_newline_until as int);
        }
        match self.scan_for_newline() {
            Some(newline) => {
                let start = self.read_pos;
                self.read_pos = newline + 1;
                self.no_newline_until = self.read_pos;
                Some(vstd::slice::slice_subrange(self.buffer.as_slice(), start, newline))
            },
            None => None,
        }
    }

    /// Moves the bytes not read yet to the front of the buffer, to make room
    /// for reading, when some were read and some are left.
    pub fn prepare_read(&mut self)
        requires
            old(self).wf(),
        ensures
            final(self).wf(),
            old(self).read_pos < old(self).write_pos && old(self).read_pos > 0 ==> {
                &&& final(self).read_pos == 0
                &&& final(self).write_pos == old(self).write_pos - old(self).read_pos
                &&& final(self).no_newline_until == old(self).no_newline_until - old(self).read_pos
                &&& final(self).filled() == old(self).filled().skip(old(self).read_pos as int)
            },
            !(old(self).read_pos < old(self).write_pos && old(self).read_pos > 0) ==> *final(self)
                == *old(self),
    {
        if self.read_pos < self.write_pos && self.read_pos > 0 {
            let ghost old_filled = self.filled();
            let read_pos = self.read_pos;
            let n = self.write_pos - read_pos;
            let mut k: usize = 0;
            while k < n
                invariant
                    self.read_pos == read_pos,
                    self.write_pos == read_pos + n,
                    self.no_newline_until == old(self).no_newline_until,
                    old(self).wf(),
                    old(self).read_pos == read_pos,
                    0 < read_pos,
                    read_pos + n <= 1024,
                    k <= n,
                    old_filled.len() == read_pos + n,
                    forall|j: int| 0 <= j < k ==> self.buffer@[j] == old_filled[read_pos + j],
                    forall|j: int| read_pos + k <= j < read_pos + n ==> #[trigger] self.buffer@[j] == old_filled[j],
                decreases n - k,
            {
                let byte = self.buffer[read_pos + k];
                self.buffer[k] = byte;
                k += 1;
            }
            self.write_pos = n;
            self.no_newline_until = self.no_newline_until - read_pos;
            self.read_pos = 0;
            assert(self.filled() =~= old_filled.skip(read_pos as int));
        }
    }
}

impl Default for ReceiveBuffer {
    fn default() -> (r: Self)
        ensures
            r.wf(),
            r.read_pos == 0,
            r.write_pos == 0,
            r.no_newline_until == 0,
    {
        Self::new()
    }
}

} // verus!
