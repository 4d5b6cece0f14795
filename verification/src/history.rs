//! Traces of aircraft from the history archives.
//!
//! A trace is a list of points of an aircraft's flight. Indexing a trace
//! keeps the points where something about the aircraft is worth recording:
//! the first and the last point, and each point where its callsign or squawk
//! changed.

use vstd::prelude::*;

use crate::{
    text::{
        chars_eq,
        chars_of,
        spec_trim,
        trim,
    },
    types::{
        IcaoAddress,
        IcaoAddressFromStrError,
        Squawk,
        SquawkFromStrError,
    },
};

verus! {

/// The emergency an aircraft declares; `NoEmergency` is written `none` in
/// the archives.
#[derive(Clone, Copy, Debug, PartialEq, Eq)]
pub enum Emergency {
    NoEmergency,
    General,
    Lifeguard,
    MinFuel,
    NoRadio,
    Unlawful,
    Downed,
    Reserved,
}

/// What a trace point tells about the aircraft.
#[derive(Clone, Debug)]
pub struct Aircraft {
    pub squawk: Option<String>,
    pub nav_modes: Vec<String>,
    pub emergency: Option<Emergency>,
    pub flight: Option<String>,
}

/// An [`Aircraft`] with its texts as characters.
pub struct AircraftView {
    pub squawk: Option<Seq<char>>,
    pub nav_modes: Seq<Seq<char>>,
    pub emergency: Option<Emergency>,
    pub flight: Option<Seq<char>>,
}

pub open spec fn spec_text_view(t: Option<String>) -> Option<Seq<char>> {
    match t {
        Some(s) => Some(s@),
        None => None,
    }
}

impl View for Aircraft {
    type V = AircraftView;

    open spec fn view(&self) -> AircraftView {
        AircraftView {
            squawk: spec_text_view(self.squawk),
            nav_modes: self.nav_modes@.map_values(|s: String| s@),
            emergency: self.emergency,
            flight: spec_text_view(self.flight),
        }
    }
}

/// The aircraft of each trace point, where the point has one, as plain
/// values.
pub open spec fn spec_points_view(points: Seq<Option<Aircraft>>) -> Seq<Option<AircraftView>> {
    points.map_values(
        |p: Option<Aircraft>|
            match p {
                Some(a) => Some(a@),
                None => None,
            },
    )
}

/// A trace point to record: its position in the trace, and the callsign and
/// squawk the aircraft had last at that point.
#[derive(Clone, Debug)]
pub struct TraceInfo {
    pub point: usize,
    pub callsign: Option<String>,
    pub squawk: Option<Squawk>,
}

pub struct TraceInfoView {
    pub point: usize,
    pub callsign: Option<Seq<char>>,
    pub squawk: Option<Squawk>,
}

impl View for TraceInfo {
    type V = TraceInfoView;

    open spec fn view(&self) -> TraceInfoView {
        TraceInfoView { point: self.point, callsign: spec_text_view(self.callsign), squawk: self.squawk }
    }
}

#[derive(Debug)]
pub enum TraceError {
    IcaoAddress(IcaoAddressFromStrError),
    Squawk(SquawkFromStrError),
}

/// The callsign and squawk last seen while going through a trace.
pub struct TraceCursor {
    pub callsign: Option<Seq<char>>,
    pub squawk: Option<Squawk>,
}

/// Going over one trace point: a callsign (without surrounding whitespace)
/// that differs from the current one, or the first one, is a change; a
/// squawk is read, and one that differs from the current one, or the first
/// one, is a change. The result is the new cursor and whether something
/// changed, or the text of a squawk that does not read.
pub open spec fn spec_trace_step(cursor: TraceCursor, point: Option<AircraftView>) -> Result<
    (TraceCursor, bool),
    Seq<char>,
> {
    match point {
        None => Ok((cursor, false)),
        Some(aircraft) => {
            let (callsign, callsign_changed) = match aircraft.flight {
                Some(flight) => {
                    let trimmed = spec_trim(flight);
                    (
                        Some(trimmed),
                        match cursor.callsign {
                            Some(c) => c != trimmed,
                            None => true,
                        },
                    )
                },
                None => (cursor.callsign, false),
            };
            match aircraft.squawk {
                Some(text) => match Squawk::spec_from_str(text) {
                    Some(squawk) => Ok(
                        (
                            TraceCursor { callsign, squawk: Some(squawk) },
                            callsign_changed || match cursor.squawk {
                                Some(previous) => previous != squawk,
                                None => true,
                            },
                        ),
                    ),
                    None => Err(text),
                },
                None => Ok((TraceCursor { callsign, squawk: cursor.squawk }, callsign_changed)),
            }
        },
    }
}

/// The cursor and the points to record after going over the first `k`
/// points of a trace: a point is recorded if it is the first or the last of
/// the trace, or if something changed at it.
pub open spec fn spec_trace_prefix(points: Seq<Option<AircraftView>>, k: nat) -> Result<
    (TraceCursor, Seq<TraceInfoView>),
    Seq<char>,
>
    decreases k,
{
    if k == 0 {
        Ok((TraceCursor { callsign: None, squawk: None }, Seq::empty()))
    } else {
        let i = k - 1;
        match spec_trace_prefix(points, i as nat) {
            Err(text) => Err(text),
            Ok((cursor, rows)) => match spec_trace_step(cursor, points[i]) {
                Err(text) => Err(text),
                Ok((next, changed)) => Ok(
                    (
                        next,
                        if i == 0 || i == points.len() - 1 || changed {
                            rows.push(
                                TraceInfoView {
                                    point: i as usize,
                                    callsign: next.callsign,
                                    squawk: next.squawk,
                                },
                            )
                        } else {
                            rows
                        },
                    ),
                ),
            },
        }
    }
}

/// The outcome of indexing a trace, as plain values.
pub enum IndexedTrace {
    Indexed(IcaoAddress, Seq<TraceInfoView>),
    BadIcaoAddress(Seq<char>),
    BadSquawk(Seq<char>),
}

/// Indexing a trace: the address must read, then each point is gone over in
/// order; the first squawk that does not read stops it.
pub open spec fn spec_index_trace(icao: Seq<char>, points: Seq<Option<AircraftView>>) -> IndexedTrace {
    match IcaoAddress::spec_from_str(icao) {
        None => IndexedTrace::BadIcaoAddress(icao),
        Some(address) => match spec_trace_prefix(points, points.len()) {
            Err(text) => IndexedTrace::BadSquawk(text),
            Ok((_, rows)) => IndexedTrace::Indexed(address, rows),
        },
    }
}

/// The outcome of [`index_trace`] as plain values.
pub open spec fn spec_indexed_view(r: Result<(IcaoAddress, Vec<TraceInfo>), TraceError>) -> IndexedTrace {
    match r {
        Ok((address, rows)) => IndexedTrace::Indexed(
            address,
            rows@.map_values(|row: TraceInfo| row@),
        ),
        Err(TraceError::IcaoAddress(e)) => IndexedTrace::BadIcaoAddress(e.input@),
        Err(TraceError::Squawk(e)) => IndexedTrace::BadSquawk(e.input@),
    }
}

/// Indexes a trace: reads the aircraft's ICAO address and picks the trace
/// points to record, each with the callsign and squawk the aircraft had
/// last at that point. `points` holds the aircraft of each trace point, if
/// the point has one.
pub fn index_trace(icao: &str, points: &Vec<Option<Aircraft>>) -> (r: Result<
    (IcaoAddress, Vec<TraceInfo>),
    TraceError,
>)
    ensures
        spec_indexed_view(r) == spec_index_trace(icao@, spec_points_view(points@)),
{
    let icao_address = match IcaoAddress::from_str(icao) {
        Ok(address) => address,
        Err(e) => return Err(TraceError::IcaoAddress(e)),
    };
    let ghost view = spec_points_view(points@);
    let mut current_callsign: Option<String> = None;
    let mut current_squawk: Option<Squawk> = None;
    let mut rows: Vec<TraceInfo> = Vec::new();
    let n = points.len();
    let mut i: usize = 0;
    while i < n
        invariant
            i <= n,
            n == points@.len(),
            view == spec_points_view(points@),
            IcaoAddress::spec_from_str(icao@) == Some(icao_address),
            spec_trace_prefix(view, i as nat) matches Ok((cursor, r)) && cursor == (TraceCursor {
                callsign: spec_text_view(current_callsign),
                squawk: current_squawk,
            }) && r == rows@.map_values(|row: TraceInfo| row@),
        decreases n - i,
    {
        let is_first = i == 0;
        let is_last = i == n - 1;
        let mut callsign_changed = false;
        let mut squawk_changed = false;
        let ghost cursor = TraceCursor {
            callsign: spec_text_view(current_callsign),
            squawk: current_squawk,
        };
        let ghost old_rows = rows@;
        assert(view[i as int] == match points@[i as int] {
            Some(a) => Some(a@),
            None => None,
        });
        if let Some(aircraft) = &points[i] {
            if let Some(callsign) = &aircraft.flight {
                let callsign = trim(callsign.as_str());
                callsign_changed = match &current_callsign {
                    Some(c) => {
                        let chars = chars_of(c.as_str());
                        !chars_eq(callsign, chars.as_slice())
                    },
                    None => true,
                };
                if callsign_changed {
                    current_callsign = Some(callsign.to_owned());
                }
            }
            if let Some(squawk) = &aircraft.squawk {
                let squawk = match Squawk::from_str(squawk.as_str()) {
                    Ok(squawk) => squawk,
                    Err(e) => {
                        proof {
                            assert(spec_trace_step(cursor, view[i as int]) == Err::<
                                (TraceCursor, bool),
                                Seq<char>,
                            >(e.input@));
                            assert(spec_trace_prefix(view, (i + 1) as nat) == Err::<
                                (TraceCursor, Seq<TraceInfoView>),
                                Seq<char>,
                            >(e.input@));
                            lemma_trace_prefix_error_stays(view, (i + 1) as nat, n as nat);
                            assert(view.len() == n);
                        }
                        return Err(TraceError::Squawk(e));
                    },
                };
                squawk_changed = match current_squawk {
                    Some(previous) => previous.code != squawk.code,
                    None => true,
                };
                current_squawk = Some(squawk);
            }
        }
        if is_first || is_last || callsign_changed || squawk_changed {
            let callsign = match &current_callsign {
                Some(c) => Some(c.clone()),
                None => None,
            };
            rows.push(TraceInfo { point: i, callsign, squawk: current_squawk });
        }
        proof {
            let step = spec_trace_step(cursor, view[i as int]);
            assert(step matches Ok((next, changed)) && next == (TraceCursor {
                callsign: spec_text_view(current_callsign),
                squawk: current_squawk,
            }) && changed == (callsign_changed || squawk_changed));
            assert(rows@.map_values(|row: TraceInfo| row@) =~= if is_first || is_last
                || callsign_changed || squawk_changed {
                old_rows.map_values(|row: TraceInfo| row@).push(
                    TraceInfoView {
                        point: i,
                        callsign: spec_text_view(current_callsign),
                        squawk: current_squawk,
                    },
                )
            } else {
                old_rows.map_values(|row: TraceInfo| row@)
            });
        }
        i += 1;
    }
    Ok((icao_address, rows))
}

/// Once a squawk did not read, going over more points keeps that error.
proof fn lemma_trace_prefix_error_stays(points: Seq<Option<AircraftView>>, k: nat, n: nat)
    requires
        k <= n,
        spec_trace_prefix(points, k) is Err,
    ensures
        spec_trace_prefix(points, n) == spec_trace_prefix(points, k),
    decreases n - k,
{
    if k < n {
        lemma_trace_prefix_error_stays(points, k, (n - 1) as nat);
    }
}

proof fn lemma_trace_prefix_rows(points: Seq<Option<AircraftView>>, k: nat)
    requires
        k <= points.len(),
        points.len() <= usize::MAX,
    ensures
        spec_trace_prefix(points, k) matches Ok((_, rows)) ==> {
            &&& k > 0 ==> rows.len() > 0 && rows[0].point == 0
            &&& forall|j: int| 0 <= j < rows.len() ==> #[trigger] rows[j].point < k
            &&& forall|j: int, l: int| 0 <= j < l < rows.len() ==> #[trigger] rows[j].point < #[trigger] rows[l].point
            &&& k == points.len() && k > 0 ==> rows.last().point == k - 1
        },
    decreases k,
{
    if k > 0 {
        let i = k - 1;
        lemma_trace_prefix_rows(points, i as nat);
        if let Ok((cursor, rows0)) = spec_trace_prefix(points, i as nat) {
            if let Ok((next, changed)) = spec_trace_step(cursor, points[i]) {
                let row = TraceInfoView { point: i as usize, callsign: next.callsign, squawk: next.squawk };
                if i == 0 || i == points.len() - 1 || changed {
                    let rows = rows0.push(row);
                    assert(spec_trace_prefix(points, k) == Ok::<(TraceCursor, Seq<TraceInfoView>), Seq<char>>((next, rows)));
                    assert(rows[rows.len() - 1].point == i);
                    assert forall|j: int, l: int| 0 <= j < l < rows.len() implies #[trigger] rows[j].point
                        < #[trigger] rows[l].point by {
                        if l == rows.len() - 1 {
                            assert(rows[j] == rows0[j]);
                        } else {
                            assert(rows[j] == rows0[j] && rows[l] == rows0[l]);
                        }
                    }
                    assert forall|j: int| 0 <= j < rows.len() implies #[trigger] rows[j].point < k by {
                        if j < rows0.len() {
                            assert(rows[j] == rows0[j]);
                        }
                    }
                    if i == 0 {
                        assert(rows0.len() == 0);
                    } else {
                        assert(rows[0] == rows0[0]);
                    }
                }
            }
        }
    }
}

/// Indexing a trace records its first and its last point, and records
/// points in the order of the trace, each at most once.
pub proof fn law_trace_keeps_first_and_last_points(icao: Seq<char>, points: Seq<Option<AircraftView>>)
    requires
        0 < points.len() <= usize::MAX,
    ensures
        spec_index_trace(icao, points) matches IndexedTrace::Indexed(_, rows) ==> {
            &&& rows.len() > 0
            &&& rows[0].point == 0
            &&& rows.last().point == points.len() - 1
            &&& forall|j: int, l: int| 0 <= j < l < rows.len() ==> #[trigger] rows[j].point < #[trigger] rows[l].point
        },
{
    lemma_trace_prefix_rows(points, points.len());
}

} // verus!
