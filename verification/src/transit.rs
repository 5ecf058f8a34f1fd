//! Public transit connections: how a journey found by the routing service
//! becomes a connection shown to the user.

use vstd::prelude::*;

use crate::error::ApplicationError;
use crate::text;

verus! {

/// Means of transport of a leg.
#[derive(Debug, Clone, Copy, PartialEq, Eq, Structural)]
pub enum TransitMode {
    /// High-speed long-distance train.
    NationalExpress,
    /// Long-distance train.
    National,
    /// Regional train.
    Regional,
    /// Suburban train.
    Suburban,
    /// Underground.
    Subway,
    /// Tram.
    Tram,
    /// Bus.
    Bus,
    /// Ferry.
    Ferry,
    /// Walking between stops.
    Walking,
    /// Anything else.
    Unknown,
}

/// Means of transport as the routing service reports it.
#[derive(Debug, Clone, Copy, PartialEq, Eq, Structural)]
pub enum RouteMode {
    /// High-speed long-distance train.
    NationalExpress,
    /// Long-distance train.
    National,
    /// Regional train.
    Regional,
    /// Suburban train.
    Suburban,
    /// Underground.
    Subway,
    /// Tram.
    Tram,
    /// Bus.
    Bus,
    /// Ferry.
    Ferry,
    /// Walking between stops.
    Walking,
    /// Anything else.
    Unknown,
}

/// The means of transport shown for a mode of the routing service: the one of
/// the same name.
pub open spec fn mode_of(mode: RouteMode) -> TransitMode {
    match mode {
        RouteMode::NationalExpress => TransitMode::NationalExpress,
        RouteMode::National => TransitMode::National,
        RouteMode::Regional => TransitMode::Regional,
        RouteMode::Suburban => TransitMode::Suburban,
        RouteMode::Subway => TransitMode::Subway,
        RouteMode::Tram => TransitMode::Tram,
        RouteMode::Bus => TransitMode::Bus,
        RouteMode::Ferry => TransitMode::Ferry,
        RouteMode::Walking => TransitMode::Walking,
        RouteMode::Unknown => TransitMode::Unknown,
    }
}

/// Converts a mode of the routing service (see `mode_of`).
pub fn convert_mode(mode: RouteMode) -> (m: TransitMode)
    ensures
        m == mode_of(mode),
{
    match mode {
        RouteMode::NationalExpress => TransitMode::NationalExpress,
        RouteMode::National => TransitMode::National,
        RouteMode::Regional => TransitMode::Regional,
        RouteMode::Suburban => TransitMode::Suburban,
        RouteMode::Subway => TransitMode::Subway,
        RouteMode::Tram => TransitMode::Tram,
        RouteMode::Bus => TransitMode::Bus,
        RouteMode::Ferry => TransitMode::Ferry,
        RouteMode::Walking => TransitMode::Walking,
        RouteMode::Unknown => TransitMode::Unknown,
    }
}

/// A line as the routing service reports it.
#[derive(Debug, Clone)]
pub struct RouteLine {
    /// Line name, such as `S1`.
    pub name: String,
    /// Direction of the line.
    pub direction: Option<String>,
}

/// A leg of a journey as the routing service reports it.
#[derive(Debug, Clone)]
pub struct JourneyLeg {
    /// Means of transport.
    pub mode: RouteMode,
    /// The line, unless the leg is walked.
    pub line: Option<RouteLine>,
    /// Name of the stop where the leg starts.
    pub origin: String,
    /// Name of the stop where the leg ends.
    pub destination: String,
    /// Departure, in seconds since the epoch.
    pub departure: i64,
    /// Arrival, in seconds since the epoch.
    pub arrival: i64,
    /// Departure platform.
    pub departure_platform: Option<String>,
    /// Delay of the departure, in seconds.
    pub departure_delay: Option<i64>,
}

/// A journey as the routing service reports it.
#[derive(Debug, Clone)]
pub struct Journey {
    /// The legs, in order.
    pub legs: Vec<JourneyLeg>,
    /// Total duration, in minutes, as the service computed it.
    pub duration_minutes: i64,
    /// Number of changes, as the service computed it.
    pub transfers: u32,
}

/// One leg of a connection.
#[derive(Debug, Clone)]
pub struct TransitLeg {
    /// Means of transport.
    pub mode: TransitMode,
    /// Line name (e.g. `S1`), when the leg has a line.
    pub line_name: Option<String>,
    /// Direction of the line.
    pub direction: Option<String>,
    /// Stop where the leg starts.
    pub from_stop: String,
    /// Stop where the leg ends.
    pub to_stop: String,
    /// Departure, in seconds since the epoch.
    pub departure: i64,
    /// Arrival, in seconds since the epoch.
    pub arrival: i64,
    /// Departure platform.
    pub platform: Option<String>,
    /// Delay of the departure, in seconds.
    pub delay_seconds: Option<i64>,
}

/// A connection from one place to another.
#[derive(Debug, Clone)]
pub struct TransitConnection {
    /// Departure of the first leg, in seconds since the epoch.
    pub departure_time: i64,
    /// Arrival of the last leg, in seconds since the epoch.
    pub arrival_time: i64,
    /// Total duration, in minutes.
    pub duration_minutes: i64,
    /// Number of changes.
    pub transfers: u32,
    /// The legs, in order.
    pub legs: Vec<TransitLeg>,
    /// A notice of the first leg's delay, if it is late.
    pub delay_info: Option<String>,
}

/// The notice for a departure delay: `⚠️ +{minutes}min` when the departure
/// is late, with the delay in whole minutes rounded down.
pub open spec fn delay_notice_of(delay_seconds: Option<i64>) -> Option<Seq<char>> {
    match delay_seconds {
        Some(d) => if d > 0 {
            Some("⚠️ +"@ + text::decimal((d / 60) as nat) + "min"@)
        } else {
            None
        },
        None => None,
    }
}

/// The view of an optional string.
pub open spec fn opt_text(o: Option<String>) -> Option<Seq<char>> {
    match o {
        Some(s) => Some(s@),
        None => None,
    }
}

/// The notice for a departure delay (see `delay_notice_of`).
pub fn delay_notice(delay_seconds: Option<i64>) -> (r: Option<String>)
    ensures
        opt_text(r) == delay_notice_of(delay_seconds),
{
    match delay_seconds {
        Some(d) => {
            if d > 0 {
                let minutes: u64 = (d / 60) as u64;
                Some(text::owned("⚠️ +").concat(text::decimal_text(minutes).as_str()).concat("min"))
            } else {
                None
            }
        },
        None => None,
    }
}

/// The connection for a journey's legs: it departs with the first leg and
/// arrives with the last (at `now` when there are no legs), and carries the
/// first leg's delay notice.
pub fn connection_from_legs(
    legs: Vec<TransitLeg>,
    duration_minutes: i64,
    transfers: u32,
    now: i64,
) -> (c: TransitConnection)
    ensures
        c.legs@ == legs@,
        c.duration_minutes == duration_minutes,
        c.transfers == transfers,
        c.departure_time == if legs@.len() > 0 {
            legs@[0].departure
        } else {
            now
        },
        c.arrival_time == if legs@.len() > 0 {
            legs@.last().arrival
        } else {
            now
        },
        opt_text(c.delay_info) == if legs@.len() > 0 {
            delay_notice_of(legs@[0].delay_seconds)
        } else {
            None
        },
{
    let n = legs.len();
    let (departure, arrival, delay_info) = if n > 0 {
        (legs[0].departure, legs[n - 1].arrival, delay_notice(legs[0].delay_seconds))
    } else {
        (now, now, None)
    };
    TransitConnection {
        departure_time: departure,
        arrival_time: arrival,
        duration_minutes,
        transfers,
        legs,
        delay_info,
    }
}

/// Whether `t` is the leg shown for the service's leg `l`: the same stops,
/// times, platform and delay, the converted mode, and the line's name and
/// direction when there is a line.
pub open spec fn leg_shown(l: JourneyLeg, t: TransitLeg) -> bool {
    &&& t.mode == mode_of(l.mode)
    &&& opt_text(t.line_name) == match l.line {
        Some(line) => Some(line.name@),
        None => None,
    }
    &&& opt_text(t.direction) == match l.line {
        Some(line) => opt_text(line.direction),
        None => None,
    }
    &&& t.from_stop@ == l.origin@
    &&& t.to_stop@ == l.destination@
    &&& t.departure == l.departure
    &&& t.arrival == l.arrival
    &&& opt_text(t.platform) == opt_text(l.departure_platform)
    &&& t.delay_seconds == l.departure_delay
}

fn copy_text(o: &Option<String>) -> (r: Option<String>)
    ensures
        opt_text(r) == opt_text(*o),
{
    match o {
        Some(s) => Some(s.clone()),
        None => None,
    }
}

/// The leg shown for a leg of the routing service (see `leg_shown`).
pub fn leg_from_journey(leg: &JourneyLeg) -> (t: TransitLeg)
    ensures
        leg_shown(*leg, t),
{
    let (line_name, direction) = match &leg.line {
        Some(line) => (Some(line.name.clone()), copy_text(&line.direction)),
        None => (None, None),
    };
    TransitLeg {
        mode: convert_mode(leg.mode),
        line_name,
        direction,
        from_stop: leg.origin.clone(),
        to_stop: leg.destination.clone(),
        departure: leg.departure,
        arrival: leg.arrival,
        platform: copy_text(&leg.departure_platform),
        delay_seconds: leg.departure_delay,
    }
}

/// Whether `c` is the connection shown for the journey `j` when the search
/// ran at `now`: its legs are those of the journey, shown, and it spans them
/// as `connection_from_legs` says, with the journey's duration and changes.
pub open spec fn journey_shown(j: Journey, c: TransitConnection, now: i64) -> bool {
    let legs = j.legs@;
    &&& c.legs@.len() == legs.len()
    &&& forall|k: int| 0 <= k < legs.len() ==> leg_shown(legs[k], #[trigger] c.legs@[k])
    &&& c.duration_minutes == j.duration_minutes
    &&& c.transfers == j.transfers
    &&& c.departure_time == if legs.len() > 0 {
        legs[0].departure
    } else {
        now
    }
    &&& c.arrival_time == if legs.len() > 0 {
        legs.last().arrival
    } else {
        now
    }
    &&& opt_text(c.delay_info) == if legs.len() > 0 {
        delay_notice_of(legs[0].departure_delay)
    } else {
        None
    }
}

/// The connection shown for one journey (see `journey_shown`).
pub fn connection_from_journey(journey: &Journey, now: i64) -> (c: TransitConnection)
    ensures
        journey_shown(*journey, c, now),
{
    let mut legs: Vec<TransitLeg> = Vec::new();
    let mut i: usize = 0;
    while i < journey.legs.len()
        invariant
            i <= journey.legs@.len(),
            legs@.len() == i,
            forall|k: int| 0 <= k < i ==> leg_shown(journey.legs@[k], #[trigger] legs@[k]),
        decreases journey.legs@.len() - i,
    {
        let t = leg_from_journey(&journey.legs[i]);
        legs.push(t);
        i = i + 1;
    }
    let c = connection_from_legs(legs, journey.duration_minutes, journey.transfers, now);
    c
}

/// The connections shown for the journeys a search found, in their order.
pub fn connections_from_journeys(journeys: &Vec<Journey>, now: i64) -> (r: Vec<TransitConnection>)
    ensures
        r@.len() == journeys@.len(),
        forall|k: int| 0 <= k < journeys@.len() ==> journey_shown(journeys@[k], #[trigger] r@[k], now),
{
    let mut out: Vec<TransitConnection> = Vec::new();
    let mut i: usize = 0;
    while i < journeys.len()
        invariant
            i <= journeys@.len(),
            out@.len() == i,
            forall|k: int| 0 <= k < i ==> journey_shown(journeys@[k], #[trigger] out@[k], now),
        decreases journeys@.len() - i,
    {
        let c = connection_from_journey(&journeys[i], now);
        out.push(c);
        i = i + 1;
    }
    out
}

/// The error for a failed journey search, with the service's message.
pub fn search_failed_error(detail: &str) -> (e: ApplicationError)
    ensures
        e matches ApplicationError::ExternalService(m) && m@ == "Transit search failed: "@ + detail@,
{
    ApplicationError::ExternalService(text::owned("Transit search failed: ").concat(detail))
}

/// The error for an address that could not be located, with the service's
/// message.
pub fn geocode_failed_error(address: &str, detail: &str) -> (e: ApplicationError)
    ensures
        e matches ApplicationError::ExternalService(m) && m@ == "Failed to geocode '"@ + address@
            + "': "@ + detail@,
{
    ApplicationError::ExternalService(
        text::owned("Failed to geocode '").concat(address).concat("': ").concat(detail),
    )
}

/// Each routing mode is shown as the transit mode of the same name, and no
/// two routing modes are shown alike.
pub proof fn lemma_modes_keep_their_names(a: RouteMode, b: RouteMode)
    ensures
        mode_of(RouteMode::NationalExpress) == TransitMode::NationalExpress,
        mode_of(RouteMode::National) == TransitMode::National,
        mode_of(RouteMode::Regional) == TransitMode::Regional,
        mode_of(RouteMode::Suburban) == TransitMode::Suburban,
        mode_of(RouteMode::Subway) == TransitMode::Subway,
        mode_of(RouteMode::Tram) == TransitMode::Tram,
        mode_of(RouteMode::Bus) == TransitMode::Bus,
        mode_of(RouteMode::Ferry) == TransitMode::Ferry,
        mode_of(RouteMode::Walking) == TransitMode::Walking,
        mode_of(RouteMode::Unknown) == TransitMode::Unknown,
        mode_of(a) == mode_of(b) ==> a == b,
{
}

} // verus!
