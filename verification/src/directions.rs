//! The directions request: an accumulator for one route query between an
//! origin and a destination, with its validator and its canonical query
//! serializer.

use vstd::prelude::*;
use crate::avoid::Avoid;
use crate::departure_time::DepartureTime;
use crate::error::Error;
use crate::location::Location;
use crate::rules::check_rules;
use crate::rules::spec_arrival_conflict;
use crate::rules::spec_dual_anchor;
use crate::rules::spec_non_transit;
use crate::rules::spec_preference_conflict;
use crate::rules::spec_rules_ok;
use crate::rules::spec_transit_modes_conflict;
use crate::strutil::spec_bool;
use crate::strutil::spec_dec;
use crate::strutil::push_bool;
use crate::time::CivilDateTime;
use crate::time::push_unix_seconds;
use crate::traffic_model::TrafficModel;
use crate::transit_mode::TransitMode;
use crate::transit_route_preference::TransitRoutePreference;
use crate::travel_mode::TravelMode;
use crate::unit_system::UnitSystem;
use vstd::string::StringExecFns;

verus! {

/// Accumulator for one directions query. Configuration operations replace
/// the previous value of their parameter kind and clear the validated flag
/// and any cached query string; no cross-field checks happen before
/// `validate`.
#[derive(Clone, Debug, PartialEq, Eq)]
pub struct Request {
    /// Where the directions end. Required.
    pub destination: Location,
    /// Where the directions start. Required.
    pub origin: Location,
    /// Whether the service may return more than one route alternative.
    pub alternatives: Option<bool>,
    /// Desired arrival time; compatible with transit travel only.
    pub arrival_time: Option<CivilDateTime>,
    /// Desired departure time.
    pub departure_time: Option<DepartureTime>,
    /// Features that routes should avoid, in insertion order.
    pub restrictions: Option<Vec<Avoid>>,
    /// Assumption to use when estimating time in traffic.
    pub traffic_model: Option<TrafficModel>,
    /// Preferred transit modes, in insertion order; transit travel only.
    pub transit_modes: Option<Vec<TransitMode>>,
    /// Preference among transit routes; transit travel only.
    pub transit_route_preference: Option<TransitRoutePreference>,
    /// Mode of transportation.
    pub travel_mode: Option<TravelMode>,
    /// Unit system for displayed results.
    pub unit_system: Option<UnitSystem>,
    /// Whether the service may reorder the intermediate waypoints.
    pub waypoint_optimization: bool,
    /// Stopovers between origin and destination, in insertion order.
    pub waypoints: Option<Vec<Location>>,
    /// The query string cached by the last serialization, if still current.
    pub query: Option<String>,
    /// Whether the current configuration has passed validation.
    pub validated: bool,
}

/// The optional `alternatives` pair of the query.
pub open spec fn spec_alternatives_part(o: Option<bool>) -> Seq<char> {
    match o {
        None => Seq::empty(),
        Some(b) => "&alternatives="@ + spec_bool(b),
    }
}

/// The optional `avoid` pair of the query.
pub open spec fn spec_avoid_part(o: Option<Vec<Avoid>>) -> Seq<char> {
    match o {
        None => Seq::empty(),
        Some(rs) => "&avoid="@ + Avoid::spec_joined(rs@),
    }
}

/// The optional `mode` pair of the query.
pub open spec fn spec_mode_part(o: Option<TravelMode>) -> Seq<char> {
    match o {
        None => Seq::empty(),
        Some(m) => "&mode="@ + m.spec_code(),
    }
}

/// The optional `arrival_time` pair of the query.
pub open spec fn spec_arrival_part(o: Option<CivilDateTime>) -> Seq<char> {
    match o {
        None => Seq::empty(),
        Some(dt) => "&arrival_time="@ + spec_dec(dt.spec_unix_seconds() as nat),
    }
}

/// The optional `departure_time` pair of the query.
pub open spec fn spec_departure_part(o: Option<DepartureTime>) -> Seq<char> {
    match o {
        None => Seq::empty(),
        Some(d) => "&departure_time="@ + d.spec_query_value(),
    }
}

/// The optional `traffic_model` pair of the query.
pub open spec fn spec_traffic_part(o: Option<TrafficModel>) -> Seq<char> {
    match o {
        None => Seq::empty(),
        Some(t) => "&traffic_model="@ + t.spec_code(),
    }
}

/// The optional `transit_mode` pair of the query.
pub open spec fn spec_transit_modes_part(o: Option<Vec<TransitMode>>) -> Seq<char> {
    match o {
        None => Seq::empty(),
        Some(ms) => "&transit_mode="@ + TransitMode::spec_joined(ms@),
    }
}

/// The optional `transit_routing_preference` pair of the query.
pub open spec fn spec_preference_part(o: Option<TransitRoutePreference>) -> Seq<char> {
    match o {
        None => Seq::empty(),
        Some(p) => "&transit_routing_preference="@ + p.spec_code(),
    }
}

/// The optional `units` pair of the query.
pub open spec fn spec_units_part(o: Option<UnitSystem>) -> Seq<char> {
    match o {
        None => Seq::empty(),
        Some(u) => "&units="@ + u.spec_code(),
    }
}

/// The optional `waypoints` pair of the query; an optimization prefix asks
/// the service to reorder the stopovers.
pub open spec fn spec_waypoints_part(optimize: bool, o: Option<Vec<Location>>) -> Seq<char> {
    match o {
        None => Seq::empty(),
        Some(ws) => "&waypoints="@ + (if optimize {
            "optimize:true|"@
        } else {
            Seq::<char>::empty()
        }) + Location::spec_joined(ws@),
    }
}

/// The canonical query string of an accumulator: the required pairs first,
/// in fixed order, then each configured optional pair under its canonical
/// key, in fixed order.
pub open spec fn spec_query(s: Request) -> Seq<char> {
    "destination="@ + s.destination.spec_query_value() + "&origin="@
        + s.origin.spec_query_value() + spec_alternatives_part(s.alternatives) + spec_avoid_part(
        s.restrictions,
    ) + spec_mode_part(s.travel_mode) + spec_arrival_part(s.arrival_time) + spec_departure_part(
        s.departure_time,
    ) + spec_traffic_part(s.traffic_model) + spec_transit_modes_part(s.transit_modes)
        + spec_preference_part(s.transit_route_preference) + spec_units_part(s.unit_system)
        + spec_waypoints_part(s.waypoint_optimization, s.waypoints)
}

impl Request {
    /// Every value held by the accumulator is itself well formed.
    pub open spec fn wf(self) -> bool {
        &&& self.destination.wf()
        &&& self.origin.wf()
        &&& (self.arrival_time matches Some(a) ==> a.wf())
        &&& (self.departure_time matches Some(d) ==> d.wf())
        &&& (self.waypoints matches Some(ws) ==> forall|j: int|
            0 <= j < ws@.len() ==> (#[trigger] ws@[j]).wf())
    }

    /// The configured combination satisfies every validation rule.
    pub open spec fn spec_rules_ok(self) -> bool {
        spec_rules_ok(
            self.travel_mode,
            self.arrival_time,
            self.departure_time,
            self.transit_modes,
            self.transit_route_preference,
        )
    }

    /// Starts an accumulator with the required locators and nothing else
    /// configured.
    pub fn new(origin: Location, destination: Location) -> (r: Request)
        ensures
            r == (Request {
                destination,
                origin,
                alternatives: None::<bool>,
                arrival_time: None::<CivilDateTime>,
                departure_time: None::<DepartureTime>,
                restrictions: None::<Vec<Avoid>>,
                traffic_model: None::<TrafficModel>,
                transit_modes: None::<Vec<TransitMode>>,
                transit_route_preference: None::<TransitRoutePreference>,
                travel_mode: None::<TravelMode>,
                unit_system: None::<UnitSystem>,
                waypoint_optimization: false,
                waypoints: None::<Vec<Location>>,
                query: None::<String>,
                validated: false,
            }),
    {
        Request {
            destination,
            origin,
            alternatives: None,
            arrival_time: None,
            departure_time: None,
            restrictions: None,
            traffic_model: None,
            transit_modes: None,
            transit_route_preference: None,
            travel_mode: None,
            unit_system: None,
            waypoint_optimization: false,
            waypoints: None,
            query: None,
            validated: false,
        }
    }

    /// Replaces the alternatives preference and returns to the configuring
    /// state.
    pub fn with_alternatives(self, alternatives: bool) -> (r: Request)
        ensures
            r == (Request {
                alternatives: Some(alternatives),
                query: None::<String>,
                validated: false,
                ..self
            }),
    {
        Request { alternatives: Some(alternatives), query: None, validated: false, ..self }
    }

    /// Replaces the arrival time and returns to the configuring state.
    pub fn with_arrival_time(self, arrival_time: CivilDateTime) -> (r: Request)
        ensures
            r == (Request {
                arrival_time: Some(arrival_time),
                query: None::<String>,
                validated: false,
                ..self
            }),
    {
        Request { arrival_time: Some(arrival_time), query: None, validated: false, ..self }
    }

    /// Replaces the departure time and returns to the configuring state.
    pub fn with_departure_time(self, departure_time: DepartureTime) -> (r: Request)
        ensures
            r == (Request {
                departure_time: Some(departure_time),
                query: None::<String>,
                validated: false,
                ..self
            }),
    {
        Request { departure_time: Some(departure_time), query: None, validated: false, ..self }
    }

    /// Replaces the whole restriction list and returns to the configuring
    /// state.
    pub fn with_restrictions(self, restrictions: Vec<Avoid>) -> (r: Request)
        ensures
            r == (Request {
                restrictions: Some(restrictions),
                query: None::<String>,
                validated: false,
                ..self
            }),
    {
        Request { restrictions: Some(restrictions), query: None, validated: false, ..self }
    }

    /// Replaces the traffic model and returns to the configuring state.
    pub fn with_traffic_model(self, traffic_model: TrafficModel) -> (r: Request)
        ensures
            r == (Request {
                traffic_model: Some(traffic_model),
                query: None::<String>,
                validated: false,
                ..self
            }),
    {
        Request { traffic_model: Some(traffic_model), query: None, validated: false, ..self }
    }

    /// Replaces the whole transit-mode list and returns to the configuring
    /// state.
    pub fn with_transit_modes(self, transit_modes: Vec<TransitMode>) -> (r: Request)
        ensures
            r == (Request {
                transit_modes: Some(transit_modes),
                query: None::<String>,
                validated: false,
                ..self
            }),
    {
        Request { transit_modes: Some(transit_modes), query: None, validated: false, ..self }
    }

    /// Replaces the transit route preference and returns to the configuring
    /// state.
    pub fn with_transit_route_preference(self, preference: TransitRoutePreference) -> (r: Request)
        ensures
            r == (Request {
                transit_route_preference: Some(preference),
                query: None::<String>,
                validated: false,
                ..self
            }),
    {
        Request {
            transit_route_preference: Some(preference),
            query: None,
            validated: false,
            ..self
        }
    }

    /// Replaces the travel mode and returns to the configuring state.
    pub fn with_travel_mode(self, travel_mode: TravelMode) -> (r: Request)
        ensures
            r == (Request {
                travel_mode: Some(travel_mode),
                query: None::<String>,
                validated: false,
                ..self
            }),
    {
        Request { travel_mode: Some(travel_mode), query: None, validated: false, ..self }
    }

    /// Replaces the unit system and returns to the configuring state.
    pub fn with_unit_system(self, unit_system: UnitSystem) -> (r: Request)
        ensures
            r == (Request {
                unit_system: Some(unit_system),
                query: None::<String>,
                validated: false,
                ..self
            }),
    {
        Request { unit_system: Some(unit_system), query: None, validated: false, ..self }
    }

    /// Replaces the waypoint-optimization choice and returns to the
    /// configuring state.
    pub fn with_waypoint_optimization(self, optimize: bool) -> (r: Request)
        ensures
            r == (Request {
                waypoint_optimization: optimize,
                query: None::<String>,
                validated: false,
                ..self
            }),
    {
        Request { waypoint_optimization: optimize, query: None, validated: false, ..self }
    }

    /// Replaces the whole waypoint list and returns to the configuring
    /// state.
    pub fn with_waypoints(self, waypoints: Vec<Location>) -> (r: Request)
        ensures
            r == (Request {
                waypoints: Some(waypoints),
                query: None::<String>,
                validated: false,
                ..self
            }),
    {
        Request { waypoints: Some(waypoints), query: None, validated: false, ..self }
    }

    /// Checks the accumulated combination against the validation rules. On
    /// success only the validated flag changes; on failure the accumulator
    /// is left exactly as it was and the first broken rule is reported with
    /// both offending values.
    pub fn validate(&mut self) -> (r: Result<(), Error>)
        requires
            old(self).wf(),
        ensures
            r matches Ok(_) <==> old(self).spec_rules_ok(),
            r matches Ok(_) ==> *final(self) == (Request { validated: true, ..*old(self) }),
            r matches Err(_) ==> *final(self) == *old(self),
            spec_arrival_conflict(old(self).travel_mode, old(self).arrival_time) ==> (r matches Err(
                e,
            ) && e matches Error::ArrivalTimeIsForTransitOnly(mc, at) && mc@
                == old(self).travel_mode->0.spec_code() && at@
                == old(self).arrival_time->0.spec_display()),
            !spec_arrival_conflict(old(self).travel_mode, old(self).arrival_time)
                && spec_transit_modes_conflict(old(self).travel_mode, old(self).transit_modes) ==> (
            r matches Err(e) && e matches Error::TransitModeIsForTransitOnly(mc, ms) && mc@
                == old(self).travel_mode->0.spec_code() && ms@ == TransitMode::spec_joined(
                old(self).transit_modes->0@,
            )),
            !spec_arrival_conflict(old(self).travel_mode, old(self).arrival_time)
                && !spec_transit_modes_conflict(old(self).travel_mode, old(self).transit_modes)
                && spec_preference_conflict(
                old(self).travel_mode,
                old(self).transit_route_preference,
            ) ==> (r matches Err(e) && e matches Error::TransitRoutePreferenceIsForTransitOnly(
                mc,
                pc,
            ) && mc@ == old(self).travel_mode->0.spec_code() && pc@
                == old(self).transit_route_preference->0.spec_code()),
            !spec_arrival_conflict(old(self).travel_mode, old(self).arrival_time)
                && !spec_transit_modes_conflict(old(self).travel_mode, old(self).transit_modes)
                && !spec_preference_conflict(
                old(self).travel_mode,
                old(self).transit_route_preference,
            ) && spec_dual_anchor(old(self).arrival_time, old(self).departure_time) ==> (r matches
                Err(e) && e matches Error::EitherDepartureTimeOrArrivalTime(at, dt) && at@
                == old(self).arrival_time->0.spec_display() && dt@
                == old(self).departure_time->0.spec_display()),
    {
        let r = check_rules(
            &self.travel_mode,
            &self.arrival_time,
            &self.departure_time,
            &self.transit_modes,
            &self.transit_route_preference,
        );
        match r {
            Ok(_) => {
                self.validated = true;
                Ok(())
            },
            Err(e) => Err(e),
        }
    }

    /// Renders the canonical query string of a validated accumulator and
    /// caches it. Before validation nothing is rendered and the dedicated
    /// error is returned.
    pub fn serialize(&mut self) -> (r: Result<String, Error>)
        requires
            old(self).wf(),
        ensures
            !old(self).validated ==> r == Err::<String, Error>(Error::RequestNotValidated)
                && *final(self) == *old(self),
            old(self).validated ==> ({
                &&& r matches Ok(q)
                &&& q@ == spec_query(*old(self))
                &&& *final(self) == (Request { query: final(self).query, ..*old(self) })
                &&& final(self).query matches Some(cq)
                &&& cq@ == spec_query(*old(self))
            }),
    {
        if !self.validated {
            return Err(Error::RequestNotValidated);
        }
        let mut q = String::new();
        q.append("destination=");
        self.destination.push_query_value(&mut q);
        q.append("&origin=");
        self.origin.push_query_value(&mut q);
        push_alternatives_part(&mut q, &self.alternatives);
        push_avoid_part(&mut q, &self.restrictions);
        push_mode_part(&mut q, &self.travel_mode);
        push_arrival_part(&mut q, &self.arrival_time);
        push_departure_part(&mut q, &self.departure_time);
        push_traffic_part(&mut q, &self.traffic_model);
        push_transit_modes_part(&mut q, &self.transit_modes);
        push_preference_part(&mut q, &self.transit_route_preference);
        push_units_part(&mut q, &self.unit_system);
        push_waypoints_part(&mut q, self.waypoint_optimization, &self.waypoints);
        proof {
            assert(q@ =~= spec_query(*old(self)));
        }
        self.query = Some(q.clone());
        Ok(q)
    }

    /// Law: serialization is deterministic. Caching the rendered string
    /// changes no configured field, so the canonical query of the
    /// accumulator a serialization leaves behind equals the one it rendered;
    /// a second serialization without intervening configuration therefore
    /// returns the identical string.
    pub proof fn lemma_serialize_deterministic(s: Request, q: String)
        ensures
            spec_query(Request { query: Some(q), ..s }) == spec_query(s),
    {
    }

    /// Law: validation is idempotent. A successful validation changes only
    /// the validated flag, and the rules do not read that flag, so they hold
    /// of the accumulator it leaves behind exactly when they held before,
    /// and a repeated validation succeeds again.
    pub proof fn lemma_validate_idempotent(s: Request)
        requires
            s.spec_rules_ok(),
        ensures
            (Request { validated: true, ..s }).spec_rules_ok(),
    {
    }

    /// Law: a transit-only parameter together with a non-transit travel
    /// mode never validates, in whichever order the two were configured —
    /// only the accumulated state matters.
    pub proof fn lemma_transit_only_never_validates(s: Request)
        requires
            spec_non_transit(s.travel_mode),
            s.arrival_time is Some || s.transit_modes is Some || s.transit_route_preference
                is Some,
        ensures
            !s.spec_rules_ok(),
    {
    }

    /// Law: an accumulator holding both temporal anchors never validates,
    /// in whichever order they were configured.
    pub proof fn lemma_dual_anchor_never_validates(s: Request)
        requires
            s.arrival_time is Some,
            s.departure_time is Some,
        ensures
            !s.spec_rules_ok(),
    {
    }
}

/// Appends the optional `alternatives` pair to `out`.
pub(crate) fn push_alternatives_part(out: &mut String, o: &Option<bool>)
    ensures
        final(out)@ == old(out)@ + spec_alternatives_part(*o),
{
    if let Some(b) = o {
        out.append("&alternatives=");
        push_bool(out, *b);
        proof {
            assert(old(out)@ + spec_alternatives_part(*o) =~= (old(out)@ + "&alternatives="@)
                + spec_bool(*b));
        }
    } else {
        proof {
            assert(old(out)@ + spec_alternatives_part(*o) =~= old(out)@);
        }
    }
}

/// Appends the optional `avoid` pair to `out`.
pub(crate) fn push_avoid_part(out: &mut String, o: &Option<Vec<Avoid>>)
    ensures
        final(out)@ == old(out)@ + spec_avoid_part(*o),
{
    if let Some(rs) = o {
        out.append("&avoid=");
        Avoid::push_joined(out, rs);
        proof {
            assert(old(out)@ + spec_avoid_part(*o) =~= (old(out)@ + "&avoid="@)
                + Avoid::spec_joined(rs@));
        }
    } else {
        proof {
            assert(old(out)@ + spec_avoid_part(*o) =~= old(out)@);
        }
    }
}

/// Appends the optional `mode` pair to `out`.
pub(crate) fn push_mode_part(out: &mut String, o: &Option<TravelMode>)
    ensures
        final(out)@ == old(out)@ + spec_mode_part(*o),
{
    if let Some(m) = o {
        out.append("&mode=");
        out.append(m.code());
        proof {
            assert(old(out)@ + spec_mode_part(*o) =~= (old(out)@ + "&mode="@) + m.spec_code());
        }
    } else {
        proof {
            assert(old(out)@ + spec_mode_part(*o) =~= old(out)@);
        }
    }
}

/// Appends the optional `arrival_time` pair to `out`.
pub(crate) fn push_arrival_part(out: &mut String, o: &Option<CivilDateTime>)
    requires
        (*o matches Some(dt) ==> dt.wf()),
    ensures
        final(out)@ == old(out)@ + spec_arrival_part(*o),
{
    if let Some(dt) = o {
        out.append("&arrival_time=");
        push_unix_seconds(out, dt);
        proof {
            assert(old(out)@ + spec_arrival_part(*o) =~= (old(out)@ + "&arrival_time="@)
                + spec_dec(dt.spec_unix_seconds() as nat));
        }
    } else {
        proof {
            assert(old(out)@ + spec_arrival_part(*o) =~= old(out)@);
        }
    }
}

/// Appends the optional `departure_time` pair to `out`.
pub(crate) fn push_departure_part(out: &mut String, o: &Option<DepartureTime>)
    requires
        (*o matches Some(d) ==> d.wf()),
    ensures
        final(out)@ == old(out)@ + spec_departure_part(*o),
{
    if let Some(d) = o {
        out.append("&departure_time=");
        d.push_query_value(out);
        proof {
            assert(old(out)@ + spec_departure_part(*o) =~= (old(out)@ + "&departure_time="@)
                + d.spec_query_value());
        }
    } else {
        proof {
            assert(old(out)@ + spec_departure_part(*o) =~= old(out)@);
        }
    }
}

/// Appends the optional `traffic_model` pair to `out`.
pub(crate) fn push_traffic_part(out: &mut String, o: &Option<TrafficModel>)
    ensures
        final(out)@ == old(out)@ + spec_traffic_part(*o),
{
    if let Some(t) = o {
        out.append("&traffic_model=");
        out.append(t.code());
        proof {
            assert(old(out)@ + spec_traffic_part(*o) =~= (old(out)@ + "&traffic_model="@)
                + t.spec_code());
        }
    } else {
        proof {
            assert(old(out)@ + spec_traffic_part(*o) =~= old(out)@);
        }
    }
}

/// Appends the optional `transit_mode` pair to `out`.
pub(crate) fn push_transit_modes_part(out: &mut String, o: &Option<Vec<TransitMode>>)
    ensures
        final(out)@ == old(out)@ + spec_transit_modes_part(*o),
{
    if let Some(ms) = o {
        out.append("&transit_mode=");
        TransitMode::push_joined(out, ms);
        proof {
            assert(old(out)@ + spec_transit_modes_part(*o) =~= (old(out)@ + "&transit_mode="@)
                + TransitMode::spec_joined(ms@));
        }
    } else {
        proof {
            assert(old(out)@ + spec_transit_modes_part(*o) =~= old(out)@);
        }
    }
}

/// Appends the optional `transit_routing_preference` pair to `out`.
pub(crate) fn push_preference_part(out: &mut String, o: &Option<TransitRoutePreference>)
    ensures
        final(out)@ == old(out)@ + spec_preference_part(*o),
{
    if let Some(p) = o {
        out.append("&transit_routing_preference=");
        out.append(p.code());
        proof {
            assert(old(out)@ + spec_preference_part(*o) =~= (old(out)@
                + "&transit_routing_preference="@) + p.spec_code());
        }
    } else {
        proof {
            assert(old(out)@ + spec_preference_part(*o) =~= old(out)@);
        }
    }
}

/// Appends the optional `units` pair to `out`.
pub(crate) fn push_units_part(out: &mut String, o: &Option<UnitSystem>)
    ensures
        final(out)@ == old(out)@ + spec_units_part(*o),
{
    if let Some(u) = o {
        out.append("&units=");
        out.append(u.code());
        proof {
            assert(old(out)@ + spec_units_part(*o) =~= (old(out)@ + "&units="@) + u.spec_code());
        }
    } else {
        proof {
            assert(old(out)@ + spec_units_part(*o) =~= old(out)@);
        }
    }
}

/// Appends the optional `waypoints` pair to `out`.
fn push_waypoints_part(out: &mut String, optimize: bool, o: &Option<Vec<Location>>)
    requires
        (*o matches Some(ws) ==> forall|j: int| 0 <= j < ws@.len() ==> (#[trigger] ws@[j]).wf()),
    ensures
        final(out)@ == old(out)@ + spec_waypoints_part(optimize, *o),
{
    if let Some(ws) = o {
        out.append("&waypoints=");
        if optimize {
            out.append("optimize:true|");
        }
        Location::push_joined(out, ws);
        proof {
            if optimize {
                assert(old(out)@ + spec_waypoints_part(optimize, *o) =~= ((old(out)@
                    + "&waypoints="@) + "optimize:true|"@) + Location::spec_joined(ws@));
            } else {
                assert(old(out)@ + spec_waypoints_part(optimize, *o) =~= (old(out)@
                    + "&waypoints="@) + Location::spec_joined(ws@));
            }
        }
    } else {
        proof {
            assert(old(out)@ + spec_waypoints_part(optimize, *o) =~= old(out)@);
        }
    }
}

} // verus!
