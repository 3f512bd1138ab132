//! The distance-matrix request: an accumulator for one travel distance and
//! time query between lists of origins and destinations, with its validator
//! and its canonical query serializer. It enforces the same travel rules as
//! the directions family.

use vstd::prelude::*;
use crate::avoid::Avoid;
use crate::departure_time::DepartureTime;
use crate::directions::push_arrival_part;
use crate::directions::push_avoid_part;
use crate::directions::push_departure_part;
use crate::directions::push_mode_part;
use crate::directions::push_preference_part;
use crate::directions::push_traffic_part;
use crate::directions::push_transit_modes_part;
use crate::directions::push_units_part;
use crate::directions::spec_arrival_part;
use crate::directions::spec_avoid_part;
use crate::directions::spec_departure_part;
use crate::directions::spec_mode_part;
use crate::directions::spec_preference_part;
use crate::directions::spec_traffic_part;
use crate::directions::spec_transit_modes_part;
use crate::directions::spec_units_part;
use crate::error::Error;
use crate::location::Location;
use crate::rules::check_rules;
use crate::rules::spec_arrival_conflict;
use crate::rules::spec_dual_anchor;
use crate::rules::spec_non_transit;
use crate::rules::spec_preference_conflict;
use crate::rules::spec_rules_ok;
use crate::rules::spec_transit_modes_conflict;
use crate::time::CivilDateTime;
use crate::traffic_model::TrafficModel;
use crate::transit_mode::TransitMode;
use crate::transit_route_preference::TransitRoutePreference;
use crate::travel_mode::TravelMode;
use crate::unit_system::UnitSystem;
use vstd::string::StringExecFns;

verus! {

/// Accumulator for one distance-matrix query. Configuration operations
/// replace the previous value of their parameter kind and clear the
/// validated flag and any cached query string; no cross-field checks happen
/// before `validate`.
#[derive(Clone, Debug, PartialEq, Eq)]
pub struct Request {
    /// The starting points of the matrix, in insertion order. Required.
    pub origins: Vec<Location>,
    /// The end points of the matrix, in insertion order. Required.
    pub destinations: Vec<Location>,
    /// Desired arrival time; compatible with transit travel only.
    pub arrival_time: Option<CivilDateTime>,
    /// Desired departure time.
    pub departure_time: Option<DepartureTime>,
    /// Features that routes should avoid, in insertion order.
    pub restrictions: Option<Vec<Avoid>>,
    /// Assumption to use when estimating time in traffic.
    pub traffic_model: Option<TrafficModel>,
    /// Preferred transit modes, in insertion order; transit travel only.
    pub transit_modes: Option<Vec<TransitMode>>,
    /// Preference among transit routes; transit travel only.
    pub transit_route_preference: Option<TransitRoutePreference>,
    /// Mode of transportation.
    pub travel_mode: Option<TravelMode>,
    /// Unit system for displayed results.
    pub unit_system: Option<UnitSystem>,
    /// The query string cached by the last serialization, if still current.
    pub query: Option<String>,
    /// Whether the current configuration has passed validation.
    pub validated: bool,
}

/// The canonical query string of an accumulator: the required pairs first,
/// in fixed order, then each configured optional pair under its canonical
/// key, in fixed order.
pub open spec fn spec_query(s: Request) -> Seq<char> {
    "destinations="@ + Location::spec_joined(s.destinations@) + "&origins="@
        + Location::spec_joined(s.origins@) + spec_avoid_part(s.restrictions) + spec_mode_part(
        s.travel_mode,
    ) + spec_arrival_part(s.arrival_time) + spec_departure_part(s.departure_time)
        + spec_traffic_part(s.traffic_model) + spec_transit_modes_part(s.transit_modes)
        + spec_preference_part(s.transit_route_preference) + spec_units_part(s.unit_system)
}

impl Request {
    /// Every value held by the accumulator is itself well formed.
    pub open spec fn wf(self) -> bool {
        &&& (forall|j: int| 0 <= j < self.origins@.len() ==> (#[trigger] self.origins@[j]).wf())
        &&& (forall|j: int|
            0 <= j < self.destinations@.len() ==> (#[trigger] self.destinations@[j]).wf())
        &&& (self.arrival_time matches Some(a) ==> a.wf())
        &&& (self.departure_time matches Some(d) ==> d.wf())
    }

    /// The configured combination satisfies every validation rule.
    pub open spec fn spec_rules_ok(self) -> bool {
        spec_rules_ok(
            self.travel_mode,
            self.arrival_time,
            self.departure_time,
            self.transit_modes,
            self.transit_route_preference,
        )
    }

    /// Starts an accumulator with the required locator lists and nothing
    /// else configured.
    pub fn new(origins: Vec<Location>, destinations: Vec<Location>) -> (r: Request)
        ensures
            r == (Request {
                origins,
                destinations,
                arrival_time: None::<CivilDateTime>,
                departure_time: None::<DepartureTime>,
                restrictions: None::<Vec<Avoid>>,
                traffic_model: None::<TrafficModel>,
                transit_modes: None::<Vec<TransitMode>>,
                transit_route_preference: None::<TransitRoutePreference>,
                travel_mode: None::<TravelMode>,
                unit_system: None::<UnitSystem>,
                query: None::<String>,
                validated: false,
            }),
    {
        Request {
            origins,
            destinations,
            arrival_time: None,
            departure_time: None,
            restrictions: None,
            traffic_model: None,
            transit_modes: None,
            transit_route_preference: None,
            travel_mode: None,
            unit_system: None,
            query: None,
            validated: false,
        }
    }

    /// Replaces the arrival time and returns to the configuring state.
    pub fn with_arrival_time(self, arrival_time: CivilDateTime) -> (r: Request)
        ensures
            r == (Request {
                arrival_time: Some(arrival_time),
                query: None::<String>,
                validated: false,
                ..self
            }),
    {
        Request { arrival_time: Some(arrival_time), query: None, validated: false, ..self }
    }

    /// Replaces the departure time and returns to the configuring state.
    pub fn with_departure_time(self, departure_time: DepartureTime) -> (r: Request)
        ensures
            r == (Request {
                departure_time: Some(departure_time),
                query: None::<String>,
                validated: false,
                ..self
            }),
    {
        Request { departure_time: Some(departure_time), query: None, validated: false, ..self }
    }

    /// Replaces the whole restriction list and returns to the configuring
    /// state.
    pub fn with_restrictions(self, restrictions: Vec<Avoid>) -> (r: Request)
        ensures
            r == (Request {
                restrictions: Some(restrictions),
                query: None::<String>,
                validated: false,
                ..self
            }),
    {
        Request { restrictions: Some(restrictions), query: None, validated: false, ..self }
    }

    /// Replaces the traffic model and returns to the configuring state.
    pub fn with_traffic_model(self, traffic_model: TrafficModel) -> (r: Request)
        ensures
            r == (Request {
                traffic_model: Some(traffic_model),
                query: None::<String>,
                validated: false,
                ..self
            }),
    {
        Request { traffic_model: Some(traffic_model), query: None, validated: false, ..self }
    }

    /// Replaces the whole transit-mode list and returns to the configuring
    /// state.
    pub fn with_transit_modes(self, transit_modes: Vec<TransitMode>) -> (r: Request)
        ensures
            r == (Request {
                transit_modes: Some(transit_modes),
                query: None::<String>,
                validated: false,
                ..self
            }),
    {
        Request { transit_modes: Some(transit_modes), query: None, validated: false, ..self }
    }

    /// Replaces the transit route preference and returns to the configuring
    /// state.
    pub fn with_transit_route_preference(self, preference: TransitRoutePreference) -> (r: Request)
        ensures
            r == (Request {
                transit_route_preference: Some(preference),
                query: None::<String>,
                validated: false,
                ..self
            }),
    {
        Request {
            transit_route_preference: Some(preference),
            query: None,
            validated: false,
            ..self
        }
    }

    /// Replaces the travel mode and returns to the configuring state.
    pub fn with_travel_mode(self, travel_mode: TravelMode) -> (r: Request)
        ensures
            r == (Request {
                travel_mode: Some(travel_mode),
                query: None::<String>,
                validated: false,
                ..self
            }),
    {
        Request { travel_mode: Some(travel_mode), query: None, validated: false, ..self }
    }

    /// Replaces the unit system and returns to the configuring state.
    pub fn with_unit_system(self, unit_system: UnitSystem) -> (r: Request)
        ensures
            r == (Request {
                unit_system: Some(unit_system),
                query: None::<String>,
                validated: false,
                ..self
            }),
    {
        Request { unit_system: Some(unit_system), query: None, validated: false, ..self }
    }

    /// Checks the accumulated combination against the validation rules. On
    /// success only the validated flag changes; on failure the accumulator
    /// is left exactly as it was and the first broken rule is reported with
    /// both offending values.
    pub fn validate(&mut self) -> (r: Result<(), Error>)
        requires
            old(self).wf(),
        ensures
            r matches Ok(_) <==> old(self).spec_rules_ok(),
            r matches Ok(_) ==> *final(self) == (Request { validated: true, ..*old(self) }),
            r matches Err(_) ==> *final(self) == *old(self),
            spec_arrival_conflict(old(self).travel_mode, old(self).arrival_time) ==> (r matches Err(
                e,
            ) && e matches Error::ArrivalTimeIsForTransitOnly(mc, at) && mc@
                == old(self).travel_mode->0.spec_code() && at@
                == old(self).arrival_time->0.spec_display()),
            !spec_arrival_conflict(old(self).travel_mode, old(self).arrival_time)
                && spec_transit_modes_conflict(old(self).travel_mode, old(self).transit_modes) ==> (
            r matches Err(e) && e matches Error::TransitModeIsForTransitOnly(mc, ms) && mc@
                == old(self).travel_mode->0.spec_code() && ms@ == TransitMode::spec_joined(
                old(self).transit_modes->0@,
            )),
            !spec_arrival_conflict(old(self).travel_mode, old(self).arrival_time)
                && !spec_transit_modes_conflict(old(self).travel_mode, old(self).transit_modes)
                && spec_preference_conflict(
                old(self).travel_mode,
                old(self).transit_route_preference,
            ) ==> (r matches Err(e) && e matches Error::TransitRoutePreferenceIsForTransitOnly(
                mc,
                pc,
            ) && mc@ == old(self).travel_mode->0.spec_code() && pc@
                == old(self).transit_route_preference->0.spec_code()),
            !spec_arrival_conflict(old(self).travel_mode, old(self).arrival_time)
                && !spec_transit_modes_conflict(old(self).travel_mode, old(self).transit_modes)
                && !spec_preference_conflict(
                old(self).travel_mode,
                old(self).transit_route_preference,
            ) && spec_dual_anchor(old(self).arrival_time, old(self).departure_time) ==> (r matches
                Err(e) && e matches Error::EitherDepartureTimeOrArrivalTime(at, dt) && at@
                == old(self).arrival_time->0.spec_display() && dt@
                == old(self).departure_time->0.spec_display()),
    {
        let r = check_rules(
            &self.travel_mode,
            &self.arrival_time,
            &self.departure_time,
            &self.transit_modes,
            &self.transit_route_preference,
        );
        match r {
            Ok(_) => {
                self.validated = true;
                Ok(())
            },
            Err(e) => Err(e),
        }
    }

    /// Renders the canonical query string of a validated accumulator and
    /// caches it. Before validation nothing is rendered and the dedicated
    /// error is returned.
    pub fn serialize(&mut self) -> (r: Result<String, Error>)
        requires
            old(self).wf(),
        ensures
            !old(self).validated ==> r == Err::<String, Error>(Error::RequestNotValidated)
                && *final(self) == *old(self),
            old(self).validated ==> ({
                &&& r matches Ok(q)
                &&& q@ == spec_query(*old(self))
                &&& *final(self) == (Request { query: final(self).query, ..*old(self) })
                &&& final(self).query matches Some(cq)
                &&& cq@ == spec_query(*old(self))
            }),
    {
        if !self.validated {
            return Err(Error::RequestNotValidated);
        }
        let mut q = String::new();
        q.append("destinations=");
        Location::push_joined(&mut q, &self.destinations);
        q.append("&origins=");
        Location::push_joined(&mut q, &self.origins);
        push_avoid_part(&mut q, &self.restrictions);
        push_mode_part(&mut q, &self.travel_mode);
        push_arrival_part(&mut q, &self.arrival_time);
        push_departure_part(&mut q, &self.departure_time);
        push_traffic_part(&mut q, &self.traffic_model);
        push_transit_modes_part(&mut q, &self.transit_modes);
        push_preference_part(&mut q, &self.transit_route_preference);
        push_units_part(&mut q, &self.unit_system);
        proof {
            assert(q@ =~= spec_query(*old(self)));
        }
        self.query = Some(q.clone());
        Ok(q)
    }

    /// Law: serialization is deterministic. Caching the rendered string
    /// changes no configured field, so the canonical query of the
    /// accumulator a serialization leaves behind equals the one it rendered.
    pub proof fn lemma_serialize_deterministic(s: Request, q: String)
        ensures
            spec_query(Request { query: Some(q), ..s }) == spec_query(s),
    {
    }

    /// Law: validation is idempotent. A successful validation changes only
    /// the validated flag, which the rules do not read, so a repeated
    /// validation succeeds again.
    pub proof fn lemma_validate_idempotent(s: Request)
        requires
            s.spec_rules_ok(),
        ensures
            (Request { validated: true, ..s }).spec_rules_ok(),
    {
    }

    /// Law: a transit-only parameter together with a non-transit travel
    /// mode never validates, in whichever order the two were configured —
    /// only the accumulated state matters.
    pub proof fn lemma_transit_only_never_validates(s: Request)
        requires
            spec_non_transit(s.travel_mode),
            s.arrival_time is Some || s.transit_modes is Some || s.transit_route_preference
                is Some,
        ensures
            !s.spec_rules_ok(),
    {
    }

    /// Law: an accumulator holding both temporal anchors never validates,
    /// in whichever order they were configured.
    pub proof fn lemma_dual_anchor_never_validates(s: Request)
        requires
            s.arrival_time is Some,
            s.departure_time is Some,
        ensures
            !s.spec_rules_ok(),
    {
    }
}

} // verus!
