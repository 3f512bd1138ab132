//! The cross-parameter rules that every travel query must satisfy before it
//! is dispatched. The rules only look at which structured fields are present
//! together and at the travel-mode discriminant; they never inspect opaque
//! string content.

use vstd::prelude::*;
use crate::departure_time::DepartureTime;
use crate::error::Error;
use crate::time::CivilDateTime;
use crate::time::display_datetime;
use crate::transit_mode::TransitMode;
use crate::transit_route_preference::TransitRoutePreference;
use crate::travel_mode::TravelMode;
use vstd::string::StringExecFns;

verus! {

/// A travel mode is configured and it is not transit.
pub open spec fn spec_non_transit(travel_mode: Option<TravelMode>) -> bool {
    travel_mode matches Some(m) && m != TravelMode::Transit
}

/// An arrival time is set although the travel mode is not transit.
pub open spec fn spec_arrival_conflict(
    travel_mode: Option<TravelMode>,
    arrival_time: Option<CivilDateTime>,
) -> bool {
    spec_non_transit(travel_mode) && arrival_time is Some
}

/// A transit-mode list is set although the travel mode is not transit.
pub open spec fn spec_transit_modes_conflict(
    travel_mode: Option<TravelMode>,
    transit_modes: Option<Vec<TransitMode>>,
) -> bool {
    spec_non_transit(travel_mode) && transit_modes is Some
}

/// A transit route preference is set although the travel mode is not
/// transit.
pub open spec fn spec_preference_conflict(
    travel_mode: Option<TravelMode>,
    preference: Option<TransitRoutePreference>,
) -> bool {
    spec_non_transit(travel_mode) && preference is Some
}

/// Both temporal anchors are set; the remote protocol accepts only one.
pub open spec fn spec_dual_anchor(
    arrival_time: Option<CivilDateTime>,
    departure_time: Option<DepartureTime>,
) -> bool {
    arrival_time is Some && departure_time is Some
}

/// The configured combination satisfies every rule.
pub open spec fn spec_rules_ok(
    travel_mode: Option<TravelMode>,
    arrival_time: Option<CivilDateTime>,
    departure_time: Option<DepartureTime>,
    transit_modes: Option<Vec<TransitMode>>,
    preference: Option<TransitRoutePreference>,
) -> bool {
    &&& !spec_arrival_conflict(travel_mode, arrival_time)
    &&& !spec_transit_modes_conflict(travel_mode, transit_modes)
    &&& !spec_preference_conflict(travel_mode, preference)
    &&& !spec_dual_anchor(arrival_time, departure_time)
}

/// Checks the configured combination against every rule, in a fixed order,
/// and reports the first broken rule with both offending values rendered.
pub fn check_rules(
    travel_mode: &Option<TravelMode>,
    arrival_time: &Option<CivilDateTime>,
    departure_time: &Option<DepartureTime>,
    transit_modes: &Option<Vec<TransitMode>>,
    preference: &Option<TransitRoutePreference>,
) -> (r: Result<(), Error>)
    requires
        (*arrival_time matches Some(a) ==> a.wf()),
        (*departure_time matches Some(d) ==> d.wf()),
    ensures
        r matches Ok(_) <==> spec_rules_ok(
            *travel_mode,
            *arrival_time,
            *departure_time,
            *transit_modes,
            *preference,
        ),
        spec_arrival_conflict(*travel_mode, *arrival_time) ==> (r matches Err(e) && e matches
            Error::ArrivalTimeIsForTransitOnly(mc, at) && mc@ == travel_mode->0.spec_code() && at@
            == arrival_time->0.spec_display()),
        !spec_arrival_conflict(*travel_mode, *arrival_time) && spec_transit_modes_conflict(
            *travel_mode,
            *transit_modes,
        ) ==> (r matches Err(e) && e matches Error::TransitModeIsForTransitOnly(mc, ms) && mc@
            == travel_mode->0.spec_code() && ms@ == TransitMode::spec_joined(transit_modes->0@)),
        !spec_arrival_conflict(*travel_mode, *arrival_time) && !spec_transit_modes_conflict(
            *travel_mode,
            *transit_modes,
        ) && spec_preference_conflict(*travel_mode, *preference) ==> (r matches Err(e) && e matches
            Error::TransitRoutePreferenceIsForTransitOnly(mc, pc) && mc@
            == travel_mode->0.spec_code() && pc@ == preference->0.spec_code()),
        !spec_arrival_conflict(*travel_mode, *arrival_time) && !spec_transit_modes_conflict(
            *travel_mode,
            *transit_modes,
        ) && !spec_preference_conflict(*travel_mode, *preference) && spec_dual_anchor(
            *arrival_time,
            *departure_time,
        ) ==> (r matches Err(e) && e matches Error::EitherDepartureTimeOrArrivalTime(at, dt) && at@
            == arrival_time->0.spec_display() && dt@ == departure_time->0.spec_display()),
{
    if let Some(mode) = travel_mode {
        if *mode != TravelMode::Transit {
            if let Some(at) = arrival_time {
                return Err(
                    Error::ArrivalTimeIsForTransitOnly(
                        String::from_str(mode.code()),
                        display_datetime(at),
                    ),
                );
            }
            if let Some(modes) = transit_modes {
                let mut joined = String::new();
                TransitMode::push_joined(&mut joined, modes);
                proof {
                    assert(joined@ =~= TransitMode::spec_joined(modes@));
                }
                return Err(
                    Error::TransitModeIsForTransitOnly(String::from_str(mode.code()), joined),
                );
            }
            if let Some(p) = preference {
                return Err(
                    Error::TransitRoutePreferenceIsForTransitOnly(
                        String::from_str(mode.code()),
                        String::from_str(p.code()),
                    ),
                );
            }
        }
    }
    if let Some(at) = arrival_time {
        if let Some(dt) = departure_time {
            return Err(
                Error::EitherDepartureTimeOrArrivalTime(display_datetime(at), dt.display_string()),
            );
        }
    }
    Ok(())
}

} // verus!
