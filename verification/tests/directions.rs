//! The directions accumulator: validation rules, error payloads, canonical
//! serialization, determinism, and URL encoding.

use maps_query::avoid::Avoid;
use maps_query::departure_time::DepartureTime;
use maps_query::directions::Request;
use maps_query::error::Error;
use maps_query::latlng::LatLng;
use maps_query::location::Location;
use maps_query::time::CivilDateTime;
use maps_query::transit_mode::TransitMode;
use maps_query::transit_route_preference::TransitRoutePreference;
use maps_query::travel_mode::TravelMode;
use maps_query::unit_system::UnitSystem;

fn nine_am_new_year() -> CivilDateTime {
    CivilDateTime::new(2024, 1, 1, 9, 0, 0).unwrap()
}

#[test]
fn transit_arrival_scenario_validates_and_serializes() {
    let mut request = Request::new(
        Location::Address(String::from("New York")),
        Location::Address(String::from("Boston")),
    )
    .with_travel_mode(TravelMode::Transit)
    .with_arrival_time(nine_am_new_year());
    assert_eq!(request.validate(), Ok(()));
    let query = request.serialize().unwrap();
    assert_eq!(
        query,
        "destination=Boston&origin=New+York&mode=transit&arrival_time=1704099600"
    );
    assert!(query.contains("destination=Boston&origin=New+York"));
    assert!(query.contains("&arrival_time="));
}

#[test]
fn driving_arrival_scenario_fails_with_transit_only_error() {
    let mut request = Request::new(
        Location::Address(String::from("New York")),
        Location::Address(String::from("Boston")),
    )
    .with_travel_mode(TravelMode::Driving)
    .with_arrival_time(nine_am_new_year());
    let before = request.clone();
    assert_eq!(
        request.validate(),
        Err(Error::ArrivalTimeIsForTransitOnly(
            String::from("driving"),
            String::from("2024-01-01 09:00:00 AM"),
        ))
    );
    assert_eq!(request, before);
}

#[test]
fn transit_only_parameters_fail_in_either_configuration_order() {
    let origin = Location::Address(String::from("A"));
    let destination = Location::Address(String::from("B"));

    let mut mode_last = Request::new(origin.clone(), destination.clone())
        .with_transit_modes(vec![TransitMode::Bus, TransitMode::Train])
        .with_travel_mode(TravelMode::Walking);
    let before = mode_last.clone();
    assert_eq!(
        mode_last.validate(),
        Err(Error::TransitModeIsForTransitOnly(
            String::from("walking"),
            String::from("bus|train"),
        ))
    );
    assert_eq!(mode_last, before);

    let mut mode_first = Request::new(origin.clone(), destination.clone())
        .with_travel_mode(TravelMode::Walking)
        .with_transit_modes(vec![TransitMode::Bus, TransitMode::Train]);
    assert_eq!(
        mode_first.validate(),
        Err(Error::TransitModeIsForTransitOnly(
            String::from("walking"),
            String::from("bus|train"),
        ))
    );

    let mut preference_conflict = Request::new(origin, destination)
        .with_travel_mode(TravelMode::Bicycling)
        .with_transit_route_preference(TransitRoutePreference::FewerTransfers);
    let before = preference_conflict.clone();
    assert_eq!(
        preference_conflict.validate(),
        Err(Error::TransitRoutePreferenceIsForTransitOnly(
            String::from("bicycling"),
            String::from("fewer_transfers"),
        ))
    );
    assert_eq!(preference_conflict, before);
}

#[test]
fn both_anchors_fail_in_either_configuration_order() {
    let origin = Location::Address(String::from("A"));
    let destination = Location::Address(String::from("B"));
    let arrival = nine_am_new_year();
    let departure = DepartureTime::At(CivilDateTime::new(2024, 1, 1, 7, 30, 0).unwrap());

    let mut arrival_first = Request::new(origin.clone(), destination.clone())
        .with_arrival_time(arrival)
        .with_departure_time(departure);
    let before = arrival_first.clone();
    assert_eq!(
        arrival_first.validate(),
        Err(Error::EitherDepartureTimeOrArrivalTime(
            String::from("2024-01-01 09:00:00 AM"),
            String::from("2024-01-01 07:30:00 AM"),
        ))
    );
    assert_eq!(arrival_first, before);

    let mut departure_first = Request::new(origin, destination)
        .with_departure_time(departure)
        .with_arrival_time(arrival);
    assert_eq!(
        departure_first.validate(),
        Err(Error::EitherDepartureTimeOrArrivalTime(
            String::from("2024-01-01 09:00:00 AM"),
            String::from("2024-01-01 07:30:00 AM"),
        ))
    );
}

#[test]
fn departure_now_with_arrival_fails_naming_now() {
    let mut request = Request::new(
        Location::Address(String::from("A")),
        Location::Address(String::from("B")),
    )
    .with_arrival_time(nine_am_new_year())
    .with_departure_time(DepartureTime::Now);
    assert_eq!(
        request.validate(),
        Err(Error::EitherDepartureTimeOrArrivalTime(
            String::from("2024-01-01 09:00:00 AM"),
            String::from("now"),
        ))
    );
}

#[test]
fn compatible_fields_validate_and_revalidate() {
    let mut request = Request::new(
        Location::Address(String::from("A")),
        Location::Address(String::from("B")),
    )
    .with_travel_mode(TravelMode::Transit)
    .with_arrival_time(nine_am_new_year())
    .with_transit_modes(vec![TransitMode::Rail])
    .with_transit_route_preference(TransitRoutePreference::LessWalking)
    .with_unit_system(UnitSystem::Metric);
    assert_eq!(request.validate(), Ok(()));
    assert_eq!(request.validate(), Ok(()));
    let mut bare = Request::new(
        Location::Address(String::from("A")),
        Location::Address(String::from("B")),
    );
    assert_eq!(bare.validate(), Ok(()));
}

#[test]
fn serialize_twice_yields_identical_output() {
    let mut request = Request::new(
        Location::Address(String::from("New York")),
        Location::Address(String::from("Boston")),
    )
    .with_travel_mode(TravelMode::Transit)
    .with_arrival_time(nine_am_new_year())
    .with_transit_modes(vec![TransitMode::Bus, TransitMode::Subway]);
    assert_eq!(request.validate(), Ok(()));
    let first = request.serialize().unwrap();
    let second = request.serialize().unwrap();
    assert_eq!(first, second);
}

#[test]
fn timestamps_render_at_the_range_edges() {
    let mut epoch = Request::new(
        Location::Address(String::from("A")),
        Location::Address(String::from("B")),
    )
    .with_travel_mode(TravelMode::Transit)
    .with_arrival_time(CivilDateTime::new(1970, 1, 1, 0, 0, 0).unwrap());
    assert_eq!(epoch.validate(), Ok(()));
    assert_eq!(
        epoch.serialize().unwrap(),
        "destination=B&origin=A&mode=transit&arrival_time=0"
    );

    let mut far_future = Request::new(
        Location::Address(String::from("A")),
        Location::Address(String::from("B")),
    )
    .with_departure_time(DepartureTime::At(
        CivilDateTime::new(9999, 12, 31, 23, 59, 59).unwrap(),
    ));
    assert_eq!(far_future.validate(), Ok(()));
    assert_eq!(
        far_future.serialize().unwrap(),
        "destination=B&origin=A&departure_time=253402300799"
    );

    let mut leap_day = Request::new(
        Location::Address(String::from("A")),
        Location::Address(String::from("B")),
    )
    .with_departure_time(DepartureTime::At(
        CivilDateTime::new(2024, 2, 29, 12, 0, 0).unwrap(),
    ));
    assert_eq!(leap_day.validate(), Ok(()));
    assert_eq!(
        leap_day.serialize().unwrap(),
        "destination=B&origin=A&departure_time=1709208000"
    );
}

#[test]
fn serialize_before_validation_is_refused() {
    let mut request = Request::new(
        Location::Address(String::from("A")),
        Location::Address(String::from("B")),
    );
    assert_eq!(request.serialize(), Err(Error::RequestNotValidated));
    let mut reconfigured = Request::new(
        Location::Address(String::from("A")),
        Location::Address(String::from("B")),
    );
    assert_eq!(reconfigured.validate(), Ok(()));
    reconfigured = reconfigured.with_alternatives(true);
    assert_eq!(reconfigured.serialize(), Err(Error::RequestNotValidated));
}

#[test]
fn full_query_emits_fixed_order_and_all_parts() {
    let mut request = Request::new(
        Location::Address(String::from("A")),
        Location::Address(String::from("B")),
    )
    .with_travel_mode(TravelMode::Transit)
    .with_alternatives(false)
    .with_restrictions(vec![Avoid::Tolls, Avoid::Ferries])
    .with_departure_time(DepartureTime::Now)
    .with_transit_modes(vec![TransitMode::Bus])
    .with_transit_route_preference(TransitRoutePreference::LessWalking)
    .with_unit_system(UnitSystem::Imperial)
    .with_waypoint_optimization(true)
    .with_waypoints(vec![
        Location::PlaceId(String::from("ChIJd8BlQ2BZwokRAFUEcm_qrcA")),
        Location::LatLng(LatLng::new(41_000_000, -73_500_000).unwrap()),
    ]);
    assert_eq!(request.validate(), Ok(()));
    let query = request.serialize().unwrap();
    assert_eq!(
        query,
        "destination=B&origin=A&alternatives=false&avoid=tolls|ferries&mode=transit\
         &departure_time=now&transit_mode=bus&transit_routing_preference=less_walking\
         &units=imperial&waypoints=optimize:true|place_id:ChIJd8BlQ2BZwokRAFUEcm_qrcA\
         |41.000000,-73.500000"
    );
}

#[test]
fn free_text_is_url_encoded() {
    let mut request = Request::new(
        Location::Address(String::from("München Hbf")),
        Location::Address(String::from("Jardin d'Essai, Alger")),
    );
    assert_eq!(request.validate(), Ok(()));
    let query = request.serialize().unwrap();
    assert_eq!(
        query,
        "destination=Jardin+d%27Essai,+Alger&origin=M%C3%BCnchen+Hbf"
    );
}

#[test]
fn coordinate_locations_render_fixed_precision() {
    let mut request = Request::new(
        Location::LatLng(LatLng::new(60_170_880, 24_942_795).unwrap()),
        Location::LatLng(LatLng::new(-33_858_900, 151_214_200).unwrap()),
    )
    .with_travel_mode(TravelMode::Driving);
    assert_eq!(request.validate(), Ok(()));
    let query = request.serialize().unwrap();
    assert_eq!(
        query,
        "destination=-33.858900,151.214200&origin=60.170880,24.942795&mode=driving"
    );
}

#[test]
fn list_parameters_replace_on_repeated_configuration() {
    let mut request = Request::new(
        Location::Address(String::from("A")),
        Location::Address(String::from("B")),
    )
    .with_restrictions(vec![Avoid::Tolls])
    .with_restrictions(vec![Avoid::Highways, Avoid::Ferries]);
    assert_eq!(request.validate(), Ok(()));
    let query = request.serialize().unwrap();
    assert!(query.contains("&avoid=highways|ferries"));
    assert!(!query.contains("tolls"));
}

#[test]
fn list_parameters_keep_order_and_duplicates() {
    let mut request = Request::new(
        Location::Address(String::from("A")),
        Location::Address(String::from("B")),
    )
    .with_travel_mode(TravelMode::Transit)
    .with_transit_modes(vec![TransitMode::Train, TransitMode::Bus, TransitMode::Train]);
    assert_eq!(request.validate(), Ok(()));
    let query = request.serialize().unwrap();
    assert!(query.contains("&transit_mode=train|bus|train"));
}

#[test]
fn configuration_replaces_previous_value_and_clears_cache() {
    let mut request = Request::new(
        Location::Address(String::from("A")),
        Location::Address(String::from("B")),
    )
    .with_travel_mode(TravelMode::Driving);
    assert_eq!(request.validate(), Ok(()));
    let driving_query = request.serialize().unwrap();
    assert!(driving_query.contains("&mode=driving"));

    let mut request = request.with_travel_mode(TravelMode::Walking);
    assert_eq!(request.serialize(), Err(Error::RequestNotValidated));
    assert_eq!(request.validate(), Ok(()));
    let walking_query = request.serialize().unwrap();
    assert!(walking_query.contains("&mode=walking"));
    assert!(!walking_query.contains("driving"));
}
