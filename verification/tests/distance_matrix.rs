//! The distance-matrix accumulator: it shares the travel rules with the
//! directions family and renders origin and destination lists.

use maps_query::distance_matrix::Request;
use maps_query::error::Error;
use maps_query::location::Location;
use maps_query::time::CivilDateTime;
use maps_query::travel_mode::TravelMode;
use maps_query::unit_system::UnitSystem;

#[test]
fn matrix_serializes_joined_lists_in_fixed_order() {
    let mut request = Request::new(
        vec![
            Location::Address(String::from("New York")),
            Location::Address(String::from("Newark")),
        ],
        vec![Location::Address(String::from("Boston"))],
    )
    .with_travel_mode(TravelMode::Driving)
    .with_unit_system(UnitSystem::Metric);
    assert_eq!(request.validate(), Ok(()));
    let query = request.serialize().unwrap();
    assert_eq!(
        query,
        "destinations=Boston&origins=New+York|Newark&mode=driving&units=metric"
    );
}

#[test]
fn matrix_enforces_the_transit_only_rule() {
    let arrival = CivilDateTime::new(2024, 6, 15, 18, 45, 30).unwrap();
    let mut request = Request::new(
        vec![Location::Address(String::from("A"))],
        vec![Location::Address(String::from("B"))],
    )
    .with_travel_mode(TravelMode::Driving)
    .with_arrival_time(arrival);
    let before = request.clone();
    assert_eq!(
        request.validate(),
        Err(Error::ArrivalTimeIsForTransitOnly(
            String::from("driving"),
            String::from("2024-06-15 06:45:30 PM"),
        ))
    );
    assert_eq!(request, before);
}

#[test]
fn matrix_refuses_serialization_before_validation() {
    let mut request = Request::new(
        vec![Location::Address(String::from("A"))],
        vec![Location::Address(String::from("B"))],
    );
    assert_eq!(request.serialize(), Err(Error::RequestNotValidated));
    assert_eq!(request.validate(), Ok(()));
    let first = request.serialize().unwrap();
    let second = request.serialize().unwrap();
    assert_eq!(first, second);
    assert_eq!(first, "destinations=B&origins=A");
}
