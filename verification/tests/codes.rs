//! Wire-code round trips for every enum variant, and rejection of strings
//! outside the documented code sets.

use maps_query::avoid::Avoid;
use maps_query::error::Error;
use maps_query::sort_order::SortOrder;
use maps_query::traffic_model::TrafficModel;
use maps_query::transit_mode::TransitMode;
use maps_query::transit_route_preference::TransitRoutePreference;
use maps_query::travel_mode::TravelMode;
use maps_query::unit_system::UnitSystem;

#[test]
fn travel_mode_round_trip_every_variant() {
    let variants = [
        TravelMode::Bicycling,
        TravelMode::Driving,
        TravelMode::Transit,
        TravelMode::Walking,
    ];
    for v in variants {
        assert_eq!(TravelMode::decode(v.code()), Ok(v));
    }
    assert_eq!(TravelMode::Driving.code(), "driving");
    assert_eq!(TravelMode::Transit.code(), "transit");
}

#[test]
fn travel_mode_rejects_unknown_code() {
    assert_eq!(
        TravelMode::decode("flying"),
        Err(Error::InvalidTravelModeCode(String::from("flying")))
    );
    assert_eq!(
        TravelMode::decode("Driving"),
        Err(Error::InvalidTravelModeCode(String::from("Driving")))
    );
    assert_eq!(TravelMode::decode(""), Err(Error::InvalidTravelModeCode(String::new())));
}

#[test]
fn transit_mode_round_trip_every_variant() {
    let variants = [
        TransitMode::Bus,
        TransitMode::Subway,
        TransitMode::Train,
        TransitMode::Tram,
        TransitMode::Rail,
    ];
    for v in variants {
        assert_eq!(TransitMode::decode(v.code()), Ok(v));
    }
    assert_eq!(TransitMode::Tram.code(), "tram");
}

#[test]
fn transit_mode_rejects_unknown_code() {
    assert_eq!(
        TransitMode::decode("trains"),
        Err(Error::InvalidTransitModeCode(String::from("trains")))
    );
}

#[test]
fn transit_route_preference_round_trip_every_variant() {
    let variants = [
        TransitRoutePreference::FewerTransfers,
        TransitRoutePreference::LessWalking,
    ];
    for v in variants {
        assert_eq!(TransitRoutePreference::decode(v.code()), Ok(v));
    }
    assert_eq!(TransitRoutePreference::LessWalking.code(), "less_walking");
}

#[test]
fn transit_route_preference_rejects_unknown_code() {
    assert_eq!(
        TransitRoutePreference::decode("less walking"),
        Err(Error::InvalidTransitRoutePreferenceCode(String::from("less walking")))
    );
}

#[test]
fn unit_system_round_trip_every_variant() {
    let variants = [UnitSystem::Imperial, UnitSystem::Metric];
    for v in variants {
        assert_eq!(UnitSystem::decode(v.code()), Ok(v));
    }
    assert_eq!(UnitSystem::Metric.code(), "metric");
}

#[test]
fn unit_system_rejects_unknown_code() {
    assert_eq!(
        UnitSystem::decode("nautical"),
        Err(Error::InvalidUnitSystemCode(String::from("nautical")))
    );
}

#[test]
fn avoid_round_trip_every_variant() {
    let variants = [Avoid::Ferries, Avoid::Highways, Avoid::Indoor, Avoid::Tolls];
    for v in variants {
        assert_eq!(Avoid::decode(v.code()), Ok(v));
    }
    assert_eq!(Avoid::Tolls.code(), "tolls");
}

#[test]
fn avoid_rejects_unknown_code() {
    assert_eq!(Avoid::decode("bridges"), Err(Error::InvalidAvoidCode(String::from("bridges"))));
}

#[test]
fn traffic_model_round_trip_every_variant() {
    let variants = [
        TrafficModel::BestGuess,
        TrafficModel::Optimistic,
        TrafficModel::Pessimistic,
    ];
    for v in variants {
        assert_eq!(TrafficModel::decode(v.code()), Ok(v));
    }
    assert_eq!(TrafficModel::BestGuess.code(), "best_guess");
}

#[test]
fn traffic_model_rejects_unknown_code() {
    assert_eq!(
        TrafficModel::decode("realistic"),
        Err(Error::InvalidTrafficModelCode(String::from("realistic")))
    );
}

#[test]
fn sort_order_round_trip_every_variant() {
    let variants = [SortOrder::MostRelevant, SortOrder::Newest];
    for v in variants {
        assert_eq!(SortOrder::decode(v.code()), Ok(v));
    }
    assert_eq!(SortOrder::MostRelevant.code(), "most_relevant");
    assert_eq!(SortOrder::Newest.code(), "newest");
}

#[test]
fn sort_order_rejects_unknown_code() {
    assert_eq!(
        SortOrder::decode("oldest"),
        Err(Error::InvalidSortOrderCode(String::from("oldest")))
    );
}

#[test]
fn error_messages_quote_the_offending_values() {
    let decode_error = TravelMode::decode("flying").unwrap_err();
    assert_eq!(decode_error.message(), "invalid travel mode code: flying");
    let conflict = Error::ArrivalTimeIsForTransitOnly(
        String::from("driving"),
        String::from("2024-01-01 09:00:00 AM"),
    );
    assert_eq!(
        conflict.message(),
        "arrival time is for transit travel mode only: travel mode `driving`, \
         arrival time `2024-01-01 09:00:00 AM`"
    );
    assert_eq!(
        Error::RequestNotValidated.message(),
        "request must be validated before serialization"
    );
}

#[test]
fn sort_order_from_str_and_default() {
    let parsed: SortOrder = "newest".parse().unwrap();
    assert_eq!(parsed, SortOrder::Newest);
    let bad: Result<SortOrder, Error> = "best".parse();
    assert_eq!(bad, Err(Error::InvalidSortOrderCode(String::from("best"))));
    assert_eq!(SortOrder::default(), SortOrder::MostRelevant);
    assert_eq!(SortOrder::MostRelevant.display_string(), "Most Relevant");
    assert_eq!(SortOrder::Newest.display_string(), "Newest");
}
