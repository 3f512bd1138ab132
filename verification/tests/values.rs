//! The value types: calendar validity, coordinate ranges, and the rendering
//! of departure times.

use maps_query::departure_time::DepartureTime;
use maps_query::latlng::LatLng;
use maps_query::time::CivilDateTime;

#[test]
fn civil_date_time_accepts_real_dates_only() {
    assert!(CivilDateTime::new(2024, 2, 29, 0, 0, 0).is_some());
    assert!(CivilDateTime::new(2023, 2, 29, 0, 0, 0).is_none());
    assert!(CivilDateTime::new(2100, 2, 29, 0, 0, 0).is_none());
    assert!(CivilDateTime::new(2000, 2, 29, 0, 0, 0).is_some());
    assert!(CivilDateTime::new(2024, 4, 31, 0, 0, 0).is_none());
    assert!(CivilDateTime::new(2024, 13, 1, 0, 0, 0).is_none());
    assert!(CivilDateTime::new(2024, 1, 1, 24, 0, 0).is_none());
    assert!(CivilDateTime::new(2024, 1, 1, 23, 60, 0).is_none());
    assert!(CivilDateTime::new(1969, 12, 31, 23, 59, 59).is_none());
    assert!(CivilDateTime::new(9999, 12, 31, 23, 59, 59).is_some());
}

#[test]
fn latlng_accepts_on_globe_coordinates_only() {
    assert!(LatLng::new(90_000_000, 180_000_000).is_some());
    assert!(LatLng::new(-90_000_000, -180_000_000).is_some());
    assert!(LatLng::new(90_000_001, 0).is_none());
    assert!(LatLng::new(0, -180_000_001).is_none());
}

#[test]
fn departure_time_renders_now_and_timestamps() {
    assert_eq!(DepartureTime::Now.display_string(), "now");
    let dt = CivilDateTime::new(1970, 1, 1, 0, 0, 0).unwrap();
    assert_eq!(
        DepartureTime::At(dt).display_string(),
        "1970-01-01 12:00:00 AM"
    );
    let noon = CivilDateTime::new(2024, 5, 5, 12, 0, 0).unwrap();
    assert_eq!(
        DepartureTime::At(noon).display_string(),
        "2024-05-05 12:00:00 PM"
    );
    let afternoon = CivilDateTime::new(1999, 12, 31, 13, 5, 9).unwrap();
    assert_eq!(
        DepartureTime::At(afternoon).display_string(),
        "1999-12-31 01:05:09 PM"
    );
}
