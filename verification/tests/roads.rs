//! The road-snapping accumulator: path rendering and interpolation.

use maps_query::latlng::LatLng;
use maps_query::roads::Request;

#[test]
fn path_with_interpolation_renders_pipe_joined_pairs() {
    let path = vec![
        LatLng::new(60_170_880, 24_942_795).unwrap(),
        LatLng::new(60_170_879, 24_942_796).unwrap(),
    ];
    let mut request = Request::new(path).with_interpolation(true);
    let query = request.serialize();
    assert_eq!(
        query,
        "path=60.170880,24.942795|60.170879,24.942796&interpolate=true"
    );
}

#[test]
fn path_without_interpolation_omits_the_pair() {
    let mut request = Request::new(vec![LatLng::new(-1_500_000, 36_800_000).unwrap()]);
    assert_eq!(request.serialize(), "path=-1.500000,36.800000");
}

#[test]
fn roads_serialization_is_deterministic() {
    let path = vec![
        LatLng::new(60_170_880, 24_942_795).unwrap(),
        LatLng::new(60_170_879, 24_942_796).unwrap(),
    ];
    let mut request = Request::new(path).with_interpolation(false);
    let first = request.serialize();
    let second = request.serialize();
    assert_eq!(first, second);
    assert_eq!(
        first,
        "path=60.170880,24.942795|60.170879,24.942796&interpolate=false"
    );
}
