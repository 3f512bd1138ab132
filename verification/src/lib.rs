//! Builders for mapping-platform query requests.
//!
//! The crate accumulates the parameters of one query in a request value,
//! checks the accumulated combination against the rules the remote service
//! enforces, and renders the validated request as a canonical, deterministic
//! URL query string.

pub mod avoid;
pub mod departure_time;
pub mod directions;
pub mod distance_matrix;
pub mod error;
pub mod latlng;
pub mod location;
pub mod roads;
pub mod rules;
pub mod sort_order;
pub mod strutil;
pub mod time;
pub mod traffic_model;
pub mod transit_mode;
pub mod transit_route_preference;
pub mod travel_mode;
pub mod unit_system;
