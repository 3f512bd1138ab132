//! The crate's error type. Every failure is a typed, recoverable value:
//! an unrecognized wire code met while decoding, an incompatible parameter
//! combination found by a validator, or a request serialized before it was
//! validated.

use vstd::prelude::*;
use vstd::string::StringExecFns;

verus! {

/// One variant per failure condition. Validation variants carry the two
/// conflicting values, already rendered, for a precise diagnostic.
#[derive(Clone, Debug, PartialEq, Eq)]
pub enum Error {
    /// A string outside the documented travel-mode code set.
    InvalidTravelModeCode(String),
    /// A string outside the documented transit-mode code set.
    InvalidTransitModeCode(String),
    /// A string outside the documented transit-route-preference code set.
    InvalidTransitRoutePreferenceCode(String),
    /// A string outside the documented unit-system code set.
    InvalidUnitSystemCode(String),
    /// A string outside the documented avoidance code set.
    InvalidAvoidCode(String),
    /// A string outside the documented traffic-model code set.
    InvalidTrafficModelCode(String),
    /// A string outside the documented review-sort-order code set.
    InvalidSortOrderCode(String),
    /// An arrival time was set while the travel mode is not transit; carries
    /// the travel-mode code and the formatted arrival time.
    ArrivalTimeIsForTransitOnly(String, String),
    /// A transit-mode list was set while the travel mode is not transit;
    /// carries the travel-mode code and the joined transit-mode codes.
    TransitModeIsForTransitOnly(String, String),
    /// A transit route preference was set while the travel mode is not
    /// transit; carries the travel-mode code and the preference code.
    TransitRoutePreferenceIsForTransitOnly(String, String),
    /// Both an arrival time and a departure time were set; carries both
    /// formatted values. The remote protocol accepts one temporal anchor.
    EitherDepartureTimeOrArrivalTime(String, String),
    /// A request was serialized before a successful validation.
    RequestNotValidated,
}

impl Error {
    /// The diagnostic text of each error, with the offending values quoted.
    pub open spec fn spec_message(self) -> Seq<char> {
        match self {
            Error::InvalidTravelModeCode(c) => "invalid travel mode code: "@ + c@,
            Error::InvalidTransitModeCode(c) => "invalid transit mode code: "@ + c@,
            Error::InvalidTransitRoutePreferenceCode(c) => "invalid transit route preference code: "@
                + c@,
            Error::InvalidUnitSystemCode(c) => "invalid unit system code: "@ + c@,
            Error::InvalidAvoidCode(c) => "invalid avoidance code: "@ + c@,
            Error::InvalidTrafficModelCode(c) => "invalid traffic model code: "@ + c@,
            Error::InvalidSortOrderCode(c) => "invalid sort order code: "@ + c@,
            Error::ArrivalTimeIsForTransitOnly(m, t) => "arrival time is for transit travel mode only: travel mode `"@
                + m@ + "`, arrival time `"@ + t@ + "`"@,
            Error::TransitModeIsForTransitOnly(m, l) => "transit modes are for transit travel mode only: travel mode `"@
                + m@ + "`, transit modes `"@ + l@ + "`"@,
            Error::TransitRoutePreferenceIsForTransitOnly(m, p) => "transit route preference is for transit travel mode only: travel mode `"@
                + m@ + "`, preference `"@ + p@ + "`"@,
            Error::EitherDepartureTimeOrArrivalTime(a, d) => "either a departure time or an arrival time may be set, not both: arrival time `"@
                + a@ + "`, departure time `"@ + d@ + "`"@,
            Error::RequestNotValidated => "request must be validated before serialization"@,
        }
    }

    /// Renders the diagnostic text.
    pub fn message(&self) -> (r: String)
        ensures
            r@ == self.spec_message(),
    {
        match self {
            Error::InvalidTravelModeCode(c) => {
                let mut s = String::from_str("invalid travel mode code: ");
                s.append(c.as_str());
                s
            },
            Error::InvalidTransitModeCode(c) => {
                let mut s = String::from_str("invalid transit mode code: ");
                s.append(c.as_str());
                s
            },
            Error::InvalidTransitRoutePreferenceCode(c) => {
                let mut s = String::from_str("invalid transit route preference code: ");
                s.append(c.as_str());
                s
            },
            Error::InvalidUnitSystemCode(c) => {
                let mut s = String::from_str("invalid unit system code: ");
                s.append(c.as_str());
                s
            },
            Error::InvalidAvoidCode(c) => {
                let mut s = String::from_str("invalid avoidance code: ");
                s.append(c.as_str());
                s
            },
            Error::InvalidTrafficModelCode(c) => {
                let mut s = String::from_str("invalid traffic model code: ");
                s.append(c.as_str());
                s
            },
            Error::InvalidSortOrderCode(c) => {
                let mut s = String::from_str("invalid sort order code: ");
                s.append(c.as_str());
                s
            },
            Error::ArrivalTimeIsForTransitOnly(m, t) => {
                let mut s = String::from_str(
                    "arrival time is for transit travel mode only: travel mode `",
                );
                s.append(m.as_str());
                s.append("`, arrival time `");
                s.append(t.as_str());
                s.append("`");
                s
            },
            Error::TransitModeIsForTransitOnly(m, l) => {
                let mut s = String::from_str(
                    "transit modes are for transit travel mode only: travel mode `",
                );
                s.append(m.as_str());
                s.append("`, transit modes `");
                s.append(l.as_str());
                s.append("`");
                s
            },
            Error::TransitRoutePreferenceIsForTransitOnly(m, p) => {
                let mut s = String::from_str(
                    "transit route preference is for transit travel mode only: travel mode `",
                );
                s.append(m.as_str());
                s.append("`, preference `");
                s.append(p.as_str());
                s.append("`");
                s
            },
            Error::EitherDepartureTimeOrArrivalTime(a, d) => {
                let mut s = String::from_str(
                    "either a departure time or an arrival time may be set, not both: arrival time `",
                );
                s.append(a.as_str());
                s.append("`, departure time `");
                s.append(d.as_str());
                s.append("`");
                s
            },
            Error::RequestNotValidated => {
                String::from_str("request must be validated before serialization")
            },
        }
    }
}

} // verus!
