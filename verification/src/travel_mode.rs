//! The mode of transportation for a directions or distance-matrix query.

use vstd::prelude::*;
use crate::error::Error;
use crate::strutil::str_eq;

verus! {

/// Mode of transportation. The remote service computes routes for exactly
/// these modes.
#[derive(Clone, Copy, Debug, PartialEq, Eq, Hash, Structural)]
pub enum TravelMode {
    /// Bicycling directions via bicycle paths and preferred streets.
    Bicycling,
    /// Standard driving directions using the road network.
    Driving,
    /// Directions via public transit routes.
    Transit,
    /// Walking directions via pedestrian paths and sidewalks.
    Walking,
}

impl TravelMode {
    /// The canonical wire code of each variant.
    pub open spec fn spec_code(self) -> Seq<char> {
        match self {
            TravelMode::Bicycling => "bicycling"@,
            TravelMode::Driving => "driving"@,
            TravelMode::Transit => "transit"@,
            TravelMode::Walking => "walking"@,
        }
    }

    /// The variant a wire code stands for; nothing outside the documented
    /// code set decodes.
    pub open spec fn spec_decode(s: Seq<char>) -> Option<TravelMode> {
        if s == "bicycling"@ {
            Some(TravelMode::Bicycling)
        } else if s == "driving"@ {
            Some(TravelMode::Driving)
        } else if s == "transit"@ {
            Some(TravelMode::Transit)
        } else if s == "walking"@ {
            Some(TravelMode::Walking)
        } else {
            None
        }
    }

    /// Renders this variant as its canonical wire code.
    pub fn code(&self) -> (r: &'static str)
        ensures
            r@ == self.spec_code(),
    {
        match self {
            TravelMode::Bicycling => "bicycling",
            TravelMode::Driving => "driving",
            TravelMode::Transit => "transit",
            TravelMode::Walking => "walking",
        }
    }

    /// Parses a wire code; accepts exactly the documented code set and
    /// rejects every other string, naming the invalid code.
    pub fn decode(code: &str) -> (r: Result<TravelMode, Error>)
        ensures
            match Self::spec_decode(code@) {
                Some(v) => r == Ok::<TravelMode, Error>(v),
                None => r matches Err(Error::InvalidTravelModeCode(c)) && c@ == code@,
            },
    {
        if str_eq(code, "bicycling") {
            Ok(TravelMode::Bicycling)
        } else if str_eq(code, "driving") {
            Ok(TravelMode::Driving)
        } else if str_eq(code, "transit") {
            Ok(TravelMode::Transit)
        } else if str_eq(code, "walking") {
            Ok(TravelMode::Walking)
        } else {
            Err(Error::InvalidTravelModeCode(code.to_owned()))
        }
    }

    /// Law: decoding the canonical code of any variant yields that variant
    /// back.
    pub proof fn lemma_code_round_trip(self)
        ensures
            Self::spec_decode(self.spec_code()) == Some(self),
    {
        reveal_strlit("bicycling");
        reveal_strlit("driving");
        reveal_strlit("transit");
        reveal_strlit("walking");
        assert("bicycling"@[0] == 'b' && "driving"@[0] == 'd' && "transit"@[0] == 't'
            && "walking"@[0] == 'w');
        match self {
            TravelMode::Bicycling => {
                assert(Self::spec_decode("bicycling"@) == Some(TravelMode::Bicycling));
            },
            TravelMode::Driving => {
                assert(Self::spec_decode("driving"@) == Some(TravelMode::Driving));
            },
            TravelMode::Transit => {
                assert(Self::spec_decode("transit"@) == Some(TravelMode::Transit));
            },
            TravelMode::Walking => {
                assert(Self::spec_decode("walking"@) == Some(TravelMode::Walking));
            },
        }
    }
}

} // verus!
