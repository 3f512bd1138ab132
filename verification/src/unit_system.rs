//! Unit system the service uses when displaying distances.

use vstd::prelude::*;
use crate::error::Error;
use crate::strutil::str_eq;

verus! {

/// Unit system for displayed results.
#[derive(Clone, Copy, Debug, PartialEq, Eq, Hash, Structural)]
pub enum UnitSystem {
    /// Distances in miles and feet.
    Imperial,
    /// Distances in kilometers and meters.
    Metric,
}

impl UnitSystem {
    /// The canonical wire code of each variant.
    pub open spec fn spec_code(self) -> Seq<char> {
        match self {
            UnitSystem::Imperial => "imperial"@,
            UnitSystem::Metric => "metric"@,
        }
    }

    /// The variant a wire code stands for; nothing outside the documented
    /// code set decodes.
    pub open spec fn spec_decode(s: Seq<char>) -> Option<UnitSystem> {
        if s == "imperial"@ {
            Some(UnitSystem::Imperial)
        } else if s == "metric"@ {
            Some(UnitSystem::Metric)
        } else {
            None
        }
    }

    /// Renders this variant as its canonical wire code.
    pub fn code(&self) -> (r: &'static str)
        ensures
            r@ == self.spec_code(),
    {
        match self {
            UnitSystem::Imperial => "imperial",
            UnitSystem::Metric => "metric",
        }
    }

    /// Parses a wire code; accepts exactly the documented code set and
    /// rejects every other string, naming the invalid code.
    pub fn decode(code: &str) -> (r: Result<UnitSystem, Error>)
        ensures
            match Self::spec_decode(code@) {
                Some(v) => r == Ok::<UnitSystem, Error>(v),
                None => r matches Err(Error::InvalidUnitSystemCode(c)) && c@ == code@,
            },
    {
        if str_eq(code, "imperial") {
            Ok(UnitSystem::Imperial)
        } else if str_eq(code, "metric") {
            Ok(UnitSystem::Metric)
        } else {
            Err(Error::InvalidUnitSystemCode(code.to_owned()))
        }
    }

    /// Law: decoding the canonical code of any variant yields that variant
    /// back.
    pub proof fn lemma_code_round_trip(self)
        ensures
            Self::spec_decode(self.spec_code()) == Some(self),
    {
        reveal_strlit("imperial");
        reveal_strlit("metric");
        assert("imperial"@[0] == 'i' && "metric"@[0] == 'm');
        match self {
            UnitSystem::Imperial => {
                assert(Self::spec_decode("imperial"@) == Some(UnitSystem::Imperial));
            },
            UnitSystem::Metric => {
                assert(Self::spec_decode("metric"@) == Some(UnitSystem::Metric));
            },
        }
    }
}

} // verus!
