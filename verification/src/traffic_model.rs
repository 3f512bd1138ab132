//! Assumptions the service applies when estimating time in traffic.

use vstd::prelude::*;
use crate::error::Error;
use crate::strutil::str_eq;

verus! {

/// Assumption to use when calculating time in traffic.
#[derive(Clone, Copy, Debug, PartialEq, Eq, Hash, Structural)]
pub enum TrafficModel {
    /// The best estimate given what is known about both historical and live
    /// traffic.
    BestGuess,
    /// Assume traffic conditions better than the historical average.
    Optimistic,
    /// Assume traffic conditions worse than the historical average.
    Pessimistic,
}

impl TrafficModel {
    /// The canonical wire code of each variant.
    pub open spec fn spec_code(self) -> Seq<char> {
        match self {
            TrafficModel::BestGuess => "best_guess"@,
            TrafficModel::Optimistic => "optimistic"@,
            TrafficModel::Pessimistic => "pessimistic"@,
        }
    }

    /// The variant a wire code stands for; nothing outside the documented
    /// code set decodes.
    pub open spec fn spec_decode(s: Seq<char>) -> Option<TrafficModel> {
        if s == "best_guess"@ {
            Some(TrafficModel::BestGuess)
        } else if s == "optimistic"@ {
            Some(TrafficModel::Optimistic)
        } else if s == "pessimistic"@ {
            Some(TrafficModel::Pessimistic)
        } else {
            None
        }
    }

    /// Renders this variant as its canonical wire code.
    pub fn code(&self) -> (r: &'static str)
        ensures
            r@ == self.spec_code(),
    {
        match self {
            TrafficModel::BestGuess => "best_guess",
            TrafficModel::Optimistic => "optimistic",
            TrafficModel::Pessimistic => "pessimistic",
        }
    }

    /// Parses a wire code; accepts exactly the documented code set and
    /// rejects every other string, naming the invalid code.
    pub fn decode(code: &str) -> (r: Result<TrafficModel, Error>)
        ensures
            match Self::spec_decode(code@) {
                Some(v) => r == Ok::<TrafficModel, Error>(v),
                None => r matches Err(Error::InvalidTrafficModelCode(c)) && c@ == code@,
            },
    {
        if str_eq(code, "best_guess") {
            Ok(TrafficModel::BestGuess)
        } else if str_eq(code, "optimistic") {
            Ok(TrafficModel::Optimistic)
        } else if str_eq(code, "pessimistic") {
            Ok(TrafficModel::Pessimistic)
        } else {
            Err(Error::InvalidTrafficModelCode(code.to_owned()))
        }
    }

    /// Law: decoding the canonical code of any variant yields that variant
    /// back.
    pub proof fn lemma_code_round_trip(self)
        ensures
            Self::spec_decode(self.spec_code()) == Some(self),
    {
        reveal_strlit("best_guess");
        reveal_strlit("optimistic");
        reveal_strlit("pessimistic");
        assert("best_guess"@[0] == 'b' && "optimistic"@[0] == 'o' && "pessimistic"@[0] == 'p');
        match self {
            TrafficModel::BestGuess => {
                assert(Self::spec_decode("best_guess"@) == Some(TrafficModel::BestGuess));
            },
            TrafficModel::Optimistic => {
                assert(Self::spec_decode("optimistic"@) == Some(TrafficModel::Optimistic));
            },
            TrafficModel::Pessimistic => {
                assert(Self::spec_decode("pessimistic"@) == Some(TrafficModel::Pessimistic));
            },
        }
    }
}

} // verus!
