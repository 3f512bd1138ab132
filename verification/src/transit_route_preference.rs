//! Preference applied when the service picks among transit routes.

use vstd::prelude::*;
use crate::error::Error;
use crate::strutil::str_eq;

verus! {

/// Preference for the kind of transit route returned.
#[derive(Clone, Copy, Debug, PartialEq, Eq, Hash, Structural)]
pub enum TransitRoutePreference {
    /// Prefer routes with fewer transfers.
    FewerTransfers,
    /// Prefer routes with less walking.
    LessWalking,
}

impl TransitRoutePreference {
    /// The canonical wire code of each variant.
    pub open spec fn spec_code(self) -> Seq<char> {
        match self {
            TransitRoutePreference::FewerTransfers => "fewer_transfers"@,
            TransitRoutePreference::LessWalking => "less_walking"@,
        }
    }

    /// The variant a wire code stands for; nothing outside the documented
    /// code set decodes.
    pub open spec fn spec_decode(s: Seq<char>) -> Option<TransitRoutePreference> {
        if s == "fewer_transfers"@ {
            Some(TransitRoutePreference::FewerTransfers)
        } else if s == "less_walking"@ {
            Some(TransitRoutePreference::LessWalking)
        } else {
            None
        }
    }

    /// Renders this variant as its canonical wire code.
    pub fn code(&self) -> (r: &'static str)
        ensures
            r@ == self.spec_code(),
    {
        match self {
            TransitRoutePreference::FewerTransfers => "fewer_transfers",
            TransitRoutePreference::LessWalking => "less_walking",
        }
    }

    /// Parses a wire code; accepts exactly the documented code set and
    /// rejects every other string, naming the invalid code.
    pub fn decode(code: &str) -> (r: Result<TransitRoutePreference, Error>)
        ensures
            match Self::spec_decode(code@) {
                Some(v) => r == Ok::<TransitRoutePreference, Error>(v),
                None => r matches Err(Error::InvalidTransitRoutePreferenceCode(c)) && c@ == code@,
            },
    {
        if str_eq(code, "fewer_transfers") {
            Ok(TransitRoutePreference::FewerTransfers)
        } else if str_eq(code, "less_walking") {
            Ok(TransitRoutePreference::LessWalking)
        } else {
            Err(Error::InvalidTransitRoutePreferenceCode(code.to_owned()))
        }
    }

    /// Law: decoding the canonical code of any variant yields that variant
    /// back.
    pub proof fn lemma_code_round_trip(self)
        ensures
            Self::spec_decode(self.spec_code()) == Some(self),
    {
        reveal_strlit("fewer_transfers");
        reveal_strlit("less_walking");
        assert("fewer_transfers"@[0] == 'f' && "less_walking"@[0] == 'l');
        match self {
            TransitRoutePreference::FewerTransfers => {
                assert(Self::spec_decode("fewer_transfers"@) == Some(
                    TransitRoutePreference::FewerTransfers,
                ));
            },
            TransitRoutePreference::LessWalking => {
                assert(Self::spec_decode("less_walking"@) == Some(
                    TransitRoutePreference::LessWalking,
                ));
            },
        }
    }
}

} // verus!
