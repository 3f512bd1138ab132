//! Sorting method for the reviews returned with place details.

use vstd::prelude::*;
use crate::error::Error;
use crate::strutil::str_eq;

verus! {

/// The sorting method to use when returning reviews. Display to the end
/// user how the reviews are being sorted.
#[derive(Clone, Copy, Debug, PartialEq, Eq, Hash, Structural)]
pub enum SortOrder {
    /// Reviews sorted by relevance, biased toward the preferred language.
    /// This is the default.
    MostRelevant,
    /// Reviews in chronological order, regardless of preferred language.
    Newest,
}

impl SortOrder {
    /// The canonical wire code of each variant.
    pub open spec fn spec_code(self) -> Seq<char> {
        match self {
            SortOrder::MostRelevant => "most_relevant"@,
            SortOrder::Newest => "newest"@,
        }
    }

    /// The variant a wire code stands for; nothing outside the documented
    /// code set decodes.
    pub open spec fn spec_decode(s: Seq<char>) -> Option<SortOrder> {
        if s == "most_relevant"@ {
            Some(SortOrder::MostRelevant)
        } else if s == "newest"@ {
            Some(SortOrder::Newest)
        } else {
            None
        }
    }

    /// Renders this variant as its canonical wire code.
    pub fn code(&self) -> (r: &'static str)
        ensures
            r@ == self.spec_code(),
    {
        match self {
            SortOrder::MostRelevant => "most_relevant",
            SortOrder::Newest => "newest",
        }
    }

    /// Parses a wire code; accepts exactly the documented code set and
    /// rejects every other string, naming the invalid code.
    pub fn decode(code: &str) -> (r: Result<SortOrder, Error>)
        ensures
            match Self::spec_decode(code@) {
                Some(v) => r == Ok::<SortOrder, Error>(v),
                None => r matches Err(Error::InvalidSortOrderCode(c)) && c@ == code@,
            },
    {
        if str_eq(code, "most_relevant") {
            Ok(SortOrder::MostRelevant)
        } else if str_eq(code, "newest") {
            Ok(SortOrder::Newest)
        } else {
            Err(Error::InvalidSortOrderCode(code.to_owned()))
        }
    }

    /// Law: decoding the canonical code of any variant yields that variant
    /// back.
    pub proof fn lemma_code_round_trip(self)
        ensures
            Self::spec_decode(self.spec_code()) == Some(self),
    {
        reveal_strlit("most_relevant");
        reveal_strlit("newest");
        assert("most_relevant"@[0] == 'm' && "newest"@[0] == 'n');
        match self {
            SortOrder::MostRelevant => {
                assert(Self::spec_decode("most_relevant"@) == Some(SortOrder::MostRelevant));
            },
            SortOrder::Newest => {
                assert(Self::spec_decode("newest"@) == Some(SortOrder::Newest));
            },
        }
    }

    /// Text presentable to the end user.
    pub fn display_string(&self) -> (r: &'static str)
        ensures
            self == SortOrder::MostRelevant ==> r@ == "Most Relevant"@,
            self == SortOrder::Newest ==> r@ == "Newest"@,
    {
        match self {
            SortOrder::MostRelevant => "Most Relevant",
            SortOrder::Newest => "Newest",
        }
    }
}

impl core::str::FromStr for SortOrder {
    type Err = Error;

    /// Parses a wire code, returning exactly what `decode` returns.
    fn from_str(code: &str) -> (r: Result<SortOrder, Error>)
        ensures
            match SortOrder::spec_decode(code@) {
                Some(v) => r == Ok::<SortOrder, Error>(v),
                None => r matches Err(Error::InvalidSortOrderCode(c)) && c@ == code@,
            },
    {
        SortOrder::decode(code)
    }
}

impl core::default::Default for SortOrder {
    /// The sorting the service applies when none is requested.
    fn default() -> (r: SortOrder)
        ensures
            r == SortOrder::MostRelevant,
    {
        SortOrder::MostRelevant
    }
}

} // verus!
