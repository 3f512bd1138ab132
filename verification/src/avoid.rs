//! Route features a query may ask the service to avoid.

use vstd::prelude::*;
use crate::error::Error;
use crate::strutil::spec_join;
use crate::strutil::str_eq;

verus! {

/// One feature that routes should avoid. A query may list several
/// restrictions; the list keeps insertion order.
#[derive(Clone, Copy, Debug, PartialEq, Eq, Hash, Structural)]
pub enum Avoid {
    /// Avoid ferries.
    Ferries,
    /// Avoid highways.
    Highways,
    /// Avoid indoor steps in walking and transit directions.
    Indoor,
    /// Avoid toll roads and toll bridges.
    Tolls,
}

impl Avoid {
    /// The canonical wire code of each variant.
    pub open spec fn spec_code(self) -> Seq<char> {
        match self {
            Avoid::Ferries => "ferries"@,
            Avoid::Highways => "highways"@,
            Avoid::Indoor => "indoor"@,
            Avoid::Tolls => "tolls"@,
        }
    }

    /// The variant a wire code stands for; nothing outside the documented
    /// code set decodes.
    pub open spec fn spec_decode(s: Seq<char>) -> Option<Avoid> {
        if s == "ferries"@ {
            Some(Avoid::Ferries)
        } else if s == "highways"@ {
            Some(Avoid::Highways)
        } else if s == "indoor"@ {
            Some(Avoid::Indoor)
        } else if s == "tolls"@ {
            Some(Avoid::Tolls)
        } else {
            None
        }
    }

    /// Renders this variant as its canonical wire code.
    pub fn code(&self) -> (r: &'static str)
        ensures
            r@ == self.spec_code(),
    {
        match self {
            Avoid::Ferries => "ferries",
            Avoid::Highways => "highways",
            Avoid::Indoor => "indoor",
            Avoid::Tolls => "tolls",
        }
    }

    /// Parses a wire code; accepts exactly the documented code set and
    /// rejects every other string, naming the invalid code.
    pub fn decode(code: &str) -> (r: Result<Avoid, Error>)
        ensures
            match Self::spec_decode(code@) {
                Some(v) => r == Ok::<Avoid, Error>(v),
                None => r matches Err(Error::InvalidAvoidCode(c)) && c@ == code@,
            },
    {
        if str_eq(code, "ferries") {
            Ok(Avoid::Ferries)
        } else if str_eq(code, "highways") {
            Ok(Avoid::Highways)
        } else if str_eq(code, "indoor") {
            Ok(Avoid::Indoor)
        } else if str_eq(code, "tolls") {
            Ok(Avoid::Tolls)
        } else {
            Err(Error::InvalidAvoidCode(code.to_owned()))
        }
    }

    /// Law: decoding the canonical code of any variant yields that variant
    /// back.
    pub proof fn lemma_code_round_trip(self)
        ensures
            Self::spec_decode(self.spec_code()) == Some(self),
    {
        reveal_strlit("ferries");
        reveal_strlit("highways");
        reveal_strlit("indoor");
        reveal_strlit("tolls");
        assert("ferries"@[0] == 'f' && "highways"@[0] == 'h' && "indoor"@[0] == 'i'
            && "tolls"@[0] == 't');
        match self {
            Avoid::Ferries => {
                assert(Self::spec_decode("ferries"@) == Some(Avoid::Ferries));
            },
            Avoid::Highways => {
                assert(Self::spec_decode("highways"@) == Some(Avoid::Highways));
            },
            Avoid::Indoor => {
                assert(Self::spec_decode("indoor"@) == Some(Avoid::Indoor));
            },
            Avoid::Tolls => {
                assert(Self::spec_decode("tolls"@) == Some(Avoid::Tolls));
            },
        }
    }

    /// The codes of a restriction list joined by the pipe separator.
    pub open spec fn spec_joined(rs: Seq<Avoid>) -> Seq<char> {
        spec_join(rs.map_values(|a: Avoid| a.spec_code()), "|"@)
    }

    /// Appends the pipe-joined codes of `restrictions` to `out`.
    pub fn push_joined(out: &mut String, restrictions: &Vec<Avoid>)
        ensures
            final(out)@ == old(out)@ + Self::spec_joined(restrictions@),
    {
        let ghost codes = restrictions@.map_values(|a: Avoid| a.spec_code());
        let mut i: usize = 0;
        while i < restrictions.len()
            invariant
                i <= restrictions.len(),
                codes == restrictions@.map_values(|a: Avoid| a.spec_code()),
                codes.len() == restrictions@.len(),
                out@ == old(out)@ + spec_join(codes.take(i as int), "|"@),
            decreases restrictions.len() - i,
        {
            if i > 0 {
                out.append("|");
            }
            out.append(restrictions[i].code());
            proof {
                assert(codes.take(i + 1).drop_last() =~= codes.take(i as int));
                assert(codes.take(i + 1).last() == codes[i as int]);
                if i == 0 {
                    assert(old(out)@ + spec_join(codes.take(1), "|"@) =~= old(out)@ + codes[0]);
                } else {
                    assert(old(out)@ + spec_join(codes.take(i + 1), "|"@) =~= ((old(out)@
                        + spec_join(codes.take(i as int), "|"@)) + "|"@) + codes[i as int]);
                }
            }
            i += 1;
        }
        proof {
            assert(codes.take(restrictions@.len() as int) =~= codes);
            if restrictions@.len() == 0 {
                assert(old(out)@ + spec_join(codes, "|"@) =~= old(out)@);
            }
        }
    }
}

} // verus!
