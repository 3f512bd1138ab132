//! Preferred modes of transit for a transit-mode query.

use vstd::prelude::*;
use crate::error::Error;
use crate::strutil::spec_join;
use crate::strutil::str_eq;

verus! {

/// One preferred mode of transit. A query may list several; the list keeps
/// insertion order and may repeat a mode.
#[derive(Clone, Copy, Debug, PartialEq, Eq, Hash, Structural)]
pub enum TransitMode {
    /// Prefer travel by bus.
    Bus,
    /// Prefer travel by subway.
    Subway,
    /// Prefer travel by train.
    Train,
    /// Prefer travel by tram and light rail.
    Tram,
    /// Prefer travel by train, tram, light rail, and subway.
    Rail,
}

impl TransitMode {
    /// The canonical wire code of each variant.
    pub open spec fn spec_code(self) -> Seq<char> {
        match self {
            TransitMode::Bus => "bus"@,
            TransitMode::Subway => "subway"@,
            TransitMode::Train => "train"@,
            TransitMode::Tram => "tram"@,
            TransitMode::Rail => "rail"@,
        }
    }

    /// The variant a wire code stands for; nothing outside the documented
    /// code set decodes.
    pub open spec fn spec_decode(s: Seq<char>) -> Option<TransitMode> {
        if s == "bus"@ {
            Some(TransitMode::Bus)
        } else if s == "subway"@ {
            Some(TransitMode::Subway)
        } else if s == "train"@ {
            Some(TransitMode::Train)
        } else if s == "tram"@ {
            Some(TransitMode::Tram)
        } else if s == "rail"@ {
            Some(TransitMode::Rail)
        } else {
            None
        }
    }

    /// Renders this variant as its canonical wire code.
    pub fn code(&self) -> (r: &'static str)
        ensures
            r@ == self.spec_code(),
    {
        match self {
            TransitMode::Bus => "bus",
            TransitMode::Subway => "subway",
            TransitMode::Train => "train",
            TransitMode::Tram => "tram",
            TransitMode::Rail => "rail",
        }
    }

    /// Parses a wire code; accepts exactly the documented code set and
    /// rejects every other string, naming the invalid code.
    pub fn decode(code: &str) -> (r: Result<TransitMode, Error>)
        ensures
            match Self::spec_decode(code@) {
                Some(v) => r == Ok::<TransitMode, Error>(v),
                None => r matches Err(Error::InvalidTransitModeCode(c)) && c@ == code@,
            },
    {
        if str_eq(code, "bus") {
            Ok(TransitMode::Bus)
        } else if str_eq(code, "subway") {
            Ok(TransitMode::Subway)
        } else if str_eq(code, "train") {
            Ok(TransitMode::Train)
        } else if str_eq(code, "tram") {
            Ok(TransitMode::Tram)
        } else if str_eq(code, "rail") {
            Ok(TransitMode::Rail)
        } else {
            Err(Error::InvalidTransitModeCode(code.to_owned()))
        }
    }

    /// Law: decoding the canonical code of any variant yields that variant
    /// back.
    pub proof fn lemma_code_round_trip(self)
        ensures
            Self::spec_decode(self.spec_code()) == Some(self),
    {
        reveal_strlit("bus");
        reveal_strlit("subway");
        reveal_strlit("train");
        reveal_strlit("tram");
        reveal_strlit("rail");
        assert("bus"@[0] == 'b' && "subway"@[0] == 's' && "train"@[0] == 't' && "tram"@[0] == 't'
            && "rail"@[0] == 'r');
        assert("bus"@.len() == 3 && "subway"@.len() == 6 && "train"@.len() == 5 && "tram"@.len()
            == 4 && "rail"@.len() == 4);
        match self {
            TransitMode::Bus => {
                assert(Self::spec_decode("bus"@) == Some(TransitMode::Bus));
            },
            TransitMode::Subway => {
                assert(Self::spec_decode("subway"@) == Some(TransitMode::Subway));
            },
            TransitMode::Train => {
                assert(Self::spec_decode("train"@) == Some(TransitMode::Train));
            },
            TransitMode::Tram => {
                assert(Self::spec_decode("tram"@) == Some(TransitMode::Tram));
            },
            TransitMode::Rail => {
                assert(Self::spec_decode("rail"@) == Some(TransitMode::Rail));
            },
        }
    }

    /// The codes of a mode list joined by the pipe separator.
    pub open spec fn spec_joined(ms: Seq<TransitMode>) -> Seq<char> {
        spec_join(ms.map_values(|m: TransitMode| m.spec_code()), "|"@)
    }

    /// Appends the pipe-joined codes of `modes` to `out`.
    pub fn push_joined(out: &mut String, modes: &Vec<TransitMode>)
        ensures
            final(out)@ == old(out)@ + Self::spec_joined(modes@),
    {
        let ghost codes = modes@.map_values(|m: TransitMode| m.spec_code());
        let mut i: usize = 0;
        while i < modes.len()
            invariant
                i <= modes.len(),
                codes == modes@.map_values(|m: TransitMode| m.spec_code()),
                codes.len() == modes@.len(),
                out@ == old(out)@ + spec_join(codes.take(i as int), "|"@),
            decreases modes.len() - i,
        {
            if i > 0 {
                out.append("|");
            }
            out.append(modes[i].code());
            proof {
                assert(codes.take(i + 1).drop_last() =~= codes.take(i as int));
                assert(codes.take(i + 1).last() == codes[i as int]);
                if i == 0 {
                    assert(old(out)@ + spec_join(codes.take(1), "|"@) =~= old(out)@ + codes[0]);
                } else {
                    assert(old(out)@ + spec_join(codes.take(i + 1), "|"@) =~= ((old(out)@
                        + spec_join(codes.take(i as int), "|"@)) + "|"@) + codes[i as int]);
                }
            }
            i += 1;
        }
        proof {
            assert(codes.take(modes@.len() as int) =~= codes);
            if modes@.len() == 0 {
                assert(old(out)@ + spec_join(codes, "|"@) =~= old(out)@);
            }
        }
    }
}

} // verus!
