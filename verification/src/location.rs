//! A place that a query can point at: free text, coordinates, or an opaque
//! place identifier. The three variants render differently on the wire; the
//! content of addresses and place identifiers is passed through opaque,
//! URL-encoded but never inspected.

use vstd::prelude::*;
use crate::latlng::LatLng;
use crate::latlng::push_latlng;
use crate::strutil::spec_enc;
use crate::strutil::spec_join;
use crate::strutil::push_enc_str;
use vstd::string::StringExecFns;

verus! {

/// An address, a coordinate pair, or an opaque place identifier.
#[derive(Clone, Debug, PartialEq, Eq)]
pub enum Location {
    /// A free-text address, passed through to the service.
    Address(String),
    /// A coordinate pair.
    LatLng(LatLng),
    /// An opaque place identifier.
    PlaceId(String),
}

impl Location {
    /// Coordinates lie on the globe; the other variants carry no invariant.
    pub open spec fn wf(self) -> bool {
        match self {
            Location::LatLng(ll) => ll.wf(),
            _ => true,
        }
    }

    /// Wire rendering of the value as it stands in a query: free text is
    /// URL-encoded, coordinates are fixed-precision decimal degrees, a place
    /// identifier carries its prefix.
    pub open spec fn spec_query_value(self) -> Seq<char> {
        match self {
            Location::Address(a) => spec_enc(a@),
            Location::LatLng(ll) => ll.spec_render(),
            Location::PlaceId(p) => "place_id:"@ + spec_enc(p@),
        }
    }

    /// Appends the wire rendering of this location to `out`.
    pub fn push_query_value(&self, out: &mut String)
        requires
            self.wf(),
        ensures
            final(out)@ == old(out)@ + self.spec_query_value(),
    {
        match self {
            Location::Address(a) => {
                push_enc_str(out, a.as_str());
            },
            Location::LatLng(ll) => {
                push_latlng(out, ll);
            },
            Location::PlaceId(p) => {
                out.append("place_id:");
                push_enc_str(out, p.as_str());
                proof {
                    assert(old(out)@ + self.spec_query_value() =~= (old(out)@ + "place_id:"@)
                        + spec_enc(p@));
                }
            },
        }
    }

    /// The renderings of a location list joined by the pipe separator.
    pub open spec fn spec_joined(ls: Seq<Location>) -> Seq<char> {
        spec_join(ls.map_values(|l: Location| l.spec_query_value()), "|"@)
    }

    /// Appends the pipe-joined renderings of `locations` to `out`.
    pub fn push_joined(out: &mut String, locations: &Vec<Location>)
        requires
            forall|j: int| 0 <= j < locations@.len() ==> (#[trigger] locations@[j]).wf(),
        ensures
            final(out)@ == old(out)@ + Self::spec_joined(locations@),
    {
        let ghost rendered = locations@.map_values(|l: Location| l.spec_query_value());
        let mut i: usize = 0;
        while i < locations.len()
            invariant
                i <= locations.len(),
                rendered == locations@.map_values(|l: Location| l.spec_query_value()),
                rendered.len() == locations@.len(),
                forall|j: int| 0 <= j < locations@.len() ==> (#[trigger] locations@[j]).wf(),
                out@ == old(out)@ + spec_join(rendered.take(i as int), "|"@),
            decreases locations.len() - i,
        {
            if i > 0 {
                out.append("|");
            }
            locations[i].push_query_value(out);
            proof {
                assert(rendered.take(i + 1).drop_last() =~= rendered.take(i as int));
                assert(rendered.take(i + 1).last() == rendered[i as int]);
                if i == 0 {
                    assert(old(out)@ + spec_join(rendered.take(1), "|"@) =~= old(out)@
                        + rendered[0]);
                } else {
                    assert(old(out)@ + spec_join(rendered.take(i + 1), "|"@) =~= ((old(out)@
                        + spec_join(rendered.take(i as int), "|"@)) + "|"@) + rendered[i as int]);
                }
            }
            i += 1;
        }
        proof {
            assert(rendered.take(locations@.len() as int) =~= rendered);
            if locations@.len() == 0 {
                assert(old(out)@ + spec_join(rendered, "|"@) =~= old(out)@);
            }
        }
    }
}

} // verus!
