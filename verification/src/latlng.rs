//! A latitude/longitude coordinate pair.
//!
//! Coordinates are held in millionths of a degree, so that the wire
//! rendering — fixed-precision decimal degrees with six fractional digits —
//! is exact.

use vstd::prelude::*;
use crate::strutil::spec_dec;
use crate::strutil::spec_padded;
use crate::strutil::push_padded;
use crate::strutil::push_u64_dec;
use vstd::string::StringExecFns;

verus! {

/// A coordinate pair in millionths of a degree.
#[derive(Clone, Copy, Debug, PartialEq, Eq, Hash, Structural)]
pub struct LatLng {
    /// Latitude in millionths of a degree, -90 to +90 degrees.
    pub lat_micro: i64,
    /// Longitude in millionths of a degree, -180 to +180 degrees.
    pub lng_micro: i64,
}

/// Rendering of one coordinate: optional sign, whole degrees, and exactly
/// six fractional digits.
pub open spec fn spec_coord(v: int) -> Seq<char> {
    let a = if v < 0 {
        -v
    } else {
        v
    };
    (if v < 0 {
        "-"@
    } else {
        Seq::<char>::empty()
    }) + spec_dec((a / 1000000) as nat) + "."@ + spec_padded(a % 1000000, 6)
}

impl LatLng {
    /// The pair lies on the globe.
    pub open spec fn wf(self) -> bool {
        &&& -90000000 <= self.lat_micro <= 90000000
        &&& -180000000 <= self.lng_micro <= 180000000
    }

    /// Wire rendering: latitude and longitude joined by a comma.
    pub open spec fn spec_render(self) -> Seq<char> {
        spec_coord(self.lat_micro as int) + ","@ + spec_coord(self.lng_micro as int)
    }

    /// Builds a coordinate pair from millionths of a degree; yields a value
    /// exactly when both components lie on the globe.
    pub fn new(lat_micro: i64, lng_micro: i64) -> (r: Option<LatLng>)
        ensures
            ({
                let ll = LatLng { lat_micro, lng_micro };
                if ll.wf() {
                    r == Some(ll)
                } else {
                    r == None::<LatLng>
                }
            }),
    {
        if lat_micro < -90000000 || lat_micro > 90000000 || lng_micro < -180000000 || lng_micro
            > 180000000 {
            None
        } else {
            Some(LatLng { lat_micro, lng_micro })
        }
    }
}

/// Appends the rendering of one coordinate to `out`.
fn push_coord(out: &mut String, v: i64)
    requires
        -180000000 <= v <= 180000000,
    ensures
        final(out)@ == old(out)@ + spec_coord(v as int),
{
    let a: i64 = if v < 0 {
        out.append("-");
        -v
    } else {
        v
    };
    let whole = (a / 1000000) as u64;
    let frac = (a % 1000000) as u64;
    push_u64_dec(out, whole);
    out.append(".");
    push_padded(out, frac, 6);
    proof {
        if v < 0 {
            assert(old(out)@ + spec_coord(v as int) =~= (((old(out)@ + "-"@) + spec_dec(
                (-(v as int) / 1000000) as nat,
            )) + "."@) + spec_padded(-(v as int) % 1000000, 6));
        } else {
            assert(old(out)@ + spec_coord(v as int) =~= ((old(out)@ + spec_dec(
                (v as int / 1000000) as nat,
            )) + "."@) + spec_padded(v as int % 1000000, 6));
        }
    }
}

/// Appends the wire rendering of a coordinate pair to `out`.
pub fn push_latlng(out: &mut String, ll: &LatLng)
    requires
        ll.wf(),
    ensures
        final(out)@ == old(out)@ + ll.spec_render(),
{
    push_coord(out, ll.lat_micro);
    out.append(",");
    push_coord(out, ll.lng_micro);
    proof {
        assert(old(out)@ + ll.spec_render() =~= ((old(out)@ + spec_coord(ll.lat_micro as int))
            + ","@) + spec_coord(ll.lng_micro as int));
    }
}

} // verus!
