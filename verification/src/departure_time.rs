//! The departure anchor of a query: leave now, or at a given time.

use vstd::prelude::*;
use crate::strutil::spec_dec;
use crate::time::CivilDateTime;
use crate::time::display_datetime;
use crate::time::push_unix_seconds;
use vstd::string::StringExecFns;

verus! {

/// Desired departure time.
#[derive(Clone, Copy, Debug, PartialEq, Eq, Hash, Structural)]
pub enum DepartureTime {
    /// Depart at the current time; rendered as the token `now`.
    Now,
    /// Depart at the given civil time.
    At(CivilDateTime),
}

impl DepartureTime {
    /// A given time must be a real calendar time.
    pub open spec fn wf(self) -> bool {
        match self {
            DepartureTime::Now => true,
            DepartureTime::At(dt) => dt.wf(),
        }
    }

    /// Wire rendering: the token `now`, or the decimal Unix timestamp.
    pub open spec fn spec_query_value(self) -> Seq<char> {
        match self {
            DepartureTime::Now => "now"@,
            DepartureTime::At(dt) => spec_dec(dt.spec_unix_seconds() as nat),
        }
    }

    /// Rendering used in diagnostics: the token `now`, or the civil time in
    /// the same shape arrival times are rendered in.
    pub open spec fn spec_display(self) -> Seq<char> {
        match self {
            DepartureTime::Now => "now"@,
            DepartureTime::At(dt) => dt.spec_display(),
        }
    }

    /// Appends the wire rendering of this departure time to `out`.
    pub fn push_query_value(&self, out: &mut String)
        requires
            self.wf(),
        ensures
            final(out)@ == old(out)@ + self.spec_query_value(),
    {
        match self {
            DepartureTime::Now => {
                out.append("now");
            },
            DepartureTime::At(dt) => {
                push_unix_seconds(out, dt);
            },
        }
    }

    /// Renders this departure time for a diagnostic.
    pub fn display_string(&self) -> (r: String)
        requires
            self.wf(),
        ensures
            r@ == self.spec_display(),
    {
        match self {
            DepartureTime::Now => String::from_str("now"),
            DepartureTime::At(dt) => display_datetime(dt),
        }
    }
}

} // verus!
