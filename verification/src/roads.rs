//! The road-snapping request: an accumulator for one query that snaps a
//! path of coordinates to the road network, with its canonical query
//! serializer. This family has no cross-parameter rules, so there is no
//! validator and serialization is always available.

use vstd::prelude::*;
use crate::latlng::LatLng;
use crate::latlng::push_latlng;
use crate::strutil::spec_bool;
use crate::strutil::spec_join;
use crate::strutil::push_bool;
use vstd::string::StringExecFns;

verus! {

/// Accumulator for one road-snapping query.
#[derive(Clone, Debug, PartialEq, Eq)]
pub struct Request {
    /// The path to be snapped, as consecutive coordinate pairs. Required.
    pub path: Vec<LatLng>,
    /// Whether to interpolate the path to include all points forming the
    /// full road geometry.
    pub interpolate: Option<bool>,
    /// The query string cached by the last serialization, if still current.
    pub query: Option<String>,
}

/// The renderings of the path coordinates joined by the pipe separator.
pub open spec fn spec_path_joined(path: Seq<LatLng>) -> Seq<char> {
    spec_join(path.map_values(|ll: LatLng| ll.spec_render()), "|"@)
}

/// The optional `interpolate` pair of the query.
pub open spec fn spec_interpolate_part(o: Option<bool>) -> Seq<char> {
    match o {
        None => Seq::empty(),
        Some(b) => "&interpolate="@ + spec_bool(b),
    }
}

/// The canonical query string of an accumulator: the required path first,
/// then the interpolation choice if configured.
pub open spec fn spec_query(s: Request) -> Seq<char> {
    "path="@ + spec_path_joined(s.path@) + spec_interpolate_part(s.interpolate)
}

impl Request {
    /// Every coordinate of the path lies on the globe.
    pub open spec fn wf(self) -> bool {
        forall|j: int| 0 <= j < self.path@.len() ==> (#[trigger] self.path@[j]).wf()
    }

    /// Starts an accumulator with the required path and nothing else
    /// configured.
    pub fn new(path: Vec<LatLng>) -> (r: Request)
        ensures
            r == (Request { path, interpolate: None::<bool>, query: None::<String> }),
    {
        Request { path, interpolate: None, query: None }
    }

    /// Replaces the interpolation choice and drops any cached query string.
    pub fn with_interpolation(self, interpolate: bool) -> (r: Request)
        ensures
            r == (Request { interpolate: Some(interpolate), query: None::<String>, ..self }),
    {
        Request { interpolate: Some(interpolate), query: None, ..self }
    }

    /// Renders the canonical query string and caches it. This family has no
    /// validation rules, so serialization is always available.
    pub fn serialize(&mut self) -> (r: String)
        requires
            old(self).wf(),
        ensures
            r@ == spec_query(*old(self)),
            *final(self) == (Request { query: final(self).query, ..*old(self) }),
            final(self).query matches Some(cq) && cq@ == spec_query(*old(self)),
    {
        let mut q = String::new();
        q.append("path=");
        push_path_joined(&mut q, &self.path);
        push_interpolate_part(&mut q, &self.interpolate);
        proof {
            assert(q@ =~= spec_query(*old(self)));
        }
        self.query = Some(q.clone());
        q
    }

    /// Law: serialization is deterministic. Caching the rendered string
    /// changes no configured field, so the canonical query of the
    /// accumulator a serialization leaves behind equals the one it rendered;
    /// a second serialization without intervening configuration therefore
    /// returns the identical string.
    pub proof fn lemma_serialize_deterministic(s: Request, q: String)
        ensures
            spec_query(Request { query: Some(q), ..s }) == spec_query(s),
    {
    }
}

/// Appends the pipe-joined renderings of `path` to `out`.
fn push_path_joined(out: &mut String, path: &Vec<LatLng>)
    requires
        forall|j: int| 0 <= j < path@.len() ==> (#[trigger] path@[j]).wf(),
    ensures
        final(out)@ == old(out)@ + spec_path_joined(path@),
{
    let ghost rendered = path@.map_values(|ll: LatLng| ll.spec_render());
    let mut i: usize = 0;
    while i < path.len()
        invariant
            i <= path.len(),
            rendered == path@.map_values(|ll: LatLng| ll.spec_render()),
            rendered.len() == path@.len(),
            forall|j: int| 0 <= j < path@.len() ==> (#[trigger] path@[j]).wf(),
            out@ == old(out)@ + spec_join(rendered.take(i as int), "|"@),
        decreases path.len() - i,
    {
        if i > 0 {
            out.append("|");
        }
        push_latlng(out, &path[i]);
        proof {
            assert(rendered.take(i + 1).drop_last() =~= rendered.take(i as int));
            assert(rendered.take(i + 1).last() == rendered[i as int]);
            if i == 0 {
                assert(old(out)@ + spec_join(rendered.take(1), "|"@) =~= old(out)@ + rendered[0]);
            } else {
                assert(old(out)@ + spec_join(rendered.take(i + 1), "|"@) =~= ((old(out)@
                    + spec_join(rendered.take(i as int), "|"@)) + "|"@) + rendered[i as int]);
            }
        }
        i += 1;
    }
    proof {
        assert(rendered.take(path@.len() as int) =~= rendered);
        if path@.len() == 0 {
            assert(old(out)@ + spec_join(rendered, "|"@) =~= old(out)@);
        }
    }
}

/// Appends the optional `interpolate` pair to `out`.
fn push_interpolate_part(out: &mut String, o: &Option<bool>)
    ensures
        final(out)@ == old(out)@ + spec_interpolate_part(*o),
{
    if let Some(b) = o {
        out.append("&interpolate=");
        push_bool(out, *b);
        proof {
            assert(old(out)@ + spec_interpolate_part(*o) =~= (old(out)@ + "&interpolate="@)
                + spec_bool(*b));
        }
    } else {
        proof {
            assert(old(out)@ + spec_interpolate_part(*o) =~= old(out)@);
        }
    }
}

} // verus!
