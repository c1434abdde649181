//! Which declarations receive a probe.
use vstd::prelude::*;
use crate::decls::{Decl, Marker};

verus! {

pub open spec fn skip_word() -> Seq<char> {
    seq!['s', 'k', 'i', 'p']
}

/// Whether an attribute path is the exclusion marker: its last segment is
/// `skip`, so `#[skip]` and `#[profiling::skip]` both count.
pub open spec fn is_skip_path(segs: Seq<String>) -> bool {
    segs.len() > 0 && segs.last()@ == skip_word()
}

/// Whether some attribute of `d` is the exclusion marker.
pub open spec fn excluded(d: Decl) -> bool {
    exists|i: int| 0 <= i < d.markers@.len() && is_skip_path(#[trigger] d.markers@[i].segments@)
}

/// A declaration gets a probe when it is not `const` and not excluded.
pub open spec fn eligible(d: Decl) -> bool {
    !d.constness && !excluded(d)
}

/// Decides whether one attribute is the exclusion marker.
pub fn is_skip_marker(m: &Marker) -> (r: bool)
    ensures
        r == is_skip_path(m.segments@),
{
    let n = m.segments.len();
    if n == 0 {
        return false;
    }
    let skip = String::from_str("skip");
    proof {
        reveal_strlit("skip");
        assert(skip@ =~= skip_word());
    }
    m.segments[n - 1] == skip
}

/// Decides whether a declaration gets a probe. Stops at the first exclusion
/// marker.
pub fn is_eligible(d: &Decl) -> (r: bool)
    ensures
        r == eligible(*d),
{
    if d.constness {
        return false;
    }
    let mut i: usize = 0;
    while i < d.markers.len()
        invariant
            i <= d.markers@.len(),
            forall|j: int| 0 <= j < i ==> !is_skip_path(#[trigger] d.markers@[j].segments@),
        decreases d.markers@.len() - i,
    {
        if is_skip_marker(&d.markers[i]) {
            return false;
        }
        i += 1;
    }
    true
}

} // verus!
