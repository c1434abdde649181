//! The text that names each probe.
use vstd::prelude::*;

verus! {

/// The label of a method `name` in the group of `owner`: `"{owner}: {name}"`.
pub open spec fn method_label(owner: Seq<char>, name: Seq<char>) -> Seq<char> {
    owner + seq![':', ' '] + name
}

/// The label of a probe: the bare name of a free function, or the owner's
/// text, a colon, a space and the name of a method.
pub fn build_label(name: &str, owner: Option<&str>) -> (r: String)
    ensures
        owner is None ==> r@ == name@,
        owner matches Some(o) ==> r@ == method_label(o@, name@),
{
    match owner {
        None => String::from_str(name),
        Some(o) => {
            let mut r = String::from_str(o);
            r.append(": ");
            r.append(name);
            proof {
                reveal_strlit(": ");
                assert(r@ =~= method_label(o@, name@));
            }
            r
        },
    }
}

} // verus!
