//! The structural model of a program fragment.
use vstd::prelude::*;

verus! {

/// An attribute attached to a declaration, given by the segments of its path
/// (`#[profiling::skip]` has the segments `profiling` and `skip`).
#[derive(Clone, Debug, PartialEq, Eq)]
pub struct Marker {
    pub segments: Vec<String>,
}

/// A function definition: its name, whether it is `const`, its attributes, and
/// the text of each statement of its body, in order.
#[derive(Clone, Debug, PartialEq, Eq)]
pub struct Decl {
    pub name: String,
    pub constness: bool,
    pub markers: Vec<Marker>,
    pub body: Vec<String>,
}

/// One member of a method group.
#[derive(Clone, Debug, PartialEq, Eq)]
pub enum Member {
    Fn(Decl),
    /// Any other member (a constant, a type, a macro call), kept as text.
    Other(String),
}

/// A method group: the text of its self type and its members, in order.
#[derive(Clone, Debug, PartialEq, Eq)]
pub struct ImplBlock {
    pub self_ty: String,
    pub members: Vec<Member>,
}

/// One top-level item of a program.
#[derive(Clone, Debug, PartialEq, Eq)]
pub enum Item {
    Fn(Decl),
    Impl(ImplBlock),
    /// Any other item, kept as text.
    Other(String),
}

/// A whole program: its top-level items, in order.
#[derive(Clone, Debug, PartialEq, Eq)]
pub struct Program {
    pub items: Vec<Item>,
}

/// The text of each statement of a sequence.
pub open spec fn texts(v: Seq<String>) -> Seq<Seq<char>> {
    v.map_values(|s: String| s@)
}

} // verus!
