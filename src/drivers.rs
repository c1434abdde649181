//! The traversal drivers: a whole program, one function, one method group.
use vstd::prelude::*;
use crate::classify::{eligible, is_eligible};
use crate::decls::{texts, Decl, ImplBlock, Item, Member, Program};
use crate::label::{build_label, method_label};
use crate::probe::{impl_block, prepended, Strategy};

verus! {

/// `d2` is what becomes of `d` under `s`: an eligible declaration keeps its
/// signature and gets the probe for `label` before its statements; any other
/// stays as it is.
pub open spec fn decl_out(s: Strategy, d: Decl, label: Seq<char>, d2: Decl) -> bool {
    if eligible(d) {
        &&& d2.name == d.name
        &&& d2.constness == d.constness
        &&& d2.markers == d.markers
        &&& prepended(s, label, texts(d2.body@), texts(d.body@))
    } else {
        d2 == d
    }
}

/// What becomes of one member of the group of `owner`.
pub open spec fn member_out(s: Strategy, owner: Seq<char>, m: Member, m2: Member) -> bool {
    match m {
        Member::Fn(d) => m2 matches Member::Fn(d2) && decl_out(s, d, method_label(owner, d.name@), d2),
        Member::Other(_) => m2 == m,
    }
}

/// What becomes of a method group: the same self type, and each member in turn.
pub open spec fn block_out(s: Strategy, b: ImplBlock, b2: ImplBlock) -> bool {
    &&& b2.self_ty == b.self_ty
    &&& b2.members@.len() == b.members@.len()
    &&& forall|i: int|
        0 <= i < b.members@.len() ==> #[trigger] member_out(s, b.self_ty@, b.members@[i], b2.members@[i])
}

/// What becomes of one top-level item under the whole-program driver.
pub open spec fn item_out(s: Strategy, it: Item, it2: Item) -> bool {
    match it {
        Item::Fn(d) => it2 matches Item::Fn(d2) && decl_out(s, d, d.name@, d2),
        Item::Impl(b) => it2 matches Item::Impl(b2) && block_out(s, b, b2),
        Item::Other(_) => it2 == it,
    }
}

/// What becomes of a whole program: each item in turn.
pub open spec fn program_out(s: Strategy, p: Program, p2: Program) -> bool {
    &&& p2.items@.len() == p.items@.len()
    &&& forall|i: int| 0 <= i < p.items@.len() ==> #[trigger] item_out(s, p.items@[i], p2.items@[i])
}

/// The reasons a driver refuses to run.
#[derive(Clone, Copy, Debug, PartialEq, Eq, Structural)]
pub enum DriverError {
    /// The whole-program driver was given arguments; it takes none.
    UnexpectedArguments,
}

impl DriverError {
    /// The message that reports the error.
    pub fn message(&self) -> (r: String)
        ensures
            r@ == "`#![profiling::everything]` does not take any arguments"@,
    {
        String::from_str("`#![profiling::everything]` does not take any arguments")
    }
}

/// Rewrites `d` with `label` when it is eligible.
fn instrument_decl(s: Strategy, d: Decl, label: &str) -> (r: Decl)
    ensures
        decl_out(s, d, label@, r),
{
    if !is_eligible(&d) {
        return d;
    }
    let body = impl_block(s, d.body, label);
    Decl { name: d.name, constness: d.constness, markers: d.markers, body }
}

/// Rewrites every method of a group, labelled with the group's self type.
fn instrument_block(s: Strategy, b: ImplBlock) -> (r: ImplBlock)
    ensures
        block_out(s, b, r),
{
    let ImplBlock { self_ty, members } = b;
    let ghost orig = members@;
    let mut members = members;
    let mut out: Vec<Member> = Vec::new();
    let n = members.len();
    let mut k: usize = 0;
    while k < n
        invariant
            n == orig.len(),
            k <= n,
            self_ty == b.self_ty,
            orig == b.members@,
            members@ == orig.subrange(k as int, n as int),
            out@.len() == k,
            forall|i: int| 0 <= i < k ==> #[trigger] member_out(s, self_ty@, orig[i], out@[i]),
        decreases n - k,
    {
        let m = members.remove(0);
        assert(m == orig[k as int]);
        let m2 = match m {
            Member::Fn(d) => {
                let label = build_label(d.name.as_str(), Some(self_ty.as_str()));
                Member::Fn(instrument_decl(s, d, label.as_str()))
            },
            Member::Other(t) => Member::Other(t),
        };
        out.push(m2);
        k += 1;
    }
    ImplBlock { self_ty, members: out }
}

/// The whole-program driver: rewrites every eligible free function, labelled
/// by its name, and every eligible method of every method group, labelled
/// `"{owner}: {name}"`. An attribute whose path ends in `skip` excludes a
/// declaration, and so does `const`. It takes no arguments: any `args` text
/// is refused.
pub fn everything(args: &str, program: Program, s: Strategy) -> (r: Result<Program, DriverError>)
    ensures
        args@.len() > 0 ==> r == Err::<Program, DriverError>(DriverError::UnexpectedArguments),
        args@.len() == 0 ==> (r matches Ok(p2) && program_out(s, program, p2)),
{
    if !args.is_empty() {
        return Err(DriverError::UnexpectedArguments);
    }
    let ghost orig = program.items@;
    let mut items = program.items;
    let mut out: Vec<Item> = Vec::new();
    let n = items.len();
    let mut k: usize = 0;
    while k < n
        invariant
            n == orig.len(),
            k <= n,
            orig == program.items@,
            items@ == orig.subrange(k as int, n as int),
            out@.len() == k,
            forall|i: int| 0 <= i < k ==> #[trigger] item_out(s, orig[i], out@[i]),
        decreases n - k,
    {
        let it = items.remove(0);
        assert(it == orig[k as int]);
        let it2 = match it {
            Item::Fn(d) => {
                let label = build_label(d.name.as_str(), None);
                Item::Fn(instrument_decl(s, d, label.as_str()))
            },
            Item::Impl(b) => Item::Impl(instrument_block(s, b)),
            Item::Other(t) => Item::Other(t),
        };
        out.push(it2);
        k += 1;
    }
    Ok(Program { items: out })
}

/// The single-function driver: rewrites `d`, labelled by its name, unless it
/// is `const` or carries an attribute whose path ends in `skip`.
pub fn function(_attr: &str, d: Decl, s: Strategy) -> (r: Decl)
    ensures
        decl_out(s, d, d.name@, r),
{
    let label = build_label(d.name.as_str(), None);
    instrument_decl(s, d, label.as_str())
}

/// The method-group driver: rewrites every method of `b`, labelled
/// `"{owner}: {name}"`, unless it is `const` or carries an attribute whose
/// path ends in `skip`.
pub fn all_functions(_attr: &str, b: ImplBlock, s: Strategy) -> (r: ImplBlock)
    ensures
        block_out(s, b, r),
{
    instrument_block(s, b)
}

/// The exclusion driver: hands its input back unchanged.
pub fn skip<T>(_attr: &str, item: T) -> (r: T)
    ensures
        r == item,
{
    item
}

} // verus!
