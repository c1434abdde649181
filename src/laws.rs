//! Properties that relate the drivers, the classifier and the strategies.
use vstd::prelude::*;
use crate::classify::{eligible, excluded};
use crate::decls::{texts, Decl, ImplBlock, Item};
use crate::drivers::{block_out, decl_out, item_out};
use crate::probe::{is_plain, is_probe, span_create_stmt, span_enter_stmt, Strategy};

verus! {

/// A rewrite keeps the signature, and the new body is the probe of the
/// active strategy (none for an ineligible declaration) followed by exactly
/// the original statements, in order.
pub proof fn lemma_rewrite_shape(s: Strategy, d: Decl, label: Seq<char>, d2: Decl)
    requires
        decl_out(s, d, label, d2),
    ensures
        d2.name == d.name,
        d2.constness == d.constness,
        d2.markers == d.markers,
        texts(d2.body@).len() >= texts(d.body@).len(),
        texts(d2.body@).subrange(
            texts(d2.body@).len() - texts(d.body@).len(),
            texts(d2.body@).len() as int,
        ) == texts(d.body@),
        eligible(d) ==> is_probe(
            s,
            label,
            texts(d2.body@).subrange(0, texts(d2.body@).len() - texts(d.body@).len()),
        ),
        !eligible(d) ==> texts(d2.body@) == texts(d.body@),
{
    if !eligible(d) {
        let n = texts(d.body@);
        assert(n.subrange(0, n.len() as int) =~= n);
    }
}

/// A probe for a label made of plain characters is exact: with the span
/// strategy the span is named by the label between quotes.
pub proof fn lemma_plain_label_probe(label: Seq<char>, p: Seq<Seq<char>>)
    requires
        is_plain(label),
        is_probe(Strategy::Span, label, p),
    ensures
        p == seq![span_create_stmt(seq!['"'] + label + seq!['"']), span_enter_stmt()],
{
}

/// A declaration that carries the exclusion marker comes out unchanged,
/// whichever strategy and label are used.
pub proof fn lemma_excluded_unchanged(s: Strategy, d: Decl, label: Seq<char>, d2: Decl)
    requires
        decl_out(s, d, label, d2),
        excluded(d),
    ensures
        d2 == d,
{
}

/// A `const` declaration comes out unchanged, whatever attributes it carries.
pub proof fn lemma_const_unchanged(s: Strategy, d: Decl, label: Seq<char>, d2: Decl)
    requires
        decl_out(s, d, label, d2),
        d.constness,
    ensures
        d2 == d,
{
}

/// With the pass-through strategy every body keeps exactly its statements.
pub proof fn lemma_pass_through_unchanged(d: Decl, label: Seq<char>, d2: Decl)
    requires
        decl_out(Strategy::PassThrough, d, label, d2),
    ensures
        texts(d2.body@) == texts(d.body@),
        d2.name == d.name,
        d2.constness == d.constness,
        d2.markers == d.markers,
{
    if eligible(d) {
        let n = texts(d2.body@);
        let k = n.len() - texts(d.body@).len();
        assert(n.subrange(0, k) == Seq::<Seq<char>>::empty());
        assert(n =~= n.subrange(k, n.len() as int));
    }
}

/// The whole-program driver's handling of a method group and the
/// method-group driver accept exactly the same output for it.
pub proof fn lemma_group_drivers_agree(s: Strategy, b: ImplBlock, b2: ImplBlock)
    ensures
        item_out(s, Item::Impl(b), Item::Impl(b2)) == block_out(s, b, b2),
{
}

} // verus!
