//! The backend strategies and the body rewriter.
use vstd::prelude::*;
use quote::ToTokens;
use crate::decls::texts;

verus! {

/// The instrumentation backend; exactly one is active for a whole run.
#[derive(Clone, Copy, Debug, PartialEq, Eq, Structural)]
pub enum Strategy {
    /// No backend: bodies stay as they are.
    PassThrough,
    /// A backend that opens a function scope by itself (puffin, optick,
    /// superluminal, tracy).
    ScopeMarker,
    /// The `tracing` backend: a span at the info level, named by the label.
    Span,
}

/// A character that every string literal writes as itself: printable ASCII
/// other than the quote, the backslash and the apostrophe.
pub open spec fn is_plain_char(c: char) -> bool {
    ' ' <= c && c <= '~' && c != '"' && c != '\\' && c != '\''
}

pub open spec fn is_plain(s: Seq<char>) -> bool {
    forall|i: int| 0 <= i < s.len() ==> is_plain_char(#[trigger] s[i])
}

/// `lit` is the text of a string literal for `s`: it starts and ends with a
/// quote, and holds `s` as it is when every character of `s` is plain.
pub open spec fn is_literal_for(lit: Seq<char>, s: Seq<char>) -> bool {
    &&& lit.len() >= 2
    &&& lit[0] == '"'
    &&& lit.last() == '"'
    &&& (is_plain(s) ==> lit == seq!['"'] + s + seq!['"'])
}

/// Relies on quote's `ToTokens` for `str`, which appends
/// `proc_macro2::Literal::string(s)`. Both of its implementations (the
/// compiler's inside a procedural macro, proc_macro2's own elsewhere) write a
/// quote, the characters with escapes where needed, and a quote; plain
/// characters stand for themselves.
#[verifier::external_body]
fn string_literal(s: &str) -> (r: String)
    ensures
        is_literal_for(r@, s@),
{
    s.to_token_stream().to_string()
}

pub open spec fn scope_stmt() -> Seq<char> {
    "profiling::function_scope!();"@
}

pub open spec fn span_create_stmt(lit: Seq<char>) -> Seq<char> {
    "let _fn_span = profiling::tracing::span!(profiling::tracing::Level::INFO, "@ + lit + ");"@
}

pub open spec fn span_enter_stmt() -> Seq<char> {
    "let _fn_span_entered = _fn_span.enter();"@
}

/// The statements that `s` puts before a body, given the literal text of the
/// label.
pub open spec fn probe_of(s: Strategy, lit: Seq<char>) -> Seq<Seq<char>> {
    match s {
        Strategy::PassThrough => seq![],
        Strategy::ScopeMarker => seq![scope_stmt()],
        Strategy::Span => seq![span_create_stmt(lit), span_enter_stmt()],
    }
}

/// `p` is a probe of `s` for `label`. For the span strategy the label stands
/// in the first statement as a string literal for it.
pub open spec fn is_probe(s: Strategy, label: Seq<char>, p: Seq<Seq<char>>) -> bool {
    match s {
        Strategy::PassThrough => p == Seq::<Seq<char>>::empty(),
        Strategy::ScopeMarker => p == seq![scope_stmt()],
        Strategy::Span => exists|lit: Seq<char>|
            #[trigger] is_literal_for(lit, label) && p == seq![span_create_stmt(lit), span_enter_stmt()],
    }
}

/// `new` is a probe of `s` for `label` followed by exactly the statements of
/// `old`, in order.
pub open spec fn prepended(s: Strategy, label: Seq<char>, new: Seq<Seq<char>>, old: Seq<Seq<char>>) -> bool {
    &&& new.len() >= old.len()
    &&& is_probe(s, label, new.subrange(0, new.len() - old.len()))
    &&& new.subrange(new.len() - old.len(), new.len() as int) == old
}

/// The probe statements of `s`, given the label already written as a string
/// literal.
pub fn probe_statements(s: Strategy, lit: &str) -> (r: Vec<String>)
    ensures
        texts(r@) == probe_of(s, lit@),
{
    let mut r: Vec<String> = Vec::new();
    match s {
        Strategy::PassThrough => {},
        Strategy::ScopeMarker => {
            r.push(String::from_str("profiling::function_scope!();"));
        },
        Strategy::Span => {
            let mut create = String::from_str(
                "let _fn_span = profiling::tracing::span!(profiling::tracing::Level::INFO, ",
            );
            create.append(lit);
            create.append(");");
            r.push(create);
            r.push(String::from_str("let _fn_span_entered = _fn_span.enter();"));
        },
    }
    assert(texts(r@) =~= probe_of(s, lit@));
    r
}

/// The probe statements of `s` for `label`.
pub fn emit_probe(s: Strategy, label: &str) -> (r: Vec<String>)
    ensures
        is_probe(s, label@, texts(r@)),
{
    let lit = string_literal(label);
    let r = probe_statements(s, lit.as_str());
    assert(is_literal_for(lit@, label@));
    r
}

/// The new body: the probe of `s` for `label`, then every statement of `body`
/// in its order.
pub fn impl_block(s: Strategy, body: Vec<String>, label: &str) -> (r: Vec<String>)
    ensures
        prepended(s, label@, texts(r@), texts(body@)),
{
    let mut r = emit_probe(s, label);
    let mut body = body;
    let ghost b = body@;
    let ghost p = r@;
    r.append(&mut body);
    let ghost n = texts(r@);
    assert(n =~= texts(p) + texts(b));
    assert(n.subrange(0, n.len() - texts(b).len()) =~= texts(p));
    assert(n.subrange(n.len() - texts(b).len(), n.len() as int) =~= texts(b));
    r
}

} // verus!
