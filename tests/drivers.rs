use profiling_procmacros::classify::is_eligible;
use profiling_procmacros::decls::{Decl, ImplBlock, Item, Marker, Member, Program};
use profiling_procmacros::drivers::{all_functions, everything, function, skip, DriverError};
use profiling_procmacros::label::build_label;
use profiling_procmacros::probe::{emit_probe, impl_block, probe_statements, Strategy};

const SCOPE: &str = "profiling::function_scope!();";
const ENTER: &str = "let _fn_span_entered = _fn_span.enter();";

fn span_create(lit: &str) -> String {
    format!(
        "let _fn_span = profiling::tracing::span!(profiling::tracing::Level::INFO, {});",
        lit
    )
}

fn strings(v: &[&str]) -> Vec<String> {
    v.iter().map(|s| s.to_string()).collect()
}

fn marker(path: &[&str]) -> Marker {
    Marker { segments: strings(path) }
}

fn decl(name: &str, constness: bool, markers: Vec<Marker>, body: &[&str]) -> Decl {
    Decl { name: name.to_string(), constness, markers, body: strings(body) }
}

fn widget_block(members: Vec<Member>) -> ImplBlock {
    ImplBlock { self_ty: "Widget".to_string(), members }
}

#[test]
fn label_of_free_function_is_its_name() {
    assert_eq!(build_label("f", None), "f");
}

#[test]
fn label_of_method_names_its_owner() {
    assert_eq!(build_label("g", Some("Point")), "Point: g");
    assert_eq!(build_label("new", Some("Pair < T >")), "Pair < T >: new");
}

#[test]
fn whole_program_with_span_strategy() {
    let program = Program {
        items: vec![
            Item::Fn(decl("a", false, vec![], &["return 1;"])),
            Item::Impl(widget_block(vec![Member::Fn(decl("b", false, vec![], &[]))])),
            Item::Fn(decl("c", false, vec![marker(&["skip"])], &[])),
        ],
    };
    let out = everything("", program.clone(), Strategy::Span).unwrap();
    assert_eq!(out.items.len(), 3);
    match &out.items[0] {
        Item::Fn(d) => {
            assert_eq!(d.name, "a");
            assert_eq!(d.body, vec![span_create("\"a\""), ENTER.to_string(), "return 1;".to_string()]);
        }
        _ => panic!("expected a function"),
    }
    match &out.items[1] {
        Item::Impl(b) => {
            assert_eq!(b.self_ty, "Widget");
            match &b.members[0] {
                Member::Fn(d) => {
                    assert_eq!(d.body, vec![span_create("\"Widget: b\""), ENTER.to_string()]);
                }
                _ => panic!("expected a method"),
            }
        }
        _ => panic!("expected a method group"),
    }
    assert_eq!(out.items[2], program.items[2]);
}

#[test]
fn single_function_with_scope_marker() {
    let d = decl("timer", false, vec![], &["42"]);
    let out = function("", d.clone(), Strategy::ScopeMarker);
    assert_eq!(out.body, strings(&[SCOPE, "42"]));
    assert_eq!(out.name, d.name);
    assert_eq!(out.markers, d.markers);
    assert!(!out.constness);
}

#[test]
fn whole_program_refuses_arguments() {
    let program = Program { items: vec![Item::Fn(decl("a", false, vec![], &["1"]))] };
    let r = everything("foo", program, Strategy::Span);
    assert_eq!(r, Err(DriverError::UnexpectedArguments));
    assert_eq!(
        DriverError::UnexpectedArguments.message(),
        "`#![profiling::everything]` does not take any arguments"
    );
}

#[test]
fn excluded_declarations_are_untouched_by_every_driver() {
    let short = decl("c", false, vec![marker(&["skip"])], &["x();"]);
    let full = decl("d", false, vec![marker(&["inline"]), marker(&["profiling", "skip"])], &["y();"]);
    for s in [Strategy::PassThrough, Strategy::ScopeMarker, Strategy::Span] {
        assert_eq!(function("", short.clone(), s), short);
        assert_eq!(function("", full.clone(), s), full);
        let out = everything("", Program { items: vec![Item::Fn(full.clone())] }, s).unwrap();
        assert_eq!(out.items[0], Item::Fn(full.clone()));
        let block = widget_block(vec![Member::Fn(full.clone())]);
        assert_eq!(all_functions("", block.clone(), s), block);
    }
}

#[test]
fn const_declarations_are_untouched() {
    let k = decl("k", true, vec![marker(&["inline"])], &["3"]);
    for s in [Strategy::PassThrough, Strategy::ScopeMarker, Strategy::Span] {
        assert_eq!(function("", k.clone(), s), k);
        let block = widget_block(vec![Member::Fn(k.clone())]);
        assert_eq!(all_functions("", block.clone(), s), block);
        let out = everything("", Program { items: vec![Item::Impl(block.clone())] }, s).unwrap();
        assert_eq!(out.items[0], Item::Impl(block));
    }
}

#[test]
fn pass_through_keeps_every_body() {
    let program = Program {
        items: vec![
            Item::Fn(decl("a", false, vec![], &["let x = 1;", "x"])),
            Item::Impl(widget_block(vec![
                Member::Fn(decl("b", false, vec![], &["self.0"])),
                Member::Other("const N: u8 = 1;".to_string()),
            ])),
            Item::Other("struct Widget(u8);".to_string()),
        ],
    };
    let out = everything("", program.clone(), Strategy::PassThrough).unwrap();
    assert_eq!(out, program);
}

#[test]
fn method_group_driver_matches_whole_program() {
    let block = widget_block(vec![
        Member::Fn(decl("b", false, vec![], &["1"])),
        Member::Fn(decl("c", false, vec![marker(&["profiling", "skip"])], &["2"])),
        Member::Fn(decl("d", true, vec![], &["3"])),
        Member::Other("type T = u8;".to_string()),
    ]);
    for s in [Strategy::PassThrough, Strategy::ScopeMarker, Strategy::Span] {
        let grouped = all_functions("", block.clone(), s);
        let whole = everything("", Program { items: vec![Item::Impl(block.clone())] }, s).unwrap();
        assert_eq!(whole.items[0], Item::Impl(grouped));
    }
}

#[test]
fn method_group_driver_honours_any_skip_spelling() {
    let short = decl("b", false, vec![marker(&["skip"])], &["1"]);
    let other = decl("c", false, vec![marker(&["other", "skip"])], &["2"]);
    let plain = decl("d", false, vec![marker(&["inline"])], &["3"]);
    let block = widget_block(vec![Member::Fn(short.clone()), Member::Fn(other.clone()), Member::Fn(plain)]);
    let out = all_functions("", block.clone(), Strategy::ScopeMarker);
    assert_eq!(out.members[0], Member::Fn(short.clone()));
    assert_eq!(out.members[1], Member::Fn(other.clone()));
    assert_eq!(out.members[2], Member::Fn(decl("d", false, vec![marker(&["inline"])], &[SCOPE, "3"])));
    let whole = everything("", Program { items: vec![Item::Impl(block)] }, Strategy::ScopeMarker).unwrap();
    assert_eq!(whole.items[0], Item::Impl(out));
    assert!(!is_eligible(&short));
    assert!(!is_eligible(&other));
}

#[test]
fn eligibility_rules() {
    assert!(is_eligible(&decl("f", false, vec![], &[])));
    assert!(is_eligible(&decl("f", false, vec![marker(&[])], &[])));
    assert!(!is_eligible(&decl("f", true, vec![], &[])));
    assert!(!is_eligible(&decl("f", false, vec![marker(&["a", "profiling", "skip"])], &[])));
    assert!(!is_eligible(&decl("f", false, vec![marker(&["profiling", "x", "skip"])], &[])));
}

#[test]
fn probes_of_each_strategy() {
    assert!(emit_probe(Strategy::PassThrough, "f").is_empty());
    assert_eq!(emit_probe(Strategy::ScopeMarker, "f"), strings(&[SCOPE]));
    assert_eq!(emit_probe(Strategy::Span, "f"), vec![span_create("\"f\""), ENTER.to_string()]);
    assert_eq!(probe_statements(Strategy::Span, "LIT"), vec![span_create("LIT"), ENTER.to_string()]);
}

#[test]
fn span_label_is_written_as_an_escaped_literal() {
    assert_eq!(emit_probe(Strategy::Span, "say \"hi\"")[0], span_create("\"say \\\"hi\\\"\""));
}

#[test]
fn rewriter_keeps_statement_order() {
    let body = strings(&["let a = 1;", "if a > 0 { return a; }", "a + 1"]);
    let out = impl_block(Strategy::ScopeMarker, body.clone(), "f");
    assert_eq!(out[0], SCOPE);
    assert_eq!(out[1..].to_vec(), body);
    assert_eq!(impl_block(Strategy::PassThrough, body.clone(), "f"), body);
}

#[test]
fn skip_returns_its_input() {
    let d = decl("f", false, vec![], &["1"]);
    assert_eq!(skip("", d.clone()), d);
    assert_eq!(skip("", 7u8), 7);
}
