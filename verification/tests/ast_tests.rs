use rugen::ast_module::{empty, leaf, named_leaf, named_node, node, span};
use rugen::ast_types::{AstNode, Span};

fn kinds(n: &AstNode) -> Vec<String> {
    n.children.iter().map(|c| c.kind.clone()).collect()
}

#[test]
fn constructors_build_expected_nodes() {
    let l = leaf("ident", "x");
    assert_eq!(l.kind, "ident");
    assert_eq!(l.value.as_deref(), Some("x"));
    assert!(l.name.is_none() && l.span.is_none() && l.children.is_empty() && l.attrs.is_empty());

    let e = empty("unit");
    assert_eq!(e.kind, "unit");
    assert!(e.value.is_none() && e.children.is_empty());

    let n = node("program", vec![leaf("a", "1"), empty("b")]);
    assert_eq!(kinds(&n), vec!["a".to_string(), "b".to_string()]);

    let nn = named_node("body", "block", vec![]);
    assert_eq!(nn.name.as_deref(), Some("body"));
    assert_eq!(nn.kind, "block");

    let nl = named_leaf("lhs", "number", "42");
    assert_eq!(nl.name.as_deref(), Some("lhs"));
    assert_eq!(nl.value.as_deref(), Some("42"));

    let sp = span(1, 4, 2, 3);
    assert_eq!((sp.start, sp.end, sp.line, sp.col), (1, 4, 2, 3));
}

#[test]
fn display_leaf_and_interior() {
    assert_eq!(leaf("ident", "x").display(), "ident(\"x\")");
    assert_eq!(leaf("str", "a\"b").display(), "str(\"a\\\"b\")");
    assert_eq!(leaf("str", "line\n").display(), "str(\"line\\n\")");
    assert_eq!(node("program", vec![empty("a"), empty("b")]).display(), "program[2]");
    assert_eq!(empty("unit").display(), "unit[0]");
}

#[test]
fn builders_set_their_field() {
    let sp = Span { start: 0, end: 3, line: 1, col: 1 };
    let n = empty("x")
        .with_span(sp)
        .with_name("role")
        .with_attr("k", "v")
        .add_child(leaf("c", "1"));
    assert_eq!(n.span, Some(sp));
    assert_eq!(n.name.as_deref(), Some("role"));
    assert_eq!(n.attrs.len(), 1);
    assert_eq!(n.attrs[0].key, "k");
    assert_eq!(n.attrs[0].value, "v");
    assert_eq!(n.child_count(), 1);
    assert_eq!(n.kind, "x");
}

#[test]
fn add_child_then_get_child() {
    let n = node("list", vec![empty("a")]);
    let count = n.child_count();
    let n = n.add_child(leaf("b", "2"));
    assert_eq!(n.child_count(), count + 1);
    let got = n.get_child(count).unwrap();
    assert_eq!(got.kind, "b");
    assert_eq!(got.value.as_deref(), Some("2"));
    assert_eq!(n.get_child(0).unwrap().kind, "a");
}

#[test]
fn get_child_out_of_range() {
    let n = node("list", vec![empty("a")]);
    assert!(n.get_child(-1).is_none());
    assert!(n.get_child(1).is_none());
    assert!(n.get_child(i64::MAX).is_none());
    assert!(n.get_child(i64::MIN).is_none());
}

#[test]
fn get_attr_first_entry_wins() {
    let n = empty("x").with_attr("k", "first").with_attr("k", "second").with_attr("j", "other");
    assert_eq!(n.get_attr("k").as_deref(), Some("first"));
    assert_eq!(n.get_attr("j").as_deref(), Some("other"));
    assert_eq!(n.get_attr("missing"), None);
}

#[test]
fn get_named_child_finds_first() {
    let n = node(
        "fn",
        vec![
            leaf("ident", "f"),
            named_node("params", "list", vec![empty("p")]),
            named_leaf("params", "dup", "z"),
        ],
    );
    let p = n.get_named_child("params").unwrap();
    assert_eq!(p.kind, "list");
    assert_eq!(p.child_count(), 1);
    assert!(n.get_named_child("body").is_none());
}

#[test]
fn named_child_added_is_found() {
    let parent = empty("fn").add_child(empty("block").with_name("body"));
    let body = parent.get_named_child("body").unwrap();
    assert_eq!(body.kind, "block");
}

#[test]
fn returned_children_are_deep_copies() {
    let inner = node("inner", vec![leaf("x", "1")]).with_attr("a", "b");
    let n = node("outer", vec![inner]);
    let c = n.get_child(0).unwrap();
    assert_eq!(c.kind, "inner");
    assert_eq!(c.child_count(), 1);
    assert_eq!(c.get_attr("a").as_deref(), Some("b"));
    assert_eq!(c.get_child(0).unwrap().value.as_deref(), Some("1"));
    let copy = n.clone();
    assert_eq!(copy.display(), n.display());
}
