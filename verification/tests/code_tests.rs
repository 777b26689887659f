use rugen::code_module::{
    array_type, code_module, const_def, enum_def, expr_stmt, field, field_opt, fn_def,
    fn_def_void, generic_type, lit_bool, lit_float, lit_int, lit_null, lit_str, match_arm,
    mut_ref_type, optional_type, param, pat_wildcard, ref_type, result_type, slice_type,
    struct_def, tuple_struct_def, tuple_type, type_alias, type_of, use_item, var, variant,
    variant_struct, variant_tuple,
};
use rugen::code_module::{block_with_trailing, call, let_stmt, pat_or, pat_var};
use rugen::types::{ExprKind, ItemKind, LitValue, PatternKind, StmtKind};

fn t(s: &str) -> rugen::types::CodeType {
    type_of(s.to_string())
}

#[test]
fn type_constructors_render_repr() {
    assert_eq!(t("i32").repr, "i32");
    assert_eq!(generic_type("Vec".to_string(), vec![t("String")]).repr, "Vec<String>");
    assert_eq!(generic_type("HashMap".to_string(), vec![t("K"), t("V")]).repr, "HashMap<K, V>");
    assert_eq!(generic_type("Empty".to_string(), vec![]).repr, "Empty<>");
    assert_eq!(array_type(t("u8"), 4).repr, "[u8; 4]");
    assert_eq!(array_type(t("u8"), -3).repr, "[u8; -3]");
    assert_eq!(array_type(t("u8"), 0).repr, "[u8; 0]");
    assert_eq!(array_type(t("u8"), i64::MIN).repr, "[u8; -9223372036854775808]");
    assert_eq!(slice_type(t("u8")).repr, "[u8]");
    assert_eq!(optional_type(t("&str")).repr, "Option<&str>");
    assert_eq!(result_type(t("T"), t("E")).repr, "Result<T, E>");
    assert_eq!(tuple_type(vec![]).repr, "()");
    assert_eq!(tuple_type(vec![t("A"), t("B"), t("C")]).repr, "(A, B, C)");
    assert_eq!(ref_type(t("str")).repr, "&str");
    assert_eq!(mut_ref_type(t("Vec<u8>")).repr, "&mut Vec<u8>");
}

#[test]
fn struct_display_and_make_pub() {
    let s = struct_def("Point".to_string(), vec![field("x".to_string(), t("i32")), field_opt("y".to_string(), t("f64"))]);
    assert_eq!(s.display(), "struct Point { x: i32, y: f64 }");
    let s = s.make_pub();
    assert_eq!(s.display(), "pub struct Point { x: i32, y: f64 }");
    let s = s.make_pub();
    assert_eq!(s.display(), "pub struct Point { x: i32, y: f64 }");
    let e = struct_def("E".to_string(), vec![]);
    assert_eq!(e.display(), "struct E {  }");
}

#[test]
fn tuple_struct_display() {
    let s = tuple_struct_def("P".to_string(), vec![field("0".to_string(), t("i32")), field("1".to_string(), t("u8"))]);
    assert_eq!(s.display(), "struct P(i32, u8)");
}

#[test]
fn enum_display() {
    let e = enum_def(
        "Shape".to_string(),
        vec![
            variant("Unit".to_string()),
            variant_tuple("Circle".to_string(), vec![field("r".to_string(), t("f64"))]),
            variant_struct("Rect".to_string(), vec![]),
        ],
    );
    assert_eq!(e.display(), "enum Shape { Unit, Circle, Rect }");
}

#[test]
fn fn_display_async_and_pub() {
    let f = fn_def("add".to_string(), vec![param("a".to_string(), t("i32")), param("b".to_string(), t("i32"))], t("i32"), vec![]);
    assert_eq!(f.display(), "fn add(a: i32, b: i32) -> i32");
    let g = fn_def_void("run".to_string(), vec![], vec![expr_stmt(var("x".to_string()))]).make_async().make_pub();
    assert_eq!(g.display(), "pub async fn run()");
}

#[test]
fn alias_const_use_display() {
    assert_eq!(type_alias("Id".to_string(), t("u64")).display(), "type Id = u64");
    assert_eq!(const_def("N".to_string(), t("usize"), lit_int(3)).make_pub().display(), "pub const N: usize");
    assert_eq!(use_item("std::io".to_string()).display(), "use std::io");
}

#[test]
fn make_async_is_noop_for_non_fn() {
    let u = use_item("a::b".to_string()).make_async();
    assert_eq!(u.display(), "use a::b");
}

#[test]
fn with_derive_appends_and_keeps_display() {
    let s = struct_def("S".to_string(), vec![]);
    let before = s.display();
    let s = s.with_derive("Debug".to_string()).with_derive("Clone".to_string());
    assert_eq!(s.display(), before);
    match &s.kind {
        ItemKind::Struct { derives, .. } => assert_eq!(derives, &vec!["Debug".to_string(), "Clone".to_string()]),
        _ => panic!("not a struct"),
    }
    let s = s.with_derives(vec!["PartialEq".to_string()]).with_derive("Eq".to_string());
    match &s.kind {
        ItemKind::Struct { derives, .. } => assert_eq!(derives, &vec!["PartialEq".to_string(), "Eq".to_string()]),
        _ => panic!("not a struct"),
    }
    let e = enum_def("E".to_string(), vec![]).with_derive("Hash".to_string());
    match &e.kind {
        ItemKind::Enum { derives, .. } => assert_eq!(derives, &vec!["Hash".to_string()]),
        _ => panic!("not an enum"),
    }
}

#[test]
fn with_derive_is_noop_for_other_items() {
    let u = use_item("x".to_string()).with_derive("Debug".to_string()).with_derives(vec!["A".to_string()]);
    match &u.kind {
        ItemKind::Use { path, is_pub } => {
            assert_eq!(path, "x");
            assert!(!is_pub);
        }
        _ => panic!("not a use"),
    }
}

#[test]
fn module_display_pluralizes() {
    assert_eq!(code_module("m".to_string(), vec![]).display(), "module m (0 items)");
    let m = code_module("m".to_string(), vec![]).add_item(use_item("a".to_string()));
    assert_eq!(m.display(), "module m (1 item)");
    let m = m.add_item(use_item("b".to_string()));
    assert_eq!(m.display(), "module m (2 items)");
    assert_eq!(m.items.len(), 2);
}

#[test]
fn literal_constructors() {
    assert!(matches!(lit_int(-5).kind, ExprKind::Lit { value: LitValue::Int { value: -5 } }));
    let bits = 1.5f64.to_bits();
    match lit_float(bits).kind {
        ExprKind::Lit { value: LitValue::Float { bits: b } } => assert_eq!(f64::from_bits(b), 1.5),
        _ => panic!("not a float"),
    }
    assert!(matches!(lit_bool(true).kind, ExprKind::Lit { value: LitValue::Bool { value: true } }));
    assert!(matches!(lit_null().kind, ExprKind::Lit { value: LitValue::Null }));
    match lit_str("s".to_string()).kind {
        ExprKind::Lit { value: LitValue::Str { value } } => assert_eq!(value, "s"),
        _ => panic!("not a string"),
    }
}

#[test]
fn statement_and_pattern_constructors() {
    assert!(matches!(expr_stmt(lit_null()).kind, StmtKind::Expr { .. }));
    let arm = match_arm(pat_wildcard(), lit_int(1));
    assert!(matches!(arm.pattern.kind, PatternKind::Wildcard));
    assert!(arm.guard.is_none());
}

#[test]
fn code_types_clone_deeply() {
    let body = vec![let_stmt("x".to_string(), call("f".to_string(), vec![lit_int(1), var("y".to_string())]))];
    let f = fn_def("g".to_string(), vec![param("y".to_string(), t("i32"))], t("i32"), body);
    let copy = f.clone();
    assert_eq!(copy.display(), f.display());
    match (&copy.kind, &f.kind) {
        (ItemKind::Fn { body: b1, .. }, ItemKind::Fn { body: b2, .. }) => {
            assert_eq!(format!("{:?}", b1), format!("{:?}", b2));
        }
        _ => panic!("not a fn"),
    }
    let e = block_with_trailing(vec![], lit_str("s".to_string()));
    assert_eq!(format!("{:?}", e.clone()), format!("{:?}", e));
    let p = pat_or(vec![pat_var("a".to_string()), pat_wildcard()]);
    assert_eq!(format!("{:?}", p.clone()), format!("{:?}", p));
    let m = code_module("m".to_string(), vec![f]);
    let mc = m.clone();
    assert_eq!(mc.display(), m.display());
    assert_eq!(format!("{:?}", mc), format!("{:?}", m));
}

#[test]
fn module_clone_then_add_item_counts_one() {
    let m = rugen::types::CodeModule { name: "shapes".to_string(), items: vec![] };
    let u = rugen::types::Item {
        kind: ItemKind::Use { path: "std::fmt".to_string(), is_pub: false },
    };
    assert_eq!(m.display(), "module shapes (0 items)");
    assert_eq!(m.clone().add_item(u.clone()).display(), "module shapes (1 item)");
    assert_eq!(m.add_item(u.clone()).add_item(u).display(), "module shapes (2 items)");
}

#[test]
fn leaf_clones_keep_every_field() {
    let f = field_opt("age".to_string(), t("u8"));
    let fc = f.clone();
    assert_eq!((fc.name.as_str(), fc.ty.repr.as_str(), fc.optional), ("age", "u8", true));
    let p = param("x".to_string(), t("&str")).clone();
    assert_eq!((p.name.as_str(), p.ty.repr.as_str()), ("x", "&str"));
    let v = variant_struct("Point".to_string(), vec![field("x".to_string(), t("f64"))]);
    let vc = v.clone();
    assert_eq!(vc.name, "Point");
    assert!(!vc.is_tuple);
    assert_eq!(vc.fields.len(), 1);
    assert_eq!(vc.fields[0].name, "x");
    match lit_str("hi".to_string()).kind {
        ExprKind::Lit { value } => match value.clone() {
            LitValue::Str { value: s } => assert_eq!(s, "hi"),
            other => panic!("unexpected literal {:?}", other),
        },
        _ => panic!("not a literal"),
    }
}
