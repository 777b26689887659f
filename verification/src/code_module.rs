//! The constructors that compiler scripts reach as `code::…`: type references,
//! components, patterns, items, expressions and statements of the code model.
use vstd::prelude::*;

use crate::text::{join, push_signed_decimal, push_str, signed_decimal};
use crate::types::{
    CodeModule, CodeType, Expr, ExprKind, Field, FieldInit, Item, ItemKind, LitValue, MatchArm,
    Param, Pattern, PatternKind, Stmt, StmtKind, Variant,
};

verus! {

pub open spec fn type_reprs(ts: Seq<CodeType>) -> Seq<Seq<char>> {
    ts.map_values(|t: CodeType| t.repr@)
}

/// Appends the representations of `ts` joined by `", "`.
fn push_type_list(out: &mut String, ts: &Vec<CodeType>)
    ensures
        final(out)@ == old(out)@ + join(type_reprs(ts@), ", "@),
{
    let ghost ps = type_reprs(ts@);
    let mut i: usize = 0;
    while i < ts.len()
        invariant
            ps == type_reprs(ts@),
            i <= ts@.len(),
            out@ == old(out)@ + join(ps.take(i as int), ", "@),
        decreases ts@.len() - i,
    {
        if i > 0 {
            push_str(out, ", ");
            proof {
                crate::types::lemma_join_step(ps, ", "@, i as int);
            }
        } else {
            assert(ps.take(1) =~= seq![ps[0]]);
        }
        push_str(out, ts[i].repr.as_str());
        i += 1;
    }
    assert(ps.take(ts@.len() as int) =~= ps);
}

/// Wraps a representation in a prefix and a suffix.
fn wrapped(prefix: &str, inner: &str, suffix: &str) -> (r: CodeType)
    ensures
        r.repr@ == prefix@ + inner@ + suffix@,
{
    let mut s = String::new();
    push_str(&mut s, prefix);
    push_str(&mut s, inner);
    push_str(&mut s, suffix);
    assert(s@ =~= prefix@ + inner@ + suffix@);
    CodeType { repr: s }
}

// ── Type constructors ─────────────────────────────────────────────────────

/// `code::type_of(name)`: the type named `name`.
pub fn type_of(name: String) -> (r: CodeType)
    ensures
        r.repr == name,
{
    CodeType { repr: name }
}

/// `code::generic_type(name, params)`: `name<P1, P2, …>`.
pub fn generic_type(name: String, params: Vec<CodeType>) -> (r: CodeType)
    ensures
        r.repr@ == name@ + "<"@ + join(type_reprs(params@), ", "@) + ">"@,
{
    let mut s = name;
    let ghost n = s@;
    push_str(&mut s, "<");
    push_type_list(&mut s, &params);
    push_str(&mut s, ">");
    assert(s@ =~= n + "<"@ + join(type_reprs(params@), ", "@) + ">"@);
    CodeType { repr: s }
}

/// `code::array_type(inner, size)`: `[inner; size]`.
pub fn array_type(inner: CodeType, size: i64) -> (r: CodeType)
    ensures
        r.repr@ == "["@ + inner.repr@ + "; "@ + signed_decimal(size as int) + "]"@,
{
    let mut s = String::new();
    push_str(&mut s, "[");
    push_str(&mut s, inner.repr.as_str());
    push_str(&mut s, "; ");
    push_signed_decimal(&mut s, size);
    push_str(&mut s, "]");
    assert(s@ =~= "["@ + inner.repr@ + "; "@ + signed_decimal(size as int) + "]"@);
    CodeType { repr: s }
}

/// `code::slice_type(inner)`: `[inner]`.
pub fn slice_type(inner: CodeType) -> (r: CodeType)
    ensures
        r.repr@ == "["@ + inner.repr@ + "]"@,
{
    wrapped("[", inner.repr.as_str(), "]")
}

/// `code::optional_type(inner)`: `Option<inner>`.
pub fn optional_type(inner: CodeType) -> (r: CodeType)
    ensures
        r.repr@ == "Option<"@ + inner.repr@ + ">"@,
{
    wrapped("Option<", inner.repr.as_str(), ">")
}

/// `code::result_type(ok, err)`: `Result<ok, err>`.
pub fn result_type(ok: CodeType, err: CodeType) -> (r: CodeType)
    ensures
        r.repr@ == "Result<"@ + ok.repr@ + ", "@ + err.repr@ + ">"@,
{
    let mut s = String::new();
    push_str(&mut s, "Result<");
    push_str(&mut s, ok.repr.as_str());
    push_str(&mut s, ", ");
    push_str(&mut s, err.repr.as_str());
    push_str(&mut s, ">");
    assert(s@ =~= "Result<"@ + ok.repr@ + ", "@ + err.repr@ + ">"@);
    CodeType { repr: s }
}

/// `code::tuple_type(parts)`: `(P1, P2, …)`.
pub fn tuple_type(parts: Vec<CodeType>) -> (r: CodeType)
    ensures
        r.repr@ == "("@ + join(type_reprs(parts@), ", "@) + ")"@,
{
    let mut s = String::new();
    push_str(&mut s, "(");
    push_type_list(&mut s, &parts);
    push_str(&mut s, ")");
    assert(s@ =~= "("@ + join(type_reprs(parts@), ", "@) + ")"@);
    CodeType { repr: s }
}

/// `code::ref_type(inner)`: `&inner`.
pub fn ref_type(inner: CodeType) -> (r: CodeType)
    ensures
        r.repr@ == "&"@ + inner.repr@,
{
    let mut s = String::new();
    push_str(&mut s, "&");
    push_str(&mut s, inner.repr.as_str());
    CodeType { repr: s }
}

/// `code::mut_ref_type(inner)`: `&mut inner`.
pub fn mut_ref_type(inner: CodeType) -> (r: CodeType)
    ensures
        r.repr@ == "&mut "@ + inner.repr@,
{
    let mut s = String::new();
    push_str(&mut s, "&mut ");
    push_str(&mut s, inner.repr.as_str());
    CodeType { repr: s }
}

// ── Component constructors ────────────────────────────────────────────────

/// `code::field(name, ty)`: a required field.
pub fn field(name: String, ty: CodeType) -> (r: Field)
    ensures
        r == (Field { name, ty, optional: false }),
{
    Field { name, ty, optional: false }
}

/// `code::field_opt(name, ty)`: an optional field.
pub fn field_opt(name: String, ty: CodeType) -> (r: Field)
    ensures
        r == (Field { name, ty, optional: true }),
{
    Field { name, ty, optional: true }
}

/// `code::param(name, ty)`.
pub fn param(name: String, ty: CodeType) -> (r: Param)
    ensures
        r == (Param { name, ty }),
{
    Param { name, ty }
}

/// `code::variant(name)`: a unit variant.
pub fn variant(name: String) -> (r: Variant)
    ensures
        r.name == name,
        r.fields@.len() == 0,
        !r.is_tuple,
{
    Variant { name, fields: Vec::new(), is_tuple: false }
}

/// `code::variant_tuple(name, fields)`: a tuple variant.
pub fn variant_tuple(name: String, fields: Vec<Field>) -> (r: Variant)
    ensures
        r == (Variant { name, fields, is_tuple: true }),
{
    Variant { name, fields, is_tuple: true }
}

/// `code::variant_struct(name, fields)`: a struct variant.
pub fn variant_struct(name: String, fields: Vec<Field>) -> (r: Variant)
    ensures
        r == (Variant { name, fields, is_tuple: false }),
{
    Variant { name, fields, is_tuple: false }
}

/// `code::field_init(name, value)`: `name: value` in a struct expression.
pub fn field_init(name: String, value: Expr) -> (r: FieldInit)
    ensures
        r == (FieldInit { name, value }),
{
    FieldInit { name, value }
}

// ── Pattern constructors ──────────────────────────────────────────────────

/// `code::pat_wildcard()`: `_`.
pub fn pat_wildcard() -> (r: Pattern)
    ensures
        r.kind == PatternKind::Wildcard,
{
    Pattern { kind: PatternKind::Wildcard }
}

/// `code::pat_var(name)`: a binding.
pub fn pat_var(name: String) -> (r: Pattern)
    ensures
        r.kind == (PatternKind::Variable { name }),
{
    Pattern { kind: PatternKind::Variable { name } }
}

/// `code::pat_lit_int(n)`.
pub fn pat_lit_int(n: i128) -> (r: Pattern)
    ensures
        r.kind == (PatternKind::Literal { value: LitValue::Int { value: n } }),
{
    Pattern { kind: PatternKind::Literal { value: LitValue::Int { value: n } } }
}

/// `code::pat_lit_str(s)`.
pub fn pat_lit_str(s: String) -> (r: Pattern)
    ensures
        r.kind == (PatternKind::Literal { value: LitValue::Str { value: s } }),
{
    Pattern { kind: PatternKind::Literal { value: LitValue::Str { value: s } } }
}

/// `code::pat_lit_bool(b)`.
pub fn pat_lit_bool(b: bool) -> (r: Pattern)
    ensures
        r.kind == (PatternKind::Literal { value: LitValue::Bool { value: b } }),
{
    Pattern { kind: PatternKind::Literal { value: LitValue::Bool { value: b } } }
}

/// `code::pat_enum(path, bindings)`: e.g. `Some(x)`.
pub fn pat_enum(path: String, bindings: Vec<String>) -> (r: Pattern)
    ensures
        r.kind == (PatternKind::EnumTuple { path, bindings }),
{
    Pattern { kind: PatternKind::EnumTuple { path, bindings } }
}

/// `code::pat_or(alternatives)`.
pub fn pat_or(alternatives: Vec<Pattern>) -> (r: Pattern)
    ensures
        r.kind == (PatternKind::Or { alternatives }),
{
    Pattern { kind: PatternKind::Or { alternatives } }
}

/// `code::pat_tuple(elements)`.
pub fn pat_tuple(elements: Vec<Pattern>) -> (r: Pattern)
    ensures
        r.kind == (PatternKind::Tuple { elements }),
{
    Pattern { kind: PatternKind::Tuple { elements } }
}

/// `code::pat_ref(inner)`: `&inner`.
pub fn pat_ref(inner: Pattern) -> (r: Pattern)
    ensures
        r.kind == (PatternKind::Ref { inner: Box::new(inner) }),
{
    Pattern { kind: PatternKind::Ref { inner: Box::new(inner) } }
}

/// `code::match_arm(pattern, body)`: an arm without a guard.
pub fn match_arm(pattern: Pattern, body: Expr) -> (r: MatchArm)
    ensures
        r == (MatchArm { pattern, guard: None, body }),
{
    MatchArm { pattern, guard: None, body }
}

/// `code::guarded_arm(pattern, guard, body)`: `pattern if guard => body`.
pub fn guarded_arm(pattern: Pattern, guard: Expr, body: Expr) -> (r: MatchArm)
    ensures
        r == (MatchArm { pattern, guard: Some(guard), body }),
{
    MatchArm { pattern, guard: Some(guard), body }
}

// ── Item constructors ─────────────────────────────────────────────────────

/// `code::struct_def(name, fields)`: a private struct with named fields and no derives.
pub fn struct_def(name: String, fields: Vec<Field>) -> (r: Item)
    ensures
        r.kind matches ItemKind::Struct { name: n, fields: f, derives: d, is_pub: p, is_tuple: t }
            && n == name && f == fields && d@.len() == 0 && !p && !t,
{
    Item { kind: ItemKind::Struct { name, fields, derives: Vec::new(), is_pub: false, is_tuple: false } }
}

/// `code::tuple_struct_def(name, fields)`: a private tuple struct with no derives.
pub fn tuple_struct_def(name: String, fields: Vec<Field>) -> (r: Item)
    ensures
        r.kind matches ItemKind::Struct { name: n, fields: f, derives: d, is_pub: p, is_tuple: t }
            && n == name && f == fields && d@.len() == 0 && !p && t,
{
    Item { kind: ItemKind::Struct { name, fields, derives: Vec::new(), is_pub: false, is_tuple: true } }
}

/// `code::enum_def(name, variants)`: a private enum with no derives.
pub fn enum_def(name: String, variants: Vec<Variant>) -> (r: Item)
    ensures
        r.kind matches ItemKind::Enum { name: n, variants: v, derives: d, is_pub: p } && n == name
            && v == variants && d@.len() == 0 && !p,
{
    Item { kind: ItemKind::Enum { name, variants, derives: Vec::new(), is_pub: false } }
}

/// `code::fn_def(name, params, return_type, body)`: a private, non-async function
/// with an explicit return type.
pub fn fn_def(name: String, params: Vec<Param>, return_type: CodeType, body: Vec<Stmt>) -> (r: Item)
    ensures
        r.kind == (ItemKind::Fn {
            name,
            params,
            return_type: Some(return_type),
            body,
            is_async: false,
            is_pub: false,
        }),
{
    Item {
        kind: ItemKind::Fn {
            name,
            params,
            return_type: Some(return_type),
            body,
            is_async: false,
            is_pub: false,
        },
    }
}

/// `code::fn_def_void(name, params, body)`: a private, non-async function that returns
/// nothing.
pub fn fn_def_void(name: String, params: Vec<Param>, body: Vec<Stmt>) -> (r: Item)
    ensures
        r.kind == (ItemKind::Fn {
            name,
            params,
            return_type: None,
            body,
            is_async: false,
            is_pub: false,
        }),
{
    Item {
        kind: ItemKind::Fn { name, params, return_type: None, body, is_async: false, is_pub: false },
    }
}

/// `code::type_alias(name, ty)`.
pub fn type_alias(name: String, ty: CodeType) -> (r: Item)
    ensures
        r.kind == (ItemKind::TypeAlias { name, ty, is_pub: false }),
{
    Item { kind: ItemKind::TypeAlias { name, ty, is_pub: false } }
}

/// `code::const_def(name, ty, value)`.
pub fn const_def(name: String, ty: CodeType, value: Expr) -> (r: Item)
    ensures
        r.kind == (ItemKind::Const { name, ty, value, is_pub: false }),
{
    Item { kind: ItemKind::Const { name, ty, value, is_pub: false } }
}

/// `code::use_item(path)`.
pub fn use_item(path: String) -> (r: Item)
    ensures
        r.kind == (ItemKind::Use { path, is_pub: false }),
{
    Item { kind: ItemKind::Use { path, is_pub: false } }
}

/// `code::code_module(name, items)`.
pub fn code_module(name: String, items: Vec<Item>) -> (r: CodeModule)
    ensures
        r == (CodeModule { name, items }),
{
    CodeModule { name, items }
}

// ── Expression constructors ───────────────────────────────────────────────

/// `code::lit_int(n)`.
pub fn lit_int(n: i128) -> (r: Expr)
    ensures
        r.kind == (ExprKind::Lit { value: LitValue::Int { value: n } }),
{
    Expr { kind: ExprKind::Lit { value: LitValue::Int { value: n } } }
}

/// `code::lit_float(n)`, given the IEEE-754 bit pattern of `n`.
pub fn lit_float(bits: u64) -> (r: Expr)
    ensures
        r.kind == (ExprKind::Lit { value: LitValue::Float { bits } }),
{
    Expr { kind: ExprKind::Lit { value: LitValue::Float { bits } } }
}

/// `code::lit_str(s)`.
pub fn lit_str(s: String) -> (r: Expr)
    ensures
        r.kind == (ExprKind::Lit { value: LitValue::Str { value: s } }),
{
    Expr { kind: ExprKind::Lit { value: LitValue::Str { value: s } } }
}

/// `code::lit_bool(b)`.
pub fn lit_bool(b: bool) -> (r: Expr)
    ensures
        r.kind == (ExprKind::Lit { value: LitValue::Bool { value: b } }),
{
    Expr { kind: ExprKind::Lit { value: LitValue::Bool { value: b } } }
}

/// `code::lit_null()`.
pub fn lit_null() -> (r: Expr)
    ensures
        r.kind == (ExprKind::Lit { value: LitValue::Null }),
{
    Expr { kind: ExprKind::Lit { value: LitValue::Null } }
}

/// `code::var(name)`.
pub fn var(name: String) -> (r: Expr)
    ensures
        r.kind == (ExprKind::Var { name }),
{
    Expr { kind: ExprKind::Var { name } }
}

/// `code::call(func, args)`.
pub fn call(func: String, args: Vec<Expr>) -> (r: Expr)
    ensures
        r.kind == (ExprKind::Call { func, args }),
{
    Expr { kind: ExprKind::Call { func, args } }
}

/// `code::method_call(receiver, method, args)`.
pub fn method_call(receiver: Expr, method: String, args: Vec<Expr>) -> (r: Expr)
    ensures
        r.kind == (ExprKind::MethodCall { receiver: Box::new(receiver), method, args }),
{
    Expr { kind: ExprKind::MethodCall { receiver: Box::new(receiver), method, args } }
}

/// `code::bin_op(op, lhs, rhs)`.
pub fn bin_op(op: String, lhs: Expr, rhs: Expr) -> (r: Expr)
    ensures
        r.kind == (ExprKind::BinOp { op, lhs: Box::new(lhs), rhs: Box::new(rhs) }),
{
    Expr { kind: ExprKind::BinOp { op, lhs: Box::new(lhs), rhs: Box::new(rhs) } }
}

/// `code::un_op(op, operand)`.
pub fn un_op(op: String, operand: Expr) -> (r: Expr)
    ensures
        r.kind == (ExprKind::UnOp { op, operand: Box::new(operand) }),
{
    Expr { kind: ExprKind::UnOp { op, operand: Box::new(operand) } }
}

/// `code::block_expr(stmts)`: a block without a trailing expression.
pub fn block_expr(stmts: Vec<Stmt>) -> (r: Expr)
    ensures
        r.kind == (ExprKind::Block { stmts, trailing: None }),
{
    Expr { kind: ExprKind::Block { stmts, trailing: None } }
}

/// `code::block_with_trailing(stmts, trailing)`.
pub fn block_with_trailing(stmts: Vec<Stmt>, trailing: Expr) -> (r: Expr)
    ensures
        r.kind == (ExprKind::Block { stmts, trailing: Some(Box::new(trailing)) }),
{
    Expr { kind: ExprKind::Block { stmts, trailing: Some(Box::new(trailing)) } }
}

/// `code::if_expr(cond, then_branch)`.
pub fn if_expr(cond: Expr, then_branch: Expr) -> (r: Expr)
    ensures
        r.kind == (ExprKind::If {
            cond: Box::new(cond),
            then_branch: Box::new(then_branch),
            else_branch: None,
        }),
{
    Expr {
        kind: ExprKind::If { cond: Box::new(cond), then_branch: Box::new(then_branch), else_branch: None },
    }
}

/// `code::if_else_expr(cond, then_branch, else_branch)`.
pub fn if_else_expr(cond: Expr, then_branch: Expr, else_branch: Expr) -> (r: Expr)
    ensures
        r.kind == (ExprKind::If {
            cond: Box::new(cond),
            then_branch: Box::new(then_branch),
            else_branch: Some(Box::new(else_branch)),
        }),
{
    Expr {
        kind: ExprKind::If {
            cond: Box::new(cond),
            then_branch: Box::new(then_branch),
            else_branch: Some(Box::new(else_branch)),
        },
    }
}

/// `code::match_expr(scrutinee, arms)`.
pub fn match_expr(scrutinee: Expr, arms: Vec<MatchArm>) -> (r: Expr)
    ensures
        r.kind == (ExprKind::Match { scrutinee: Box::new(scrutinee), arms }),
{
    Expr { kind: ExprKind::Match { scrutinee: Box::new(scrutinee), arms } }
}

/// `code::loop_expr(body)`.
pub fn loop_expr(body: Vec<Stmt>) -> (r: Expr)
    ensures
        r.kind == (ExprKind::Loop { body }),
{
    Expr { kind: ExprKind::Loop { body } }
}

/// `code::array_expr(elements)`.
pub fn array_expr(elements: Vec<Expr>) -> (r: Expr)
    ensures
        r.kind == (ExprKind::Array { elements }),
{
    Expr { kind: ExprKind::Array { elements } }
}

/// `code::tuple_expr(elements)`.
pub fn tuple_expr(elements: Vec<Expr>) -> (r: Expr)
    ensures
        r.kind == (ExprKind::Tuple { elements }),
{
    Expr { kind: ExprKind::Tuple { elements } }
}

/// `code::assign(target, value)`.
pub fn assign(target: Expr, value: Expr) -> (r: Expr)
    ensures
        r.kind == (ExprKind::Assign { target: Box::new(target), value: Box::new(value) }),
{
    Expr { kind: ExprKind::Assign { target: Box::new(target), value: Box::new(value) } }
}

/// `code::field_access(expr, field)`.
pub fn field_access(expr: Expr, field: String) -> (r: Expr)
    ensures
        r.kind == (ExprKind::FieldAccess { inner: Box::new(expr), field }),
{
    Expr { kind: ExprKind::FieldAccess { inner: Box::new(expr), field } }
}

/// `code::index_expr(expr, index)`.
pub fn index_expr(expr: Expr, index: Expr) -> (r: Expr)
    ensures
        r.kind == (ExprKind::Index { inner: Box::new(expr), index: Box::new(index) }),
{
    Expr { kind: ExprKind::Index { inner: Box::new(expr), index: Box::new(index) } }
}

/// `code::struct_expr(name, fields)`.
pub fn struct_expr(name: String, fields: Vec<FieldInit>) -> (r: Expr)
    ensures
        r.kind == (ExprKind::StructExpr { name, fields }),
{
    Expr { kind: ExprKind::StructExpr { name, fields } }
}

/// `code::closure(params, body)`.
pub fn closure(params: Vec<Param>, body: Expr) -> (r: Expr)
    ensures
        r.kind == (ExprKind::Closure { params, body: Box::new(body) }),
{
    Expr { kind: ExprKind::Closure { params, body: Box::new(body) } }
}

/// `code::return_expr(value)`.
pub fn return_expr(value: Expr) -> (r: Expr)
    ensures
        r.kind == (ExprKind::Return { value: Some(Box::new(value)) }),
{
    Expr { kind: ExprKind::Return { value: Some(Box::new(value)) } }
}

/// `code::return_unit()`.
pub fn return_unit() -> (r: Expr)
    ensures
        r.kind == (ExprKind::Return { value: None }),
{
    Expr { kind: ExprKind::Return { value: None } }
}

/// `code::break_expr()`.
pub fn break_expr() -> (r: Expr)
    ensures
        r.kind == (ExprKind::Break { value: None }),
{
    Expr { kind: ExprKind::Break { value: None } }
}

/// `code::break_with(value)`.
pub fn break_with(value: Expr) -> (r: Expr)
    ensures
        r.kind == (ExprKind::Break { value: Some(Box::new(value)) }),
{
    Expr { kind: ExprKind::Break { value: Some(Box::new(value)) } }
}

/// `code::continue_expr()`.
pub fn continue_expr() -> (r: Expr)
    ensures
        r.kind == ExprKind::Continue,
{
    Expr { kind: ExprKind::Continue }
}

/// `code::cast(expr, ty)`.
pub fn cast(expr: Expr, ty: CodeType) -> (r: Expr)
    ensures
        r.kind == (ExprKind::Cast { inner: Box::new(expr), ty }),
{
    Expr { kind: ExprKind::Cast { inner: Box::new(expr), ty } }
}

/// `code::range(start, end)`: `start..end`.
pub fn range(start: Expr, end: Expr) -> (r: Expr)
    ensures
        r.kind == (ExprKind::Range {
            start: Some(Box::new(start)),
            end: Some(Box::new(end)),
            inclusive: false,
        }),
{
    Expr {
        kind: ExprKind::Range { start: Some(Box::new(start)), end: Some(Box::new(end)), inclusive: false },
    }
}

/// `code::range_inclusive(start, end)`: `start..=end`.
pub fn range_inclusive(start: Expr, end: Expr) -> (r: Expr)
    ensures
        r.kind == (ExprKind::Range {
            start: Some(Box::new(start)),
            end: Some(Box::new(end)),
            inclusive: true,
        }),
{
    Expr {
        kind: ExprKind::Range { start: Some(Box::new(start)), end: Some(Box::new(end)), inclusive: true },
    }
}

/// `code::await_expr(expr)`.
pub fn await_expr(expr: Expr) -> (r: Expr)
    ensures
        r.kind == (ExprKind::Await { inner: Box::new(expr) }),
{
    Expr { kind: ExprKind::Await { inner: Box::new(expr) } }
}

// ── Statement constructors ────────────────────────────────────────────────

/// `code::expr_stmt(expr)`.
pub fn expr_stmt(expr: Expr) -> (r: Stmt)
    ensures
        r.kind == (StmtKind::Expr { expr }),
{
    Stmt { kind: StmtKind::Expr { expr } }
}

/// `code::let_stmt(name, value)`: `let name = value;`.
pub fn let_stmt(name: String, value: Expr) -> (r: Stmt)
    ensures
        r.kind == (StmtKind::Let { name, ty: None, mutable: false, value }),
{
    Stmt { kind: StmtKind::Let { name, ty: None, mutable: false, value } }
}

/// `code::let_mut_stmt(name, value)`: `let mut name = value;`.
pub fn let_mut_stmt(name: String, value: Expr) -> (r: Stmt)
    ensures
        r.kind == (StmtKind::Let { name, ty: None, mutable: true, value }),
{
    Stmt { kind: StmtKind::Let { name, ty: None, mutable: true, value } }
}

/// `code::let_typed(name, ty, value)`: `let name: ty = value;`.
pub fn let_typed(name: String, ty: CodeType, value: Expr) -> (r: Stmt)
    ensures
        r.kind == (StmtKind::Let { name, ty: Some(ty), mutable: false, value }),
{
    Stmt { kind: StmtKind::Let { name, ty: Some(ty), mutable: false, value } }
}

/// `code::let_typed_mut(name, ty, value)`: `let mut name: ty = value;`.
pub fn let_typed_mut(name: String, ty: CodeType, value: Expr) -> (r: Stmt)
    ensures
        r.kind == (StmtKind::Let { name, ty: Some(ty), mutable: true, value }),
{
    Stmt { kind: StmtKind::Let { name, ty: Some(ty), mutable: true, value } }
}

/// `code::let_destructure(pattern, value)`: `let pattern = value;`.
pub fn let_destructure(pattern: Pattern, value: Expr) -> (r: Stmt)
    ensures
        r.kind == (StmtKind::LetDestructure { pattern, value }),
{
    Stmt { kind: StmtKind::LetDestructure { pattern, value } }
}

/// `code::return_stmt(value)`.
pub fn return_stmt(value: Expr) -> (r: Stmt)
    ensures
        r.kind == (StmtKind::Return { value: Some(value) }),
{
    Stmt { kind: StmtKind::Return { value: Some(value) } }
}

/// `code::return_unit_stmt()`.
pub fn return_unit_stmt() -> (r: Stmt)
    ensures
        r.kind == (StmtKind::Return { value: None }),
{
    Stmt { kind: StmtKind::Return { value: None } }
}

/// `code::if_stmt(cond, then_branch)`.
pub fn if_stmt(cond: Expr, then_branch: Vec<Stmt>) -> (r: Stmt)
    ensures
        r.kind == (StmtKind::If { cond, then_branch, else_branch: None }),
{
    Stmt { kind: StmtKind::If { cond, then_branch, else_branch: None } }
}

/// `code::if_else_stmt(cond, then_branch, else_branch)`.
pub fn if_else_stmt(cond: Expr, then_branch: Vec<Stmt>, else_branch: Vec<Stmt>) -> (r: Stmt)
    ensures
        r.kind == (StmtKind::If { cond, then_branch, else_branch: Some(else_branch) }),
{
    Stmt { kind: StmtKind::If { cond, then_branch, else_branch: Some(else_branch) } }
}

/// `code::while_stmt(cond, body)`.
pub fn while_stmt(cond: Expr, body: Vec<Stmt>) -> (r: Stmt)
    ensures
        r.kind == (StmtKind::While { cond, body }),
{
    Stmt { kind: StmtKind::While { cond, body } }
}

/// `code::loop_stmt(body)`.
pub fn loop_stmt(body: Vec<Stmt>) -> (r: Stmt)
    ensures
        r.kind == (StmtKind::Loop { body }),
{
    Stmt { kind: StmtKind::Loop { body } }
}

/// `code::for_stmt(var, iter, body)`.
pub fn for_stmt(var: String, iter: Expr, body: Vec<Stmt>) -> (r: Stmt)
    ensures
        r.kind == (StmtKind::For { var, iter, body }),
{
    Stmt { kind: StmtKind::For { var, iter, body } }
}

/// `code::match_stmt(scrutinee, arms)`.
pub fn match_stmt(scrutinee: Expr, arms: Vec<MatchArm>) -> (r: Stmt)
    ensures
        r.kind == (StmtKind::Match { scrutinee, arms }),
{
    Stmt { kind: StmtKind::Match { scrutinee, arms } }
}

/// `code::break_stmt()`.
pub fn break_stmt() -> (r: Stmt)
    ensures
        r.kind == (StmtKind::Break { value: None }),
{
    Stmt { kind: StmtKind::Break { value: None } }
}

/// `code::break_with_stmt(value)`.
pub fn break_with_stmt(value: Expr) -> (r: Stmt)
    ensures
        r.kind == (StmtKind::Break { value: Some(value) }),
{
    Stmt { kind: StmtKind::Break { value: Some(value) } }
}

/// `code::continue_stmt()`.
pub fn continue_stmt() -> (r: Stmt)
    ensures
        r.kind == StmtKind::Continue,
{
    Stmt { kind: StmtKind::Continue }
}

} // verus!
