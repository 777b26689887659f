//! A model of Rust-like code: type references, fields, parameters, variants,
//! patterns, expressions, statements, top-level items and modules.
use vstd::prelude::*;

use crate::code_view::{
    arms_view, exprs_view, field_inits_view, fields_view, items_view, opt_box_expr_view,
    opt_expr_view, params_view, pattern_fields_view, patterns_view, stmts_view, strings_view,
    variant_view, variants_view,
};
use crate::text::{decimal, join, push_decimal, push_str};

verus! {

// ─── LitValue ─────────────────────────────────────────────────────────────────
/// A literal value. A floating-point literal is held as its IEEE-754 bit pattern.
#[derive(Debug)]
#[allow(inconsistent_fields)]
pub enum LitValue {
    Int { value: i128 },
    Float { bits: u64 },
    Bool { value: bool },
    Str { value: String },
    Null,
}

// ─── CodeType ─────────────────────────────────────────────────────────────────
/// A type reference — e.g. `"i32"`, `"Vec<String>"`, `"Option<&str>"`.
#[derive(Debug)]
pub struct CodeType {
    pub repr: String,
}

// ─── Field ────────────────────────────────────────────────────────────────────
/// A named field in a struct or enum variant.
#[derive(Debug)]
pub struct Field {
    pub name: String,
    pub ty: CodeType,
    pub optional: bool,
}

// ─── Param ────────────────────────────────────────────────────────────────────
/// A function parameter (`name: ty`).
#[derive(Debug)]
pub struct Param {
    pub name: String,
    pub ty: CodeType,
}

// ─── Variant ──────────────────────────────────────────────────────────────────
/// An enum variant — unit, tuple, or struct form.
#[derive(Debug)]
pub struct Variant {
    pub name: String,
    /// Fields present for tuple/struct variants; empty for unit variants.
    pub fields: Vec<Field>,
    /// `true` → tuple variant, `false` → unit or struct variant.
    pub is_tuple: bool,
}

// ─── PatternKind ──────────────────────────────────────────────────────────────
/// The actual shape of a [`Pattern`].
#[derive(Debug)]
#[allow(inconsistent_fields)]
pub enum PatternKind {
    Wildcard,
    Literal { value: LitValue },
    Variable { name: String },
    /// e.g. `Some(x)`, `Circle(r, theta)`
    EnumTuple { path: String, bindings: Vec<String> },
    /// e.g. `Point { x, y }`
    EnumStruct { path: String, fields: Vec<PatternField> },
    Tuple { elements: Vec<Pattern> },
    Struct { name: String, fields: Vec<PatternField> },
    Or { alternatives: Vec<Pattern> },
    Ref { inner: Box<Pattern> },
}

// ─── PatternField ─────────────────────────────────────────────────────────────
/// A `name: pattern` binding inside a struct or enum-struct pattern.
#[derive(Debug)]
pub struct PatternField {
    pub name: String,
    pub pattern: Pattern,
}

// ─── Pattern ──────────────────────────────────────────────────────────────────
/// A match pattern.
#[derive(Debug)]
pub struct Pattern {
    pub kind: PatternKind,
}

// ─── MatchArm ─────────────────────────────────────────────────────────────────
/// One arm of a `match` expression.
#[derive(Debug)]
pub struct MatchArm {
    pub pattern: Pattern,
    pub guard: Option<Expr>,
    pub body: Expr,
}

// ─── ExprKind ─────────────────────────────────────────────────────────────────
/// The actual shape of an [`Expr`].
#[derive(Debug)]
#[allow(inconsistent_fields)]
pub enum ExprKind {
    Lit { value: LitValue },
    Var { name: String },
    Call { func: String, args: Vec<Expr> },
    MethodCall { receiver: Box<Expr>, method: String, args: Vec<Expr> },
    BinOp { op: String, lhs: Box<Expr>, rhs: Box<Expr> },
    UnOp { op: String, operand: Box<Expr> },
    Block { stmts: Vec<Stmt>, trailing: Option<Box<Expr>> },
    If { cond: Box<Expr>, then_branch: Box<Expr>, else_branch: Option<Box<Expr>> },
    Match { scrutinee: Box<Expr>, arms: Vec<MatchArm> },
    Loop { body: Vec<Stmt> },
    Array { elements: Vec<Expr> },
    Tuple { elements: Vec<Expr> },
    Assign { target: Box<Expr>, value: Box<Expr> },
    FieldAccess { inner: Box<Expr>, field: String },
    Index { inner: Box<Expr>, index: Box<Expr> },
    StructExpr { name: String, fields: Vec<FieldInit> },
    Closure { params: Vec<Param>, body: Box<Expr> },
    Return { value: Option<Box<Expr>> },
    Break { value: Option<Box<Expr>> },
    Continue,
    Cast { inner: Box<Expr>, ty: CodeType },
    Range { start: Option<Box<Expr>>, end: Option<Box<Expr>>, inclusive: bool },
    Await { inner: Box<Expr> },
}

// ─── FieldInit ────────────────────────────────────────────────────────────────
/// A field initializer in a struct expression — `name: value`.
#[derive(Debug)]
pub struct FieldInit {
    pub name: String,
    pub value: Expr,
}

// ─── Expr ─────────────────────────────────────────────────────────────────────
/// An expression node.
#[derive(Debug)]
pub struct Expr {
    pub kind: ExprKind,
}

// ─── StmtKind ─────────────────────────────────────────────────────────────────
/// The actual shape of a [`Stmt`].
#[derive(Debug)]
#[allow(inconsistent_fields)]
pub enum StmtKind {
    Expr { expr: Expr },
    Let { name: String, ty: Option<CodeType>, mutable: bool, value: Expr },
    LetDestructure { pattern: Pattern, value: Expr },
    Return { value: Option<Expr> },
    If { cond: Expr, then_branch: Vec<Stmt>, else_branch: Option<Vec<Stmt>> },
    While { cond: Expr, body: Vec<Stmt> },
    Loop { body: Vec<Stmt> },
    For { var: String, iter: Expr, body: Vec<Stmt> },
    Match { scrutinee: Expr, arms: Vec<MatchArm> },
    Break { value: Option<Expr> },
    Continue,
}

// ─── Stmt ─────────────────────────────────────────────────────────────────────
/// A statement node.
#[derive(Debug)]
pub struct Stmt {
    pub kind: StmtKind,
}

// ─── ItemKind ─────────────────────────────────────────────────────────────────
/// The actual shape of an [`Item`].
#[derive(Debug)]
#[allow(inconsistent_fields)]
pub enum ItemKind {
    Struct { name: String, fields: Vec<Field>, derives: Vec<String>, is_pub: bool, is_tuple: bool },
    Enum { name: String, variants: Vec<Variant>, derives: Vec<String>, is_pub: bool },
    Fn {
        name: String,
        params: Vec<Param>,
        return_type: Option<CodeType>,
        body: Vec<Stmt>,
        is_async: bool,
        is_pub: bool,
    },
    TypeAlias { name: String, ty: CodeType, is_pub: bool },
    Const { name: String, ty: CodeType, value: Expr, is_pub: bool },
    Use { path: String, is_pub: bool },
}

// ─── Item ─────────────────────────────────────────────────────────────────────
/// A top-level item — struct, enum, fn, type alias, const, or use declaration.
#[derive(Debug)]
pub struct Item {
    pub kind: ItemKind,
}

// ─── CodeModule ───────────────────────────────────────────────────────────────
/// A named collection of top-level items representing a whole code module.
#[derive(Debug)]
pub struct CodeModule {
    pub name: String,
    pub items: Vec<Item>,
}

// ─── Copies ───────────────────────────────────────────────────────────────────
// `Clone` for the code model: a copy has the same value as the original. The leaf
// types are copied field by field; the recursive ones through the `copy_*` functions,
// which recurse into the sub-patterns, sub-expressions and sub-statements. The
// recursive types are compared by their views (see `code_view`), which read each
// `String` and `Vec` as a sequence.

impl Clone for LitValue {
    fn clone(&self) -> (r: Self)
        ensures
            r == *self,
    {
        match self {
            LitValue::Int { value } => LitValue::Int { value: *value },
            LitValue::Float { bits } => LitValue::Float { bits: *bits },
            LitValue::Bool { value } => LitValue::Bool { value: *value },
            LitValue::Str { value } => LitValue::Str { value: value.clone() },
            LitValue::Null => LitValue::Null,
        }
    }
}

impl Clone for CodeType {
    fn clone(&self) -> (r: Self)
        ensures
            r == *self,
    {
        CodeType { repr: self.repr.clone() }
    }
}

impl Clone for Field {
    fn clone(&self) -> (r: Self)
        ensures
            r == *self,
    {
        Field { name: self.name.clone(), ty: self.ty.clone(), optional: self.optional }
    }
}

impl Clone for Param {
    fn clone(&self) -> (r: Self)
        ensures
            r == *self,
    {
        Param { name: self.name.clone(), ty: self.ty.clone() }
    }
}

impl Clone for Variant {
    fn clone(&self) -> (r: Self)
        ensures
            r@ == self@,
            r.name == self.name,
            r.fields@ == self.fields@,
            r.is_tuple == self.is_tuple,
    {
        let fields = self.fields.clone();
        assert(fields@ =~= self.fields@);
        assert(fields_view(fields) =~= fields_view(self.fields));
        Variant { name: self.name.clone(), fields, is_tuple: self.is_tuple }
    }
}

fn copy_strings(v: &Vec<String>) -> (r: Vec<String>)
    ensures
        strings_view(r) == strings_view(*v),
{
    let r = v.clone();
    assert(r@ =~= v@);
    assert(strings_view(r) =~= strings_view(*v));
    r
}

fn copy_fields(v: &Vec<Field>) -> (r: Vec<Field>)
    ensures
        fields_view(r) == fields_view(*v),
{
    let r = v.clone();
    assert(r@ =~= v@);
    assert(fields_view(r) =~= fields_view(*v));
    r
}

fn copy_params(v: &Vec<Param>) -> (r: Vec<Param>)
    ensures
        params_view(r) == params_view(*v),
{
    let r = v.clone();
    assert(r@ =~= v@);
    assert(params_view(r) =~= params_view(*v));
    r
}

fn copy_variants(v: &Vec<Variant>) -> (r: Vec<Variant>)
    ensures
        variants_view(r) == variants_view(*v),
{
    let r = v.clone();
    assert forall|i: int| 0 <= i < r@.len() implies variant_view(#[trigger] r@[i]) == variant_view(
        v@[i],
    ) by {
        assert(cloned::<Variant>(v[i], r[i]));
    }
    assert(variants_view(r) =~= variants_view(*v));
    r
}

fn copy_opt_type(o: &Option<CodeType>) -> (r: Option<CodeType>)
    ensures
        r == *o,
{
    match o {
        Some(t) => Some(t.clone()),
        None => None,
    }
}

fn copy_patterns(v: &Vec<Pattern>) -> (r: Vec<Pattern>)
    ensures
        patterns_view(r) == patterns_view(*v),
    decreases v,
{
    let mut r: Vec<Pattern> = Vec::new();
    let mut i: usize = 0;
    while i < v.len()
        invariant
            i <= v@.len(),
            r@.len() == i,
            forall|j: int| 0 <= j < i ==> (#[trigger] r@[j])@ == v@[j]@,
        decreases v.len() - i,
    {
        r.push(copy_pattern(&v[i]));
        i += 1;
    }
    assert(patterns_view(r) =~= patterns_view(*v));
    r
}

fn copy_pattern_fields(v: &Vec<PatternField>) -> (r: Vec<PatternField>)
    ensures
        pattern_fields_view(r) == pattern_fields_view(*v),
    decreases v,
{
    let mut r: Vec<PatternField> = Vec::new();
    let mut i: usize = 0;
    while i < v.len()
        invariant
            i <= v@.len(),
            r@.len() == i,
            forall|j: int| 0 <= j < i ==> (#[trigger] r@[j])@ == v@[j]@,
        decreases v.len() - i,
    {
        r.push(PatternField { name: v[i].name.clone(), pattern: copy_pattern(&v[i].pattern) });
        i += 1;
    }
    assert(pattern_fields_view(r) =~= pattern_fields_view(*v));
    r
}

fn copy_pattern(p: &Pattern) -> (r: Pattern)
    ensures
        r@ == p@,
    decreases p,
{
    Pattern { kind: copy_pattern_kind(&p.kind) }
}

fn copy_pattern_kind(k: &PatternKind) -> (r: PatternKind)
    ensures
        r@ == k@,
    decreases k,
{
    match k {
        PatternKind::Wildcard => PatternKind::Wildcard,
        PatternKind::Literal { value } => PatternKind::Literal { value: value.clone() },
        PatternKind::Variable { name } => PatternKind::Variable { name: name.clone() },
        PatternKind::EnumTuple { path, bindings } => PatternKind::EnumTuple {
            path: path.clone(),
            bindings: copy_strings(bindings),
        },
        PatternKind::EnumStruct { path, fields } => PatternKind::EnumStruct {
            path: path.clone(),
            fields: copy_pattern_fields(fields),
        },
        PatternKind::Tuple { elements } => PatternKind::Tuple { elements: copy_patterns(elements) },
        PatternKind::Struct { name, fields } => PatternKind::Struct {
            name: name.clone(),
            fields: copy_pattern_fields(fields),
        },
        PatternKind::Or { alternatives } => PatternKind::Or {
            alternatives: copy_patterns(alternatives),
        },
        PatternKind::Ref { inner } => PatternKind::Ref { inner: Box::new(copy_pattern(inner)) },
    }
}

fn copy_exprs(v: &Vec<Expr>) -> (r: Vec<Expr>)
    ensures
        exprs_view(r) == exprs_view(*v),
    decreases v,
{
    let mut r: Vec<Expr> = Vec::new();
    let mut i: usize = 0;
    while i < v.len()
        invariant
            i <= v@.len(),
            r@.len() == i,
            forall|j: int| 0 <= j < i ==> (#[trigger] r@[j])@ == v@[j]@,
        decreases v.len() - i,
    {
        r.push(copy_expr(&v[i]));
        i += 1;
    }
    assert(exprs_view(r) =~= exprs_view(*v));
    r
}

fn copy_stmts(v: &Vec<Stmt>) -> (r: Vec<Stmt>)
    ensures
        stmts_view(r) == stmts_view(*v),
    decreases v,
{
    let mut r: Vec<Stmt> = Vec::new();
    let mut i: usize = 0;
    while i < v.len()
        invariant
            i <= v@.len(),
            r@.len() == i,
            forall|j: int| 0 <= j < i ==> (#[trigger] r@[j])@ == v@[j]@,
        decreases v.len() - i,
    {
        r.push(copy_stmt(&v[i]));
        i += 1;
    }
    assert(stmts_view(r) =~= stmts_view(*v));
    r
}

fn copy_arm(a: &MatchArm) -> (r: MatchArm)
    ensures
        r@ == a@,
    decreases a,
{
    MatchArm {
        pattern: copy_pattern(&a.pattern),
        guard: copy_opt_expr(&a.guard),
        body: copy_expr(&a.body),
    }
}

fn copy_arms(v: &Vec<MatchArm>) -> (r: Vec<MatchArm>)
    ensures
        arms_view(r) == arms_view(*v),
    decreases v,
{
    let mut r: Vec<MatchArm> = Vec::new();
    let mut i: usize = 0;
    while i < v.len()
        invariant
            i <= v@.len(),
            r@.len() == i,
            forall|j: int| 0 <= j < i ==> (#[trigger] r@[j])@ == v@[j]@,
        decreases v.len() - i,
    {
        r.push(copy_arm(&v[i]));
        i += 1;
    }
    assert(arms_view(r) =~= arms_view(*v));
    r
}

fn copy_field_inits(v: &Vec<FieldInit>) -> (r: Vec<FieldInit>)
    ensures
        field_inits_view(r) == field_inits_view(*v),
    decreases v,
{
    let mut r: Vec<FieldInit> = Vec::new();
    let mut i: usize = 0;
    while i < v.len()
        invariant
            i <= v@.len(),
            r@.len() == i,
            forall|j: int| 0 <= j < i ==> (#[trigger] r@[j])@ == v@[j]@,
        decreases v.len() - i,
    {
        r.push(FieldInit { name: v[i].name.clone(), value: copy_expr(&v[i].value) });
        i += 1;
    }
    assert(field_inits_view(r) =~= field_inits_view(*v));
    r
}

fn copy_opt_expr(o: &Option<Expr>) -> (r: Option<Expr>)
    ensures
        opt_expr_view(r) == opt_expr_view(*o),
    decreases o,
{
    match o {
        Some(e) => Some(copy_expr(e)),
        None => None,
    }
}

fn copy_opt_box_expr(o: &Option<Box<Expr>>) -> (r: Option<Box<Expr>>)
    ensures
        opt_box_expr_view(r) == opt_box_expr_view(*o),
    decreases o,
{
    match o {
        Some(e) => Some(Box::new(copy_expr(e))),
        None => None,
    }
}

fn copy_expr(e: &Expr) -> (r: Expr)
    ensures
        r@ == e@,
    decreases e,
{
    Expr { kind: copy_expr_kind(&e.kind) }
}

fn copy_expr_kind(k: &ExprKind) -> (r: ExprKind)
    ensures
        r@ == k@,
    decreases k,
{
    match k {
        ExprKind::Lit { value } => ExprKind::Lit { value: value.clone() },
        ExprKind::Var { name } => ExprKind::Var { name: name.clone() },
        ExprKind::Call { func, args } => ExprKind::Call { func: func.clone(), args: copy_exprs(args) },
        ExprKind::MethodCall { receiver, method, args } => ExprKind::MethodCall {
            receiver: Box::new(copy_expr(receiver)),
            method: method.clone(),
            args: copy_exprs(args),
        },
        ExprKind::BinOp { op, lhs, rhs } => ExprKind::BinOp {
            op: op.clone(),
            lhs: Box::new(copy_expr(lhs)),
            rhs: Box::new(copy_expr(rhs)),
        },
        ExprKind::UnOp { op, operand } => ExprKind::UnOp {
            op: op.clone(),
            operand: Box::new(copy_expr(operand)),
        },
        ExprKind::Block { stmts, trailing } => ExprKind::Block {
            stmts: copy_stmts(stmts),
            trailing: copy_opt_box_expr(trailing),
        },
        ExprKind::If { cond, then_branch, else_branch } => ExprKind::If {
            cond: Box::new(copy_expr(cond)),
            then_branch: Box::new(copy_expr(then_branch)),
            else_branch: copy_opt_box_expr(else_branch),
        },
        ExprKind::Match { scrutinee, arms } => ExprKind::Match {
            scrutinee: Box::new(copy_expr(scrutinee)),
            arms: copy_arms(arms),
        },
        ExprKind::Loop { body } => ExprKind::Loop { body: copy_stmts(body) },
        ExprKind::Array { elements } => ExprKind::Array { elements: copy_exprs(elements) },
        ExprKind::Tuple { elements } => ExprKind::Tuple { elements: copy_exprs(elements) },
        ExprKind::Assign { target, value } => ExprKind::Assign {
            target: Box::new(copy_expr(target)),
            value: Box::new(copy_expr(value)),
        },
        ExprKind::FieldAccess { inner, field } => ExprKind::FieldAccess {
            inner: Box::new(copy_expr(inner)),
            field: field.clone(),
        },
        ExprKind::Index { inner, index } => ExprKind::Index {
            inner: Box::new(copy_expr(inner)),
            index: Box::new(copy_expr(index)),
        },
        ExprKind::StructExpr { name, fields } => ExprKind::StructExpr {
            name: name.clone(),
            fields: copy_field_inits(fields),
        },
        ExprKind::Closure { params, body } => ExprKind::Closure {
            params: copy_params(params),
            body: Box::new(copy_expr(body)),
        },
        ExprKind::Return { value } => ExprKind::Return { value: copy_opt_box_expr(value) },
        ExprKind::Break { value } => ExprKind::Break { value: copy_opt_box_expr(value) },
        ExprKind::Continue => ExprKind::Continue,
        ExprKind::Cast { inner, ty } => ExprKind::Cast {
            inner: Box::new(copy_expr(inner)),
            ty: ty.clone(),
        },
        ExprKind::Range { start, end, inclusive } => ExprKind::Range {
            start: copy_opt_box_expr(start),
            end: copy_opt_box_expr(end),
            inclusive: *inclusive,
        },
        ExprKind::Await { inner } => ExprKind::Await { inner: Box::new(copy_expr(inner)) },
    }
}

fn copy_stmt(s: &Stmt) -> (r: Stmt)
    ensures
        r@ == s@,
    decreases s,
{
    Stmt { kind: copy_stmt_kind(&s.kind) }
}

fn copy_stmt_kind(k: &StmtKind) -> (r: StmtKind)
    ensures
        r@ == k@,
    decreases k,
{
    match k {
        StmtKind::Expr { expr } => StmtKind::Expr { expr: copy_expr(expr) },
        StmtKind::Let { name, ty, mutable, value } => StmtKind::Let {
            name: name.clone(),
            ty: copy_opt_type(ty),
            mutable: *mutable,
            value: copy_expr(value),
        },
        StmtKind::LetDestructure { pattern, value } => StmtKind::LetDestructure {
            pattern: copy_pattern(pattern),
            value: copy_expr(value),
        },
        StmtKind::Return { value } => StmtKind::Return { value: copy_opt_expr(value) },
        StmtKind::If { cond, then_branch, else_branch } => StmtKind::If {
            cond: copy_expr(cond),
            then_branch: copy_stmts(then_branch),
            else_branch: match else_branch {
                Some(b) => Some(copy_stmts(b)),
                None => None,
            },
        },
        StmtKind::While { cond, body } => StmtKind::While {
            cond: copy_expr(cond),
            body: copy_stmts(body),
        },
        StmtKind::Loop { body } => StmtKind::Loop { body: copy_stmts(body) },
        StmtKind::For { var, iter, body } => StmtKind::For {
            var: var.clone(),
            iter: copy_expr(iter),
            body: copy_stmts(body),
        },
        StmtKind::Match { scrutinee, arms } => StmtKind::Match {
            scrutinee: copy_expr(scrutinee),
            arms: copy_arms(arms),
        },
        StmtKind::Break { value } => StmtKind::Break { value: copy_opt_expr(value) },
        StmtKind::Continue => StmtKind::Continue,
    }
}

fn copy_item(i: &Item) -> (r: Item)
    ensures
        r@ == i@,
{
    Item { kind: copy_item_kind(&i.kind) }
}

fn copy_item_kind(k: &ItemKind) -> (r: ItemKind)
    ensures
        r@ == k@,
{
    match k {
        ItemKind::Struct { name, fields, derives, is_pub, is_tuple } => ItemKind::Struct {
            name: name.clone(),
            fields: copy_fields(fields),
            derives: copy_strings(derives),
            is_pub: *is_pub,
            is_tuple: *is_tuple,
        },
        ItemKind::Enum { name, variants, derives, is_pub } => ItemKind::Enum {
            name: name.clone(),
            variants: copy_variants(variants),
            derives: copy_strings(derives),
            is_pub: *is_pub,
        },
        ItemKind::Fn { name, params, return_type, body, is_async, is_pub } => ItemKind::Fn {
            name: name.clone(),
            params: copy_params(params),
            return_type: copy_opt_type(return_type),
            body: copy_stmts(body),
            is_async: *is_async,
            is_pub: *is_pub,
        },
        ItemKind::TypeAlias { name, ty, is_pub } => ItemKind::TypeAlias {
            name: name.clone(),
            ty: ty.clone(),
            is_pub: *is_pub,
        },
        ItemKind::Const { name, ty, value, is_pub } => ItemKind::Const {
            name: name.clone(),
            ty: ty.clone(),
            value: copy_expr(value),
            is_pub: *is_pub,
        },
        ItemKind::Use { path, is_pub } => ItemKind::Use { path: path.clone(), is_pub: *is_pub },
    }
}

impl Clone for Pattern {
    fn clone(&self) -> (r: Self)
        ensures
            r@ == self@,
    {
        copy_pattern(self)
    }
}

impl Clone for PatternKind {
    fn clone(&self) -> (r: Self)
        ensures
            r@ == self@,
    {
        copy_pattern_kind(self)
    }
}

impl Clone for ExprKind {
    fn clone(&self) -> (r: Self)
        ensures
            r@ == self@,
    {
        copy_expr_kind(self)
    }
}

impl Clone for StmtKind {
    fn clone(&self) -> (r: Self)
        ensures
            r@ == self@,
    {
        copy_stmt_kind(self)
    }
}

impl Clone for ItemKind {
    fn clone(&self) -> (r: Self)
        ensures
            r@ == self@,
    {
        copy_item_kind(self)
    }
}

impl Clone for PatternField {
    fn clone(&self) -> (r: Self)
        ensures
            r@ == self@,
    {
        PatternField { name: self.name.clone(), pattern: copy_pattern(&self.pattern) }
    }
}

impl Clone for MatchArm {
    fn clone(&self) -> (r: Self)
        ensures
            r@ == self@,
    {
        copy_arm(self)
    }
}

impl Clone for Expr {
    fn clone(&self) -> (r: Self)
        ensures
            r@ == self@,
    {
        copy_expr(self)
    }
}

impl Clone for FieldInit {
    fn clone(&self) -> (r: Self)
        ensures
            r@ == self@,
    {
        FieldInit { name: self.name.clone(), value: copy_expr(&self.value) }
    }
}

impl Clone for Stmt {
    fn clone(&self) -> (r: Self)
        ensures
            r@ == self@,
    {
        copy_stmt(self)
    }
}

impl Clone for Item {
    fn clone(&self) -> (r: Self)
        ensures
            r@ == self@,
    {
        copy_item(self)
    }
}

impl Clone for CodeModule {
    fn clone(&self) -> (r: Self)
        ensures
            r@ == self@,
            r.name == self.name,
            r.items@.len() == self.items@.len(),
    {
        let mut items: Vec<Item> = Vec::new();
        let mut i: usize = 0;
        while i < self.items.len()
            invariant
                i <= self.items@.len(),
                items@.len() == i,
                forall|j: int| 0 <= j < i ==> (#[trigger] items@[j])@ == self.items@[j]@,
            decreases self.items.len() - i,
        {
            items.push(copy_item(&self.items[i]));
            i += 1;
        }
        assert(items_view(items) =~= items_view(self.items));
        CodeModule { name: self.name.clone(), items }
    }
}

// ─── Specifications of items ─────────────────────────────────────────────────
/// The derive list of a struct or enum item; `None` for the other kinds.
pub open spec fn derives_of(k: ItemKind) -> Option<Seq<String>> {
    match k {
        ItemKind::Struct { derives, .. } => Some(derives@),
        ItemKind::Enum { derives, .. } => Some(derives@),
        _ => None,
    }
}

/// Whether an item is marked `pub`.
pub open spec fn is_pub_of(k: ItemKind) -> bool {
    match k {
        ItemKind::Struct { is_pub, .. } => is_pub,
        ItemKind::Enum { is_pub, .. } => is_pub,
        ItemKind::Fn { is_pub, .. } => is_pub,
        ItemKind::TypeAlias { is_pub, .. } => is_pub,
        ItemKind::Const { is_pub, .. } => is_pub,
        ItemKind::Use { is_pub, .. } => is_pub,
    }
}

/// `b` is `a` with the derive list of a struct or enum replaced by `ds`.
pub open spec fn derives_replaced(a: ItemKind, b: ItemKind, ds: Seq<String>) -> bool {
    match a {
        ItemKind::Struct { name, fields, derives: _, is_pub, is_tuple } => b matches ItemKind::Struct {
            name: n,
            fields: f,
            derives: d,
            is_pub: p,
            is_tuple: t,
        } && n == name && f == fields && d@ == ds && p == is_pub && t == is_tuple,
        ItemKind::Enum { name, variants, derives: _, is_pub } => b matches ItemKind::Enum {
            name: n,
            variants: v,
            derives: d,
            is_pub: p,
        } && n == name && v == variants && d@ == ds && p == is_pub,
        _ => false,
    }
}

/// `b` is `a` marked `pub`, with nothing else changed.
pub open spec fn made_pub(a: ItemKind, b: ItemKind) -> bool {
    match a {
        ItemKind::Struct { name, fields, derives, is_pub: _, is_tuple } => b == ItemKind::Struct {
            name,
            fields,
            derives,
            is_pub: true,
            is_tuple,
        },
        ItemKind::Enum { name, variants, derives, is_pub: _ } => b == ItemKind::Enum {
            name,
            variants,
            derives,
            is_pub: true,
        },
        ItemKind::Fn { name, params, return_type, body, is_async, is_pub: _ } => b == ItemKind::Fn {
            name,
            params,
            return_type,
            body,
            is_async,
            is_pub: true,
        },
        ItemKind::TypeAlias { name, ty, is_pub: _ } => b == ItemKind::TypeAlias {
            name,
            ty,
            is_pub: true,
        },
        ItemKind::Const { name, ty, value, is_pub: _ } => b == ItemKind::Const {
            name,
            ty,
            value,
            is_pub: true,
        },
        ItemKind::Use { path, is_pub: _ } => b == ItemKind::Use { path, is_pub: true },
    }
}

/// `b` is `a` marked `async` if it is a function, and `a` itself otherwise.
pub open spec fn made_async(a: ItemKind, b: ItemKind) -> bool {
    match a {
        ItemKind::Fn { name, params, return_type, body, is_async: _, is_pub } => b == ItemKind::Fn {
            name,
            params,
            return_type,
            body,
            is_async: true,
            is_pub,
        },
        _ => b == a,
    }
}

pub open spec fn pub_prefix(is_pub: bool) -> Seq<char> {
    if is_pub {
        "pub "@
    } else {
        Seq::empty()
    }
}

pub open spec fn field_type_reprs(fields: Seq<Field>) -> Seq<Seq<char>> {
    fields.map_values(|f: Field| f.ty.repr@)
}

pub open spec fn field_decls(fields: Seq<Field>) -> Seq<Seq<char>> {
    fields.map_values(|f: Field| f.name@ + ": "@ + f.ty.repr@)
}

pub open spec fn param_decls(params: Seq<Param>) -> Seq<Seq<char>> {
    params.map_values(|p: Param| p.name@ + ": "@ + p.ty.repr@)
}

pub open spec fn variant_names(variants: Seq<Variant>) -> Seq<Seq<char>> {
    variants.map_values(|v: Variant| v.name@)
}

/// The one-line summary of an item, without its `pub ` prefix.
pub open spec fn item_body(k: ItemKind) -> Seq<char> {
    match k {
        ItemKind::Struct { name, fields, is_tuple, .. } => if is_tuple {
            "struct "@ + name@ + "("@ + join(field_type_reprs(fields@), ", "@) + ")"@
        } else {
            "struct "@ + name@ + " { "@ + join(field_decls(fields@), ", "@) + " }"@
        },
        ItemKind::Enum { name, variants, .. } => "enum "@ + name@ + " { "@ + join(
            variant_names(variants@),
            ", "@,
        ) + " }"@,
        ItemKind::Fn { name, params, return_type, is_async, .. } => (if is_async {
            "async "@
        } else {
            Seq::empty()
        }) + "fn "@ + name@ + "("@ + join(param_decls(params@), ", "@) + ")"@ + match return_type {
            Some(rt) => " -> "@ + rt.repr@,
            None => Seq::empty(),
        },
        ItemKind::TypeAlias { name, ty, .. } => "type "@ + name@ + " = "@ + ty.repr@,
        ItemKind::Const { name, ty, .. } => "const "@ + name@ + ": "@ + ty.repr@,
        ItemKind::Use { path, .. } => "use "@ + path@,
    }
}

/// The one-line summary of an item.
pub open spec fn item_display(k: ItemKind) -> Seq<char> {
    pub_prefix(is_pub_of(k)) + item_body(k)
}

/// The one-line summary of a module with `n` items.
pub open spec fn module_display(name: Seq<char>, n: nat) -> Seq<char> {
    "module "@ + name + " ("@ + decimal(n) + " item"@ + (if n == 1 {
        Seq::empty()
    } else {
        "s"@
    }) + ")"@
}

/// `make_pub` is idempotent: marking a `pub` item `pub` again changes nothing.
pub proof fn law_make_pub_idempotent(a: ItemKind, b: ItemKind, c: ItemKind)
    requires
        made_pub(a, b),
        made_pub(b, c),
    ensures
        c == b,
{
}

/// The summary of an item marked `pub` is `pub ` followed by the summary of the item
/// itself, whether or not it was `pub` before.
pub proof fn law_make_pub_display(a: ItemKind, b: ItemKind)
    requires
        made_pub(a, b),
    ensures
        is_pub_of(b),
        item_display(b) == "pub "@ + item_body(a),
{
}

/// Derives do not show in an item's summary: `with_derive` and `with_derives` leave it
/// unchanged, and the new derive list is the one asked for.
pub proof fn law_derives_keep_display(a: ItemKind, b: ItemKind, ds: Seq<String>)
    requires
        derives_replaced(a, b, ds),
    ensures
        item_display(b) == item_display(a),
        derives_of(b) == Some(ds),
        is_pub_of(b) == is_pub_of(a),
{
}

/// `make_async` marks a function `async` and leaves its visibility alone; the summary
/// then reads `async fn …` after the optional `pub `.
pub proof fn law_make_async_display(a: ItemKind, b: ItemKind)
    requires
        made_async(a, b),
        a is Fn,
    ensures
        is_pub_of(b) == is_pub_of(a),
        b matches ItemKind::Fn { is_async, .. } && is_async,
        item_body(b) == "async "@ + item_body(fn_without_async(a)),
{
}

/// The same item, not `async`.
pub open spec fn fn_without_async(a: ItemKind) -> ItemKind {
    match a {
        ItemKind::Fn { name, params, return_type, body, is_async: _, is_pub } => ItemKind::Fn {
            name,
            params,
            return_type,
            body,
            is_async: false,
            is_pub,
        },
        _ => a,
    }
}

/// Joining one more part adds the separator and the part.
pub proof fn lemma_join_step(parts: Seq<Seq<char>>, sep: Seq<char>, i: int)
    requires
        1 <= i < parts.len(),
    ensures
        join(parts.take(i + 1), sep) == join(parts.take(i), sep) + sep + parts[i],
{
    assert(parts.take(i + 1).drop_last() =~= parts.take(i));
}

/// Appends `parts` joined by `sep`.
fn push_joined(out: &mut String, parts: &Vec<String>, sep: &str)
    ensures
        final(out)@ == old(out)@ + join(parts@.map_values(|s: String| s@), sep@),
{
    let ghost ps = parts@.map_values(|s: String| s@);
    let mut i: usize = 0;
    while i < parts.len()
        invariant
            ps == parts@.map_values(|s: String| s@),
            i <= parts@.len(),
            out@ == old(out)@ + join(ps.take(i as int), sep@),
        decreases parts@.len() - i,
    {
        if i > 0 {
            push_str(out, sep);
            proof {
                lemma_join_step(ps, sep@, i as int);
            }
        } else {
            assert(ps.take(1) =~= seq![ps[0]]);
        }
        push_str(out, parts[i].as_str());
        i += 1;
    }
    assert(ps.take(parts@.len() as int) =~= ps);
}

/// The field types of `fields` as strings.
fn field_type_strings(fields: &Vec<Field>) -> (r: Vec<String>)
    ensures
        r@.map_values(|s: String| s@) == field_type_reprs(fields@),
{
    let mut r: Vec<String> = Vec::new();
    let mut i: usize = 0;
    while i < fields.len()
        invariant
            i <= fields@.len(),
            r@.len() == i,
            forall|j: int| 0 <= j < i ==> (#[trigger] r@[j])@ == fields@[j].ty.repr@,
        decreases fields@.len() - i,
    {
        r.push(fields[i].ty.repr.clone());
        i += 1;
    }
    assert(r@.map_values(|s: String| s@) =~= field_type_reprs(fields@));
    r
}

/// `name: ty` for each field.
fn field_decl_strings(fields: &Vec<Field>) -> (r: Vec<String>)
    ensures
        r@.map_values(|s: String| s@) == field_decls(fields@),
{
    let mut r: Vec<String> = Vec::new();
    let mut i: usize = 0;
    while i < fields.len()
        invariant
            i <= fields@.len(),
            r@.len() == i,
            forall|j: int| 0 <= j < i ==> (#[trigger] r@[j])@ == fields@[j].name@ + ": "@ + fields@[j].ty.repr@,
        decreases fields@.len() - i,
    {
        let f = &fields[i];
        let mut s = f.name.clone();
        push_str(&mut s, ": ");
        push_str(&mut s, f.ty.repr.as_str());
        r.push(s);
        i += 1;
    }
    assert(r@.map_values(|s: String| s@) =~= field_decls(fields@));
    r
}

/// `name: ty` for each parameter.
fn param_decl_strings(params: &Vec<Param>) -> (r: Vec<String>)
    ensures
        r@.map_values(|s: String| s@) == param_decls(params@),
{
    let mut r: Vec<String> = Vec::new();
    let mut i: usize = 0;
    while i < params.len()
        invariant
            i <= params@.len(),
            r@.len() == i,
            forall|j: int| 0 <= j < i ==> (#[trigger] r@[j])@ == params@[j].name@ + ": "@ + params@[j].ty.repr@,
        decreases params@.len() - i,
    {
        let p = &params[i];
        let mut s = p.name.clone();
        push_str(&mut s, ": ");
        push_str(&mut s, p.ty.repr.as_str());
        r.push(s);
        i += 1;
    }
    assert(r@.map_values(|s: String| s@) =~= param_decls(params@));
    r
}

/// The name of each variant.
fn variant_name_strings(variants: &Vec<Variant>) -> (r: Vec<String>)
    ensures
        r@.map_values(|s: String| s@) == variant_names(variants@),
{
    let mut r: Vec<String> = Vec::new();
    let mut i: usize = 0;
    while i < variants.len()
        invariant
            i <= variants@.len(),
            r@.len() == i,
            forall|j: int| 0 <= j < i ==> (#[trigger] r@[j])@ == variants@[j].name@,
        decreases variants@.len() - i,
    {
        r.push(variants[i].name.clone());
        i += 1;
    }
    assert(r@.map_values(|s: String| s@) =~= variant_names(variants@));
    r
}

impl Item {
    /// Append one derive to this item.  No-op for non-struct/enum items.
    pub fn with_derive(self, derive: String) -> (r: Self)
        ensures
            derives_of(self.kind) matches Some(ds) ==> derives_replaced(
                self.kind,
                r.kind,
                ds.push(derive),
            ),
            derives_of(self.kind) is None ==> r == self,
    {
        match self.kind {
            ItemKind::Struct { name, fields, mut derives, is_pub, is_tuple } => {
                derives.push(derive);
                Item { kind: ItemKind::Struct { name, fields, derives, is_pub, is_tuple } }
            },
            ItemKind::Enum { name, variants, mut derives, is_pub } => {
                derives.push(derive);
                Item { kind: ItemKind::Enum { name, variants, derives, is_pub } }
            },
            kind => Item { kind },
        }
    }

    /// Replace the entire derive list.  No-op for non-struct/enum items.
    pub fn with_derives(self, new_derives: Vec<String>) -> (r: Self)
        ensures
            derives_of(self.kind) is Some ==> derives_replaced(self.kind, r.kind, new_derives@),
            derives_of(self.kind) is None ==> r == self,
    {
        match self.kind {
            ItemKind::Struct { name, fields, derives: _, is_pub, is_tuple } => Item {
                kind: ItemKind::Struct { name, fields, derives: new_derives, is_pub, is_tuple },
            },
            ItemKind::Enum { name, variants, derives: _, is_pub } => Item {
                kind: ItemKind::Enum { name, variants, derives: new_derives, is_pub },
            },
            kind => Item { kind },
        }
    }

    /// Mark this item as `pub`.
    pub fn make_pub(self) -> (r: Self)
        ensures
            made_pub(self.kind, r.kind),
    {
        let kind = match self.kind {
            ItemKind::Struct { name, fields, derives, is_pub: _, is_tuple } => ItemKind::Struct {
                name,
                fields,
                derives,
                is_pub: true,
                is_tuple,
            },
            ItemKind::Enum { name, variants, derives, is_pub: _ } => ItemKind::Enum {
                name,
                variants,
                derives,
                is_pub: true,
            },
            ItemKind::Fn { name, params, return_type, body, is_async, is_pub: _ } => ItemKind::Fn {
                name,
                params,
                return_type,
                body,
                is_async,
                is_pub: true,
            },
            ItemKind::TypeAlias { name, ty, is_pub: _ } => ItemKind::TypeAlias {
                name,
                ty,
                is_pub: true,
            },
            ItemKind::Const { name, ty, value, is_pub: _ } => ItemKind::Const {
                name,
                ty,
                value,
                is_pub: true,
            },
            ItemKind::Use { path, is_pub: _ } => ItemKind::Use { path, is_pub: true },
        };
        Item { kind }
    }

    /// Mark a function item as `async`.  No-op for non-fn items.
    pub fn make_async(self) -> (r: Self)
        ensures
            made_async(self.kind, r.kind),
    {
        match self.kind {
            ItemKind::Fn { name, params, return_type, body, is_async: _, is_pub } => Item {
                kind: ItemKind::Fn { name, params, return_type, body, is_async: true, is_pub },
            },
            kind => Item { kind },
        }
    }

    /// Return a human-readable one-line summary of this item.
    pub fn display(&self) -> (r: String)
        ensures
            r@ == item_display(self.kind),
    {
        let mut out = String::new();
        let is_pub = match &self.kind {
            ItemKind::Struct { is_pub, .. } => *is_pub,
            ItemKind::Enum { is_pub, .. } => *is_pub,
            ItemKind::Fn { is_pub, .. } => *is_pub,
            ItemKind::TypeAlias { is_pub, .. } => *is_pub,
            ItemKind::Const { is_pub, .. } => *is_pub,
            ItemKind::Use { is_pub, .. } => *is_pub,
        };
        if is_pub {
            push_str(&mut out, "pub ");
        }
        assert(out@ =~= pub_prefix(is_pub_of(self.kind)));
        match &self.kind {
            ItemKind::Struct { name, fields, is_tuple, .. } => {
                push_str(&mut out, "struct ");
                push_str(&mut out, name.as_str());
                if *is_tuple {
                    push_str(&mut out, "(");
                    let parts = field_type_strings(fields);
                    push_joined(&mut out, &parts, ", ");
                    push_str(&mut out, ")");
                } else {
                    push_str(&mut out, " { ");
                    let parts = field_decl_strings(fields);
                    push_joined(&mut out, &parts, ", ");
                    push_str(&mut out, " }");
                }
            },
            ItemKind::Enum { name, variants, .. } => {
                push_str(&mut out, "enum ");
                push_str(&mut out, name.as_str());
                push_str(&mut out, " { ");
                let parts = variant_name_strings(variants);
                push_joined(&mut out, &parts, ", ");
                push_str(&mut out, " }");
            },
            ItemKind::Fn { name, params, return_type, is_async, .. } => {
                if *is_async {
                    push_str(&mut out, "async ");
                }
                push_str(&mut out, "fn ");
                push_str(&mut out, name.as_str());
                push_str(&mut out, "(");
                let parts = param_decl_strings(params);
                push_joined(&mut out, &parts, ", ");
                push_str(&mut out, ")");
                match return_type {
                    Some(rt) => {
                        push_str(&mut out, " -> ");
                        push_str(&mut out, rt.repr.as_str());
                    },
                    None => {},
                }
            },
            ItemKind::TypeAlias { name, ty, .. } => {
                push_str(&mut out, "type ");
                push_str(&mut out, name.as_str());
                push_str(&mut out, " = ");
                push_str(&mut out, ty.repr.as_str());
            },
            ItemKind::Const { name, ty, .. } => {
                push_str(&mut out, "const ");
                push_str(&mut out, name.as_str());
                push_str(&mut out, ": ");
                push_str(&mut out, ty.repr.as_str());
            },
            ItemKind::Use { path, .. } => {
                push_str(&mut out, "use ");
                push_str(&mut out, path.as_str());
            },
        }
        assert(out@ =~= item_display(self.kind));
        out
    }
}

impl CodeModule {
    /// Append one item and return the updated module (builder-style).
    pub fn add_item(self, item: Item) -> (r: Self)
        ensures
            r.name == self.name,
            r.items@ == self.items@.push(item),
    {
        let mut m = self;
        m.items.push(item);
        m
    }

    /// Return a human-readable one-line summary of this module.
    pub fn display(&self) -> (r: String)
        ensures
            r@ == module_display(self.name@, self.items@.len()),
    {
        let n = self.items.len();
        let mut out = String::new();
        push_str(&mut out, "module ");
        push_str(&mut out, self.name.as_str());
        push_str(&mut out, " (");
        push_decimal(&mut out, n as u64);
        push_str(&mut out, " item");
        if n != 1 {
            push_str(&mut out, "s");
        }
        push_str(&mut out, ")");
        assert(out@ =~= module_display(self.name@, self.items@.len()));
        out
    }
}

} // verus!
