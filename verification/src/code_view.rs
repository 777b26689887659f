//! The mathematical values of the code-model types: strings as character sequences,
//! vectors as sequences, boxes and the `kind` wrappers left out.
use vstd::prelude::*;

use crate::types::{
    CodeModule, CodeType, Expr, ExprKind, Field, FieldInit, Item, ItemKind, LitValue, MatchArm,
    Param, Pattern, PatternField, PatternKind, Stmt, StmtKind, Variant,
};

verus! {

#[verifier::ext_equal]
pub ghost enum LitV {
    Int(i128),
    Float(u64),
    Bool(bool),
    Str(Seq<char>),
    Null,
}

#[verifier::ext_equal]
pub ghost struct FieldV {
    pub name: Seq<char>,
    pub ty: Seq<char>,
    pub optional: bool,
}

#[verifier::ext_equal]
pub ghost struct ParamV {
    pub name: Seq<char>,
    pub ty: Seq<char>,
}

#[verifier::ext_equal]
pub ghost struct VariantV {
    pub name: Seq<char>,
    pub fields: Seq<FieldV>,
    pub is_tuple: bool,
}

#[verifier::ext_equal]
pub ghost enum PatternV {
    Wildcard,
    Literal(LitV),
    Variable(Seq<char>),
    EnumTuple(Seq<char>, Seq<Seq<char>>),
    EnumStruct(Seq<char>, Seq<PatternFieldV>),
    Tuple(Seq<PatternV>),
    Struct(Seq<char>, Seq<PatternFieldV>),
    Or(Seq<PatternV>),
    Ref(Box<PatternV>),
}

#[verifier::ext_equal]
pub ghost struct PatternFieldV {
    pub name: Seq<char>,
    pub pattern: PatternV,
}

#[verifier::ext_equal]
pub ghost enum ExprV {
    Lit(LitV),
    Var(Seq<char>),
    Call(Seq<char>, Seq<ExprV>),
    MethodCall(Box<ExprV>, Seq<char>, Seq<ExprV>),
    BinOp(Seq<char>, Box<ExprV>, Box<ExprV>),
    UnOp(Seq<char>, Box<ExprV>),
    Block(Seq<StmtV>, Option<Box<ExprV>>),
    If(Box<ExprV>, Box<ExprV>, Option<Box<ExprV>>),
    Match(Box<ExprV>, Seq<ArmV>),
    Loop(Seq<StmtV>),
    Array(Seq<ExprV>),
    Tuple(Seq<ExprV>),
    Assign(Box<ExprV>, Box<ExprV>),
    FieldAccess(Box<ExprV>, Seq<char>),
    Index(Box<ExprV>, Box<ExprV>),
    StructExpr(Seq<char>, Seq<FieldInitV>),
    Closure(Seq<ParamV>, Box<ExprV>),
    Return(Option<Box<ExprV>>),
    Break(Option<Box<ExprV>>),
    Continue,
    Cast(Box<ExprV>, Seq<char>),
    Range(Option<Box<ExprV>>, Option<Box<ExprV>>, bool),
    Await(Box<ExprV>),
}

#[verifier::ext_equal]
pub ghost struct ArmV {
    pub pattern: PatternV,
    pub guard: Option<ExprV>,
    pub body: ExprV,
}

#[verifier::ext_equal]
pub ghost struct FieldInitV {
    pub name: Seq<char>,
    pub value: ExprV,
}

#[verifier::ext_equal]
pub ghost enum StmtV {
    Expr(ExprV),
    Let(Seq<char>, Option<Seq<char>>, bool, ExprV),
    LetDestructure(PatternV, ExprV),
    Return(Option<ExprV>),
    If(ExprV, Seq<StmtV>, Option<Seq<StmtV>>),
    While(ExprV, Seq<StmtV>),
    Loop(Seq<StmtV>),
    For(Seq<char>, ExprV, Seq<StmtV>),
    Match(ExprV, Seq<ArmV>),
    Break(Option<ExprV>),
    Continue,
}

#[verifier::ext_equal]
pub ghost enum ItemV {
    Struct(Seq<char>, Seq<FieldV>, Seq<Seq<char>>, bool, bool),
    Enum(Seq<char>, Seq<VariantV>, Seq<Seq<char>>, bool),
    Fn(Seq<char>, Seq<ParamV>, Option<Seq<char>>, Seq<StmtV>, bool, bool),
    TypeAlias(Seq<char>, Seq<char>, bool),
    Const(Seq<char>, Seq<char>, ExprV, bool),
    Use(Seq<char>, bool),
}

#[verifier::ext_equal]
pub ghost struct ModuleV {
    pub name: Seq<char>,
    pub items: Seq<ItemV>,
}

// ── Leaves ───────────────────────────────────────────────────────────────────

pub open spec fn lit_view(l: LitValue) -> LitV {
    match l {
        LitValue::Int { value } => LitV::Int(value),
        LitValue::Float { bits } => LitV::Float(bits),
        LitValue::Bool { value } => LitV::Bool(value),
        LitValue::Str { value } => LitV::Str(value@),
        LitValue::Null => LitV::Null,
    }
}

pub open spec fn strings_view(v: Vec<String>) -> Seq<Seq<char>> {
    Seq::new(v@.len(), |i: int| v@[i]@)
}

pub open spec fn opt_type_view(o: Option<CodeType>) -> Option<Seq<char>> {
    match o {
        Some(t) => Some(t.repr@),
        None => None,
    }
}

pub open spec fn field_view(f: Field) -> FieldV {
    FieldV { name: f.name@, ty: f.ty.repr@, optional: f.optional }
}

pub open spec fn fields_view(v: Vec<Field>) -> Seq<FieldV> {
    Seq::new(v@.len(), |i: int| field_view(v@[i]))
}

pub open spec fn param_view(p: Param) -> ParamV {
    ParamV { name: p.name@, ty: p.ty.repr@ }
}

pub open spec fn params_view(v: Vec<Param>) -> Seq<ParamV> {
    Seq::new(v@.len(), |i: int| param_view(v@[i]))
}

pub open spec fn variant_view(v: Variant) -> VariantV {
    VariantV { name: v.name@, fields: fields_view(v.fields), is_tuple: v.is_tuple }
}

pub open spec fn variants_view(v: Vec<Variant>) -> Seq<VariantV> {
    Seq::new(v@.len(), |i: int| variant_view(v@[i]))
}

// ── Patterns ─────────────────────────────────────────────────────────────────

pub open spec fn pattern_kind_view(k: PatternKind) -> PatternV
    decreases k,
{
    match k {
        PatternKind::Wildcard => PatternV::Wildcard,
        PatternKind::Literal { value } => PatternV::Literal(lit_view(value)),
        PatternKind::Variable { name } => PatternV::Variable(name@),
        PatternKind::EnumTuple { path, bindings } => PatternV::EnumTuple(
            path@,
            strings_view(bindings),
        ),
        PatternKind::EnumStruct { path, fields } => PatternV::EnumStruct(
            path@,
            pattern_fields_view(fields),
        ),
        PatternKind::Tuple { elements } => PatternV::Tuple(patterns_view(elements)),
        PatternKind::Struct { name, fields } => PatternV::Struct(
            name@,
            pattern_fields_view(fields),
        ),
        PatternKind::Or { alternatives } => PatternV::Or(patterns_view(alternatives)),
        PatternKind::Ref { inner } => PatternV::Ref(Box::new(pattern_view(*inner))),
    }
}

pub open spec fn pattern_view(p: Pattern) -> PatternV
    decreases p,
{
    pattern_kind_view(p.kind)
}

pub open spec fn patterns_view(v: Vec<Pattern>) -> Seq<PatternV>
    decreases v,
{
    Seq::new(
        v@.len(),
        |i: int|
            if 0 <= i < v@.len() {
                pattern_view(v@[i])
            } else {
                PatternV::Wildcard
            },
    )
}

pub open spec fn pattern_field_view(f: PatternField) -> PatternFieldV
    decreases f,
{
    PatternFieldV { name: f.name@, pattern: pattern_view(f.pattern) }
}

pub open spec fn pattern_fields_view(v: Vec<PatternField>) -> Seq<PatternFieldV>
    decreases v,
{
    Seq::new(
        v@.len(),
        |i: int|
            if 0 <= i < v@.len() {
                pattern_field_view(v@[i])
            } else {
                PatternFieldV { name: Seq::empty(), pattern: PatternV::Wildcard }
            },
    )
}

// ── Expressions and statements ───────────────────────────────────────────────

pub open spec fn opt_box_expr_view(o: Option<Box<Expr>>) -> Option<Box<ExprV>>
    decreases o,
{
    match o {
        Some(b) => Some(Box::new(expr_view(*b))),
        None => None,
    }
}

pub open spec fn opt_expr_view(o: Option<Expr>) -> Option<ExprV>
    decreases o,
{
    match o {
        Some(e) => Some(expr_view(e)),
        None => None,
    }
}

pub open spec fn expr_kind_view(k: ExprKind) -> ExprV
    decreases k,
{
    match k {
        ExprKind::Lit { value } => ExprV::Lit(lit_view(value)),
        ExprKind::Var { name } => ExprV::Var(name@),
        ExprKind::Call { func, args } => ExprV::Call(func@, exprs_view(args)),
        ExprKind::MethodCall { receiver, method, args } => ExprV::MethodCall(
            Box::new(expr_view(*receiver)),
            method@,
            exprs_view(args),
        ),
        ExprKind::BinOp { op, lhs, rhs } => ExprV::BinOp(
            op@,
            Box::new(expr_view(*lhs)),
            Box::new(expr_view(*rhs)),
        ),
        ExprKind::UnOp { op, operand } => ExprV::UnOp(op@, Box::new(expr_view(*operand))),
        ExprKind::Block { stmts, trailing } => ExprV::Block(
            stmts_view(stmts),
            opt_box_expr_view(trailing),
        ),
        ExprKind::If { cond, then_branch, else_branch } => ExprV::If(
            Box::new(expr_view(*cond)),
            Box::new(expr_view(*then_branch)),
            opt_box_expr_view(else_branch),
        ),
        ExprKind::Match { scrutinee, arms } => ExprV::Match(
            Box::new(expr_view(*scrutinee)),
            arms_view(arms),
        ),
        ExprKind::Loop { body } => ExprV::Loop(stmts_view(body)),
        ExprKind::Array { elements } => ExprV::Array(exprs_view(elements)),
        ExprKind::Tuple { elements } => ExprV::Tuple(exprs_view(elements)),
        ExprKind::Assign { target, value } => ExprV::Assign(
            Box::new(expr_view(*target)),
            Box::new(expr_view(*value)),
        ),
        ExprKind::FieldAccess { inner, field } => ExprV::FieldAccess(
            Box::new(expr_view(*inner)),
            field@,
        ),
        ExprKind::Index { inner, index } => ExprV::Index(
            Box::new(expr_view(*inner)),
            Box::new(expr_view(*index)),
        ),
        ExprKind::StructExpr { name, fields } => ExprV::StructExpr(
            name@,
            field_inits_view(fields),
        ),
        ExprKind::Closure { params, body } => ExprV::Closure(
            params_view(params),
            Box::new(expr_view(*body)),
        ),
        ExprKind::Return { value } => ExprV::Return(opt_box_expr_view(value)),
        ExprKind::Break { value } => ExprV::Break(opt_box_expr_view(value)),
        ExprKind::Continue => ExprV::Continue,
        ExprKind::Cast { inner, ty } => ExprV::Cast(Box::new(expr_view(*inner)), ty.repr@),
        ExprKind::Range { start, end, inclusive } => ExprV::Range(
            opt_box_expr_view(start),
            opt_box_expr_view(end),
            inclusive,
        ),
        ExprKind::Await { inner } => ExprV::Await(Box::new(expr_view(*inner))),
    }
}

pub open spec fn expr_view(e: Expr) -> ExprV
    decreases e,
{
    expr_kind_view(e.kind)
}

pub open spec fn exprs_view(v: Vec<Expr>) -> Seq<ExprV>
    decreases v,
{
    Seq::new(
        v@.len(),
        |i: int|
            if 0 <= i < v@.len() {
                expr_view(v@[i])
            } else {
                ExprV::Continue
            },
    )
}

pub open spec fn field_init_view(f: FieldInit) -> FieldInitV
    decreases f,
{
    FieldInitV { name: f.name@, value: expr_view(f.value) }
}

pub open spec fn field_inits_view(v: Vec<FieldInit>) -> Seq<FieldInitV>
    decreases v,
{
    Seq::new(
        v@.len(),
        |i: int|
            if 0 <= i < v@.len() {
                field_init_view(v@[i])
            } else {
                FieldInitV { name: Seq::empty(), value: ExprV::Continue }
            },
    )
}

pub open spec fn arm_view(a: MatchArm) -> ArmV
    decreases a,
{
    ArmV { pattern: pattern_view(a.pattern), guard: opt_expr_view(a.guard), body: expr_view(a.body) }
}

pub open spec fn arms_view(v: Vec<MatchArm>) -> Seq<ArmV>
    decreases v,
{
    Seq::new(
        v@.len(),
        |i: int|
            if 0 <= i < v@.len() {
                arm_view(v@[i])
            } else {
                ArmV { pattern: PatternV::Wildcard, guard: None, body: ExprV::Continue }
            },
    )
}

pub open spec fn stmt_kind_view(k: StmtKind) -> StmtV
    decreases k,
{
    match k {
        StmtKind::Expr { expr } => StmtV::Expr(expr_view(expr)),
        StmtKind::Let { name, ty, mutable, value } => StmtV::Let(
            name@,
            opt_type_view(ty),
            mutable,
            expr_view(value),
        ),
        StmtKind::LetDestructure { pattern, value } => StmtV::LetDestructure(
            pattern_view(pattern),
            expr_view(value),
        ),
        StmtKind::Return { value } => StmtV::Return(opt_expr_view(value)),
        StmtKind::If { cond, then_branch, else_branch } => StmtV::If(
            expr_view(cond),
            stmts_view(then_branch),
            opt_stmts_view(else_branch),
        ),
        StmtKind::While { cond, body } => StmtV::While(expr_view(cond), stmts_view(body)),
        StmtKind::Loop { body } => StmtV::Loop(stmts_view(body)),
        StmtKind::For { var, iter, body } => StmtV::For(var@, expr_view(iter), stmts_view(body)),
        StmtKind::Match { scrutinee, arms } => StmtV::Match(expr_view(scrutinee), arms_view(arms)),
        StmtKind::Break { value } => StmtV::Break(opt_expr_view(value)),
        StmtKind::Continue => StmtV::Continue,
    }
}

pub open spec fn stmt_view(s: Stmt) -> StmtV
    decreases s,
{
    stmt_kind_view(s.kind)
}

pub open spec fn stmts_view(v: Vec<Stmt>) -> Seq<StmtV>
    decreases v,
{
    Seq::new(
        v@.len(),
        |i: int|
            if 0 <= i < v@.len() {
                stmt_view(v@[i])
            } else {
                StmtV::Continue
            },
    )
}

pub open spec fn opt_stmts_view(o: Option<Vec<Stmt>>) -> Option<Seq<StmtV>>
    decreases o,
{
    match o {
        Some(v) => Some(stmts_view(v)),
        None => None,
    }
}

// ── Items and modules ────────────────────────────────────────────────────────

pub open spec fn item_kind_view(k: ItemKind) -> ItemV {
    match k {
        ItemKind::Struct { name, fields, derives, is_pub, is_tuple } => ItemV::Struct(
            name@,
            fields_view(fields),
            strings_view(derives),
            is_pub,
            is_tuple,
        ),
        ItemKind::Enum { name, variants, derives, is_pub } => ItemV::Enum(
            name@,
            variants_view(variants),
            strings_view(derives),
            is_pub,
        ),
        ItemKind::Fn { name, params, return_type, body, is_async, is_pub } => ItemV::Fn(
            name@,
            params_view(params),
            opt_type_view(return_type),
            stmts_view(body),
            is_async,
            is_pub,
        ),
        ItemKind::TypeAlias { name, ty, is_pub } => ItemV::TypeAlias(name@, ty.repr@, is_pub),
        ItemKind::Const { name, ty, value, is_pub } => ItemV::Const(
            name@,
            ty.repr@,
            expr_view(value),
            is_pub,
        ),
        ItemKind::Use { path, is_pub } => ItemV::Use(path@, is_pub),
    }
}

pub open spec fn item_view(i: Item) -> ItemV {
    item_kind_view(i.kind)
}

pub open spec fn items_view(v: Vec<Item>) -> Seq<ItemV> {
    Seq::new(v@.len(), |i: int| item_view(v@[i]))
}

pub open spec fn module_view(m: CodeModule) -> ModuleV {
    ModuleV { name: m.name@, items: items_view(m.items) }
}

// ── View impls ───────────────────────────────────────────────────────────────

impl View for LitValue {
    type V = LitV;

    open spec fn view(&self) -> LitV {
        lit_view(*self)
    }
}

impl View for CodeType {
    type V = Seq<char>;

    open spec fn view(&self) -> Seq<char> {
        self.repr@
    }
}

impl View for Field {
    type V = FieldV;

    open spec fn view(&self) -> FieldV {
        field_view(*self)
    }
}

impl View for Param {
    type V = ParamV;

    open spec fn view(&self) -> ParamV {
        param_view(*self)
    }
}

impl View for Variant {
    type V = VariantV;

    open spec fn view(&self) -> VariantV {
        variant_view(*self)
    }
}

impl View for PatternKind {
    type V = PatternV;

    open spec fn view(&self) -> PatternV {
        pattern_kind_view(*self)
    }
}

impl View for Pattern {
    type V = PatternV;

    open spec fn view(&self) -> PatternV {
        pattern_view(*self)
    }
}

impl View for PatternField {
    type V = PatternFieldV;

    open spec fn view(&self) -> PatternFieldV {
        pattern_field_view(*self)
    }
}

impl View for MatchArm {
    type V = ArmV;

    open spec fn view(&self) -> ArmV {
        arm_view(*self)
    }
}

impl View for ExprKind {
    type V = ExprV;

    open spec fn view(&self) -> ExprV {
        expr_kind_view(*self)
    }
}

impl View for Expr {
    type V = ExprV;

    open spec fn view(&self) -> ExprV {
        expr_view(*self)
    }
}

impl View for FieldInit {
    type V = FieldInitV;

    open spec fn view(&self) -> FieldInitV {
        field_init_view(*self)
    }
}

impl View for StmtKind {
    type V = StmtV;

    open spec fn view(&self) -> StmtV {
        stmt_kind_view(*self)
    }
}

impl View for Stmt {
    type V = StmtV;

    open spec fn view(&self) -> StmtV {
        stmt_view(*self)
    }
}

impl View for ItemKind {
    type V = ItemV;

    open spec fn view(&self) -> ItemV {
        item_kind_view(*self)
    }
}

impl View for Item {
    type V = ItemV;

    open spec fn view(&self) -> ItemV {
        item_view(*self)
    }
}

impl View for CodeModule {
    type V = ModuleV;

    open spec fn view(&self) -> ModuleV {
        module_view(*self)
    }
}

} // verus!
