//! The constructors that parser scripts reach as `ast::span`, `ast::node`,
//! `ast::leaf`, `ast::empty`, `ast::named_node` and `ast::named_leaf`.
use vstd::prelude::*;

use crate::ast_types::{AstNode, AstNodeView, Span};

verus! {

/// A node value with only a kind, a name, a value and children set.
pub open spec fn fresh_node(
    kind: Seq<char>,
    name: Option<Seq<char>>,
    value: Option<Seq<char>>,
    children: Seq<AstNodeView>,
) -> AstNodeView {
    AstNodeView { kind, name, value, span: None, children, attrs: Seq::empty() }
}

pub open spec fn children_view(children: Seq<AstNode>) -> Seq<AstNodeView> {
    Seq::new(children.len(), |i: int| children[i]@)
}

/// `ast::span(start, end, line, col)` — build a source span manually.
pub fn span(start: u64, end: u64, line: u64, col: u64) -> (r: Span)
    ensures
        r == (Span { start, end, line, col }),
{
    Span { start, end, line, col }
}

/// `ast::node(kind, children)` — interior node with positional children.
pub fn node(kind: &str, children: Vec<AstNode>) -> (r: AstNode)
    ensures
        r@ == fresh_node(kind@, None, None, children_view(children@)),
{
    let r = AstNode {
        kind: kind.to_owned(),
        name: None,
        value: None,
        span: None,
        children,
        attrs: Vec::new(),
    };
    assert(r@.children =~= children_view(children@));
    assert(r@.attrs =~= Seq::empty());
    r
}

/// `ast::leaf(kind, value)` — terminal/leaf node carrying a string value.
pub fn leaf(kind: &str, value: &str) -> (r: AstNode)
    ensures
        r@ == fresh_node(kind@, None, Some(value@), Seq::empty()),
{
    let r = AstNode {
        kind: kind.to_owned(),
        name: None,
        value: Some(value.to_owned()),
        span: None,
        children: Vec::new(),
        attrs: Vec::new(),
    };
    assert(r@.children =~= Seq::empty());
    assert(r@.attrs =~= Seq::empty());
    r
}

/// `ast::empty(kind)` — a node with no children and no value.
pub fn empty(kind: &str) -> (r: AstNode)
    ensures
        r@ == fresh_node(kind@, None, None, Seq::empty()),
{
    let r = AstNode {
        kind: kind.to_owned(),
        name: None,
        value: None,
        span: None,
        children: Vec::new(),
        attrs: Vec::new(),
    };
    assert(r@.children =~= Seq::empty());
    assert(r@.attrs =~= Seq::empty());
    r
}

/// `ast::named_node(name, kind, children)` — interior node with a role name, so that
/// a later pass can find it with `parent.get_named_child(name)`.
pub fn named_node(name: &str, kind: &str, children: Vec<AstNode>) -> (r: AstNode)
    ensures
        r@ == fresh_node(kind@, Some(name@), None, children_view(children@)),
{
    let r = AstNode {
        kind: kind.to_owned(),
        name: Some(name.to_owned()),
        value: None,
        span: None,
        children,
        attrs: Vec::new(),
    };
    assert(r@.children =~= children_view(children@));
    assert(r@.attrs =~= Seq::empty());
    r
}

/// `ast::named_leaf(name, kind, value)` — leaf node with a role name.
pub fn named_leaf(name: &str, kind: &str, value: &str) -> (r: AstNode)
    ensures
        r@ == fresh_node(kind@, Some(name@), Some(value@), Seq::empty()),
{
    let r = AstNode {
        kind: kind.to_owned(),
        name: Some(name.to_owned()),
        value: Some(value.to_owned()),
        span: None,
        children: Vec::new(),
        attrs: Vec::new(),
    };
    assert(r@.children =~= Seq::empty());
    assert(r@.attrs =~= Seq::empty());
    r
}

} // verus!
