//! Generic AST nodes: spans, key-value attributes and tree-structured nodes.
use vstd::prelude::*;

pub use crate::scanner::Scanner;
use crate::text::{debug_escaped, debug_quote, decimal, push_decimal, push_str, chars_equal};

verus! {

/// A half-open range of character offsets in the source text, plus the line/column
/// at the start.
#[derive(Debug, Clone, Copy, PartialEq, Eq)]
pub struct Span {
    /// Offset of the first character (inclusive).
    pub start: u64,
    /// Offset just past the last character (exclusive).
    pub end: u64,
    /// 1-based line number at `start`.
    pub line: u64,
    /// 1-based column number at `start`.
    pub col: u64,
}


/// A single key-value metadata entry attached to an `AstNode`.
#[derive(Debug)]
pub struct Attr {
    pub key: String,
    pub value: String,
}

pub ghost struct AttrView {
    pub key: Seq<char>,
    pub value: Seq<char>,
}

impl View for Attr {
    type V = AttrView;

    open spec fn view(&self) -> AttrView {
        AttrView { key: self.key@, value: self.value@ }
    }
}

impl Clone for Attr {
    fn clone(&self) -> (r: Self)
        ensures
            r == *self,
    {
        Attr { key: self.key.clone(), value: self.value.clone() }
    }
}

/// A generic, tree-structured AST node.
///
/// Leaf nodes carry a `value`; interior nodes carry `children`.
/// Every node has a `kind` string that identifies what syntactic construct it
/// represents (e.g. `"program"`, `"fn_def"`, `"binary_expr"`, `"ident"`).
///
/// The optional `name` field lets a parent label a child with a role name
/// (e.g. `"params"`, `"body"`) so that later passes can look children up by
/// name rather than by index.
#[derive(Debug)]
pub struct AstNode {
    /// The syntactic category of this node.
    pub kind: String,
    /// Role name of this node within its parent, if any.
    pub name: Option<String>,
    /// Terminal (leaf) value — present for token-level nodes.
    pub value: Option<String>,
    /// Source location, if tracked.
    pub span: Option<Span>,
    /// Child nodes.
    pub children: Vec<AstNode>,
    /// Arbitrary key-value metadata.
    pub attrs: Vec<Attr>,
}

/// The mathematical value of an `AstNode`: its strings as character sequences and its
/// children as values too.
pub ghost struct AstNodeView {
    pub kind: Seq<char>,
    pub name: Option<Seq<char>>,
    pub value: Option<Seq<char>>,
    pub span: Option<Span>,
    pub children: Seq<AstNodeView>,
    pub attrs: Seq<AttrView>,
}

pub open spec fn opt_chars(o: Option<String>) -> Option<Seq<char>> {
    match o {
        Some(s) => Some(s@),
        None => None,
    }
}

pub open spec fn node_view(n: AstNode) -> AstNodeView
    decreases n,
{
    AstNodeView {
        kind: n.kind@,
        name: opt_chars(n.name),
        value: opt_chars(n.value),
        span: n.span,
        children: Seq::new(
            n.children@.len(),
            |i: int|
                if 0 <= i < n.children@.len() {
                    node_view(n.children@[i])
                } else {
                    AstNodeView {
                        kind: Seq::empty(),
                        name: None,
                        value: None,
                        span: None,
                        children: Seq::empty(),
                        attrs: Seq::empty(),
                    }
                },
        ),
        attrs: Seq::new(n.attrs@.len(), |i: int| n.attrs@[i]@),
    }
}

impl View for AstNode {
    type V = AstNodeView;

    open spec fn view(&self) -> AstNodeView {
        node_view(*self)
    }
}

impl DeepView for AstNode {
    type V = AstNodeView;

    open spec fn deep_view(&self) -> AstNodeView {
        node_view(*self)
    }
}

/// The value of the first attribute whose key is `key`.
pub open spec fn attr_lookup(attrs: Seq<AttrView>, key: Seq<char>) -> Option<Seq<char>>
    decreases attrs.len(),
{
    if attrs.len() == 0 {
        None
    } else if attrs[0].key == key {
        Some(attrs[0].value)
    } else {
        attr_lookup(attrs.drop_first(), key)
    }
}

/// The first child whose role name is `name`.
pub open spec fn named_lookup(children: Seq<AstNodeView>, name: Seq<char>) -> Option<AstNodeView>
    decreases children.len(),
{
    if children.len() == 0 {
        None
    } else if children[0].name == Some(name) {
        Some(children[0])
    } else {
        named_lookup(children.drop_first(), name)
    }
}

impl AstNodeView {
    pub open spec fn with_span(self, span: Span) -> AstNodeView {
        AstNodeView { span: Some(span), ..self }
    }

    pub open spec fn with_attr(self, key: Seq<char>, value: Seq<char>) -> AstNodeView {
        AstNodeView { attrs: self.attrs.push(AttrView { key, value }), ..self }
    }

    pub open spec fn with_name(self, name: Seq<char>) -> AstNodeView {
        AstNodeView { name: Some(name), ..self }
    }

    pub open spec fn with_child(self, child: AstNodeView) -> AstNodeView {
        AstNodeView { children: self.children.push(child), ..self }
    }

    /// `kind("value")` for a leaf, `kind[n]` (with `n` children) otherwise.
    pub open spec fn display(self) -> Seq<char> {
        match self.value {
            Some(v) => self.kind + "("@ + debug_escaped(v) + ")"@,
            None => self.kind + "["@ + decimal(self.children.len()) + "]"@,
        }
    }

    pub open spec fn attr(self, key: Seq<char>) -> Option<Seq<char>> {
        attr_lookup(self.attrs, key)
    }

    pub open spec fn named_child(self, name: Seq<char>) -> Option<AstNodeView> {
        named_lookup(self.children, name)
    }

    /// The child at `index`, if `index` is in range.
    pub open spec fn child_at(self, index: int) -> Option<AstNodeView> {
        if 0 <= index < self.children.len() {
            Some(self.children[index])
        } else {
            None
        }
    }
}

proof fn lemma_attr_lookup_skip(attrs: Seq<AttrView>, key: Seq<char>, i: int)
    requires
        0 <= i < attrs.len(),
        attrs[i].key != key,
    ensures
        attr_lookup(attrs.subrange(i, attrs.len() as int), key) == attr_lookup(
            attrs.subrange(i + 1, attrs.len() as int),
            key,
        ),
{
    assert(attrs.subrange(i, attrs.len() as int).drop_first() =~= attrs.subrange(
        i + 1,
        attrs.len() as int,
    ));
}

proof fn lemma_named_lookup_skip(children: Seq<AstNodeView>, name: Seq<char>, i: int)
    requires
        0 <= i < children.len(),
        children[i].name != Some(name),
    ensures
        named_lookup(children.subrange(i, children.len() as int), name) == named_lookup(
            children.subrange(i + 1, children.len() as int),
            name,
        ),
{
    assert(children.subrange(i, children.len() as int).drop_first() =~= children.subrange(
        i + 1,
        children.len() as int,
    ));
}

proof fn lemma_attr_lookup_push(attrs: Seq<AttrView>, x: AttrView, key: Seq<char>)
    ensures
        attr_lookup(attrs.push(x), key) == match attr_lookup(attrs, key) {
            Some(v) => Some(v),
            None => if x.key == key {
                Some(x.value)
            } else {
                None
            },
        },
    decreases attrs.len(),
{
    if attrs.len() > 0 {
        assert(attrs.push(x)[0] == attrs[0]);
        assert(attrs.push(x).drop_first() =~= attrs.drop_first().push(x));
        lemma_attr_lookup_push(attrs.drop_first(), x, key);
    } else {
        assert(attrs.push(x)[0] == x);
        assert(attrs.push(x).drop_first() =~= attrs);
    }
}

proof fn lemma_named_lookup_push(children: Seq<AstNodeView>, c: AstNodeView, name: Seq<char>)
    ensures
        named_lookup(children.push(c), name) == match named_lookup(children, name) {
            Some(v) => Some(v),
            None => if c.name == Some(name) {
                Some(c)
            } else {
                None
            },
        },
    decreases children.len(),
{
    if children.len() > 0 {
        assert(children.push(c)[0] == children[0]);
        assert(children.push(c).drop_first() =~= children.drop_first().push(c));
        lemma_named_lookup_push(children.drop_first(), c, name);
    } else {
        assert(children.push(c)[0] == c);
        assert(children.push(c).drop_first() =~= children);
    }
}

/// A child appended with `add_child` is what `get_child` returns at the index that
/// `child_count` gave before; the children before it are unchanged.
pub proof fn law_add_child_then_get_child(n: AstNodeView, c: AstNodeView)
    ensures
        n.with_child(c).children.len() == n.children.len() + 1,
        n.with_child(c).child_at(n.children.len() as int) == Some(c),
        forall|i: int|
            0 <= i < n.children.len() ==> #[trigger] n.with_child(c).child_at(i) == n.child_at(i),
{
}

/// After `with_attr(key, value)`, `get_attr(key)` gives `value` when the key was not
/// there before, and the earlier value otherwise (the first entry wins); other keys are
/// unaffected.
pub proof fn law_with_attr_then_get_attr(
    n: AstNodeView,
    key: Seq<char>,
    value: Seq<char>,
    other: Seq<char>,
)
    ensures
        n.with_attr(key, value).attr(key) == match n.attr(key) {
            Some(v) => Some(v),
            None => Some(value),
        },
        other != key ==> n.with_attr(key, value).attr(other) == n.attr(other),
{
    lemma_attr_lookup_push(n.attrs, AttrView { key, value }, key);
    lemma_attr_lookup_push(n.attrs, AttrView { key, value }, other);
}

/// A child labelled with `with_name(name)` and appended with `add_child` is what
/// `get_named_child(name)` finds, unless an earlier child already has that name.
pub proof fn law_named_child_found(n: AstNodeView, c: AstNodeView, name: Seq<char>)
    ensures
        n.with_child(c.with_name(name)).named_child(name) == match n.named_child(name) {
            Some(v) => Some(v),
            None => Some(c.with_name(name)),
        },
{
    lemma_named_lookup_push(n.children, c.with_name(name), name);
}

/// The builders touch only their own field: a span, an attribute, a name or a child
/// added to a node leaves its kind, value and the rest as they were.
pub proof fn law_builders_keep_kind(n: AstNodeView, sp: Span, k: Seq<char>, v: Seq<char>, c: AstNodeView)
    ensures
        n.with_span(sp).kind == n.kind && n.with_span(sp).display() == n.display(),
        n.with_attr(k, v).kind == n.kind && n.with_attr(k, v).display() == n.display(),
        n.with_name(k).kind == n.kind && n.with_name(k).display() == n.display(),
        n.with_child(c).kind == n.kind && n.with_child(c).value == n.value,
{
}

fn copy_opt_string(o: &Option<String>) -> (r: Option<String>)
    ensures
        opt_chars(r) == opt_chars(*o),
{
    match o {
        Some(s) => Some(s.clone()),
        None => None,
    }
}

impl Clone for AstNode {
    fn clone(&self) -> (r: Self)
        ensures
            r@ == self@,
    {
        self.duplicate()
    }
}

impl AstNode {
    /// A deep copy of this node.
    pub(crate) fn duplicate(&self) -> (r: AstNode)
        ensures
            r@ == self@,
        decreases self,
    {
        let mut children: Vec<AstNode> = Vec::new();
        let mut i: usize = 0;
        while i < self.children.len()
            invariant
                i <= self.children@.len(),
                children@.len() == i,
                forall|j: int| 0 <= j < i ==> (#[trigger] children@[j])@ == self.children@[j]@,
            decreases self.children@.len() - i,
        {
            let c = self.children[i].duplicate();
            children.push(c);
            i += 1;
        }
        let mut attrs: Vec<Attr> = Vec::new();
        let mut k: usize = 0;
        while k < self.attrs.len()
            invariant
                k <= self.attrs@.len(),
                attrs@.len() == k,
                forall|j: int| 0 <= j < k ==> (#[trigger] attrs@[j])@ == self.attrs@[j]@,
            decreases self.attrs@.len() - k,
        {
            attrs.push(self.attrs[k].clone());
            k += 1;
        }
        let r = AstNode {
            kind: self.kind.clone(),
            name: copy_opt_string(&self.name),
            value: copy_opt_string(&self.value),
            span: self.span,
            children,
            attrs,
        };
        assert(r@.children =~= self@.children);
        assert(r@.attrs =~= self@.attrs);
        r
    }

    // ── Builder methods (take ownership, return Self) ─────────────────────
    /// Attach a source span to this node.
    pub fn with_span(self, span: Span) -> (r: Self)
        ensures
            r@ == self@.with_span(span),
    {
        let mut n = self;
        n.span = Some(span);
        assert(n@.children =~= self@.children);
        assert(n@.attrs =~= self@.attrs);
        n
    }

    /// Add a single key-value attribute.
    pub fn with_attr(self, key: &str, value: &str) -> (r: Self)
        ensures
            r@ == self@.with_attr(key@, value@),
    {
        let mut n = self;
        n.attrs.push(Attr { key: key.to_owned(), value: value.to_owned() });
        assert(n@.children =~= self@.children);
        assert(n@.attrs =~= self@.attrs.push(AttrView { key: key@, value: value@ }));
        n
    }

    /// Set the role name of this node within its parent.
    pub fn with_name(self, name: &str) -> (r: Self)
        ensures
            r@ == self@.with_name(name@),
    {
        let mut n = self;
        n.name = Some(name.to_owned());
        assert(n@.children =~= self@.children);
        assert(n@.attrs =~= self@.attrs);
        n
    }

    /// Append one child node.
    pub fn add_child(self, child: AstNode) -> (r: Self)
        ensures
            r@ == self@.with_child(child@),
    {
        let mut n = self;
        n.children.push(child);
        assert(n@.children =~= self@.children.push(child@));
        assert(n@.attrs =~= self@.attrs);
        n
    }

    // ── Query methods ─────────────────────────────────────────────────────
    /// Return a short human-readable summary.
    pub fn display(&self) -> (r: String)
        ensures
            r@ == self@.display(),
    {
        let mut out = String::new();
        push_str(&mut out, self.kind.as_str());
        match &self.value {
            Some(v) => {
                push_str(&mut out, "(");
                let q = debug_quote(v.as_str());
                push_str(&mut out, q.as_str());
                push_str(&mut out, ")");
            },
            None => {
                push_str(&mut out, "[");
                push_decimal(&mut out, self.children.len() as u64);
                push_str(&mut out, "]");
            },
        }
        assert(out@ =~= self@.display());
        out
    }

    /// Number of direct children.
    pub fn child_count(&self) -> (r: i64)
        ensures
            r == self.children@.len() as i64,
            r == self@.children.len() as i64,
    {
        self.children.len() as i64
    }

    /// Look up an attribute value by key.
    pub fn get_attr(&self, key: &str) -> (r: Option<String>)
        ensures
            opt_chars(r) == self@.attr(key@),
    {
        let ghost attrs = self@.attrs;
        let mut i: usize = 0;
        assert(attrs.subrange(0, attrs.len() as int) =~= attrs);
        while i < self.attrs.len()
            invariant
                attrs == self@.attrs,
                attrs.len() == self.attrs@.len(),
                i <= attrs.len(),
                attr_lookup(attrs.subrange(i as int, attrs.len() as int), key@) == attr_lookup(
                    attrs,
                    key@,
                ),
            decreases attrs.len() - i,
        {
            let a = &self.attrs[i];
            if chars_equal(a.key.as_str(), key) {
                assert(attrs[i as int] == a@);
                return Some(a.value.clone());
            }
            proof {
                lemma_attr_lookup_skip(attrs, key@, i as int);
            }
            i += 1;
        }
        None
    }

    /// Find the first child whose `name` field equals `name`.
    pub fn get_named_child(&self, name: &str) -> (r: Option<AstNode>)
        ensures
            r.deep_view() == self@.named_child(name@),
    {
        let ghost children = self@.children;
        let mut i: usize = 0;
        assert(children.subrange(0, children.len() as int) =~= children);
        while i < self.children.len()
            invariant
                children == self@.children,
                children.len() == self.children@.len(),
                i <= children.len(),
                named_lookup(children.subrange(i as int, children.len() as int), name@)
                    == named_lookup(children, name@),
            decreases children.len() - i,
        {
            let c = &self.children[i];
            assert(children[i as int] == c@);
            let hit = match &c.name {
                Some(n) => chars_equal(n.as_str(), name),
                None => false,
            };
            if hit {
                return Some(c.duplicate());
            }
            proof {
                lemma_named_lookup_skip(children, name@, i as int);
            }
            i += 1;
        }
        None
    }

    /// Return the child at the given index, or `None` if out of range.
    pub fn get_child(&self, index: i64) -> (r: Option<AstNode>)
        ensures
            r.deep_view() == self@.child_at(index as int),
    {
        if index < 0 {
            return None;
        }
        if (index as u64) < (self.children.len() as u64) {
            let c = &self.children[index as usize];
            assert(self@.children[index as int] == c@);
            Some(c.duplicate())
        } else {
            None
        }
    }
}

} // verus!
