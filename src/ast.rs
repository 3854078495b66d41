//! The syntax this library reads: script expressions, template nodes and the
//! structural directives that open template scopes.

use vstd::prelude::*;

verus! {

/// An expression, or a binding pattern written with expression syntax.
pub enum Expr {
    Ident(String),
    /// A string literal, by its value; it names no identifier.
    Str(String),
    /// Any other literal, as written; it names no identifier.
    Lit(String),
    Object(Vec<PropOrSpread>),
    Array(Vec<Option<Expr>>),
    Paren(Box<Expr>),
    Sequence(Vec<Expr>),
    Call { callee: Box<Expr>, args: Vec<Expr> },
    Arrow { params: Vec<Expr>, body: Box<Expr> },
}

/// An entry of an object literal.
pub enum PropOrSpread {
    /// `{ a }`
    Shorthand(String),
    /// `{ key: value }`
    KeyValue { key: PropName, value: Box<Expr> },
    /// `{ ...e }`
    Spread(Box<Expr>),
}

/// The key of a key-value entry.
pub enum PropName {
    Ident(String),
    Str(String),
    Computed(Box<Expr>),
}

/// The `v-for` directive: `itervar in iterable`.
pub struct VForDirective {
    pub itervar: Expr,
    pub iterable: Expr,
}

/// The `v-slot` directive: `v-slot:name="value"`.
pub struct VSlotDirective {
    pub slot_name: Option<String>,
    pub value: Option<Expr>,
}

/// The structural directives of an element.
pub struct VueDirectives {
    pub v_for: Option<VForDirective>,
    pub v_slot: Option<VSlotDirective>,
}

pub struct StartingTag {
    pub tag_name: String,
    pub directives: Option<VueDirectives>,
}

pub struct ElementNode {
    pub starting_tag: StartingTag,
    pub children: Vec<Node>,
    /// The scope valid for this element and its children.
    pub template_scope: u32,
}

/// `{{ value }}`
pub struct Interpolation {
    pub value: Expr,
    /// The scope valid at this position.
    pub template_scope: u32,
}

/// A node of the template tree.
pub enum Node {
    Element(ElementNode),
    Interpolation(Interpolation),
    Text(String),
    Comment(String),
}

/// The names of a sequence of strings.
pub open spec fn names_of(v: Seq<String>) -> Seq<Seq<char>> {
    v.map_values(|s: String| s@)
}

/// The identifiers that an expression binds, left to right and outer to inner.
/// In an object literal only a shorthand entry or the identifier value of a
/// key-value entry binds a name; nothing inside it is visited further.
pub open spec fn bound_names(e: Expr) -> Seq<Seq<char>>
    decreases e,
{
    match e {
        Expr::Ident(n) => seq![n@],
        Expr::Str(_) => seq![],
        Expr::Lit(_) => seq![],
        Expr::Object(props) => object_bound_names(props@),
        Expr::Array(elems) => array_bound_names(elems@),
        Expr::Paren(inner) => bound_names(*inner),
        Expr::Sequence(exprs) => list_bound_names(exprs@),
        Expr::Call { callee, args } => bound_names(*callee) + list_bound_names(args@),
        Expr::Arrow { params, body } => list_bound_names(params@) + bound_names(*body),
    }
}

/// The names bound by each expression of `es`, in order.
pub open spec fn list_bound_names(es: Seq<Expr>) -> Seq<Seq<char>>
    decreases es,
{
    if es.len() == 0 {
        seq![]
    } else {
        list_bound_names(es.drop_last()) + bound_names(es.last())
    }
}

/// The names bound by each present element of an array pattern, in order.
pub open spec fn array_bound_names(es: Seq<Option<Expr>>) -> Seq<Seq<char>>
    decreases es,
{
    if es.len() == 0 {
        seq![]
    } else {
        array_bound_names(es.drop_last()) + match es.last() {
            Some(e) => bound_names(e),
            None => seq![],
        }
    }
}

/// The name that one object entry binds, if any.
pub open spec fn prop_bound_names(p: PropOrSpread) -> Seq<Seq<char>> {
    match p {
        PropOrSpread::Shorthand(n) => seq![n@],
        PropOrSpread::KeyValue { key: _, value } => match *value {
            Expr::Ident(n) => seq![n@],
            _ => seq![],
        },
        PropOrSpread::Spread(_) => seq![],
    }
}

/// The names that the entries of an object pattern bind, in order.
pub open spec fn object_bound_names(ps: Seq<PropOrSpread>) -> Seq<Seq<char>>
    decreases ps.len(),
{
    if ps.len() == 0 {
        seq![]
    } else {
        object_bound_names(ps.drop_last()) + prop_bound_names(ps.last())
    }
}

} // verus!
