//! The payloads of the syntax tree of a template: one type for each shape
//! of node. A child of a node is an [`AstNode`], a run of children is an
//! [`AstNodes`], and a child that may be absent is an `Option` of a node.

use vstd::prelude::*;
use crate::node::AstNode;
use crate::nodes::AstNodes;

verus! {

/// An arithmetic operator.
#[derive(Hash, Debug, Clone, Copy, PartialEq, Eq)]
pub enum Op {
    /// `+`
    Add,
    /// `-`
    Sub,
    /// `*`
    Mul,
    /// `/`
    Div,
    /// `%`
    Modulo,
}

/// A binary operator of comparison or logic.
#[derive(Copy, Clone, Debug, PartialEq)]
pub enum BinOp {
    /// `>`
    Gt,
    /// `>=`
    Gte,
    /// `<`
    Lt,
    /// `<=`
    Lte,
    /// `==`
    Eq,
    /// `!=`
    NotEq,
    /// `and`
    And,
    /// `or`
    Or,
    /// `in`
    In,
}

/// A unary operator.
#[derive(Copy, Clone, Debug, PartialEq)]
pub enum UnaryOp {
    /// `not`
    Not,
    /// `-`
    Neg,
}

/// A literal value.
#[derive(Clone, Debug, PartialEq)]
pub enum Lit {
    /// A boolean.
    Bool(bool),
    /// A floating-point number, held as the bits of its 64-bit encoding.
    Float(u64),
    /// An integer.
    Int(i64),
}

/// A literal in the place of an expression.
#[derive(Clone, Debug, PartialEq)]
pub struct LitExpr {
    pub lit: Lit,
}

/// An array of expressions.
#[derive(Debug, PartialEq)]
pub struct ArrayExpr {
    pub children: AstNodes<Expr>,
}

/// A binary operator applied to two expressions.
#[derive(Debug, PartialEq)]
pub struct BinExpr {
    pub lhs: AstNode<Expr>,
    pub rhs: AstNode<Expr>,
    pub op: AstNode<BinOp>,
}

/// An interned identifier.
pub type Identifier = u32;

/// A name.
#[derive(Clone, Debug, PartialEq)]
pub struct Name {
    pub data: Identifier,
}

/// A reference to another file or to a module, as in
/// `{% include "file" %}`.
#[derive(Clone, Debug, PartialEq)]
pub struct Path {
    pub data: String,
}

/// A variable in the place of an expression.
#[derive(Clone, Debug, PartialEq)]
pub struct VarExpr {
    pub var: Name,
}

/// A unary operator applied to an expression.
#[derive(Debug, PartialEq)]
pub struct UnaryExpr {
    pub op: AstNode<UnaryOp>,
    pub expr: AstNode<Expr>,
}

/// An argument of a call of a function, a filter or a tag. The name and
/// the value are never both absent.
#[derive(Debug, PartialEq)]
pub struct Arg {
    pub name: Option<AstNode<Name>>,
    pub value: Option<AstNode<Expr>>,
}

/// A call: the expression that is called, and the arguments.
#[derive(Debug, PartialEq)]
pub struct CallExpr {
    pub subject: AstNode<Expr>,
    pub args: AstNodes<Arg>,
}

/// A call of a macro of a namespace.
#[derive(Debug, PartialEq)]
pub struct MacroCallExpr {
    pub name: AstNode<Name>,
    pub namespace: AstNode<Name>,
    pub args: AstNodes<Arg>,
}

/// An expression with the filters that it is piped through.
#[derive(Debug, PartialEq)]
pub struct FilteredExpr {
    pub subject: AstNode<Expr>,
    pub filters: AstNodes<CallExpr>,
}

/// An expression.
#[derive(Debug, PartialEq)]
pub enum Expr {
    Unary(UnaryExpr),
    Lit(LitExpr),
    Array(ArrayExpr),
    Bin(BinExpr),
    Var(VarExpr),
    Call(CallExpr),
    MacroCall(MacroCallExpr),
    FilteredExpr(FilteredExpr),
}

/// A `block` tag, which a child template can override:
/// `{% block name %} ... {% endblock %}`.
#[derive(Debug, PartialEq)]
pub struct Block {
    pub label: Option<AstNode<Name>>,
    pub children: AstNodes<Statement>,
}

/// The definition of a macro: `{% macro name() %} ... {% endmacro %}`.
#[derive(Debug, PartialEq)]
pub struct MacroDef {
    pub name: AstNode<Name>,
    pub args: AstNodes<Name>,
    pub inner: AstNodes<Statement>,
}

/// The contents of another file, inserted into this template.
#[derive(Clone, Debug, PartialEq)]
pub struct Include {
    pub path: AstNode<Path>,
}

/// Another file that this template extends.
#[derive(Clone, Debug, PartialEq)]
pub struct Extends {
    pub path: AstNode<Path>,
}

/// An import of another file, under a name or without one.
#[derive(Clone, Debug, PartialEq)]
pub struct Import {
    pub path: AstNode<Path>,
    pub name: Option<AstNode<Name>>,
}

/// A tag that sets a value: `{% set x = 10 %}`, or
/// `{% with x = 10 %} ... {% endwith %}`.
#[derive(Debug, PartialEq)]
pub struct SetTag {
    pub name: AstNode<Name>,
    pub value: AstNode<Expr>,
}

/// The call `{{ super() }}` in a block.
#[derive(Clone, Debug, PartialEq)]
pub struct Super {}

/// A tag of any name with its arguments: a tag of the user's, or a built-in
/// one.
#[derive(Debug, PartialEq)]
pub struct Tag {
    pub name: AstNode<Name>,
    pub args: AstNodes<Arg>,
}

/// A hunk of text. The span of the node is the text.
#[derive(Clone, Debug, PartialEq)]
pub struct Text {}

/// An interpolated variable: `{{ var }}`.
#[derive(Clone, Debug, PartialEq)]
pub struct Var {
    pub identifier: AstNode<Name>,
}

/// The statements between an opening and a closing tag.
#[derive(Debug, PartialEq)]
pub struct Body {
    pub contents: AstNodes<Statement>,
}

/// One clause of a conditional: a condition, and the body that it guards.
#[derive(Debug, PartialEq)]
pub struct IfClause {
    pub condition: AstNode<Expr>,
    pub if_body: AstNode<Body>,
}

/// A conditional: its clauses, and the body of `else` if there is one.
#[derive(Debug, PartialEq)]
pub struct If {
    pub clauses: AstNodes<IfClause>,
    pub otherwise: Option<AstNode<Body>>,
}

/// A loop: `{% for key, value in ... %} ... {% else %} ... {% endfor %}`.
#[derive(Debug, PartialEq)]
pub struct For {
    pub key: Option<AstNode<Name>>,
    pub value: AstNode<Name>,
    pub loop_body: AstNode<Body>,
    pub loop_empty: Option<AstNode<Body>>,
}

/// The tag that skips the rest of one turn of a loop.
#[derive(Clone, Debug, PartialEq)]
pub struct Continue {}

/// The tag that ends a loop.
#[derive(Clone, Debug, PartialEq)]
pub struct Break {}

/// Text that is not parsed: `{% raw %} ... {% endraw %}`.
#[derive(Clone, Debug, PartialEq)]
pub struct Raw {}

/// A comment: `{# ... #}`.
#[derive(Clone, Debug, PartialEq)]
pub struct Comment {}

/// A statement of a template.
#[derive(Debug, PartialEq)]
pub enum Statement {
    Super(Super),
    Text(Text),
    Var(Var),
    Tag(Tag),
    Block(Block),
    MacroDef(MacroDef),
    SetTag(SetTag),
    Include(Include),
    Extends(Extends),
    Import(Import),
    If(If),
    For(For),
    Continue(Continue),
    Break(Break),
    Raw(Raw),
    Comment(Comment),
}

/// A template: the root of a tree.
#[derive(Debug, PartialEq)]
pub struct Document {
    pub children: AstNodes<Statement>,
}

} // verus!
