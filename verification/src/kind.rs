//! Views of a node of any shape: one case for each shape of node, for the
//! read view and for the mutable view, and the children of a node in source
//! order.

use vstd::prelude::*;
use crate::ident::AstNodeId;
use crate::node::{AstNode, AstNodeRef, AstNodeRefMut};
use crate::nodes::AstNodes;
use crate::tree::{
    Arg, ArrayExpr, BinExpr, BinOp, Block, Body, Break, CallExpr, Comment, Continue, Document,
    Expr, Extends, FilteredExpr, For, If, IfClause, Import, Include, Lit, LitExpr, MacroCallExpr,
    MacroDef, Name, Op, Path, Raw, SetTag, Statement, Super, Tag, Text, UnaryExpr, UnaryOp, Var,
    VarExpr,
};

verus! {

/// A read view of a node of any shape.
#[derive(Debug, Clone, Copy)]
pub enum AstRef<'t> {
    /// An arithmetic operator.
    Op(AstNodeRef<'t, Op>),
    /// A binary operator of comparison or logic.
    BinOp(AstNodeRef<'t, BinOp>),
    /// A unary operator.
    UnaryOp(AstNodeRef<'t, UnaryOp>),
    /// A literal value.
    Lit(AstNodeRef<'t, Lit>),
    /// A literal in the place of an expression.
    LitExpr(AstNodeRef<'t, LitExpr>),
    /// An array of expressions.
    ArrayExpr(AstNodeRef<'t, ArrayExpr>),
    /// A binary operator applied to two expressions.
    BinExpr(AstNodeRef<'t, BinExpr>),
    /// A name.
    Name(AstNodeRef<'t, Name>),
    /// A reference to another file or to a module.
    Path(AstNodeRef<'t, Path>),
    /// A variable in the place of an expression.
    VarExpr(AstNodeRef<'t, VarExpr>),
    /// A unary operator applied to an expression.
    UnaryExpr(AstNodeRef<'t, UnaryExpr>),
    /// An argument of a call.
    Arg(AstNodeRef<'t, Arg>),
    /// A call.
    CallExpr(AstNodeRef<'t, CallExpr>),
    /// A call of a macro of a namespace.
    MacroCallExpr(AstNodeRef<'t, MacroCallExpr>),
    /// An expression with its filters.
    FilteredExpr(AstNodeRef<'t, FilteredExpr>),
    /// An expression.
    Expr(AstNodeRef<'t, Expr>),
    /// A `block` tag.
    Block(AstNodeRef<'t, Block>),
    /// The definition of a macro.
    MacroDef(AstNodeRef<'t, MacroDef>),
    /// An `include` tag.
    Include(AstNodeRef<'t, Include>),
    /// An `extends` tag.
    Extends(AstNodeRef<'t, Extends>),
    /// An `import` tag.
    Import(AstNodeRef<'t, Import>),
    /// A tag that sets a value.
    SetTag(AstNodeRef<'t, SetTag>),
    /// The call of `super`.
    Super(AstNodeRef<'t, Super>),
    /// A tag of any name.
    Tag(AstNodeRef<'t, Tag>),
    /// A hunk of text.
    Text(AstNodeRef<'t, Text>),
    /// An interpolated variable.
    Var(AstNodeRef<'t, Var>),
    /// The statements between two tags.
    Body(AstNodeRef<'t, Body>),
    /// One clause of a conditional.
    IfClause(AstNodeRef<'t, IfClause>),
    /// A conditional.
    If(AstNodeRef<'t, If>),
    /// A loop.
    For(AstNodeRef<'t, For>),
    /// The tag that skips the rest of one turn of a loop.
    Continue(AstNodeRef<'t, Continue>),
    /// The tag that ends a loop.
    Break(AstNodeRef<'t, Break>),
    /// Text that is not parsed.
    Raw(AstNodeRef<'t, Raw>),
    /// A comment.
    Comment(AstNodeRef<'t, Comment>),
    /// A statement.
    Statement(AstNodeRef<'t, Statement>),
    /// A template.
    Document(AstNodeRef<'t, Document>),
}

/// The mutable view of a node of any shape.
#[derive(Debug)]
pub enum AstRefMut<'t> {
    /// An arithmetic operator.
    Op(AstNodeRefMut<'t, Op>),
    /// A binary operator of comparison or logic.
    BinOp(AstNodeRefMut<'t, BinOp>),
    /// A unary operator.
    UnaryOp(AstNodeRefMut<'t, UnaryOp>),
    /// A literal value.
    Lit(AstNodeRefMut<'t, Lit>),
    /// A literal in the place of an expression.
    LitExpr(AstNodeRefMut<'t, LitExpr>),
    /// An array of expressions.
    ArrayExpr(AstNodeRefMut<'t, ArrayExpr>),
    /// A binary operator applied to two expressions.
    BinExpr(AstNodeRefMut<'t, BinExpr>),
    /// A name.
    Name(AstNodeRefMut<'t, Name>),
    /// A reference to another file or to a module.
    Path(AstNodeRefMut<'t, Path>),
    /// A variable in the place of an expression.
    VarExpr(AstNodeRefMut<'t, VarExpr>),
    /// A unary operator applied to an expression.
    UnaryExpr(AstNodeRefMut<'t, UnaryExpr>),
    /// An argument of a call.
    Arg(AstNodeRefMut<'t, Arg>),
    /// A call.
    CallExpr(AstNodeRefMut<'t, CallExpr>),
    /// A call of a macro of a namespace.
    MacroCallExpr(AstNodeRefMut<'t, MacroCallExpr>),
    /// An expression with its filters.
    FilteredExpr(AstNodeRefMut<'t, FilteredExpr>),
    /// An expression.
    Expr(AstNodeRefMut<'t, Expr>),
    /// A `block` tag.
    Block(AstNodeRefMut<'t, Block>),
    /// The definition of a macro.
    MacroDef(AstNodeRefMut<'t, MacroDef>),
    /// An `include` tag.
    Include(AstNodeRefMut<'t, Include>),
    /// An `extends` tag.
    Extends(AstNodeRefMut<'t, Extends>),
    /// An `import` tag.
    Import(AstNodeRefMut<'t, Import>),
    /// A tag that sets a value.
    SetTag(AstNodeRefMut<'t, SetTag>),
    /// The call of `super`.
    Super(AstNodeRefMut<'t, Super>),
    /// A tag of any name.
    Tag(AstNodeRefMut<'t, Tag>),
    /// A hunk of text.
    Text(AstNodeRefMut<'t, Text>),
    /// An interpolated variable.
    Var(AstNodeRefMut<'t, Var>),
    /// The statements between two tags.
    Body(AstNodeRefMut<'t, Body>),
    /// One clause of a conditional.
    IfClause(AstNodeRefMut<'t, IfClause>),
    /// A conditional.
    If(AstNodeRefMut<'t, If>),
    /// A loop.
    For(AstNodeRefMut<'t, For>),
    /// The tag that skips the rest of one turn of a loop.
    Continue(AstNodeRefMut<'t, Continue>),
    /// The tag that ends a loop.
    Break(AstNodeRefMut<'t, Break>),
    /// Text that is not parsed.
    Raw(AstNodeRefMut<'t, Raw>),
    /// A comment.
    Comment(AstNodeRefMut<'t, Comment>),
    /// A statement.
    Statement(AstNodeRefMut<'t, Statement>),
    /// A template.
    Document(AstNodeRefMut<'t, Document>),
}

/// A shape of node: a payload type whose views have a case in [`AstRef`]
/// and in [`AstRefMut`].
pub trait AstKind: Sized {
    /// The view `view` as a view of a node of any shape.
    spec fn as_any<'t>(view: AstNodeRef<'t, Self>) -> AstRef<'t>;

    /// Wraps `view` into the case of its shape.
    fn wrap<'t>(view: AstNodeRef<'t, Self>) -> (any: AstRef<'t>)
        ensures
            any == Self::as_any(view),
    ;

    /// Wraps `view` into the case of its shape. The result is a view of
    /// the same payload: it shows what `view` shows, and what is written
    /// through it is written through `view`.
    fn wrap_mut<'t>(view: AstNodeRefMut<'t, Self>) -> (any: AstRefMut<'t>)
        ensures
            any.shown() == Self::as_any(AstNodeRef { body: &*old(view.body), id: view.id }),
            Self::as_any(AstNodeRef { body: &*final(view.body), id: view.id }) == (match any {
                AstRefMut::Op(inner) => AstRef::Op(AstNodeRef {
                    body: &*final(inner.body),
                    id: inner.id,
                }),
                AstRefMut::BinOp(inner) => AstRef::BinOp(AstNodeRef {
                    body: &*final(inner.body),
                    id: inner.id,
                }),
                AstRefMut::UnaryOp(inner) => AstRef::UnaryOp(AstNodeRef {
                    body: &*final(inner.body),
                    id: inner.id,
                }),
                AstRefMut::Lit(inner) => AstRef::Lit(AstNodeRef {
                    body: &*final(inner.body),
                    id: inner.id,
                }),
                AstRefMut::LitExpr(inner) => AstRef::LitExpr(AstNodeRef {
                    body: &*final(inner.body),
                    id: inner.id,
                }),
                AstRefMut::ArrayExpr(inner) => AstRef::ArrayExpr(AstNodeRef {
                    body: &*final(inner.body),
                    id: inner.id,
                }),
                AstRefMut::BinExpr(inner) => AstRef::BinExpr(AstNodeRef {
                    body: &*final(inner.body),
                    id: inner.id,
                }),
                AstRefMut::Name(inner) => AstRef::Name(AstNodeRef {
                    body: &*final(inner.body),
                    id: inner.id,
                }),
                AstRefMut::Path(inner) => AstRef::Path(AstNodeRef {
                    body: &*final(inner.body),
                    id: inner.id,
                }),
                AstRefMut::VarExpr(inner) => AstRef::VarExpr(AstNodeRef {
                    body: &*final(inner.body),
                    id: inner.id,
                }),
                AstRefMut::UnaryExpr(inner) => AstRef::UnaryExpr(AstNodeRef {
                    body: &*final(inner.body),
                    id: inner.id,
                }),
                AstRefMut::Arg(inner) => AstRef::Arg(AstNodeRef {
                    body: &*final(inner.body),
                    id: inner.id,
                }),
                AstRefMut::CallExpr(inner) => AstRef::CallExpr(AstNodeRef {
                    body: &*final(inner.body),
                    id: inner.id,
                }),
                AstRefMut::MacroCallExpr(inner) => AstRef::MacroCallExpr(AstNodeRef {
                    body: &*final(inner.body),
                    id: inner.id,
                }),
                AstRefMut::FilteredExpr(inner) => AstRef::FilteredExpr(AstNodeRef {
                    body: &*final(inner.body),
                    id: inner.id,
                }),
                AstRefMut::Expr(inner) => AstRef::Expr(AstNodeRef {
                    body: &*final(inner.body),
                    id: inner.id,
                }),
                AstRefMut::Block(inner) => AstRef::Block(AstNodeRef {
                    body: &*final(inner.body),
                    id: inner.id,
                }),
                AstRefMut::MacroDef(inner) => AstRef::MacroDef(AstNodeRef {
                    body: &*final(inner.body),
                    id: inner.id,
                }),
                AstRefMut::Include(inner) => AstRef::Include(AstNodeRef {
                    body: &*final(inner.body),
                    id: inner.id,
                }),
                AstRefMut::Extends(inner) => AstRef::Extends(AstNodeRef {
                    body: &*final(inner.body),
                    id: inner.id,
                }),
                AstRefMut::Import(inner) => AstRef::Import(AstNodeRef {
                    body: &*final(inner.body),
                    id: inner.id,
                }),
                AstRefMut::SetTag(inner) => AstRef::SetTag(AstNodeRef {
                    body: &*final(inner.body),
                    id: inner.id,
                }),
                AstRefMut::Super(inner) => AstRef::Super(AstNodeRef {
                    body: &*final(inner.body),
                    id: inner.id,
                }),
                AstRefMut::Tag(inner) => AstRef::Tag(AstNodeRef {
                    body: &*final(inner.body),
                    id: inner.id,
                }),
                AstRefMut::Text(inner) => AstRef::Text(AstNodeRef {
                    body: &*final(inner.body),
                    id: inner.id,
                }),
                AstRefMut::Var(inner) => AstRef::Var(AstNodeRef {
                    body: &*final(inner.body),
                    id: inner.id,
                }),
                AstRefMut::Body(inner) => AstRef::Body(AstNodeRef {
                    body: &*final(inner.body),
                    id: inner.id,
                }),
                AstRefMut::IfClause(inner) => AstRef::IfClause(AstNodeRef {
                    body: &*final(inner.body),
                    id: inner.id,
                }),
                AstRefMut::If(inner) => AstRef::If(AstNodeRef {
                    body: &*final(inner.body),
                    id: inner.id,
                }),
                AstRefMut::For(inner) => AstRef::For(AstNodeRef {
                    body: &*final(inner.body),
                    id: inner.id,
                }),
                AstRefMut::Continue(inner) => AstRef::Continue(AstNodeRef {
                    body: &*final(inner.body),
                    id: inner.id,
                }),
                AstRefMut::Break(inner) => AstRef::Break(AstNodeRef {
                    body: &*final(inner.body),
                    id: inner.id,
                }),
                AstRefMut::Raw(inner) => AstRef::Raw(AstNodeRef {
                    body: &*final(inner.body),
                    id: inner.id,
                }),
                AstRefMut::Comment(inner) => AstRef::Comment(AstNodeRef {
                    body: &*final(inner.body),
                    id: inner.id,
                }),
                AstRefMut::Statement(inner) => AstRef::Statement(AstNodeRef {
                    body: &*final(inner.body),
                    id: inner.id,
                }),
                AstRefMut::Document(inner) => AstRef::Document(AstNodeRef {
                    body: &*final(inner.body),
                    id: inner.id,
                }),
            }),
    ;
}

impl AstKind for Op {
    open spec fn as_any<'t>(view: AstNodeRef<'t, Op>) -> AstRef<'t> {
        AstRef::Op(view)
    }

    fn wrap<'t>(view: AstNodeRef<'t, Op>) -> (any: AstRef<'t>) {
        AstRef::Op(view)
    }

    fn wrap_mut<'t>(view: AstNodeRefMut<'t, Op>) -> (any: AstRefMut<'t>) {
        AstRefMut::Op(view)
    }
}

impl AstKind for BinOp {
    open spec fn as_any<'t>(view: AstNodeRef<'t, BinOp>) -> AstRef<'t> {
        AstRef::BinOp(view)
    }

    fn wrap<'t>(view: AstNodeRef<'t, BinOp>) -> (any: AstRef<'t>) {
        AstRef::BinOp(view)
    }

    fn wrap_mut<'t>(view: AstNodeRefMut<'t, BinOp>) -> (any: AstRefMut<'t>) {
        AstRefMut::BinOp(view)
    }
}

impl AstKind for UnaryOp {
    open spec fn as_any<'t>(view: AstNodeRef<'t, UnaryOp>) -> AstRef<'t> {
        AstRef::UnaryOp(view)
    }

    fn wrap<'t>(view: AstNodeRef<'t, UnaryOp>) -> (any: AstRef<'t>) {
        AstRef::UnaryOp(view)
    }

    fn wrap_mut<'t>(view: AstNodeRefMut<'t, UnaryOp>) -> (any: AstRefMut<'t>) {
        AstRefMut::UnaryOp(view)
    }
}

impl AstKind for Lit {
    open spec fn as_any<'t>(view: AstNodeRef<'t, Lit>) -> AstRef<'t> {
        AstRef::Lit(view)
    }

    fn wrap<'t>(view: AstNodeRef<'t, Lit>) -> (any: AstRef<'t>) {
        AstRef::Lit(view)
    }

    fn wrap_mut<'t>(view: AstNodeRefMut<'t, Lit>) -> (any: AstRefMut<'t>) {
        AstRefMut::Lit(view)
    }
}

impl AstKind for LitExpr {
    open spec fn as_any<'t>(view: AstNodeRef<'t, LitExpr>) -> AstRef<'t> {
        AstRef::LitExpr(view)
    }

    fn wrap<'t>(view: AstNodeRef<'t, LitExpr>) -> (any: AstRef<'t>) {
        AstRef::LitExpr(view)
    }

    fn wrap_mut<'t>(view: AstNodeRefMut<'t, LitExpr>) -> (any: AstRefMut<'t>) {
        AstRefMut::LitExpr(view)
    }
}

impl AstKind for ArrayExpr {
    open spec fn as_any<'t>(view: AstNodeRef<'t, ArrayExpr>) -> AstRef<'t> {
        AstRef::ArrayExpr(view)
    }

    fn wrap<'t>(view: AstNodeRef<'t, ArrayExpr>) -> (any: AstRef<'t>) {
        AstRef::ArrayExpr(view)
    }

    fn wrap_mut<'t>(view: AstNodeRefMut<'t, ArrayExpr>) -> (any: AstRefMut<'t>) {
        AstRefMut::ArrayExpr(view)
    }
}

impl AstKind for BinExpr {
    open spec fn as_any<'t>(view: AstNodeRef<'t, BinExpr>) -> AstRef<'t> {
        AstRef::BinExpr(view)
    }

    fn wrap<'t>(view: AstNodeRef<'t, BinExpr>) -> (any: AstRef<'t>) {
        AstRef::BinExpr(view)
    }

    fn wrap_mut<'t>(view: AstNodeRefMut<'t, BinExpr>) -> (any: AstRefMut<'t>) {
        AstRefMut::BinExpr(view)
    }
}

impl AstKind for Name {
    open spec fn as_any<'t>(view: AstNodeRef<'t, Name>) -> AstRef<'t> {
        AstRef::Name(view)
    }

    fn wrap<'t>(view: AstNodeRef<'t, Name>) -> (any: AstRef<'t>) {
        AstRef::Name(view)
    }

    fn wrap_mut<'t>(view: AstNodeRefMut<'t, Name>) -> (any: AstRefMut<'t>) {
        AstRefMut::Name(view)
    }
}

impl AstKind for Path {
    open spec fn as_any<'t>(view: AstNodeRef<'t, Path>) -> AstRef<'t> {
        AstRef::Path(view)
    }

    fn wrap<'t>(view: AstNodeRef<'t, Path>) -> (any: AstRef<'t>) {
        AstRef::Path(view)
    }

    fn wrap_mut<'t>(view: AstNodeRefMut<'t, Path>) -> (any: AstRefMut<'t>) {
        AstRefMut::Path(view)
    }
}

impl AstKind for VarExpr {
    open spec fn as_any<'t>(view: AstNodeRef<'t, VarExpr>) -> AstRef<'t> {
        AstRef::VarExpr(view)
    }

    fn wrap<'t>(view: AstNodeRef<'t, VarExpr>) -> (any: AstRef<'t>) {
        AstRef::VarExpr(view)
    }

    fn wrap_mut<'t>(view: AstNodeRefMut<'t, VarExpr>) -> (any: AstRefMut<'t>) {
        AstRefMut::VarExpr(view)
    }
}

impl AstKind for UnaryExpr {
    open spec fn as_any<'t>(view: AstNodeRef<'t, UnaryExpr>) -> AstRef<'t> {
        AstRef::UnaryExpr(view)
    }

    fn wrap<'t>(view: AstNodeRef<'t, UnaryExpr>) -> (any: AstRef<'t>) {
        AstRef::UnaryExpr(view)
    }

    fn wrap_mut<'t>(view: AstNodeRefMut<'t, UnaryExpr>) -> (any: AstRefMut<'t>) {
        AstRefMut::UnaryExpr(view)
    }
}

impl AstKind for Arg {
    open spec fn as_any<'t>(view: AstNodeRef<'t, Arg>) -> AstRef<'t> {
        AstRef::Arg(view)
    }

    fn wrap<'t>(view: AstNodeRef<'t, Arg>) -> (any: AstRef<'t>) {
        AstRef::Arg(view)
    }

    fn wrap_mut<'t>(view: AstNodeRefMut<'t, Arg>) -> (any: AstRefMut<'t>) {
        AstRefMut::Arg(view)
    }
}

impl AstKind for CallExpr {
    open spec fn as_any<'t>(view: AstNodeRef<'t, CallExpr>) -> AstRef<'t> {
        AstRef::CallExpr(view)
    }

    fn wrap<'t>(view: AstNodeRef<'t, CallExpr>) -> (any: AstRef<'t>) {
        AstRef::CallExpr(view)
    }

    fn wrap_mut<'t>(view: AstNodeRefMut<'t, CallExpr>) -> (any: AstRefMut<'t>) {
        AstRefMut::CallExpr(view)
    }
}

impl AstKind for MacroCallExpr {
    open spec fn as_any<'t>(view: AstNodeRef<'t, MacroCallExpr>) -> AstRef<'t> {
        AstRef::MacroCallExpr(view)
    }

    fn wrap<'t>(view: AstNodeRef<'t, MacroCallExpr>) -> (any: AstRef<'t>) {
        AstRef::MacroCallExpr(view)
    }

    fn wrap_mut<'t>(view: AstNodeRefMut<'t, MacroCallExpr>) -> (any: AstRefMut<'t>) {
        AstRefMut::MacroCallExpr(view)
    }
}

impl AstKind for FilteredExpr {
    open spec fn as_any<'t>(view: AstNodeRef<'t, FilteredExpr>) -> AstRef<'t> {
        AstRef::FilteredExpr(view)
    }

    fn wrap<'t>(view: AstNodeRef<'t, FilteredExpr>) -> (any: AstRef<'t>) {
        AstRef::FilteredExpr(view)
    }

    fn wrap_mut<'t>(view: AstNodeRefMut<'t, FilteredExpr>) -> (any: AstRefMut<'t>) {
        AstRefMut::FilteredExpr(view)
    }
}

impl AstKind for Expr {
    open spec fn as_any<'t>(view: AstNodeRef<'t, Expr>) -> AstRef<'t> {
        AstRef::Expr(view)
    }

    fn wrap<'t>(view: AstNodeRef<'t, Expr>) -> (any: AstRef<'t>) {
        AstRef::Expr(view)
    }

    fn wrap_mut<'t>(view: AstNodeRefMut<'t, Expr>) -> (any: AstRefMut<'t>) {
        AstRefMut::Expr(view)
    }
}

impl AstKind for Block {
    open spec fn as_any<'t>(view: AstNodeRef<'t, Block>) -> AstRef<'t> {
        AstRef::Block(view)
    }

    fn wrap<'t>(view: AstNodeRef<'t, Block>) -> (any: AstRef<'t>) {
        AstRef::Block(view)
    }

    fn wrap_mut<'t>(view: AstNodeRefMut<'t, Block>) -> (any: AstRefMut<'t>) {
        AstRefMut::Block(view)
    }
}

impl AstKind for MacroDef {
    open spec fn as_any<'t>(view: AstNodeRef<'t, MacroDef>) -> AstRef<'t> {
        AstRef::MacroDef(view)
    }

    fn wrap<'t>(view: AstNodeRef<'t, MacroDef>) -> (any: AstRef<'t>) {
        AstRef::MacroDef(view)
    }

    fn wrap_mut<'t>(view: AstNodeRefMut<'t, MacroDef>) -> (any: AstRefMut<'t>) {
        AstRefMut::MacroDef(view)
    }
}

impl AstKind for Include {
    open spec fn as_any<'t>(view: AstNodeRef<'t, Include>) -> AstRef<'t> {
        AstRef::Include(view)
    }

    fn wrap<'t>(view: AstNodeRef<'t, Include>) -> (any: AstRef<'t>) {
        AstRef::Include(view)
    }

    fn wrap_mut<'t>(view: AstNodeRefMut<'t, Include>) -> (any: AstRefMut<'t>) {
        AstRefMut::Include(view)
    }
}

impl AstKind for Extends {
    open spec fn as_any<'t>(view: AstNodeRef<'t, Extends>) -> AstRef<'t> {
        AstRef::Extends(view)
    }

    fn wrap<'t>(view: AstNodeRef<'t, Extends>) -> (any: AstRef<'t>) {
        AstRef::Extends(view)
    }

    fn wrap_mut<'t>(view: AstNodeRefMut<'t, Extends>) -> (any: AstRefMut<'t>) {
        AstRefMut::Extends(view)
    }
}

impl AstKind for Import {
    open spec fn as_any<'t>(view: AstNodeRef<'t, Import>) -> AstRef<'t> {
        AstRef::Import(view)
    }

    fn wrap<'t>(view: AstNodeRef<'t, Import>) -> (any: AstRef<'t>) {
        AstRef::Import(view)
    }

    fn wrap_mut<'t>(view: AstNodeRefMut<'t, Import>) -> (any: AstRefMut<'t>) {
        AstRefMut::Import(view)
    }
}

impl AstKind for SetTag {
    open spec fn as_any<'t>(view: AstNodeRef<'t, SetTag>) -> AstRef<'t> {
        AstRef::SetTag(view)
    }

    fn wrap<'t>(view: AstNodeRef<'t, SetTag>) -> (any: AstRef<'t>) {
        AstRef::SetTag(view)
    }

    fn wrap_mut<'t>(view: AstNodeRefMut<'t, SetTag>) -> (any: AstRefMut<'t>) {
        AstRefMut::SetTag(view)
    }
}

impl AstKind for Super {
    open spec fn as_any<'t>(view: AstNodeRef<'t, Super>) -> AstRef<'t> {
        AstRef::Super(view)
    }

    fn wrap<'t>(view: AstNodeRef<'t, Super>) -> (any: AstRef<'t>) {
        AstRef::Super(view)
    }

    fn wrap_mut<'t>(view: AstNodeRefMut<'t, Super>) -> (any: AstRefMut<'t>) {
        AstRefMut::Super(view)
    }
}

impl AstKind for Tag {
    open spec fn as_any<'t>(view: AstNodeRef<'t, Tag>) -> AstRef<'t> {
        AstRef::Tag(view)
    }

    fn wrap<'t>(view: AstNodeRef<'t, Tag>) -> (any: AstRef<'t>) {
        AstRef::Tag(view)
    }

    fn wrap_mut<'t>(view: AstNodeRefMut<'t, Tag>) -> (any: AstRefMut<'t>) {
        AstRefMut::Tag(view)
    }
}

impl AstKind for Text {
    open spec fn as_any<'t>(view: AstNodeRef<'t, Text>) -> AstRef<'t> {
        AstRef::Text(view)
    }

    fn wrap<'t>(view: AstNodeRef<'t, Text>) -> (any: AstRef<'t>) {
        AstRef::Text(view)
    }

    fn wrap_mut<'t>(view: AstNodeRefMut<'t, Text>) -> (any: AstRefMut<'t>) {
        AstRefMut::Text(view)
    }
}

impl AstKind for Var {
    open spec fn as_any<'t>(view: AstNodeRef<'t, Var>) -> AstRef<'t> {
        AstRef::Var(view)
    }

    fn wrap<'t>(view: AstNodeRef<'t, Var>) -> (any: AstRef<'t>) {
        AstRef::Var(view)
    }

    fn wrap_mut<'t>(view: AstNodeRefMut<'t, Var>) -> (any: AstRefMut<'t>) {
        AstRefMut::Var(view)
    }
}

impl AstKind for Body {
    open spec fn as_any<'t>(view: AstNodeRef<'t, Body>) -> AstRef<'t> {
        AstRef::Body(view)
    }

    fn wrap<'t>(view: AstNodeRef<'t, Body>) -> (any: AstRef<'t>) {
        AstRef::Body(view)
    }

    fn wrap_mut<'t>(view: AstNodeRefMut<'t, Body>) -> (any: AstRefMut<'t>) {
        AstRefMut::Body(view)
    }
}

impl AstKind for IfClause {
    open spec fn as_any<'t>(view: AstNodeRef<'t, IfClause>) -> AstRef<'t> {
        AstRef::IfClause(view)
    }

    fn wrap<'t>(view: AstNodeRef<'t, IfClause>) -> (any: AstRef<'t>) {
        AstRef::IfClause(view)
    }

    fn wrap_mut<'t>(view: AstNodeRefMut<'t, IfClause>) -> (any: AstRefMut<'t>) {
        AstRefMut::IfClause(view)
    }
}

impl AstKind for If {
    open spec fn as_any<'t>(view: AstNodeRef<'t, If>) -> AstRef<'t> {
        AstRef::If(view)
    }

    fn wrap<'t>(view: AstNodeRef<'t, If>) -> (any: AstRef<'t>) {
        AstRef::If(view)
    }

    fn wrap_mut<'t>(view: AstNodeRefMut<'t, If>) -> (any: AstRefMut<'t>) {
        AstRefMut::If(view)
    }
}

impl AstKind for For {
    open spec fn as_any<'t>(view: AstNodeRef<'t, For>) -> AstRef<'t> {
        AstRef::For(view)
    }

    fn wrap<'t>(view: AstNodeRef<'t, For>) -> (any: AstRef<'t>) {
        AstRef::For(view)
    }

    fn wrap_mut<'t>(view: AstNodeRefMut<'t, For>) -> (any: AstRefMut<'t>) {
        AstRefMut::For(view)
    }
}

impl AstKind for Continue {
    open spec fn as_any<'t>(view: AstNodeRef<'t, Continue>) -> AstRef<'t> {
        AstRef::Continue(view)
    }

    fn wrap<'t>(view: AstNodeRef<'t, Continue>) -> (any: AstRef<'t>) {
        AstRef::Continue(view)
    }

    fn wrap_mut<'t>(view: AstNodeRefMut<'t, Continue>) -> (any: AstRefMut<'t>) {
        AstRefMut::Continue(view)
    }
}

impl AstKind for Break {
    open spec fn as_any<'t>(view: AstNodeRef<'t, Break>) -> AstRef<'t> {
        AstRef::Break(view)
    }

    fn wrap<'t>(view: AstNodeRef<'t, Break>) -> (any: AstRef<'t>) {
        AstRef::Break(view)
    }

    fn wrap_mut<'t>(view: AstNodeRefMut<'t, Break>) -> (any: AstRefMut<'t>) {
        AstRefMut::Break(view)
    }
}

impl AstKind for Raw {
    open spec fn as_any<'t>(view: AstNodeRef<'t, Raw>) -> AstRef<'t> {
        AstRef::Raw(view)
    }

    fn wrap<'t>(view: AstNodeRef<'t, Raw>) -> (any: AstRef<'t>) {
        AstRef::Raw(view)
    }

    fn wrap_mut<'t>(view: AstNodeRefMut<'t, Raw>) -> (any: AstRefMut<'t>) {
        AstRefMut::Raw(view)
    }
}

impl AstKind for Comment {
    open spec fn as_any<'t>(view: AstNodeRef<'t, Comment>) -> AstRef<'t> {
        AstRef::Comment(view)
    }

    fn wrap<'t>(view: AstNodeRef<'t, Comment>) -> (any: AstRef<'t>) {
        AstRef::Comment(view)
    }

    fn wrap_mut<'t>(view: AstNodeRefMut<'t, Comment>) -> (any: AstRefMut<'t>) {
        AstRefMut::Comment(view)
    }
}

impl AstKind for Statement {
    open spec fn as_any<'t>(view: AstNodeRef<'t, Statement>) -> AstRef<'t> {
        AstRef::Statement(view)
    }

    fn wrap<'t>(view: AstNodeRef<'t, Statement>) -> (any: AstRef<'t>) {
        AstRef::Statement(view)
    }

    fn wrap_mut<'t>(view: AstNodeRefMut<'t, Statement>) -> (any: AstRefMut<'t>) {
        AstRefMut::Statement(view)
    }
}

impl AstKind for Document {
    open spec fn as_any<'t>(view: AstNodeRef<'t, Document>) -> AstRef<'t> {
        AstRef::Document(view)
    }

    fn wrap<'t>(view: AstNodeRef<'t, Document>) -> (any: AstRef<'t>) {
        AstRef::Document(view)
    }

    fn wrap_mut<'t>(view: AstNodeRefMut<'t, Document>) -> (any: AstRefMut<'t>) {
        AstRefMut::Document(view)
    }
}

/// The view of one child.
pub open spec fn of_child<'t, T: AstKind>(child: &'t AstNode<T>) -> Seq<AstRef<'t>> {
    seq![T::as_any(child.shown())]
}

/// The view of a child that may be absent: of none, nothing.
pub open spec fn of_optional<'t, T: AstKind>(child: &'t Option<AstNode<T>>) -> Seq<AstRef<'t>> {
    match child {
        Some(node) => seq![T::as_any(node.shown())],
        None => Seq::empty(),
    }
}

/// The views of the nodes of a list, in the order of the list.
pub open spec fn of_list<'t, T: AstKind>(list: &'t AstNodes<T>) -> Seq<AstRef<'t>> {
    Seq::new(list.nodes@.len(), |i: int| T::as_any(list.nodes@[i].shown()))
}

/// Whether the child `after` is the child `before` but for its payload:
/// it has the same identity.
pub open spec fn same_child<T>(before: &AstNode<T>, after: &AstNode<T>) -> bool {
    after.id == before.id
}

/// Whether the child `after` is the child `before` but for its payload:
/// both are absent, or both are there under the same identity.
pub open spec fn same_optional<T>(before: &Option<AstNode<T>>, after: &Option<AstNode<T>>) -> bool {
    match (before, after) {
        (Some(old_node), Some(new_node)) => new_node.id == old_node.id,
        (None, None) => true,
        _ => false,
    }
}

/// Whether the list `after` is the list `before` but for the payloads of
/// its nodes: the list has the same identity and the same length, and the
/// node at each place has the same identity.
pub open spec fn same_list<T>(before: &AstNodes<T>, after: &AstNodes<T>) -> bool {
    &&& after.id == before.id
    &&& after.nodes@.len() == before.nodes@.len()
    &&& forall|i: int|
        0 <= i < before.nodes@.len() ==> (#[trigger] after.nodes@[i]).id == before.nodes@[i].id
}

fn push_child<'t, T: AstKind>(views: &mut Vec<AstRef<'t>>, child: &'t AstNode<T>)
    ensures
        final(views)@ == old(views)@ + of_child(child),
{
    views.push(T::wrap(child.ast_ref()));
    assert(views@ =~= old(views)@ + of_child(child));
}

fn push_optional<'t, T: AstKind>(views: &mut Vec<AstRef<'t>>, child: &'t Option<AstNode<T>>)
    ensures
        final(views)@ == old(views)@ + of_optional(child),
{
    match child {
        Some(node) => {
            views.push(T::wrap(node.ast_ref()));
        },
        None => {},
    }
    assert(views@ =~= old(views)@ + of_optional(child));
}

fn push_list<'t, T: AstKind>(views: &mut Vec<AstRef<'t>>, list: &'t AstNodes<T>)
    ensures
        final(views)@ == old(views)@ + of_list(list),
{
    let mut done: usize = 0;
    while done < list.nodes.len()
        invariant
            done <= list.nodes@.len(),
            views@ == old(views)@ + of_list(list).take(done as int),
        decreases list.nodes@.len() - done,
    {
        views.push(T::wrap(list.nodes[done].ast_ref()));
        assert(views@ =~= old(views)@ + of_list(list).take(done + 1));
        done = done + 1;
    }
    assert(of_list(list).take(done as int) =~= of_list(list));
}

impl<'t> AstRef<'t> {
    /// The identity of the node.
    pub open spec fn node_id(self) -> AstNodeId {
        match self {
            AstRef::Op(view) => view.id,
            AstRef::BinOp(view) => view.id,
            AstRef::UnaryOp(view) => view.id,
            AstRef::Lit(view) => view.id,
            AstRef::LitExpr(view) => view.id,
            AstRef::ArrayExpr(view) => view.id,
            AstRef::BinExpr(view) => view.id,
            AstRef::Name(view) => view.id,
            AstRef::Path(view) => view.id,
            AstRef::VarExpr(view) => view.id,
            AstRef::UnaryExpr(view) => view.id,
            AstRef::Arg(view) => view.id,
            AstRef::CallExpr(view) => view.id,
            AstRef::MacroCallExpr(view) => view.id,
            AstRef::FilteredExpr(view) => view.id,
            AstRef::Expr(view) => view.id,
            AstRef::Block(view) => view.id,
            AstRef::MacroDef(view) => view.id,
            AstRef::Include(view) => view.id,
            AstRef::Extends(view) => view.id,
            AstRef::Import(view) => view.id,
            AstRef::SetTag(view) => view.id,
            AstRef::Super(view) => view.id,
            AstRef::Tag(view) => view.id,
            AstRef::Text(view) => view.id,
            AstRef::Var(view) => view.id,
            AstRef::Body(view) => view.id,
            AstRef::IfClause(view) => view.id,
            AstRef::If(view) => view.id,
            AstRef::For(view) => view.id,
            AstRef::Continue(view) => view.id,
            AstRef::Break(view) => view.id,
            AstRef::Raw(view) => view.id,
            AstRef::Comment(view) => view.id,
            AstRef::Statement(view) => view.id,
            AstRef::Document(view) => view.id,
        }
    }

    /// The children of the node, in source order.
    ///
    /// The children of a node of a record shape are its child nodes, in the
    /// order of its fields, each list in its own order. A node of a shape
    /// with alternatives, an expression or a statement, has one child: the
    /// alternative that it holds, under the node's own identity.
    pub open spec fn spec_children(self) -> Seq<AstRef<'t>> {
        match self {
            AstRef::Op(_) => Seq::empty(),
            AstRef::BinOp(_) => Seq::empty(),
            AstRef::UnaryOp(_) => Seq::empty(),
            AstRef::Lit(_) => Seq::empty(),
            AstRef::LitExpr(_) => Seq::empty(),
            AstRef::ArrayExpr(view) => of_list(&view.body.children),
            AstRef::BinExpr(view) => of_child(&view.body.lhs)
                + of_child(&view.body.rhs)
                + of_child(&view.body.op),
            AstRef::Name(_) => Seq::empty(),
            AstRef::Path(_) => Seq::empty(),
            AstRef::VarExpr(_) => Seq::empty(),
            AstRef::UnaryExpr(view) => of_child(&view.body.op) + of_child(&view.body.expr),
            AstRef::Arg(view) => of_optional(&view.body.name) + of_optional(&view.body.value),
            AstRef::CallExpr(view) => of_child(&view.body.subject) + of_list(&view.body.args),
            AstRef::MacroCallExpr(view) => of_child(&view.body.name)
                + of_child(&view.body.namespace)
                + of_list(&view.body.args),
            AstRef::FilteredExpr(view) => of_child(&view.body.subject) + of_list(&view.body.filters),
            AstRef::Expr(view) => match view.body {
                Expr::Unary(inner) => seq![AstRef::UnaryExpr(view.rewrapped(inner))],
                Expr::Lit(inner) => seq![AstRef::LitExpr(view.rewrapped(inner))],
                Expr::Array(inner) => seq![AstRef::ArrayExpr(view.rewrapped(inner))],
                Expr::Bin(inner) => seq![AstRef::BinExpr(view.rewrapped(inner))],
                Expr::Var(inner) => seq![AstRef::VarExpr(view.rewrapped(inner))],
                Expr::Call(inner) => seq![AstRef::CallExpr(view.rewrapped(inner))],
                Expr::MacroCall(inner) => seq![AstRef::MacroCallExpr(view.rewrapped(inner))],
                Expr::FilteredExpr(inner) => seq![AstRef::FilteredExpr(view.rewrapped(inner))],
            },
            AstRef::Block(view) => of_optional(&view.body.label) + of_list(&view.body.children),
            AstRef::MacroDef(view) => of_child(&view.body.name)
                + of_list(&view.body.args)
                + of_list(&view.body.inner),
            AstRef::Include(view) => of_child(&view.body.path),
            AstRef::Extends(view) => of_child(&view.body.path),
            AstRef::Import(view) => of_child(&view.body.path) + of_optional(&view.body.name),
            AstRef::SetTag(view) => of_child(&view.body.name) + of_child(&view.body.value),
            AstRef::Super(_) => Seq::empty(),
            AstRef::Tag(view) => of_child(&view.body.name) + of_list(&view.body.args),
            AstRef::Text(_) => Seq::empty(),
            AstRef::Var(view) => of_child(&view.body.identifier),
            AstRef::Body(view) => of_list(&view.body.contents),
            AstRef::IfClause(view) => of_child(&view.body.condition)
                + of_child(&view.body.if_body),
            AstRef::If(view) => of_list(&view.body.clauses)
                + of_optional(&view.body.otherwise),
            AstRef::For(view) => of_optional(&view.body.key)
                + of_child(&view.body.value)
                + of_child(&view.body.loop_body)
                + of_optional(&view.body.loop_empty),
            AstRef::Continue(_) => Seq::empty(),
            AstRef::Break(_) => Seq::empty(),
            AstRef::Raw(_) => Seq::empty(),
            AstRef::Comment(_) => Seq::empty(),
            AstRef::Statement(view) => match view.body {
                Statement::Super(inner) => seq![AstRef::Super(view.rewrapped(inner))],
                Statement::Text(inner) => seq![AstRef::Text(view.rewrapped(inner))],
                Statement::Var(inner) => seq![AstRef::Var(view.rewrapped(inner))],
                Statement::Tag(inner) => seq![AstRef::Tag(view.rewrapped(inner))],
                Statement::Block(inner) => seq![AstRef::Block(view.rewrapped(inner))],
                Statement::MacroDef(inner) => seq![AstRef::MacroDef(view.rewrapped(inner))],
                Statement::SetTag(inner) => seq![AstRef::SetTag(view.rewrapped(inner))],
                Statement::Include(inner) => seq![AstRef::Include(view.rewrapped(inner))],
                Statement::Extends(inner) => seq![AstRef::Extends(view.rewrapped(inner))],
                Statement::Import(inner) => seq![AstRef::Import(view.rewrapped(inner))],
                Statement::If(inner) => seq![AstRef::If(view.rewrapped(inner))],
                Statement::For(inner) => seq![AstRef::For(view.rewrapped(inner))],
                Statement::Continue(inner) => seq![AstRef::Continue(view.rewrapped(inner))],
                Statement::Break(inner) => seq![AstRef::Break(view.rewrapped(inner))],
                Statement::Raw(inner) => seq![AstRef::Raw(view.rewrapped(inner))],
                Statement::Comment(inner) => seq![AstRef::Comment(view.rewrapped(inner))],
            },
            AstRef::Document(view) => of_list(&view.body.children),
        }
    }

    /// Whether the node `after` is this node but for the payloads of its
    /// children: it has the same shape and the same identity, and
    /// - where the shape has no children, the same payload;
    /// - where the shape is a record, in each field the same child, but for
    ///   its payload;
    /// - where the shape has alternatives, the same alternative.
    pub open spec fn same_frame(self, after: AstRef<'_>) -> bool {
        match (self, after) {
            (AstRef::Op(old_view), AstRef::Op(new_view)) => {
                &&& new_view.id == old_view.id
                &&& *new_view.body == *old_view.body
            },
            (AstRef::BinOp(old_view), AstRef::BinOp(new_view)) => {
                &&& new_view.id == old_view.id
                &&& *new_view.body == *old_view.body
            },
            (AstRef::UnaryOp(old_view), AstRef::UnaryOp(new_view)) => {
                &&& new_view.id == old_view.id
                &&& *new_view.body == *old_view.body
            },
            (AstRef::Lit(old_view), AstRef::Lit(new_view)) => {
                &&& new_view.id == old_view.id
                &&& *new_view.body == *old_view.body
            },
            (AstRef::LitExpr(old_view), AstRef::LitExpr(new_view)) => {
                &&& new_view.id == old_view.id
                &&& *new_view.body == *old_view.body
            },
            (AstRef::ArrayExpr(old_view), AstRef::ArrayExpr(new_view)) => {
                &&& new_view.id == old_view.id
                &&& same_list(&old_view.body.children, &new_view.body.children)
            },
            (AstRef::BinExpr(old_view), AstRef::BinExpr(new_view)) => {
                &&& new_view.id == old_view.id
                &&& same_child(&old_view.body.lhs, &new_view.body.lhs)
                &&& same_child(&old_view.body.rhs, &new_view.body.rhs)
                &&& same_child(&old_view.body.op, &new_view.body.op)
            },
            (AstRef::Name(old_view), AstRef::Name(new_view)) => {
                &&& new_view.id == old_view.id
                &&& *new_view.body == *old_view.body
            },
            (AstRef::Path(old_view), AstRef::Path(new_view)) => {
                &&& new_view.id == old_view.id
                &&& *new_view.body == *old_view.body
            },
            (AstRef::VarExpr(old_view), AstRef::VarExpr(new_view)) => {
                &&& new_view.id == old_view.id
                &&& *new_view.body == *old_view.body
            },
            (AstRef::UnaryExpr(old_view), AstRef::UnaryExpr(new_view)) => {
                &&& new_view.id == old_view.id
                &&& same_child(&old_view.body.op, &new_view.body.op)
                &&& same_child(&old_view.body.expr, &new_view.body.expr)
            },
            (AstRef::Arg(old_view), AstRef::Arg(new_view)) => {
                &&& new_view.id == old_view.id
                &&& same_optional(&old_view.body.name, &new_view.body.name)
                &&& same_optional(&old_view.body.value, &new_view.body.value)
            },
            (AstRef::CallExpr(old_view), AstRef::CallExpr(new_view)) => {
                &&& new_view.id == old_view.id
                &&& same_child(&old_view.body.subject, &new_view.body.subject)
                &&& same_list(&old_view.body.args, &new_view.body.args)
            },
            (AstRef::MacroCallExpr(old_view), AstRef::MacroCallExpr(new_view)) => {
                &&& new_view.id == old_view.id
                &&& same_child(&old_view.body.name, &new_view.body.name)
                &&& same_child(&old_view.body.namespace, &new_view.body.namespace)
                &&& same_list(&old_view.body.args, &new_view.body.args)
            },
            (AstRef::FilteredExpr(old_view), AstRef::FilteredExpr(new_view)) => {
                &&& new_view.id == old_view.id
                &&& same_child(&old_view.body.subject, &new_view.body.subject)
                &&& same_list(&old_view.body.filters, &new_view.body.filters)
            },
            (AstRef::Expr(old_view), AstRef::Expr(new_view)) => {
                &&& new_view.id == old_view.id
                &&& match (old_view.body, new_view.body) {
                    (Expr::Unary(_), Expr::Unary(_)) => true,
                    (Expr::Lit(_), Expr::Lit(_)) => true,
                    (Expr::Array(_), Expr::Array(_)) => true,
                    (Expr::Bin(_), Expr::Bin(_)) => true,
                    (Expr::Var(_), Expr::Var(_)) => true,
                    (Expr::Call(_), Expr::Call(_)) => true,
                    (Expr::MacroCall(_), Expr::MacroCall(_)) => true,
                    (Expr::FilteredExpr(_), Expr::FilteredExpr(_)) => true,
                    _ => false,
                }
            },
            (AstRef::Block(old_view), AstRef::Block(new_view)) => {
                &&& new_view.id == old_view.id
                &&& same_optional(&old_view.body.label, &new_view.body.label)
                &&& same_list(&old_view.body.children, &new_view.body.children)
            },
            (AstRef::MacroDef(old_view), AstRef::MacroDef(new_view)) => {
                &&& new_view.id == old_view.id
                &&& same_child(&old_view.body.name, &new_view.body.name)
                &&& same_list(&old_view.body.args, &new_view.body.args)
                &&& same_list(&old_view.body.inner, &new_view.body.inner)
            },
            (AstRef::Include(old_view), AstRef::Include(new_view)) => {
                &&& new_view.id == old_view.id
                &&& same_child(&old_view.body.path, &new_view.body.path)
            },
            (AstRef::Extends(old_view), AstRef::Extends(new_view)) => {
                &&& new_view.id == old_view.id
                &&& same_child(&old_view.body.path, &new_view.body.path)
            },
            (AstRef::Import(old_view), AstRef::Import(new_view)) => {
                &&& new_view.id == old_view.id
                &&& same_child(&old_view.body.path, &new_view.body.path)
                &&& same_optional(&old_view.body.name, &new_view.body.name)
            },
            (AstRef::SetTag(old_view), AstRef::SetTag(new_view)) => {
                &&& new_view.id == old_view.id
                &&& same_child(&old_view.body.name, &new_view.body.name)
                &&& same_child(&old_view.body.value, &new_view.body.value)
            },
            (AstRef::Super(old_view), AstRef::Super(new_view)) => {
                &&& new_view.id == old_view.id
                &&& *new_view.body == *old_view.body
            },
            (AstRef::Tag(old_view), AstRef::Tag(new_view)) => {
                &&& new_view.id == old_view.id
                &&& same_child(&old_view.body.name, &new_view.body.name)
                &&& same_list(&old_view.body.args, &new_view.body.args)
            },
            (AstRef::Text(old_view), AstRef::Text(new_view)) => {
                &&& new_view.id == old_view.id
                &&& *new_view.body == *old_view.body
            },
            (AstRef::Var(old_view), AstRef::Var(new_view)) => {
                &&& new_view.id == old_view.id
                &&& same_child(&old_view.body.identifier, &new_view.body.identifier)
            },
            (AstRef::Body(old_view), AstRef::Body(new_view)) => {
                &&& new_view.id == old_view.id
                &&& same_list(&old_view.body.contents, &new_view.body.contents)
            },
            (AstRef::IfClause(old_view), AstRef::IfClause(new_view)) => {
                &&& new_view.id == old_view.id
                &&& same_child(&old_view.body.condition, &new_view.body.condition)
                &&& same_child(&old_view.body.if_body, &new_view.body.if_body)
            },
            (AstRef::If(old_view), AstRef::If(new_view)) => {
                &&& new_view.id == old_view.id
                &&& same_list(&old_view.body.clauses, &new_view.body.clauses)
                &&& same_optional(&old_view.body.otherwise, &new_view.body.otherwise)
            },
            (AstRef::For(old_view), AstRef::For(new_view)) => {
                &&& new_view.id == old_view.id
                &&& same_optional(&old_view.body.key, &new_view.body.key)
                &&& same_child(&old_view.body.value, &new_view.body.value)
                &&& same_child(&old_view.body.loop_body, &new_view.body.loop_body)
                &&& same_optional(&old_view.body.loop_empty, &new_view.body.loop_empty)
            },
            (AstRef::Continue(old_view), AstRef::Continue(new_view)) => {
                &&& new_view.id == old_view.id
                &&& *new_view.body == *old_view.body
            },
            (AstRef::Break(old_view), AstRef::Break(new_view)) => {
                &&& new_view.id == old_view.id
                &&& *new_view.body == *old_view.body
            },
            (AstRef::Raw(old_view), AstRef::Raw(new_view)) => {
                &&& new_view.id == old_view.id
                &&& *new_view.body == *old_view.body
            },
            (AstRef::Comment(old_view), AstRef::Comment(new_view)) => {
                &&& new_view.id == old_view.id
                &&& *new_view.body == *old_view.body
            },
            (AstRef::Statement(old_view), AstRef::Statement(new_view)) => {
                &&& new_view.id == old_view.id
                &&& match (old_view.body, new_view.body) {
                    (Statement::Super(_), Statement::Super(_)) => true,
                    (Statement::Text(_), Statement::Text(_)) => true,
                    (Statement::Var(_), Statement::Var(_)) => true,
                    (Statement::Tag(_), Statement::Tag(_)) => true,
                    (Statement::Block(_), Statement::Block(_)) => true,
                    (Statement::MacroDef(_), Statement::MacroDef(_)) => true,
                    (Statement::SetTag(_), Statement::SetTag(_)) => true,
                    (Statement::Include(_), Statement::Include(_)) => true,
                    (Statement::Extends(_), Statement::Extends(_)) => true,
                    (Statement::Import(_), Statement::Import(_)) => true,
                    (Statement::If(_), Statement::If(_)) => true,
                    (Statement::For(_), Statement::For(_)) => true,
                    (Statement::Continue(_), Statement::Continue(_)) => true,
                    (Statement::Break(_), Statement::Break(_)) => true,
                    (Statement::Raw(_), Statement::Raw(_)) => true,
                    (Statement::Comment(_), Statement::Comment(_)) => true,
                    _ => false,
                }
            },
            (AstRef::Document(old_view), AstRef::Document(new_view)) => {
                &&& new_view.id == old_view.id
                &&& same_list(&old_view.body.children, &new_view.body.children)
            },
            _ => false,
        }
    }

    /// The identity of the node.
    pub fn id(&self) -> (id: AstNodeId)
        ensures
            id == self.node_id(),
    {
        match self {
            AstRef::Op(view) => view.id,
            AstRef::BinOp(view) => view.id,
            AstRef::UnaryOp(view) => view.id,
            AstRef::Lit(view) => view.id,
            AstRef::LitExpr(view) => view.id,
            AstRef::ArrayExpr(view) => view.id,
            AstRef::BinExpr(view) => view.id,
            AstRef::Name(view) => view.id,
            AstRef::Path(view) => view.id,
            AstRef::VarExpr(view) => view.id,
            AstRef::UnaryExpr(view) => view.id,
            AstRef::Arg(view) => view.id,
            AstRef::CallExpr(view) => view.id,
            AstRef::MacroCallExpr(view) => view.id,
            AstRef::FilteredExpr(view) => view.id,
            AstRef::Expr(view) => view.id,
            AstRef::Block(view) => view.id,
            AstRef::MacroDef(view) => view.id,
            AstRef::Include(view) => view.id,
            AstRef::Extends(view) => view.id,
            AstRef::Import(view) => view.id,
            AstRef::SetTag(view) => view.id,
            AstRef::Super(view) => view.id,
            AstRef::Tag(view) => view.id,
            AstRef::Text(view) => view.id,
            AstRef::Var(view) => view.id,
            AstRef::Body(view) => view.id,
            AstRef::IfClause(view) => view.id,
            AstRef::If(view) => view.id,
            AstRef::For(view) => view.id,
            AstRef::Continue(view) => view.id,
            AstRef::Break(view) => view.id,
            AstRef::Raw(view) => view.id,
            AstRef::Comment(view) => view.id,
            AstRef::Statement(view) => view.id,
            AstRef::Document(view) => view.id,
        }
    }

    /// The children of the node, in source order.
    pub fn children(&self) -> (views: Vec<AstRef<'t>>)
        ensures
            views@ == self.spec_children(),
    {
        let mut views: Vec<AstRef<'t>> = Vec::new();
        match self {
            AstRef::Op(_) => {},
            AstRef::BinOp(_) => {},
            AstRef::UnaryOp(_) => {},
            AstRef::Lit(_) => {},
            AstRef::LitExpr(_) => {},
            AstRef::ArrayExpr(view) => {
                push_list(&mut views, &view.body.children);
            },
            AstRef::BinExpr(view) => {
                push_child(&mut views, &view.body.lhs);
                push_child(&mut views, &view.body.rhs);
                push_child(&mut views, &view.body.op);
            },
            AstRef::Name(_) => {},
            AstRef::Path(_) => {},
            AstRef::VarExpr(_) => {},
            AstRef::UnaryExpr(view) => {
                push_child(&mut views, &view.body.op);
                push_child(&mut views, &view.body.expr);
            },
            AstRef::Arg(view) => {
                push_optional(&mut views, &view.body.name);
                push_optional(&mut views, &view.body.value);
            },
            AstRef::CallExpr(view) => {
                push_child(&mut views, &view.body.subject);
                push_list(&mut views, &view.body.args);
            },
            AstRef::MacroCallExpr(view) => {
                push_child(&mut views, &view.body.name);
                push_child(&mut views, &view.body.namespace);
                push_list(&mut views, &view.body.args);
            },
            AstRef::FilteredExpr(view) => {
                push_child(&mut views, &view.body.subject);
                push_list(&mut views, &view.body.filters);
            },
            AstRef::Expr(view) => match view.body {
                Expr::Unary(inner) => {
                    views.push(AstRef::UnaryExpr(view.with_body(inner)));
                },
                Expr::Lit(inner) => {
                    views.push(AstRef::LitExpr(view.with_body(inner)));
                },
                Expr::Array(inner) => {
                    views.push(AstRef::ArrayExpr(view.with_body(inner)));
                },
                Expr::Bin(inner) => {
                    views.push(AstRef::BinExpr(view.with_body(inner)));
                },
                Expr::Var(inner) => {
                    views.push(AstRef::VarExpr(view.with_body(inner)));
                },
                Expr::Call(inner) => {
                    views.push(AstRef::CallExpr(view.with_body(inner)));
                },
                Expr::MacroCall(inner) => {
                    views.push(AstRef::MacroCallExpr(view.with_body(inner)));
                },
                Expr::FilteredExpr(inner) => {
                    views.push(AstRef::FilteredExpr(view.with_body(inner)));
                },
            },
            AstRef::Block(view) => {
                push_optional(&mut views, &view.body.label);
                push_list(&mut views, &view.body.children);
            },
            AstRef::MacroDef(view) => {
                push_child(&mut views, &view.body.name);
                push_list(&mut views, &view.body.args);
                push_list(&mut views, &view.body.inner);
            },
            AstRef::Include(view) => {
                push_child(&mut views, &view.body.path);
            },
            AstRef::Extends(view) => {
                push_child(&mut views, &view.body.path);
            },
            AstRef::Import(view) => {
                push_child(&mut views, &view.body.path);
                push_optional(&mut views, &view.body.name);
            },
            AstRef::SetTag(view) => {
                push_child(&mut views, &view.body.name);
                push_child(&mut views, &view.body.value);
            },
            AstRef::Super(_) => {},
            AstRef::Tag(view) => {
                push_child(&mut views, &view.body.name);
                push_list(&mut views, &view.body.args);
            },
            AstRef::Text(_) => {},
            AstRef::Var(view) => {
                push_child(&mut views, &view.body.identifier);
            },
            AstRef::Body(view) => {
                push_list(&mut views, &view.body.contents);
            },
            AstRef::IfClause(view) => {
                push_child(&mut views, &view.body.condition);
                push_child(&mut views, &view.body.if_body);
            },
            AstRef::If(view) => {
                push_list(&mut views, &view.body.clauses);
                push_optional(&mut views, &view.body.otherwise);
            },
            AstRef::For(view) => {
                push_optional(&mut views, &view.body.key);
                push_child(&mut views, &view.body.value);
                push_child(&mut views, &view.body.loop_body);
                push_optional(&mut views, &view.body.loop_empty);
            },
            AstRef::Continue(_) => {},
            AstRef::Break(_) => {},
            AstRef::Raw(_) => {},
            AstRef::Comment(_) => {},
            AstRef::Statement(view) => match view.body {
                Statement::Super(inner) => {
                    views.push(AstRef::Super(view.with_body(inner)));
                },
                Statement::Text(inner) => {
                    views.push(AstRef::Text(view.with_body(inner)));
                },
                Statement::Var(inner) => {
                    views.push(AstRef::Var(view.with_body(inner)));
                },
                Statement::Tag(inner) => {
                    views.push(AstRef::Tag(view.with_body(inner)));
                },
                Statement::Block(inner) => {
                    views.push(AstRef::Block(view.with_body(inner)));
                },
                Statement::MacroDef(inner) => {
                    views.push(AstRef::MacroDef(view.with_body(inner)));
                },
                Statement::SetTag(inner) => {
                    views.push(AstRef::SetTag(view.with_body(inner)));
                },
                Statement::Include(inner) => {
                    views.push(AstRef::Include(view.with_body(inner)));
                },
                Statement::Extends(inner) => {
                    views.push(AstRef::Extends(view.with_body(inner)));
                },
                Statement::Import(inner) => {
                    views.push(AstRef::Import(view.with_body(inner)));
                },
                Statement::If(inner) => {
                    views.push(AstRef::If(view.with_body(inner)));
                },
                Statement::For(inner) => {
                    views.push(AstRef::For(view.with_body(inner)));
                },
                Statement::Continue(inner) => {
                    views.push(AstRef::Continue(view.with_body(inner)));
                },
                Statement::Break(inner) => {
                    views.push(AstRef::Break(view.with_body(inner)));
                },
                Statement::Raw(inner) => {
                    views.push(AstRef::Raw(view.with_body(inner)));
                },
                Statement::Comment(inner) => {
                    views.push(AstRef::Comment(view.with_body(inner)));
                },
            },
            AstRef::Document(view) => {
                push_list(&mut views, &view.body.children);
            },
        }
        assert(views@ =~= self.spec_children());
        views
    }
}

impl<'t> AstRefMut<'t> {
    /// The read view of the node as this view holds it.
    pub open spec fn shown(self) -> AstRef<'t> {
        match self {
            AstRefMut::Op(view) => AstRef::Op(view.shown()),
            AstRefMut::BinOp(view) => AstRef::BinOp(view.shown()),
            AstRefMut::UnaryOp(view) => AstRef::UnaryOp(view.shown()),
            AstRefMut::Lit(view) => AstRef::Lit(view.shown()),
            AstRefMut::LitExpr(view) => AstRef::LitExpr(view.shown()),
            AstRefMut::ArrayExpr(view) => AstRef::ArrayExpr(view.shown()),
            AstRefMut::BinExpr(view) => AstRef::BinExpr(view.shown()),
            AstRefMut::Name(view) => AstRef::Name(view.shown()),
            AstRefMut::Path(view) => AstRef::Path(view.shown()),
            AstRefMut::VarExpr(view) => AstRef::VarExpr(view.shown()),
            AstRefMut::UnaryExpr(view) => AstRef::UnaryExpr(view.shown()),
            AstRefMut::Arg(view) => AstRef::Arg(view.shown()),
            AstRefMut::CallExpr(view) => AstRef::CallExpr(view.shown()),
            AstRefMut::MacroCallExpr(view) => AstRef::MacroCallExpr(view.shown()),
            AstRefMut::FilteredExpr(view) => AstRef::FilteredExpr(view.shown()),
            AstRefMut::Expr(view) => AstRef::Expr(view.shown()),
            AstRefMut::Block(view) => AstRef::Block(view.shown()),
            AstRefMut::MacroDef(view) => AstRef::MacroDef(view.shown()),
            AstRefMut::Include(view) => AstRef::Include(view.shown()),
            AstRefMut::Extends(view) => AstRef::Extends(view.shown()),
            AstRefMut::Import(view) => AstRef::Import(view.shown()),
            AstRefMut::SetTag(view) => AstRef::SetTag(view.shown()),
            AstRefMut::Super(view) => AstRef::Super(view.shown()),
            AstRefMut::Tag(view) => AstRef::Tag(view.shown()),
            AstRefMut::Text(view) => AstRef::Text(view.shown()),
            AstRefMut::Var(view) => AstRef::Var(view.shown()),
            AstRefMut::Body(view) => AstRef::Body(view.shown()),
            AstRefMut::IfClause(view) => AstRef::IfClause(view.shown()),
            AstRefMut::If(view) => AstRef::If(view.shown()),
            AstRefMut::For(view) => AstRef::For(view.shown()),
            AstRefMut::Continue(view) => AstRef::Continue(view.shown()),
            AstRefMut::Break(view) => AstRef::Break(view.shown()),
            AstRefMut::Raw(view) => AstRef::Raw(view.shown()),
            AstRefMut::Comment(view) => AstRef::Comment(view.shown()),
            AstRefMut::Statement(view) => AstRef::Statement(view.shown()),
            AstRefMut::Document(view) => AstRef::Document(view.shown()),
        }
    }

    /// The identity of the node.
    pub fn id(&self) -> (id: AstNodeId)
        ensures
            id == self.shown().node_id(),
    {
        match self {
            AstRefMut::Op(view) => view.id,
            AstRefMut::BinOp(view) => view.id,
            AstRefMut::UnaryOp(view) => view.id,
            AstRefMut::Lit(view) => view.id,
            AstRefMut::LitExpr(view) => view.id,
            AstRefMut::ArrayExpr(view) => view.id,
            AstRefMut::BinExpr(view) => view.id,
            AstRefMut::Name(view) => view.id,
            AstRefMut::Path(view) => view.id,
            AstRefMut::VarExpr(view) => view.id,
            AstRefMut::UnaryExpr(view) => view.id,
            AstRefMut::Arg(view) => view.id,
            AstRefMut::CallExpr(view) => view.id,
            AstRefMut::MacroCallExpr(view) => view.id,
            AstRefMut::FilteredExpr(view) => view.id,
            AstRefMut::Expr(view) => view.id,
            AstRefMut::Block(view) => view.id,
            AstRefMut::MacroDef(view) => view.id,
            AstRefMut::Include(view) => view.id,
            AstRefMut::Extends(view) => view.id,
            AstRefMut::Import(view) => view.id,
            AstRefMut::SetTag(view) => view.id,
            AstRefMut::Super(view) => view.id,
            AstRefMut::Tag(view) => view.id,
            AstRefMut::Text(view) => view.id,
            AstRefMut::Var(view) => view.id,
            AstRefMut::Body(view) => view.id,
            AstRefMut::IfClause(view) => view.id,
            AstRefMut::If(view) => view.id,
            AstRefMut::For(view) => view.id,
            AstRefMut::Continue(view) => view.id,
            AstRefMut::Break(view) => view.id,
            AstRefMut::Raw(view) => view.id,
            AstRefMut::Comment(view) => view.id,
            AstRefMut::Statement(view) => view.id,
            AstRefMut::Document(view) => view.id,
        }
    }
}

} // verus!
