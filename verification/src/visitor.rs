//! Traversal of the tree by a visitor: a read-only visitor, which receives
//! a read view of each node, and a mutating visitor, which receives the
//! mutable view and may rewrite the node in place.

use vstd::prelude::*;
use crate::kind::{AstKind, AstRef};
use crate::node::AstNodeRef;

pub use crate::visitor_mut::{mutates_all, mutates_through, walk_mut, walks, AstVisitorMut};

verus! {

/// A read-only visitor: it receives a view of each node that it is handed,
/// and cannot change the tree. To go down into the children of a node it
/// calls [`walk`] on the node it received; a visitor that does not, skips
/// the subtree below that node. A visitor that looks at a node and then
/// walks it sees the tree in preorder: a parent before its children, and
/// the children in source order.
pub trait AstVisitor: Sized {
    /// Whether `after` is a state in which a visit of `node` may leave the
    /// visitor that was in this state. An implementation states here what
    /// its `visit` does; as it stands, nothing is said of it.
    open spec fn visited(&self, node: AstRef<'_>, after: &Self) -> bool {
        true
    }

    /// Receives `node`.
    fn visit<K: AstKind>(&mut self, node: AstNodeRef<'_, K>)
        ensures
            old(self).visited(K::as_any(node), final(self)),
    ;
}

/// Whether `states` are the states that a visitor goes through as it
/// visits `nodes` one after the other, in their order: the state before the
/// first visit, then the state after each visit.
pub open spec fn visits_through<V: AstVisitor>(states: Seq<V>, nodes: Seq<AstRef<'_>>) -> bool {
    &&& states.len() == nodes.len() + 1
    &&& forall|i: int|
        0 <= i < nodes.len() ==> (#[trigger] states[i]).visited(nodes[i], &states[i + 1])
}

/// Whether a visitor that starts in the state `start` and visits `nodes`
/// one after the other, in their order, may end in the state `end`.
pub open spec fn visits_all<V: AstVisitor>(start: V, nodes: Seq<AstRef<'_>>, end: V) -> bool {
    exists|states: Seq<V>|
        #[trigger] visits_through(states, nodes) && states.first() == start && states.last()
            == end
}

/// Hands `node` to `visitor`, as a view of its own shape.
pub fn visit_any<V: AstVisitor>(visitor: &mut V, node: AstRef<'_>)
    ensures
        old(visitor).visited(node, final(visitor)),
{
    match node {
        AstRef::Op(view) => visitor.visit(view),
        AstRef::BinOp(view) => visitor.visit(view),
        AstRef::UnaryOp(view) => visitor.visit(view),
        AstRef::Lit(view) => visitor.visit(view),
        AstRef::LitExpr(view) => visitor.visit(view),
        AstRef::ArrayExpr(view) => visitor.visit(view),
        AstRef::BinExpr(view) => visitor.visit(view),
        AstRef::Name(view) => visitor.visit(view),
        AstRef::Path(view) => visitor.visit(view),
        AstRef::VarExpr(view) => visitor.visit(view),
        AstRef::UnaryExpr(view) => visitor.visit(view),
        AstRef::Arg(view) => visitor.visit(view),
        AstRef::CallExpr(view) => visitor.visit(view),
        AstRef::MacroCallExpr(view) => visitor.visit(view),
        AstRef::FilteredExpr(view) => visitor.visit(view),
        AstRef::Expr(view) => visitor.visit(view),
        AstRef::Block(view) => visitor.visit(view),
        AstRef::MacroDef(view) => visitor.visit(view),
        AstRef::Include(view) => visitor.visit(view),
        AstRef::Extends(view) => visitor.visit(view),
        AstRef::Import(view) => visitor.visit(view),
        AstRef::SetTag(view) => visitor.visit(view),
        AstRef::Super(view) => visitor.visit(view),
        AstRef::Tag(view) => visitor.visit(view),
        AstRef::Text(view) => visitor.visit(view),
        AstRef::Var(view) => visitor.visit(view),
        AstRef::Body(view) => visitor.visit(view),
        AstRef::IfClause(view) => visitor.visit(view),
        AstRef::If(view) => visitor.visit(view),
        AstRef::For(view) => visitor.visit(view),
        AstRef::Continue(view) => visitor.visit(view),
        AstRef::Break(view) => visitor.visit(view),
        AstRef::Raw(view) => visitor.visit(view),
        AstRef::Comment(view) => visitor.visit(view),
        AstRef::Statement(view) => visitor.visit(view),
        AstRef::Document(view) => visitor.visit(view),
    }
}

/// Hands each child of `node` to `visitor`, in source order.
pub fn walk<V: AstVisitor, K: AstKind>(visitor: &mut V, node: AstNodeRef<'_, K>)
    ensures
        visits_all(*old(visitor), K::as_any(node).spec_children(), *final(visitor)),
{
    let children = K::wrap(node).children();
    let ghost mut states: Seq<V> = seq![*visitor];
    let mut done: usize = 0;
    while done < children.len()
        invariant
            done <= children@.len(),
            children@ == K::as_any(node).spec_children(),
            visits_through(states, children@.take(done as int)),
            states.first() == *old(visitor),
            states.last() == *visitor,
        decreases children@.len() - done,
    {
        visit_any(visitor, children[done]);
        proof {
            let before = states;
            states = states.push(*visitor);
            let next = children@.take(done + 1);
            assert forall|i: int| 0 <= i < next.len() implies (#[trigger] states[i]).visited(
                next[i],
                &states[i + 1],
            ) by {
                if i < done {
                    assert(before[i].visited(children@.take(done as int)[i], &before[i + 1]));
                }
            }
        }
        done = done + 1;
    }
    assert(children@.take(done as int) =~= children@);
}

} // verus!
