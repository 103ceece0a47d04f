//! Traversal of the tree by a mutating visitor.

use vstd::prelude::*;
use crate::ident::AstNodeId;
use crate::kind::{
    of_child, of_list, of_optional, same_child, same_list, same_optional, AstKind, AstRef,
    AstRefMut,
};
use crate::node::{AstNode, AstNodeRef, AstNodeRefMut};
use crate::nodes::AstNodes;
use crate::tree::{
    Arg, ArrayExpr, BinExpr, BinOp, Block, Body, Break, CallExpr, Comment, Continue, Document,
    Expr, Extends, FilteredExpr, For, If, IfClause, Import, Include, Lit, LitExpr, MacroCallExpr,
    MacroDef, Name, Op, Path, Raw, SetTag, Statement, Super, Tag, Text, UnaryExpr, UnaryOp, Var,
    VarExpr,
};

verus! {

/// A mutating visitor: it receives the mutable view of each node that it
/// is handed, and may rewrite the payload of that node in place. To go down
/// into the children of a node it calls [`walk_mut`] on the node it
/// received. Where it has replaced the payload, nothing goes down into the
/// new children unless the visitor walks the node again.
pub trait AstVisitorMut: Sized {
    /// Whether a visit may take the node from `before` to `after` and the
    /// visitor from this state to the state `end`. An implementation states
    /// here what its `visit_mut` does; as it stands, nothing is said of it.
    open spec fn mutated(&self, before: AstRef<'_>, after: AstRef<'_>, end: &Self) -> bool {
        true
    }

    /// Receives `node`.
    fn visit_mut<K: AstKind>(&mut self, node: AstNodeRefMut<'_, K>)
        ensures
            old(self).mutated(
                K::as_any(AstNodeRef { body: &*old(node.body), id: node.id }),
                K::as_any(AstNodeRef { body: &*final(node.body), id: node.id }),
                final(self),
            ),
    ;
}

/// Whether `states` are the states that a visitor goes through as it
/// visits nodes one after the other, which takes the node at each place
/// from what `before` holds there to what `after` holds there.
pub open spec fn mutates_through<V: AstVisitorMut>(
    states: Seq<V>,
    before: Seq<AstRef<'_>>,
    after: Seq<AstRef<'_>>,
) -> bool {
    &&& states.len() == before.len() + 1
    &&& after.len() == before.len()
    &&& forall|i: int|
        0 <= i < before.len() ==> (#[trigger] states[i]).mutated(
            before[i],
            after[i],
            &states[i + 1],
        )
}

/// Whether a visitor that starts in the state `start` and visits nodes one
/// after the other, which takes them from `before` to `after`, may end in
/// the state `end`.
pub open spec fn mutates_all<V: AstVisitorMut>(
    start: V,
    before: Seq<AstRef<'_>>,
    after: Seq<AstRef<'_>>,
    end: V,
) -> bool {
    exists|states: Seq<V>|
        #[trigger] mutates_through(states, before, after) && states.first() == start
            && states.last() == end
}

proof fn lemma_mutates_none<V: AstVisitorMut>(state: V)
    ensures
        mutates_all(state, Seq::<AstRef<'_>>::empty(), Seq::<AstRef<'_>>::empty(), state),
{
    assert(mutates_through(seq![state], Seq::<AstRef<'_>>::empty(), Seq::<AstRef<'_>>::empty()));
}

proof fn lemma_mutates_one<V: AstVisitorMut>(start: V, before: AstRef<'_>, after: AstRef<'_>, end: V)
    requires
        start.mutated(before, after, &end),
    ensures
        mutates_all(start, seq![before], seq![after], end),
{
    assert(mutates_through(seq![start, end], seq![before], seq![after]));
}

proof fn lemma_mutates_concat<V: AstVisitorMut>(
    start: V,
    before_left: Seq<AstRef<'_>>,
    after_left: Seq<AstRef<'_>>,
    middle: V,
    before_right: Seq<AstRef<'_>>,
    after_right: Seq<AstRef<'_>>,
    end: V,
)
    requires
        mutates_all(start, before_left, after_left, middle),
        mutates_all(middle, before_right, after_right, end),
    ensures
        mutates_all(start, before_left + before_right, after_left + after_right, end),
{
    let left = choose|states: Seq<V>|
        #[trigger] mutates_through(states, before_left, after_left) && states.first() == start
            && states.last() == middle;
    let right = choose|states: Seq<V>|
        #[trigger] mutates_through(states, before_right, after_right) && states.first() == middle
            && states.last() == end;
    let states = left + right.drop_first();
    let before = before_left + before_right;
    let after = after_left + after_right;
    assert forall|i: int| 0 <= i < before.len() implies (#[trigger] states[i]).mutated(
        before[i],
        after[i],
        &states[i + 1],
    ) by {
        if i < before_left.len() {
            assert(left[i].mutated(before_left[i], after_left[i], &left[i + 1]));
            assert(states[i] == left[i]);
            assert(states[i + 1] == left[i + 1]);
        } else {
            let j = i - before_left.len();
            assert(right[j].mutated(before_right[j], after_right[j], &right[j + 1]));
            assert(states[i] == right[j]);
            assert(states[i + 1] == right[j + 1]);
        }
    }
    assert(mutates_through(states, before, after));
}

/// Whether a walk may take the node from `before` to `after` and the
/// visitor from `start` to `end`: the visitor has visited the children of
/// the node one after the other, in source order, and the node is what it
/// was but for the payloads of its children.
pub open spec fn walks<V: AstVisitorMut>(
    start: V,
    before: AstRef<'_>,
    after: AstRef<'_>,
    end: V,
) -> bool {
    &&& mutates_all(start, before.spec_children(), after.spec_children(), end)
    &&& before.same_frame(after)
}

/// The visits of a walk so far: a visitor that started in `start` has
/// taken the nodes `before` to `after`.
struct Chain<'t, V> {
    start: V,
    before: Seq<AstRef<'t>>,
    after: Seq<AstRef<'t>>,
}

impl<'t, V: AstVisitorMut> Chain<'t, V> {
    /// Whether a visitor in the state `now` has gone through the chain.
    spec fn reaches(self, now: V) -> bool {
        mutates_all(self.start, self.before, self.after, now)
    }

    /// The chain with the visits that took `before` to `after` at its end.
    spec fn followed_by(self, before: Seq<AstRef<'t>>, after: Seq<AstRef<'t>>) -> Self {
        Chain { start: self.start, before: self.before + before, after: self.after + after }
    }

    /// The chain of a visitor that starts in `start` and has visited
    /// nothing.
    spec fn begin(start: V) -> Self {
        Chain { start, before: Seq::empty(), after: Seq::empty() }
    }
}

fn visit_payload_mut<V: AstVisitorMut, T: AstKind>(
    visitor: &mut V,
    payload: &mut T,
    id: AstNodeId,
    Ghost(chain): Ghost<Chain<'_, V>>,
)
    requires
        chain.reaches(*old(visitor)),
    ensures
        chain.followed_by(
            seq![T::as_any(AstNodeRef { body: &*old(payload), id })],
            seq![T::as_any(AstNodeRef { body: &*final(payload), id })],
        ).reaches(*final(visitor)),
{
    let ghost middle = *visitor;
    let ghost held = *payload;
    visitor.visit_mut(AstNodeRefMut::new(payload, id));
    proof {
        lemma_mutates_one(
            middle,
            T::as_any(AstNodeRef { body: &held, id }),
            T::as_any(AstNodeRef { body: &*payload, id }),
            *visitor,
        );
        lemma_mutates_concat(
            chain.start,
            chain.before,
            chain.after,
            middle,
            seq![T::as_any(AstNodeRef { body: &held, id })],
            seq![T::as_any(AstNodeRef { body: &*payload, id })],
            *visitor,
        );
    }
}

fn visit_child_mut<V: AstVisitorMut, T: AstKind>(
    visitor: &mut V,
    child: &mut AstNode<T>,
    Ghost(chain): Ghost<Chain<'_, V>>,
)
    requires
        chain.reaches(*old(visitor)),
    ensures
        chain.followed_by(of_child(&*old(child)), of_child(&*final(child))).reaches(
            *final(visitor),
        ),
        same_child(&*old(child), &*final(child)),
{
    let id = child.id;
    visit_payload_mut(visitor, &mut *child.body, id, Ghost(chain));
}

fn visit_optional_mut<V: AstVisitorMut, T: AstKind>(
    visitor: &mut V,
    child: &mut Option<AstNode<T>>,
    Ghost(chain): Ghost<Chain<'_, V>>,
)
    requires
        chain.reaches(*old(visitor)),
    ensures
        chain.followed_by(of_optional(&*old(child)), of_optional(&*final(child))).reaches(
            *final(visitor),
        ),
        same_optional(&*old(child), &*final(child)),
{
    match child {
        Some(node) => {
            visit_child_mut(visitor, node, Ghost(chain));
        },
        None => {
            assert(chain.followed_by(of_optional(&*old(child)), of_optional(&*old(child))) == chain) by {
                assert(chain.before + Seq::<AstRef<'_>>::empty() =~= chain.before);
                assert(chain.after + Seq::<AstRef<'_>>::empty() =~= chain.after);
            }
        },
    }
}

fn visit_list_mut<V: AstVisitorMut, T: AstKind>(
    visitor: &mut V,
    list: &mut AstNodes<T>,
    Ghost(chain): Ghost<Chain<'_, V>>,
)
    requires
        chain.reaches(*old(visitor)),
    ensures
        chain.followed_by(of_list(&*old(list)), of_list(&*final(list))).reaches(*final(visitor)),
        same_list(&*old(list), &*final(list)),
{
    let count = list.nodes.len();
    let mut done: usize = 0;
    proof {
        assert(chain.before + of_list(&*old(list)).take(0) =~= chain.before);
        assert(chain.after + of_list(&*list).take(0) =~= chain.after);
    }
    while done < count
        invariant
            done <= count,
            count == old(list).nodes@.len(),
            list.id == old(list).id,
            list.nodes@.len() == count,
            forall|i: int| 0 <= i < count ==> (#[trigger] list.nodes@[i]).id == old(list).nodes@[i].id,
            forall|i: int| done <= i < count ==> (#[trigger] list.nodes@[i]) == old(list).nodes@[i],
            chain.followed_by(
                of_list(&*old(list)).take(done as int),
                of_list(&*list).take(done as int),
            ).reaches(*visitor),
        decreases count - done,
    {
        let ghost held = *list;
        let ghost so_far = chain.followed_by(
            of_list(&*old(list)).take(done as int),
            of_list(&held).take(done as int),
        );
        visit_child_mut(visitor, &mut list.nodes[done], Ghost(so_far));
        proof {
            assert(chain.before + of_list(&*old(list)).take(done + 1) =~= so_far.before + of_child(
                &held.nodes@[done as int],
            ));
            assert(chain.after + of_list(&*list).take(done + 1) =~= so_far.after + of_child(
                &list.nodes@[done as int],
            ));
        }
        done = done + 1;
    }
    proof {
        assert(of_list(&*old(list)).take(done as int) =~= of_list(&*old(list)));
        assert(of_list(&*list).take(done as int) =~= of_list(&*list));
    }
}

fn walk_array_expr_mut<V: AstVisitorMut>(visitor: &mut V, view: AstNodeRefMut<'_, ArrayExpr>)
    ensures
        walks(
            *old(visitor),
            AstRef::ArrayExpr(AstNodeRef { body: &*old(view.body), id: view.id }),
            AstRef::ArrayExpr(AstNodeRef { body: &*final(view.body), id: view.id }),
            *final(visitor),
        ),
{
    let body = view.body;
    let ghost held = *body;
    let ghost mut chain = Chain::begin(*visitor);
    proof {
        lemma_mutates_none(*visitor);
    }
    visit_list_mut(visitor, &mut body.children, Ghost(chain));
    proof {
        chain = chain.followed_by(of_list(&held.children), of_list(&body.children));
    }
    proof {
        assert(chain.before =~= of_list(&held.children));
        assert(chain.after =~= of_list(&body.children));
    }
}

fn walk_bin_expr_mut<V: AstVisitorMut>(visitor: &mut V, view: AstNodeRefMut<'_, BinExpr>)
    ensures
        walks(
            *old(visitor),
            AstRef::BinExpr(AstNodeRef { body: &*old(view.body), id: view.id }),
            AstRef::BinExpr(AstNodeRef { body: &*final(view.body), id: view.id }),
            *final(visitor),
        ),
{
    let body = view.body;
    let ghost held = *body;
    let ghost mut chain = Chain::begin(*visitor);
    proof {
        lemma_mutates_none(*visitor);
    }
    visit_child_mut(visitor, &mut body.lhs, Ghost(chain));
    proof {
        chain = chain.followed_by(of_child(&held.lhs), of_child(&body.lhs));
    }
    visit_child_mut(visitor, &mut body.rhs, Ghost(chain));
    proof {
        chain = chain.followed_by(of_child(&held.rhs), of_child(&body.rhs));
    }
    visit_child_mut(visitor, &mut body.op, Ghost(chain));
    proof {
        chain = chain.followed_by(of_child(&held.op), of_child(&body.op));
    }
    proof {
        assert(chain.before =~= of_child(&held.lhs)
            + of_child(&held.rhs)
            + of_child(&held.op));
        assert(chain.after =~= of_child(&body.lhs)
            + of_child(&body.rhs)
            + of_child(&body.op));
    }
}

fn walk_unary_expr_mut<V: AstVisitorMut>(visitor: &mut V, view: AstNodeRefMut<'_, UnaryExpr>)
    ensures
        walks(
            *old(visitor),
            AstRef::UnaryExpr(AstNodeRef { body: &*old(view.body), id: view.id }),
            AstRef::UnaryExpr(AstNodeRef { body: &*final(view.body), id: view.id }),
            *final(visitor),
        ),
{
    let body = view.body;
    let ghost held = *body;
    let ghost mut chain = Chain::begin(*visitor);
    proof {
        lemma_mutates_none(*visitor);
    }
    visit_child_mut(visitor, &mut body.op, Ghost(chain));
    proof {
        chain = chain.followed_by(of_child(&held.op), of_child(&body.op));
    }
    visit_child_mut(visitor, &mut body.expr, Ghost(chain));
    proof {
        chain = chain.followed_by(of_child(&held.expr), of_child(&body.expr));
    }
    proof {
        assert(chain.before =~= of_child(&held.op) + of_child(&held.expr));
        assert(chain.after =~= of_child(&body.op) + of_child(&body.expr));
    }
}

fn walk_arg_mut<V: AstVisitorMut>(visitor: &mut V, view: AstNodeRefMut<'_, Arg>)
    ensures
        walks(
            *old(visitor),
            AstRef::Arg(AstNodeRef { body: &*old(view.body), id: view.id }),
            AstRef::Arg(AstNodeRef { body: &*final(view.body), id: view.id }),
            *final(visitor),
        ),
{
    let body = view.body;
    let ghost held = *body;
    let ghost mut chain = Chain::begin(*visitor);
    proof {
        lemma_mutates_none(*visitor);
    }
    visit_optional_mut(visitor, &mut body.name, Ghost(chain));
    proof {
        chain = chain.followed_by(of_optional(&held.name), of_optional(&body.name));
    }
    visit_optional_mut(visitor, &mut body.value, Ghost(chain));
    proof {
        chain = chain.followed_by(of_optional(&held.value), of_optional(&body.value));
    }
    proof {
        assert(chain.before =~= of_optional(&held.name) + of_optional(&held.value));
        assert(chain.after =~= of_optional(&body.name) + of_optional(&body.value));
    }
}

fn walk_call_expr_mut<V: AstVisitorMut>(visitor: &mut V, view: AstNodeRefMut<'_, CallExpr>)
    ensures
        walks(
            *old(visitor),
            AstRef::CallExpr(AstNodeRef { body: &*old(view.body), id: view.id }),
            AstRef::CallExpr(AstNodeRef { body: &*final(view.body), id: view.id }),
            *final(visitor),
        ),
{
    let body = view.body;
    let ghost held = *body;
    let ghost mut chain = Chain::begin(*visitor);
    proof {
        lemma_mutates_none(*visitor);
    }
    visit_child_mut(visitor, &mut body.subject, Ghost(chain));
    proof {
        chain = chain.followed_by(of_child(&held.subject), of_child(&body.subject));
    }
    visit_list_mut(visitor, &mut body.args, Ghost(chain));
    proof {
        chain = chain.followed_by(of_list(&held.args), of_list(&body.args));
    }
    proof {
        assert(chain.before =~= of_child(&held.subject) + of_list(&held.args));
        assert(chain.after =~= of_child(&body.subject) + of_list(&body.args));
    }
}

fn walk_macro_call_expr_mut<V: AstVisitorMut>(visitor: &mut V, view: AstNodeRefMut<'_, MacroCallExpr>)
    ensures
        walks(
            *old(visitor),
            AstRef::MacroCallExpr(AstNodeRef { body: &*old(view.body), id: view.id }),
            AstRef::MacroCallExpr(AstNodeRef { body: &*final(view.body), id: view.id }),
            *final(visitor),
        ),
{
    let body = view.body;
    let ghost held = *body;
    let ghost mut chain = Chain::begin(*visitor);
    proof {
        lemma_mutates_none(*visitor);
    }
    visit_child_mut(visitor, &mut body.name, Ghost(chain));
    proof {
        chain = chain.followed_by(of_child(&held.name), of_child(&body.name));
    }
    visit_child_mut(visitor, &mut body.namespace, Ghost(chain));
    proof {
        chain = chain.followed_by(of_child(&held.namespace), of_child(&body.namespace));
    }
    visit_list_mut(visitor, &mut body.args, Ghost(chain));
    proof {
        chain = chain.followed_by(of_list(&held.args), of_list(&body.args));
    }
    proof {
        assert(chain.before =~= of_child(&held.name)
            + of_child(&held.namespace)
            + of_list(&held.args));
        assert(chain.after =~= of_child(&body.name)
            + of_child(&body.namespace)
            + of_list(&body.args));
    }
}

fn walk_filtered_expr_mut<V: AstVisitorMut>(visitor: &mut V, view: AstNodeRefMut<'_, FilteredExpr>)
    ensures
        walks(
            *old(visitor),
            AstRef::FilteredExpr(AstNodeRef { body: &*old(view.body), id: view.id }),
            AstRef::FilteredExpr(AstNodeRef { body: &*final(view.body), id: view.id }),
            *final(visitor),
        ),
{
    let body = view.body;
    let ghost held = *body;
    let ghost mut chain = Chain::begin(*visitor);
    proof {
        lemma_mutates_none(*visitor);
    }
    visit_child_mut(visitor, &mut body.subject, Ghost(chain));
    proof {
        chain = chain.followed_by(of_child(&held.subject), of_child(&body.subject));
    }
    visit_list_mut(visitor, &mut body.filters, Ghost(chain));
    proof {
        chain = chain.followed_by(of_list(&held.filters), of_list(&body.filters));
    }
    proof {
        assert(chain.before =~= of_child(&held.subject) + of_list(&held.filters));
        assert(chain.after =~= of_child(&body.subject) + of_list(&body.filters));
    }
}

fn walk_expr_mut<V: AstVisitorMut>(visitor: &mut V, view: AstNodeRefMut<'_, Expr>)
    ensures
        walks(
            *old(visitor),
            AstRef::Expr(AstNodeRef { body: &*old(view.body), id: view.id }),
            AstRef::Expr(AstNodeRef { body: &*final(view.body), id: view.id }),
            *final(visitor),
        ),
{
    let id = view.id;
    let ghost chain = Chain::begin(*visitor);
    proof {
        lemma_mutates_none(*visitor);
    }
    match view.body {
        Expr::Unary(inner) => visit_payload_mut(visitor, inner, id, Ghost(chain)),
        Expr::Lit(inner) => visit_payload_mut(visitor, inner, id, Ghost(chain)),
        Expr::Array(inner) => visit_payload_mut(visitor, inner, id, Ghost(chain)),
        Expr::Bin(inner) => visit_payload_mut(visitor, inner, id, Ghost(chain)),
        Expr::Var(inner) => visit_payload_mut(visitor, inner, id, Ghost(chain)),
        Expr::Call(inner) => visit_payload_mut(visitor, inner, id, Ghost(chain)),
        Expr::MacroCall(inner) => visit_payload_mut(visitor, inner, id, Ghost(chain)),
        Expr::FilteredExpr(inner) => visit_payload_mut(visitor, inner, id, Ghost(chain)),
    }
    proof {
        assert(forall|views: Seq<AstRef<'_>>| chain.before + views =~= views);
    }
}

fn walk_block_mut<V: AstVisitorMut>(visitor: &mut V, view: AstNodeRefMut<'_, Block>)
    ensures
        walks(
            *old(visitor),
            AstRef::Block(AstNodeRef { body: &*old(view.body), id: view.id }),
            AstRef::Block(AstNodeRef { body: &*final(view.body), id: view.id }),
            *final(visitor),
        ),
{
    let body = view.body;
    let ghost held = *body;
    let ghost mut chain = Chain::begin(*visitor);
    proof {
        lemma_mutates_none(*visitor);
    }
    visit_optional_mut(visitor, &mut body.label, Ghost(chain));
    proof {
        chain = chain.followed_by(of_optional(&held.label), of_optional(&body.label));
    }
    visit_list_mut(visitor, &mut body.children, Ghost(chain));
    proof {
        chain = chain.followed_by(of_list(&held.children), of_list(&body.children));
    }
    proof {
        assert(chain.before =~= of_optional(&held.label) + of_list(&held.children));
        assert(chain.after =~= of_optional(&body.label) + of_list(&body.children));
    }
}

fn walk_macro_def_mut<V: AstVisitorMut>(visitor: &mut V, view: AstNodeRefMut<'_, MacroDef>)
    ensures
        walks(
            *old(visitor),
            AstRef::MacroDef(AstNodeRef { body: &*old(view.body), id: view.id }),
            AstRef::MacroDef(AstNodeRef { body: &*final(view.body), id: view.id }),
            *final(visitor),
        ),
{
    let body = view.body;
    let ghost held = *body;
    let ghost mut chain = Chain::begin(*visitor);
    proof {
        lemma_mutates_none(*visitor);
    }
    visit_child_mut(visitor, &mut body.name, Ghost(chain));
    proof {
        chain = chain.followed_by(of_child(&held.name), of_child(&body.name));
    }
    visit_list_mut(visitor, &mut body.args, Ghost(chain));
    proof {
        chain = chain.followed_by(of_list(&held.args), of_list(&body.args));
    }
    visit_list_mut(visitor, &mut body.inner, Ghost(chain));
    proof {
        chain = chain.followed_by(of_list(&held.inner), of_list(&body.inner));
    }
    proof {
        assert(chain.before =~= of_child(&held.name)
            + of_list(&held.args)
            + of_list(&held.inner));
        assert(chain.after =~= of_child(&body.name)
            + of_list(&body.args)
            + of_list(&body.inner));
    }
}

fn walk_include_mut<V: AstVisitorMut>(visitor: &mut V, view: AstNodeRefMut<'_, Include>)
    ensures
        walks(
            *old(visitor),
            AstRef::Include(AstNodeRef { body: &*old(view.body), id: view.id }),
            AstRef::Include(AstNodeRef { body: &*final(view.body), id: view.id }),
            *final(visitor),
        ),
{
    let body = view.body;
    let ghost held = *body;
    let ghost mut chain = Chain::begin(*visitor);
    proof {
        lemma_mutates_none(*visitor);
    }
    visit_child_mut(visitor, &mut body.path, Ghost(chain));
    proof {
        chain = chain.followed_by(of_child(&held.path), of_child(&body.path));
    }
    proof {
        assert(chain.before =~= of_child(&held.path));
        assert(chain.after =~= of_child(&body.path));
    }
}

fn walk_extends_mut<V: AstVisitorMut>(visitor: &mut V, view: AstNodeRefMut<'_, Extends>)
    ensures
        walks(
            *old(visitor),
            AstRef::Extends(AstNodeRef { body: &*old(view.body), id: view.id }),
            AstRef::Extends(AstNodeRef { body: &*final(view.body), id: view.id }),
            *final(visitor),
        ),
{
    let body = view.body;
    let ghost held = *body;
    let ghost mut chain = Chain::begin(*visitor);
    proof {
        lemma_mutates_none(*visitor);
    }
    visit_child_mut(visitor, &mut body.path, Ghost(chain));
    proof {
        chain = chain.followed_by(of_child(&held.path), of_child(&body.path));
    }
    proof {
        assert(chain.before =~= of_child(&held.path));
        assert(chain.after =~= of_child(&body.path));
    }
}

fn walk_import_mut<V: AstVisitorMut>(visitor: &mut V, view: AstNodeRefMut<'_, Import>)
    ensures
        walks(
            *old(visitor),
            AstRef::Import(AstNodeRef { body: &*old(view.body), id: view.id }),
            AstRef::Import(AstNodeRef { body: &*final(view.body), id: view.id }),
            *final(visitor),
        ),
{
    let body = view.body;
    let ghost held = *body;
    let ghost mut chain = Chain::begin(*visitor);
    proof {
        lemma_mutates_none(*visitor);
    }
    visit_child_mut(visitor, &mut body.path, Ghost(chain));
    proof {
        chain = chain.followed_by(of_child(&held.path), of_child(&body.path));
    }
    visit_optional_mut(visitor, &mut body.name, Ghost(chain));
    proof {
        chain = chain.followed_by(of_optional(&held.name), of_optional(&body.name));
    }
    proof {
        assert(chain.before =~= of_child(&held.path) + of_optional(&held.name));
        assert(chain.after =~= of_child(&body.path) + of_optional(&body.name));
    }
}

fn walk_set_tag_mut<V: AstVisitorMut>(visitor: &mut V, view: AstNodeRefMut<'_, SetTag>)
    ensures
        walks(
            *old(visitor),
            AstRef::SetTag(AstNodeRef { body: &*old(view.body), id: view.id }),
            AstRef::SetTag(AstNodeRef { body: &*final(view.body), id: view.id }),
            *final(visitor),
        ),
{
    let body = view.body;
    let ghost held = *body;
    let ghost mut chain = Chain::begin(*visitor);
    proof {
        lemma_mutates_none(*visitor);
    }
    visit_child_mut(visitor, &mut body.name, Ghost(chain));
    proof {
        chain = chain.followed_by(of_child(&held.name), of_child(&body.name));
    }
    visit_child_mut(visitor, &mut body.value, Ghost(chain));
    proof {
        chain = chain.followed_by(of_child(&held.value), of_child(&body.value));
    }
    proof {
        assert(chain.before =~= of_child(&held.name) + of_child(&held.value));
        assert(chain.after =~= of_child(&body.name) + of_child(&body.value));
    }
}

fn walk_tag_mut<V: AstVisitorMut>(visitor: &mut V, view: AstNodeRefMut<'_, Tag>)
    ensures
        walks(
            *old(visitor),
            AstRef::Tag(AstNodeRef { body: &*old(view.body), id: view.id }),
            AstRef::Tag(AstNodeRef { body: &*final(view.body), id: view.id }),
            *final(visitor),
        ),
{
    let body = view.body;
    let ghost held = *body;
    let ghost mut chain = Chain::begin(*visitor);
    proof {
        lemma_mutates_none(*visitor);
    }
    visit_child_mut(visitor, &mut body.name, Ghost(chain));
    proof {
        chain = chain.followed_by(of_child(&held.name), of_child(&body.name));
    }
    visit_list_mut(visitor, &mut body.args, Ghost(chain));
    proof {
        chain = chain.followed_by(of_list(&held.args), of_list(&body.args));
    }
    proof {
        assert(chain.before =~= of_child(&held.name) + of_list(&held.args));
        assert(chain.after =~= of_child(&body.name) + of_list(&body.args));
    }
}

fn walk_var_mut<V: AstVisitorMut>(visitor: &mut V, view: AstNodeRefMut<'_, Var>)
    ensures
        walks(
            *old(visitor),
            AstRef::Var(AstNodeRef { body: &*old(view.body), id: view.id }),
            AstRef::Var(AstNodeRef { body: &*final(view.body), id: view.id }),
            *final(visitor),
        ),
{
    let body = view.body;
    let ghost held = *body;
    let ghost mut chain = Chain::begin(*visitor);
    proof {
        lemma_mutates_none(*visitor);
    }
    visit_child_mut(visitor, &mut body.identifier, Ghost(chain));
    proof {
        chain = chain.followed_by(of_child(&held.identifier), of_child(&body.identifier));
    }
    proof {
        assert(chain.before =~= of_child(&held.identifier));
        assert(chain.after =~= of_child(&body.identifier));
    }
}

fn walk_body_mut<V: AstVisitorMut>(visitor: &mut V, view: AstNodeRefMut<'_, Body>)
    ensures
        walks(
            *old(visitor),
            AstRef::Body(AstNodeRef { body: &*old(view.body), id: view.id }),
            AstRef::Body(AstNodeRef { body: &*final(view.body), id: view.id }),
            *final(visitor),
        ),
{
    let body = view.body;
    let ghost held = *body;
    let ghost mut chain = Chain::begin(*visitor);
    proof {
        lemma_mutates_none(*visitor);
    }
    visit_list_mut(visitor, &mut body.contents, Ghost(chain));
    proof {
        chain = chain.followed_by(of_list(&held.contents), of_list(&body.contents));
    }
    proof {
        assert(chain.before =~= of_list(&held.contents));
        assert(chain.after =~= of_list(&body.contents));
    }
}

fn walk_if_clause_mut<V: AstVisitorMut>(visitor: &mut V, view: AstNodeRefMut<'_, IfClause>)
    ensures
        walks(
            *old(visitor),
            AstRef::IfClause(AstNodeRef { body: &*old(view.body), id: view.id }),
            AstRef::IfClause(AstNodeRef { body: &*final(view.body), id: view.id }),
            *final(visitor),
        ),
{
    let body = view.body;
    let ghost held = *body;
    let ghost mut chain = Chain::begin(*visitor);
    proof {
        lemma_mutates_none(*visitor);
    }
    visit_child_mut(visitor, &mut body.condition, Ghost(chain));
    proof {
        chain = chain.followed_by(of_child(&held.condition), of_child(&body.condition));
    }
    visit_child_mut(visitor, &mut body.if_body, Ghost(chain));
    proof {
        chain = chain.followed_by(of_child(&held.if_body), of_child(&body.if_body));
    }
    proof {
        assert(chain.before =~= of_child(&held.condition) + of_child(&held.if_body));
        assert(chain.after =~= of_child(&body.condition) + of_child(&body.if_body));
    }
}

fn walk_if_mut<V: AstVisitorMut>(visitor: &mut V, view: AstNodeRefMut<'_, If>)
    ensures
        walks(
            *old(visitor),
            AstRef::If(AstNodeRef { body: &*old(view.body), id: view.id }),
            AstRef::If(AstNodeRef { body: &*final(view.body), id: view.id }),
            *final(visitor),
        ),
{
    let body = view.body;
    let ghost held = *body;
    let ghost mut chain = Chain::begin(*visitor);
    proof {
        lemma_mutates_none(*visitor);
    }
    visit_list_mut(visitor, &mut body.clauses, Ghost(chain));
    proof {
        chain = chain.followed_by(of_list(&held.clauses), of_list(&body.clauses));
    }
    visit_optional_mut(visitor, &mut body.otherwise, Ghost(chain));
    proof {
        chain = chain.followed_by(of_optional(&held.otherwise), of_optional(&body.otherwise));
    }
    proof {
        assert(chain.before =~= of_list(&held.clauses) + of_optional(&held.otherwise));
        assert(chain.after =~= of_list(&body.clauses) + of_optional(&body.otherwise));
    }
}

fn walk_for_mut<V: AstVisitorMut>(visitor: &mut V, view: AstNodeRefMut<'_, For>)
    ensures
        walks(
            *old(visitor),
            AstRef::For(AstNodeRef { body: &*old(view.body), id: view.id }),
            AstRef::For(AstNodeRef { body: &*final(view.body), id: view.id }),
            *final(visitor),
        ),
{
    let body = view.body;
    let ghost held = *body;
    let ghost mut chain = Chain::begin(*visitor);
    proof {
        lemma_mutates_none(*visitor);
    }
    visit_optional_mut(visitor, &mut body.key, Ghost(chain));
    proof {
        chain = chain.followed_by(of_optional(&held.key), of_optional(&body.key));
    }
    visit_child_mut(visitor, &mut body.value, Ghost(chain));
    proof {
        chain = chain.followed_by(of_child(&held.value), of_child(&body.value));
    }
    visit_child_mut(visitor, &mut body.loop_body, Ghost(chain));
    proof {
        chain = chain.followed_by(of_child(&held.loop_body), of_child(&body.loop_body));
    }
    visit_optional_mut(visitor, &mut body.loop_empty, Ghost(chain));
    proof {
        chain = chain.followed_by(of_optional(&held.loop_empty), of_optional(&body.loop_empty));
    }
    proof {
        assert(chain.before =~= of_optional(&held.key)
            + of_child(&held.value)
            + of_child(&held.loop_body)
            + of_optional(&held.loop_empty));
        assert(chain.after =~= of_optional(&body.key)
            + of_child(&body.value)
            + of_child(&body.loop_body)
            + of_optional(&body.loop_empty));
    }
}

fn walk_statement_mut<V: AstVisitorMut>(visitor: &mut V, view: AstNodeRefMut<'_, Statement>)
    ensures
        walks(
            *old(visitor),
            AstRef::Statement(AstNodeRef { body: &*old(view.body), id: view.id }),
            AstRef::Statement(AstNodeRef { body: &*final(view.body), id: view.id }),
            *final(visitor),
        ),
{
    let id = view.id;
    let ghost chain = Chain::begin(*visitor);
    proof {
        lemma_mutates_none(*visitor);
    }
    match view.body {
        Statement::Super(inner) => visit_payload_mut(visitor, inner, id, Ghost(chain)),
        Statement::Text(inner) => visit_payload_mut(visitor, inner, id, Ghost(chain)),
        Statement::Var(inner) => visit_payload_mut(visitor, inner, id, Ghost(chain)),
        Statement::Tag(inner) => visit_payload_mut(visitor, inner, id, Ghost(chain)),
        Statement::Block(inner) => visit_payload_mut(visitor, inner, id, Ghost(chain)),
        Statement::MacroDef(inner) => visit_payload_mut(visitor, inner, id, Ghost(chain)),
        Statement::SetTag(inner) => visit_payload_mut(visitor, inner, id, Ghost(chain)),
        Statement::Include(inner) => visit_payload_mut(visitor, inner, id, Ghost(chain)),
        Statement::Extends(inner) => visit_payload_mut(visitor, inner, id, Ghost(chain)),
        Statement::Import(inner) => visit_payload_mut(visitor, inner, id, Ghost(chain)),
        Statement::If(inner) => visit_payload_mut(visitor, inner, id, Ghost(chain)),
        Statement::For(inner) => visit_payload_mut(visitor, inner, id, Ghost(chain)),
        Statement::Continue(inner) => visit_payload_mut(visitor, inner, id, Ghost(chain)),
        Statement::Break(inner) => visit_payload_mut(visitor, inner, id, Ghost(chain)),
        Statement::Raw(inner) => visit_payload_mut(visitor, inner, id, Ghost(chain)),
        Statement::Comment(inner) => visit_payload_mut(visitor, inner, id, Ghost(chain)),
    }
    proof {
        assert(forall|views: Seq<AstRef<'_>>| chain.before + views =~= views);
    }
}

fn walk_document_mut<V: AstVisitorMut>(visitor: &mut V, view: AstNodeRefMut<'_, Document>)
    ensures
        walks(
            *old(visitor),
            AstRef::Document(AstNodeRef { body: &*old(view.body), id: view.id }),
            AstRef::Document(AstNodeRef { body: &*final(view.body), id: view.id }),
            *final(visitor),
        ),
{
    let body = view.body;
    let ghost held = *body;
    let ghost mut chain = Chain::begin(*visitor);
    proof {
        lemma_mutates_none(*visitor);
    }
    visit_list_mut(visitor, &mut body.children, Ghost(chain));
    proof {
        chain = chain.followed_by(of_list(&held.children), of_list(&body.children));
    }
    proof {
        assert(chain.before =~= of_list(&held.children));
        assert(chain.after =~= of_list(&body.children));
    }
}

/// Hands each child of `node` to `visitor`, in source order, for it to
/// rewrite. The node itself keeps its shape and its identity; of its
/// children only the payloads can change.
pub fn walk_mut<V: AstVisitorMut, K: AstKind>(visitor: &mut V, node: AstNodeRefMut<'_, K>)
    ensures
        walks(
            *old(visitor),
            K::as_any(AstNodeRef { body: &*old(node.body), id: node.id }),
            K::as_any(AstNodeRef { body: &*final(node.body), id: node.id }),
            *final(visitor),
        ),
{
    proof {
        lemma_mutates_none(*visitor);
    }
    match K::wrap_mut(node) {
        AstRefMut::Op(_) => {},
        AstRefMut::BinOp(_) => {},
        AstRefMut::UnaryOp(_) => {},
        AstRefMut::Lit(_) => {},
        AstRefMut::LitExpr(_) => {},
        AstRefMut::ArrayExpr(view) => walk_array_expr_mut(visitor, view),
        AstRefMut::BinExpr(view) => walk_bin_expr_mut(visitor, view),
        AstRefMut::Name(_) => {},
        AstRefMut::Path(_) => {},
        AstRefMut::VarExpr(_) => {},
        AstRefMut::UnaryExpr(view) => walk_unary_expr_mut(visitor, view),
        AstRefMut::Arg(view) => walk_arg_mut(visitor, view),
        AstRefMut::CallExpr(view) => walk_call_expr_mut(visitor, view),
        AstRefMut::MacroCallExpr(view) => walk_macro_call_expr_mut(visitor, view),
        AstRefMut::FilteredExpr(view) => walk_filtered_expr_mut(visitor, view),
        AstRefMut::Expr(view) => walk_expr_mut(visitor, view),
        AstRefMut::Block(view) => walk_block_mut(visitor, view),
        AstRefMut::MacroDef(view) => walk_macro_def_mut(visitor, view),
        AstRefMut::Include(view) => walk_include_mut(visitor, view),
        AstRefMut::Extends(view) => walk_extends_mut(visitor, view),
        AstRefMut::Import(view) => walk_import_mut(visitor, view),
        AstRefMut::SetTag(view) => walk_set_tag_mut(visitor, view),
        AstRefMut::Super(_) => {},
        AstRefMut::Tag(view) => walk_tag_mut(visitor, view),
        AstRefMut::Text(_) => {},
        AstRefMut::Var(view) => walk_var_mut(visitor, view),
        AstRefMut::Body(view) => walk_body_mut(visitor, view),
        AstRefMut::IfClause(view) => walk_if_clause_mut(visitor, view),
        AstRefMut::If(view) => walk_if_mut(visitor, view),
        AstRefMut::For(view) => walk_for_mut(visitor, view),
        AstRefMut::Continue(_) => {},
        AstRefMut::Break(_) => {},
        AstRefMut::Raw(_) => {},
        AstRefMut::Comment(_) => {},
        AstRefMut::Statement(view) => walk_statement_mut(visitor, view),
        AstRefMut::Document(view) => walk_document_mut(visitor, view),
    }
}

} // verus!
