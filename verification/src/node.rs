//! The three views of a node: the owner, the shared read view and the
//! exclusive mutable view. Each pairs a payload with the node's identity.

use vstd::prelude::*;
use crate::ident::AstNodeId;
use crate::location::Span;
use crate::span_map::SpanMap;

verus! {

/// A node of the tree: the owner of a payload, with the identity under
/// which the node's span is recorded.
#[derive(Debug, Clone, PartialEq)]
pub struct AstNode<T> {
    /// The payload of the node.
    pub body: Box<T>,
    /// The identity of the node.
    pub id: AstNodeId,
}

/// A shared read view of a node: a reference to its payload, with its
/// identity.
#[derive(Debug)]
pub struct AstNodeRef<'t, T> {
    /// The payload of the node.
    pub body: &'t T,
    /// The identity of the node.
    pub id: AstNodeId,
}

impl<T> Clone for AstNodeRef<'_, T> {
    fn clone(&self) -> (copy: Self)
        ensures
            copy == *self,
    {
        *self
    }
}

impl<T> Copy for AstNodeRef<'_, T> {

}

/// The exclusive mutable view of a node: a mutable reference to its
/// payload, with its identity.
#[derive(Debug)]
pub struct AstNodeRefMut<'t, T> {
    /// The payload of the node.
    pub body: &'t mut T,
    /// The identity of the node.
    pub id: AstNodeId,
}

impl<T> AstNode<T> {
    /// The read view of this node: its payload under its identity.
    pub open spec fn shown(&self) -> AstNodeRef<'_, T> {
        AstNodeRef { body: &*self.body, id: self.id }
    }

    /// A read view of this node.
    pub fn ast_ref(&self) -> (view: AstNodeRef<'_, T>)
        ensures
            view == self.shown(),
            *view.body == *self.body,
            view.id == self.id,
    {
        AstNodeRef { body: &*self.body, id: self.id }
    }

    /// The mutable view of this node.
    pub fn ast_ref_mut(&mut self) -> (view: AstNodeRefMut<'_, T>)
        ensures
            view.id == old(self).id,
            *view.body == *old(self).body,
            final(self).id == old(self).id,
            *final(self).body == *final(view.body),
    {
        AstNodeRefMut { body: &mut *self.body, id: self.id }
    }

    /// A read view of `body` under the identity of this node.
    pub fn with_body<'u, U>(&self, body: &'u U) -> (view: AstNodeRef<'u, U>)
        ensures
            *view.body == *body,
            view.id == self.id,
    {
        AstNodeRef { body, id: self.id }
    }
}

impl<'t, T> AstNodeRef<'t, T> {
    /// A read view of `body` under the identity `id`.
    pub fn new(body: &'t T, id: AstNodeId) -> (view: AstNodeRef<'t, T>)
        ensures
            *view.body == *body,
            view.id == id,
    {
        AstNodeRef { body, id }
    }

    /// The payload of the node.
    pub fn body(&self) -> (body: &'t T)
        ensures
            *body == *self.body,
    {
        self.body
    }

    /// The read view of `body` under the identity of this view.
    pub open spec fn rewrapped<'u, U>(&self, body: &'u U) -> AstNodeRef<'u, U> {
        AstNodeRef { body, id: self.id }
    }

    /// A read view of `body` under the identity of this view. The span of
    /// the result is the span of this view: no other span is looked up.
    pub fn with_body<'u, U>(&self, body: &'u U) -> (view: AstNodeRef<'u, U>)
        ensures
            view == self.rewrapped(body),
            *view.body == *body,
            view.id == self.id,
    {
        AstNodeRef { body, id: self.id }
    }

    /// The span of the node, as `spans` records it.
    pub fn span(&self, spans: &SpanMap) -> (span: Span)
        requires
            spans.contains(self.id),
        ensures
            span == spans@[self.id.index()],
            !span.is_null(),
    {
        spans.span_of(self.id)
    }

    /// The identity of the node.
    pub fn id(&self) -> (id: AstNodeId)
        ensures
            id == self.id,
    {
        self.id
    }
}

/// `replace_with::replace_with_or_abort` moves the value out of `dest`,
/// calls `f` on it once and moves what `f` returns into `dest`. The contract
/// claims that of it: `dest` ends with a result of `f` on the value that
/// `dest` began with. Should `f` unwind, the process is aborted, so the
/// call is for an `f` that returns on that value.
pub assume_specification<T, F: FnOnce(T) -> T>[ replace_with::replace_with_or_abort::<T, F> ](
    dest: &mut T,
    f: F,
)
    requires
        call_requires(f, (*old(dest),)),
    ensures
        call_ensures(f, (*old(dest),), *final(dest)),
;

impl<'t, T> AstNodeRefMut<'t, T> {
    /// The payload of the node as the view holds it.
    pub open spec fn payload(self) -> T {
        *self.body
    }

    /// The read view of the node as this view holds it.
    pub open spec fn shown(self) -> AstNodeRef<'t, T> {
        AstNodeRef { body: &*self.body, id: self.id }
    }

    /// Whether `after` is this view with its payload replaced by `f`: the
    /// payload of `after` is a result of `f` on the payload of this view,
    /// and the identity is the same.
    pub open spec fn replaced_by<F: FnOnce(T) -> T>(self, f: F, after: Self) -> bool {
        &&& call_ensures(f, (self.payload(),), after.payload())
        &&& after.id == self.id
    }

    /// Whether `view` shows the node as this view holds it: the same
    /// payload under the same identity.
    pub open spec fn shown_by(self, view: AstNodeRef<'_, T>) -> bool {
        &&& *view.body == self.payload()
        &&& view.id == self.id
    }

    /// The mutable view of `body` under the identity `id`.
    pub fn new(body: &'t mut T, id: AstNodeId) -> (view: AstNodeRefMut<'t, T>)
        ensures
            view.id == id,
            *view.body == *old(body),
            *final(body) == *final(view.body),
    {
        AstNodeRefMut { body, id }
    }

    /// The payload of the node.
    pub fn body(&self) -> (body: &T)
        ensures
            *body == *old(self.body),
    {
        &*self.body
    }

    /// Replaces the payload of the node by what `f` makes of it. The
    /// identity of the node stays.
    pub fn replace<F: FnOnce(T) -> T>(&mut self, f: F)
        requires
            call_requires(f, (*old(self).body,)),
        ensures
            old(self).replaced_by(f, *final(self)),
            *final(final(self).body) == *final(old(self).body),
    {
        replace_with::replace_with_or_abort(&mut *self.body, f);
    }

    /// Replaces the payload of the node by what `f` makes of it, where `f`
    /// succeeds. Where `f` fails, the payload stays as it was, and the
    /// failure is handed on. The identity of the node stays either way.
    pub fn try_replace<E, F: FnOnce(&T) -> Result<T, E>>(&mut self, f: F) -> (replaced: Result<
        (),
        E,
    >)
        requires
            call_requires(f, (&old(self).payload(),)),
        ensures
            call_ensures(
                f,
                (&old(self).payload(),),
                match replaced {
                    Ok(_) => Ok(final(self).payload()),
                    Err(error) => Err(error),
                },
            ),
            replaced is Err ==> final(self).payload() == old(self).payload(),
            *final(final(self).body) == *final(old(self).body),
            final(self).id == old(self).id,
    {
        match f(&*self.body) {
            Ok(payload) => {
                *self.body = payload;
                Ok(())
            },
            Err(error) => Err(error),
        }
    }

    /// The payload of the node, to be changed in place.
    pub fn body_mut(&mut self) -> (body: &mut T)
        ensures
            *body == *old(self).body,
            *final(self).body == *final(body),
            *final(final(self).body) == *final(old(self).body),
            final(self).id == old(self).id,
    {
        &mut *self.body
    }

    /// The span of the node, as `spans` records it.
    pub fn span(&self, spans: &SpanMap) -> (span: Span)
        requires
            spans.contains(self.id),
        ensures
            span == spans@[self.id.index()],
            !span.is_null(),
    {
        spans.span_of(self.id)
    }

    /// The identity of the node.
    pub fn id(&self) -> (id: AstNodeId)
        ensures
            id == self.id,
    {
        self.id
    }

    /// A read view of the node as it is now.
    pub fn immutable(&self) -> (view: AstNodeRef<'_, T>)
        ensures
            self.shown_by(view),
    {
        AstNodeRef::new(&*self.body, self.id)
    }
}

/// What owns a node: a structure that holds an [`AstNode`] and hands out
/// views of it.
pub trait OwnsAstNode<T> {
    /// The node that the structure owns, as the contracts of this trait
    /// speak of it. An implementation states here which node that is.
    open spec fn owned(&self) -> AstNode<T> {
        arbitrary()
    }

    /// The node that the structure owns.
    fn node(&self) -> (node: &AstNode<T>)
        ensures
            *node == self.owned(),
    ;

    /// The node that the structure owns, to be changed in place.
    fn node_mut(&mut self) -> (node: &mut AstNode<T>)
        ensures
            *node == old(self).owned(),
            final(self).owned() == *final(node),
    ;

    /// A read view of the node that the structure owns.
    fn node_ref(&self) -> (view: AstNodeRef<'_, T>)
        ensures
            *view.body == *self.owned().body,
            view.id == self.owned().id,
    {
        self.node().ast_ref()
    }

    /// The mutable view of the node that the structure owns.
    fn node_ref_mut(&mut self) -> (view: AstNodeRefMut<'_, T>)
        ensures
            view.id == old(self).owned().id,
            *view.body == *old(self).owned().body,
            final(self).owned().id == old(self).owned().id,
            *final(self).owned().body == *final(view.body),
    {
        self.node_mut().ast_ref_mut()
    }
}

impl<T> OwnsAstNode<T> for AstNode<T> {
    open spec fn owned(&self) -> AstNode<T> {
        *self
    }

    fn node(&self) -> (node: &AstNode<T>) {
        self
    }

    fn node_mut(&mut self) -> (node: &mut AstNode<T>) {
        self
    }
}

impl<T> core::ops::Deref for AstNodeRef<'_, T> {
    type Target = T;

    fn deref(&self) -> (body: &T)
        ensures
            *body == *self.body,
    {
        self.body()
    }
}

impl<T> core::ops::Deref for AstNodeRefMut<'_, T> {
    type Target = T;

    fn deref(&self) -> (body: &T)
        ensures
            *body == *old(self.body),
    {
        self.body()
    }
}

impl<T> core::ops::DerefMut for AstNodeRefMut<'_, T> {
    fn deref_mut(&mut self) -> (body: &mut T)
        ensures
            *body == *old(self).body,
            *final(self).body == *final(body),
            *final(final(self).body) == *final(old(self).body),
            final(self).id == old(self).id,
    {
        &mut *self.body
    }
}

/// A read view taken right after a replacement shows the replacement,
/// under the identity that the node had before.
///
/// `after` is `before` with its payload replaced by `f`, and `view` shows
/// `after`. Then the payload of `view` is a result of `f` on the payload of
/// `before`, and the identity of `view` is that of `before`.
pub proof fn lemma_view_after_replace<T, F: FnOnce(T) -> T>(
    f: F,
    before: AstNodeRefMut<'_, T>,
    after: AstNodeRefMut<'_, T>,
    view: AstNodeRef<'_, T>,
)
    requires
        before.replaced_by(f, after),
        after.shown_by(view),
    ensures
        call_ensures(f, (before.payload(),), *view.body),
        view.id == before.id,
{
}

} // verus!
