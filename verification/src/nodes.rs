//! A list of sibling nodes with one span of its own, which brackets the
//! whole list.

use vstd::prelude::*;
use crate::ident::{AstCounter, AstNodeId};
use crate::location::Span;
use crate::node::{AstNode, AstNodeRef};
use crate::span_map::SpanMap;

verus! {

/// An ordered run of sibling nodes, such as the statements of a block or
/// the arguments of a call. Besides the nodes, the list has an identity of
/// its own, under which the span of the whole list is recorded: the nodes
/// with what delimits them.
#[derive(Debug, PartialEq, Clone)]
pub struct AstNodes<T> {
    /// The nodes of the list, in source order.
    pub nodes: Vec<AstNode<T>>,
    /// The identity under which the span of the list is recorded.
    pub id: AstNodeId,
}

impl<T> AstNodes<T> {
    /// An empty list whose span is `span`, recorded in `spans` under a
    /// fresh identity.
    pub fn empty(spans: &mut SpanMap, counter: &mut AstCounter, span: Span) -> (list: AstNodes<T>)
        requires
            old(spans).wf(),
            !old(counter).exhausted(),
        ensures
            list.nodes@ == Seq::<AstNode<T>>::empty(),
            old(counter).issues(list.id, *final(counter)),
            list.id.is_issuable(),
            final(spans)@ == SpanMap::recorded(old(spans)@, list.id, span),
            final(spans).wf(),
    {
        AstNodes::new(Vec::new(), spans, counter, span)
    }

    /// The list of `nodes` whose span is `span`, recorded in `spans` under
    /// a fresh identity.
    pub fn new(
        nodes: Vec<AstNode<T>>,
        spans: &mut SpanMap,
        counter: &mut AstCounter,
        span: Span,
    ) -> (list: AstNodes<T>)
        requires
            old(spans).wf(),
            !old(counter).exhausted(),
        ensures
            list.nodes@ == nodes@,
            old(counter).issues(list.id, *final(counter)),
            list.id.is_issuable(),
            final(spans)@ == SpanMap::recorded(old(spans)@, list.id, span),
            final(spans).wf(),
    {
        let id = spans.add_span(counter, span);
        AstNodes { nodes, id }
    }

    /// The list of `nodes` under the identity `id`, whose span is recorded
    /// already.
    pub fn with_id(nodes: Vec<AstNode<T>>, id: AstNodeId) -> (list: AstNodes<T>)
        ensures
            list.nodes@ == nodes@,
            list.id == id,
    {
        AstNodes { nodes, id }
    }

    /// Overwrites the span of the list. Neither the nodes nor the identity
    /// of the list change.
    pub fn set_span(&mut self, spans: &mut SpanMap, span: Span)
        requires
            old(spans).wf(),
            old(spans).covers(old(self).id),
        ensures
            *final(self) == *old(self),
            final(spans)@ == old(spans)@.update(old(self).id.index(), span),
            final(spans).wf(),
    {
        spans.update_span(self.id, span);
    }

    /// The identity under which the span of the list is recorded.
    pub fn id(&self) -> (id: AstNodeId)
        ensures
            id == self.id,
    {
        self.id
    }

    /// The span of the list, as `spans` records it.
    pub fn span(&self, spans: &SpanMap) -> (span: Span)
        requires
            spans.contains(self.id),
        ensures
            span == spans@[self.id.index()],
            !span.is_null(),
    {
        spans.span_of(self.id)
    }

    /// Inserts `item` before the node at `index`, or at the end where
    /// `index` is the length of the list. The span of the list is not
    /// touched.
    pub fn insert(&mut self, item: AstNode<T>, index: usize)
        requires
            index <= old(self).nodes@.len(),
        ensures
            final(self).nodes@ == old(self).nodes@.insert(index as int, item),
            final(self).id == old(self).id,
    {
        self.nodes.insert(index, item);
    }

    /// Appends the nodes of `other` to this list, in their order, and
    /// widens the span of this list to the union of the two spans: the
    /// smaller start and the larger end. The two spans lie in one source
    /// file. The identity of this list stays.
    pub fn merge(&mut self, spans: &mut SpanMap, other: AstNodes<T>)
        requires
            old(spans).wf(),
            old(spans).contains(old(self).id),
            old(spans).contains(other.id),
            old(spans)@[old(self).id.index()].id == old(spans)@[other.id.index()].id,
        ensures
            final(self).nodes@ == old(self).nodes@ + other.nodes@,
            final(self).id == old(self).id,
            final(spans)@ == old(spans)@.update(
                old(self).id.index(),
                old(spans)@[old(self).id.index()].union(old(spans)@[other.id.index()]),
            ),
            final(spans).wf(),
    {
        let joined = self.span(spans).join(other.span(spans));
        self.set_span(spans, joined);
        let mut rest = other.nodes;
        self.nodes.append(&mut rest);
    }

    /// The read views of the nodes of the list, in the order of the list.
    pub fn ast_ref_iter(&self) -> (views: Vec<AstNodeRef<'_, T>>)
        ensures
            views@.len() == self.nodes@.len(),
            forall|i: int|
                0 <= i < views@.len() ==> {
                    &&& *(#[trigger] views@[i]).body == *self.nodes@[i].body
                    &&& views@[i].id == self.nodes@[i].id
                },
    {
        let mut views: Vec<AstNodeRef<'_, T>> = Vec::new();
        let mut done: usize = 0;
        while done < self.nodes.len()
            invariant
                done <= self.nodes@.len(),
                views@.len() == done,
                forall|i: int|
                    0 <= i < done ==> {
                        &&& *(#[trigger] views@[i]).body == *self.nodes@[i].body
                        &&& views@[i].id == self.nodes@[i].id
                    },
            decreases self.nodes@.len() - done,
        {
            views.push(self.nodes[done].ast_ref());
            done = done + 1;
        }
        views
    }
}

impl<T> core::ops::Deref for AstNodes<T> {
    type Target = [AstNode<T>];

    fn deref(&self) -> (nodes: &[AstNode<T>])
        ensures
            nodes@ == self.nodes@,
    {
        self.nodes.as_slice()
    }
}

impl<T> core::ops::DerefMut for AstNodes<T> {
    fn deref_mut(&mut self) -> (nodes: &mut [AstNode<T>])
        ensures
            nodes@ == old(self).nodes@,
            final(self).nodes@ == final(nodes)@,
            final(self).id == old(self).id,
    {
        self.nodes.as_mut_slice()
    }
}

} // verus!
