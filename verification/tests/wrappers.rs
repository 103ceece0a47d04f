use bracketlint::ident::{AstCounter, AstNodeId};
use bracketlint::location::{ByteRange, SourceId, Span};
use bracketlint::node::{AstNode, AstNodeRef, AstNodeRefMut, OwnsAstNode};
use bracketlint::span_map::SpanMap;

struct Module {
    root: AstNode<u32>,
}

impl OwnsAstNode<u32> for Module {
    fn node(&self) -> &AstNode<u32> {
        &self.root
    }

    fn node_mut(&mut self) -> &mut AstNode<u32> {
        &mut self.root
    }
}

#[test]
fn owner_hands_out_views_of_its_node() {
    let mut module = Module { root: AstNode { body: Box::new(7), id: AstNodeId(4) } };
    let view: AstNodeRef<u32> = module.node_ref();
    assert_eq!(*view.body(), 7);
    assert_eq!(view.id(), AstNodeId(4));
    let mut view: AstNodeRefMut<u32> = module.node_ref_mut();
    view.replace(|old| old + 1);
    assert_eq!(*view.immutable().body(), 8);
    assert_eq!(view.id(), AstNodeId(4));
    assert_eq!(*module.root.body, 8);
}

#[test]
fn a_node_owns_itself() {
    let mut node = AstNode { body: Box::new(String::from("a")), id: AstNodeId(2) };
    assert_eq!(node.node().id, AstNodeId(2));
    node.node_mut().body.push('b');
    assert_eq!(node.node_ref().body().as_str(), "ab");
}

#[test]
fn read_view_shares_identity_and_payload() {
    let node = AstNode { body: Box::new(String::from("name")), id: AstNodeId(9) };
    let view = node.ast_ref();
    assert_eq!(view.body().as_str(), "name");
    assert_eq!(view.id(), AstNodeId(9));
    assert_eq!(view.len(), 4);
    let copy = view;
    let clone = view.clone();
    assert_eq!(copy.id(), view.id());
    assert_eq!(clone.body(), view.body());
    let made = AstNodeRef::new(node.body.as_ref(), AstNodeId(9));
    assert_eq!(made.body(), view.body());
    assert_eq!(made.id(), view.id());
}

#[test]
fn with_body_keeps_the_identity() {
    let node = AstNode { body: Box::new((1u8, 2u16)), id: AstNodeId(12) };
    let part = node.with_body(&node.body.1);
    assert_eq!(*part.body(), 2u16);
    assert_eq!(part.id(), AstNodeId(12));
    let again = part.with_body(&node.body.0);
    assert_eq!(*again.body(), 1u8);
    assert_eq!(again.id(), AstNodeId(12));
}

#[test]
fn replace_then_immutable_shows_the_replacement() {
    let mut node = AstNode { body: Box::new(vec![1, 2, 3]), id: AstNodeId(5) };
    let mut view = node.ast_ref_mut();
    view.replace(|mut old| {
        old.reverse();
        old.push(0);
        old
    });
    let shown = view.immutable();
    assert_eq!(shown.body(), &vec![3, 2, 1, 0]);
    assert_eq!(shown.id(), AstNodeId(5));
    assert_eq!(view.body(), &vec![3, 2, 1, 0]);
    assert_eq!(*node.body, vec![3, 2, 1, 0]);
    assert_eq!(node.id, AstNodeId(5));
}

#[test]
fn mutable_view_changes_the_payload_in_place() {
    let mut payload = 10u64;
    let mut view = AstNodeRefMut::new(&mut payload, AstNodeId(3));
    *view.body_mut() += 5;
    assert_eq!(*view.body(), 15);
    *view *= 2;
    assert_eq!(*view, 30);
    assert_eq!(view.id(), AstNodeId(3));
    assert_eq!(payload, 30);
}

#[test]
fn views_resolve_their_span_through_the_table() {
    let mut counter = AstCounter::new();
    let mut table = SpanMap::new();
    let at = Span::new(ByteRange::new(11, 19), SourceId(2));
    let id = table.add_span(&mut counter, at);
    let mut node = AstNode { body: Box::new('x'), id };
    assert_eq!(node.ast_ref().span(&table), at);
    assert_eq!(node.ast_ref_mut().span(&table), at);
    let wider = Span::new(ByteRange::new(11, 25), SourceId(2));
    table.update_span(id, wider);
    assert_eq!(node.ast_ref().span(&table), wider);
    assert_eq!(node.ast_ref().with_body(&1u8).span(&table), wider);
}

#[test]
fn a_failed_replacement_leaves_the_payload_untouched() {
    let mut node = AstNode { body: Box::new(vec![4, 5]), id: AstNodeId(8) };
    let mut view = node.ast_ref_mut();
    let failed = view.try_replace(|old| if old.len() > 1 { Err("too long") } else { Ok(vec![]) });
    assert_eq!(failed, Err("too long"));
    assert_eq!(view.body(), &vec![4, 5]);
    let done = view.try_replace(|old| -> Result<Vec<i32>, &str> {
        Ok(old.iter().map(|value| value * 2).collect())
    });
    assert_eq!(done, Ok(()));
    assert_eq!(view.immutable().body(), &vec![8, 10]);
    assert_eq!(view.id(), AstNodeId(8));
    assert_eq!(*node.body, vec![8, 10]);
}
