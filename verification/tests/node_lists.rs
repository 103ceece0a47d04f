use bracketlint::ident::{AstCounter, AstNodeId};
use bracketlint::location::{ByteRange, SourceId, Span};
use bracketlint::node::AstNode;
use bracketlint::nodes::AstNodes;
use bracketlint::span_map::SpanMap;

fn span(start: usize, end: usize, source: u32) -> Span {
    Span::new(ByteRange::new(start, end), SourceId(source))
}

fn node(payload: u32, id: u32) -> AstNode<u32> {
    AstNode { body: Box::new(payload), id: AstNodeId(id) }
}

#[test]
fn merging_joins_the_spans_and_appends_the_nodes() {
    let mut counter = AstCounter::new();
    let mut table = SpanMap::new();
    let mut left = AstNodes::new(vec![node(1, 50), node(2, 51)], &mut table, &mut counter, span(0, 20, 7));
    let right = AstNodes::new(vec![node(3, 52)], &mut table, &mut counter, span(20, 35, 7));
    let id = left.id();
    let other = right.id();
    left.merge(&mut table, right);
    assert_eq!(left.span(&table), span(0, 35, 7));
    assert_eq!(left.id(), id);
    assert_eq!(table.span_of(other), span(20, 35, 7));
    assert_eq!(left.nodes, vec![node(1, 50), node(2, 51), node(3, 52)]);
}

#[test]
fn merging_in_the_other_order_gives_the_same_span() {
    let mut counter = AstCounter::new();
    let mut table = SpanMap::new();
    let left: AstNodes<u32> = AstNodes::empty(&mut table, &mut counter, span(4, 9, 1));
    let mut right: AstNodes<u32> = AstNodes::empty(&mut table, &mut counter, span(2, 6, 1));
    right.merge(&mut table, left);
    assert_eq!(right.span(&table), span(2, 9, 1));
    let mut first: AstNodes<u32> = AstNodes::empty(&mut table, &mut counter, span(4, 9, 1));
    let second: AstNodes<u32> = AstNodes::empty(&mut table, &mut counter, span(2, 6, 1));
    first.merge(&mut table, second);
    assert_eq!(first.span(&table), span(2, 9, 1));
}

#[test]
fn a_new_list_records_its_span_under_a_fresh_identity() {
    let mut counter = AstCounter::new();
    let mut table = SpanMap::new();
    let list: AstNodes<u32> = AstNodes::empty(&mut table, &mut counter, span(3, 5, 2));
    assert_eq!(list.id(), AstNodeId(1));
    assert_eq!(list.len(), 0);
    assert_eq!(list.span(&table), span(3, 5, 2));
    let next = AstNodes::new(vec![node(8, 40)], &mut table, &mut counter, span(5, 6, 2));
    assert_eq!(next.id(), AstNodeId(2));
    assert_eq!(next.len(), 1);
    assert_eq!(counter.total(), 2);
}

#[test]
fn with_id_reuses_an_identity() {
    let mut counter = AstCounter::new();
    let mut table = SpanMap::new();
    let id = table.add_span(&mut counter, span(1, 8, 3));
    let list = AstNodes::with_id(vec![node(1, 20), node(2, 21)], id);
    assert_eq!(list.id(), id);
    assert_eq!(list.span(&table), span(1, 8, 3));
    assert_eq!(counter.total(), 1);
    assert_eq!(table.len(), 2);
}

#[test]
fn inserting_keeps_the_span_of_the_list() {
    let mut counter = AstCounter::new();
    let mut table = SpanMap::new();
    let mut list = AstNodes::new(vec![node(1, 10), node(3, 12)], &mut table, &mut counter, span(0, 9, 1));
    list.insert(node(2, 11), 1);
    list.insert(node(0, 9), 0);
    list.insert(node(4, 13), 4);
    let payloads: Vec<u32> = list.nodes.iter().map(|n| *n.body).collect();
    assert_eq!(payloads, vec![0, 1, 2, 3, 4]);
    assert_eq!(list.span(&table), span(0, 9, 1));
    list.set_span(&mut table, span(0, 14, 1));
    assert_eq!(list.span(&table), span(0, 14, 1));
    assert_eq!(list.len(), 5);
}

#[test]
fn views_come_in_the_order_of_the_list() {
    let list = AstNodes::with_id(vec![node(7, 31), node(8, 32), node(9, 33)], AstNodeId(30));
    let views = list.ast_ref_iter();
    assert_eq!(views.len(), 3);
    for (view, owned) in views.iter().zip(list.nodes.iter()) {
        assert_eq!(view.id(), owned.id);
        assert_eq!(view.body(), owned.body.as_ref());
    }
    let ids: Vec<AstNodeId> = views.iter().map(|v| v.id()).collect();
    assert_eq!(ids, vec![AstNodeId(31), AstNodeId(32), AstNodeId(33)]);
    let again = list.ast_ref_iter();
    assert_eq!(again.len(), 3);
    let empty: AstNodes<u32> = AstNodes::with_id(vec![], AstNodeId(1));
    assert!(empty.ast_ref_iter().is_empty());
}

#[test]
fn a_list_reads_as_a_slice_of_its_nodes() {
    let mut list = AstNodes::with_id(vec![node(7, 31), node(8, 32)], AstNodeId(30));
    assert_eq!(list.len(), 2);
    assert_eq!(list[1], node(8, 32));
    assert_eq!(list.first(), Some(&node(7, 31)));
    list[0] = node(6, 31);
    list.reverse();
    assert_eq!(list.nodes, vec![node(8, 32), node(6, 31)]);
}
