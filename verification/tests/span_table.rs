use bracketlint::ident::{AstCounter, AstNodeId, Hunk};
use bracketlint::location::{ByteRange, SourceId, Span};
use bracketlint::span_map::{LocalSpanMap, SpanMap};

fn span(start: usize, end: usize, source: u32) -> Span {
    Span::new(ByteRange::new(start, end), SourceId(source))
}

#[test]
fn committed_ranges_resolve_under_their_identities() {
    let mut counter = AstCounter::new();
    let mut table = SpanMap::new();
    let mut local = LocalSpanMap::new(SourceId(3));
    let a = local.add(&mut counter, ByteRange::new(0, 5));
    let b = local.add(&mut counter, ByteRange::new(5, 10));
    let c = local.add(&mut counter, ByteRange::new(10, 12));
    table.add_local_map(local);
    assert_eq!(table.span_of(a), span(0, 5, 3));
    assert_eq!(table.span_of(b), span(5, 10, 3));
    assert_eq!(table.span_of(c), span(10, 12, 3));
    assert_eq!(table.get(a), Some(span(0, 5, 3)));
    assert_eq!(table.source_of(b), SourceId(3));
    assert_eq!(c.span(&table), span(10, 12, 3));
    assert_eq!(c.source(&table), SourceId(3));
}

#[test]
fn reserving_does_not_touch_the_table() {
    let mut counter = AstCounter::new();
    let table = SpanMap::new();
    let mut local = LocalSpanMap::with_capacity(SourceId(1), 8);
    assert!(local.is_empty());
    assert_eq!(local.len(), 0);
    let a = local.add(&mut counter, ByteRange::new(2, 4));
    let b = local.add(&mut counter, ByteRange::new(4, 9));
    assert_eq!(local.len(), 2);
    assert!(!local.is_empty());
    assert_eq!(table.len(), 1);
    assert_eq!(table.get(a), None);
    assert_eq!(table.get(b), None);
}

#[test]
fn committing_an_empty_buffer_changes_nothing() {
    let mut counter = AstCounter::new();
    let mut table = SpanMap::new();
    let a = table.add_span(&mut counter, span(1, 2, 5));
    let b = table.add_span(&mut counter, span(2, 7, 5));
    let before = table.len();
    table.add_local_map(LocalSpanMap::new(SourceId(9)));
    assert_eq!(table.len(), before);
    assert_eq!(table.len(), 3);
    assert_eq!(table.get(a), Some(span(1, 2, 5)));
    assert_eq!(table.get(b), Some(span(2, 7, 5)));
    assert_eq!(table.get(AstNodeId::null()), None);
}

#[test]
fn identities_come_out_in_increasing_order() {
    let mut counter = AstCounter::new();
    assert_eq!(counter.total(), 0);
    assert!(!counter.is_exhausted());
    let mut last = AstNodeId::null();
    for expected in 1..=100u32 {
        let id = counter.next();
        assert_eq!(id, AstNodeId(expected));
        assert!(id > last);
        assert_ne!(id, AstNodeId::null());
        last = id;
    }
    assert_eq!(counter.total(), 100);
    assert_eq!(counter.try_next(), Some(AstNodeId(101)));
    assert_eq!(counter.total(), 101);
}

#[test]
fn the_null_identity_is_zero_and_holds_no_span() {
    let mut counter = AstCounter::new();
    let mut table = SpanMap::new();
    assert_eq!(AstNodeId::null(), AstNodeId(0));
    assert_eq!(AstNodeId::null().to_usize(), 0);
    assert_eq!(AstNodeId::from(0), AstNodeId::null());
    assert_eq!(AstNodeId::from(17), AstNodeId(17));
    assert_eq!(AstNodeId(17).to_usize(), 17);
    assert_eq!(table.get(AstNodeId::null()), None);
    let first = table.add_span(&mut counter, span(0, 1, 0));
    assert_ne!(first, AstNodeId::null());
    assert_eq!(first, AstNodeId(1));
    assert_eq!(table.get(AstNodeId::null()), None);
}

#[test]
fn recording_grows_the_table_and_keeps_the_rest() {
    let mut counter = AstCounter::new();
    let mut table = SpanMap::new();
    assert_eq!(table.len(), 1);
    let a = table.add_span(&mut counter, span(3, 8, 2));
    assert_eq!(table.len(), 2);
    let b = Hunk::create(&mut table, &mut counter, span(8, 9, 2));
    assert_eq!(table.len(), 3);
    assert_eq!((a, b), (AstNodeId(1), AstNodeId(2)));
    assert_eq!(table.span_of(a), span(3, 8, 2));
    assert_eq!(table.span_of(b), span(8, 9, 2));
    assert_eq!(table.get(AstNodeId(3)), None);
}

#[test]
fn recording_after_reservations_leaves_their_slots_empty() {
    let mut counter = AstCounter::new();
    let mut table = SpanMap::new();
    let mut local = LocalSpanMap::new(SourceId(4));
    let a = local.add(&mut counter, ByteRange::new(0, 3));
    let b = local.add(&mut counter, ByteRange::new(3, 6));
    let c = table.add_span(&mut counter, span(10, 20, 8));
    assert_eq!(c, AstNodeId(3));
    assert_eq!(table.len(), 4);
    assert_eq!(table.get(a), None);
    assert_eq!(table.get(b), None);
    assert_eq!(table.get(c), Some(span(10, 20, 8)));
    table.add_local_map(local);
    assert_eq!(table.len(), 4);
    assert_eq!(table.get(a), Some(span(0, 3, 4)));
    assert_eq!(table.get(b), Some(span(3, 6, 4)));
    assert_eq!(table.get(c), Some(span(10, 20, 8)));
}

#[test]
fn buffers_of_two_workers_commit_in_either_order() {
    let mut counter = AstCounter::new();
    let mut table = SpanMap::new();
    let mut left = LocalSpanMap::new(SourceId(1));
    let mut right = LocalSpanMap::new(SourceId(2));
    let l1 = left.add(&mut counter, ByteRange::new(0, 1));
    let r1 = right.add(&mut counter, ByteRange::new(0, 2));
    let l2 = left.add(&mut counter, ByteRange::new(1, 5));
    let r2 = right.add(&mut counter, ByteRange::new(2, 4));
    table.add_local_map(right);
    assert_eq!(table.len(), 5);
    assert_eq!(table.get(l1), None);
    assert_eq!(table.get(l2), None);
    assert_eq!(table.get(r1), Some(span(0, 2, 2)));
    assert_eq!(table.get(r2), Some(span(2, 4, 2)));
    table.add_local_map(left);
    assert_eq!(table.len(), 5);
    assert_eq!(table.get(l1), Some(span(0, 1, 1)));
    assert_eq!(table.get(l2), Some(span(1, 5, 1)));
    assert_eq!(table.get(r1), Some(span(0, 2, 2)));
    assert_eq!(table.get(r2), Some(span(2, 4, 2)));
}

#[test]
fn updating_overwrites_one_span() {
    let mut counter = AstCounter::new();
    let mut table = SpanMap::new();
    let a = table.add_span(&mut counter, span(0, 4, 6));
    let b = table.add_span(&mut counter, span(4, 6, 6));
    table.update_span(a, span(0, 5, 6));
    assert_eq!(table.span_of(a), span(0, 5, 6));
    assert_eq!(table.span_of(b), span(4, 6, 6));
    assert_eq!(table.len(), 3);
}

#[test]
fn extending_fills_with_null_spans_and_never_shrinks() {
    let mut counter = AstCounter::new();
    let mut table = SpanMap::new();
    let a = table.add_span(&mut counter, span(1, 3, 1));
    table.extend_map(AstNodeId(5));
    assert_eq!(table.len(), 6);
    assert_eq!(table.get(a), Some(span(1, 3, 1)));
    for raw in 2..=5u32 {
        assert_eq!(table.get(AstNodeId(raw)), None);
    }
    table.extend_map(AstNodeId(2));
    assert_eq!(table.len(), 6);
    table.update_span(AstNodeId(4), span(7, 9, 1));
    assert_eq!(table.get(AstNodeId(4)), Some(span(7, 9, 1)));
}

#[test]
fn a_committed_null_span_does_not_resolve() {
    let mut counter = AstCounter::new();
    let mut table = SpanMap::new();
    let mut local = LocalSpanMap::new(SourceId::default());
    let a = local.add(&mut counter, ByteRange::new(0, 0));
    let b = local.add(&mut counter, ByteRange::new(0, 1));
    table.add_local_map(local);
    assert_eq!(table.get(a), None);
    assert_eq!(table.get(b), Some(span(0, 1, 0)));
}

#[test]
fn ranges_and_spans_join_to_their_union() {
    let left = ByteRange::new(4, 9);
    let right = ByteRange::new(2, 6);
    assert_eq!(left.start(), 4);
    assert_eq!(left.end(), 9);
    assert_eq!(left.join(right), ByteRange::new(2, 9));
    assert_eq!(right.join(left), ByteRange::new(2, 9));
    assert_eq!(span(0, 20, 7).join(span(20, 35, 7)), span(0, 35, 7));
    assert_eq!(span(20, 35, 7).join(span(0, 20, 7)), span(0, 35, 7));
    assert_eq!(span(5, 6, 1).join(span(1, 9, 1)), span(1, 9, 1));
}

#[test]
fn the_null_span_is_the_empty_range_of_the_default_source() {
    assert_eq!(SourceId::default(), SourceId(0));
    assert_eq!(Span::null(), span(0, 0, 0));
    assert_eq!(Span::null().range, ByteRange::new(0, 0));
    assert_eq!(Span::null().id, SourceId::default());
}

#[test]
fn a_buffer_is_filled_from_one_allocator() {
    let mut counter = AstCounter::new();
    let mut other = AstCounter::new();
    let mut local = LocalSpanMap::new(SourceId(2));
    assert_eq!(local.try_add(&mut counter, ByteRange::new(0, 1)), Some(AstNodeId(1)));
    assert_eq!(local.try_add(&mut counter, ByteRange::new(1, 2)), Some(AstNodeId(2)));
    assert_eq!(local.try_add(&mut other, ByteRange::new(2, 3)), None);
    assert_eq!(local.len(), 2);
    assert_eq!(other.total(), 0);
    assert_eq!(other.next(), AstNodeId(1));
    assert_eq!(other.next(), AstNodeId(2));
    assert_eq!(local.try_add(&mut other, ByteRange::new(2, 3)), Some(AstNodeId(3)));
    assert_eq!(local.len(), 3);
    let mut table = SpanMap::new();
    table.add_local_map(local);
    assert_eq!(table.get(AstNodeId(3)), Some(span(2, 3, 2)));
}
