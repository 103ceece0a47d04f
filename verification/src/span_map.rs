//! The span table, which maps node identities to source spans, and the
//! buffer in which one worker stages its spans before it commits them to
//! the table in one step.

use vstd::prelude::*;
use crate::ident::{AstCounter, AstNodeId, Hunk};
use crate::location::{ByteRange, SourceId, Span};

verus! {

/// A staging area that belongs to one worker. The worker reserves an
/// identity for each byte range it records, without touching the span
/// table; [`SpanMap::add_local_map`] later writes all of them at once.
///
/// The entries stand in the order in which they were reserved, so their
/// identities increase strictly: no identity occurs twice, and the last
/// entry holds the largest.
pub struct LocalSpanMap {
    map: Vec<(AstNodeId, ByteRange)>,
    source: SourceId,
}

impl View for LocalSpanMap {
    type V = Seq<(AstNodeId, ByteRange)>;

    closed spec fn view(&self) -> Seq<(AstNodeId, ByteRange)> {
        self.map@
    }
}

impl LocalSpanMap {
    /// Whether the identities of `entries` are issuable and increase
    /// strictly from each entry to the next.
    pub open spec fn ordered(entries: Seq<(AstNodeId, ByteRange)>) -> bool {
        &&& forall|i: int| 0 <= i < entries.len() ==> (#[trigger] entries[i]).0.is_issuable()
        &&& forall|i: int, j: int|
            0 <= i < j < entries.len() ==> (#[trigger] entries[i]).0.index() < (
            #[trigger] entries[j]).0.index()
    }

    /// The invariant of the buffer: its identities are issuable and
    /// increase strictly.
    pub open spec fn wf(self) -> bool {
        LocalSpanMap::ordered(self@)
    }

    /// The source file that every range of the buffer belongs to.
    pub closed spec fn source_id(self) -> SourceId {
        self.source
    }

    /// Whether the buffer holds an entry for `id`.
    pub open spec fn reserves(self, id: AstNodeId) -> bool {
        exists|i: int| 0 <= i < self@.len() && (#[trigger] self@[i]).0 == id
    }

    /// Whether the buffer holds an entry for the identity whose slot in a
    /// span table is `slot`.
    pub open spec fn fills(self, slot: int) -> bool {
        exists|i: int| 0 <= i < self@.len() && (#[trigger] self@[i]).0.index() == slot
    }

    /// Whether every identity of the buffer lies below `bound`.
    pub open spec fn below(self, bound: int) -> bool {
        forall|i: int| 0 <= i < self@.len() ==> (#[trigger] self@[i]).0.index() < bound
    }

    /// An empty buffer for the ranges of the source file `source`.
    pub fn new(source: SourceId) -> (local: LocalSpanMap)
        ensures
            local@ == Seq::<(AstNodeId, ByteRange)>::empty(),
            local.source_id() == source,
            local.wf(),
    {
        LocalSpanMap { map: Vec::new(), source }
    }

    /// An empty buffer for the ranges of the source file `source`, with
    /// room for `capacity` entries.
    pub fn with_capacity(source: SourceId, capacity: usize) -> (local: LocalSpanMap)
        ensures
            local@ == Seq::<(AstNodeId, ByteRange)>::empty(),
            local.source_id() == source,
            local.wf(),
    {
        LocalSpanMap { map: Vec::with_capacity(capacity), source }
    }

    /// Reserves a fresh identity for `range` and appends the pair to the
    /// buffer. The span table is not touched.
    ///
    /// The buffer must have been filled from `counter`: all its identities
    /// lie below the one that `counter` issues next.
    pub fn add(&mut self, counter: &mut AstCounter, range: ByteRange) -> (id: AstNodeId)
        requires
            old(self).wf(),
            !old(counter).exhausted(),
            old(self).below(old(counter).upcoming()),
        ensures
            old(counter).issues(id, *final(counter)),
            id.is_issuable(),
            final(self)@ == old(self)@.push((id, range)),
            final(self).source_id() == old(self).source_id(),
            final(self).below(final(counter).upcoming()),
            final(self).wf(),
    {
        let id = counter.next();
        self.map.push((id, range));
        id
    }

    /// Reserves a fresh identity for `range`, as [`LocalSpanMap::add`]
    /// does, where that can be done: `counter` has not run through its
    /// range, and every identity of the buffer lies below the one that
    /// `counter` issues next. Where it cannot, nothing changes.
    pub fn try_add(&mut self, counter: &mut AstCounter, range: ByteRange) -> (reserved: Option<
        AstNodeId,
    >)
        requires
            old(self).wf(),
        ensures
            reserved is Some <==> !old(counter).exhausted() && old(self).below(
                old(counter).upcoming(),
            ),
            reserved matches Some(id) ==> {
                &&& old(counter).issues(id, *final(counter))
                &&& id.is_issuable()
                &&& final(self)@ == old(self)@.push((id, range))
                &&& final(self).below(final(counter).upcoming())
            },
            reserved is None ==> *final(self) == *old(self) && *final(counter) == *old(counter),
            final(self).source_id() == old(self).source_id(),
            final(self).wf(),
    {
        if counter.is_exhausted() {
            return None;
        }
        let count = self.map.len();
        if count > 0 {
            let last = self.map[count - 1].0;
            if last.to_usize() > counter.total() {
                assert(!self.below(counter.upcoming())) by {
                    assert(self@[count - 1].0.index() >= counter.upcoming());
                }
                return None;
            }
            assert(self.below(counter.upcoming())) by {
                assert forall|i: int| 0 <= i < self@.len() implies (#[trigger] self@[i]).0.index()
                    < counter.upcoming() by {
                    if i < count - 1 {
                        assert(self@[i].0.index() < self@[count - 1].0.index());
                    }
                }
            }
        }
        Some(self.add(counter, range))
    }

    /// The number of entries of the buffer.
    pub fn len(&self) -> (len: usize)
        ensures
            len == self@.len(),
    {
        self.map.len()
    }

    /// Whether the buffer holds no entry.
    pub fn is_empty(&self) -> (empty: bool)
        ensures
            empty == (self@.len() == 0),
    {
        self.map.is_empty()
    }
}

/// The span table: one slot for each node identity, in the order of the
/// identities, which holds the span of the node.
///
/// Slot zero belongs to the null identity and always holds the null span.
/// A slot whose identity was issued but has not received its span yet holds
/// the null span too. The table only grows, and a slot changes only when a
/// span is recorded for its identity.
pub struct SpanMap {
    spans: Vec<Span>,
}

impl View for SpanMap {
    type V = Seq<Span>;

    closed spec fn view(&self) -> Seq<Span> {
        self.spans@
    }
}

impl SpanMap {
    /// The invariant of the table: it has the slot of the null identity,
    /// which holds the null span.
    pub open spec fn wf(self) -> bool {
        &&& self@.len() >= 1
        &&& self@[0] == Span::null_span()
    }

    /// Whether the table has a slot for `id`, and `id` is not null.
    pub open spec fn covers(self, id: AstNodeId) -> bool {
        0 < id.index() < self@.len()
    }

    /// Whether the table holds a span for `id`: `id` has a slot, and the
    /// slot does not hold the null span.
    pub open spec fn contains(self, id: AstNodeId) -> bool {
        &&& self.covers(id)
        &&& !self@[id.index()].is_null()
    }

    /// The table `table`, grown with null spans as far as is needed to give
    /// `id` a slot.
    pub open spec fn grown(table: Seq<Span>, id: AstNodeId) -> Seq<Span> {
        if id.index() < table.len() {
            table
        } else {
            table + Seq::new(
                (id.index() + 1 - table.len()) as nat,
                |i: int| Span::null_span(),
            )
        }
    }

    /// The table `table` with `span` recorded for `id`: grown as far as is
    /// needed to give `id` a slot, which then holds `span`.
    pub open spec fn recorded(table: Seq<Span>, id: AstNodeId, span: Span) -> Seq<Span> {
        SpanMap::grown(table, id).update(id.index(), span)
    }

    /// Whether `after` is this table with the buffer `local` committed to
    /// it:
    /// - for an empty buffer, the two tables are the same;
    /// - otherwise `after` has the slots of this table, grown as far as is
    ///   needed to give the last identity of `local` a slot;
    /// - the slot of each identity of `local` holds the range reserved for
    ///   it, as a span of the source file of `local`;
    /// - every other slot holds what it held in this table, or the null
    ///   span if it is new.
    pub open spec fn commits(self, local: LocalSpanMap, after: SpanMap) -> bool {
        &&& local@.len() == 0 ==> after@ == self@
        &&& local@.len() > 0 ==> after@.len() == SpanMap::grown(self@, local@.last().0).len()
        &&& forall|i: int|
            0 <= i < local@.len() ==> {
                &&& after.covers((#[trigger] local@[i]).0)
                &&& after@[local@[i].0.index()] == (Span {
                    range: local@[i].1,
                    id: local.source_id(),
                })
            }
        &&& forall|j: int|
            0 <= j < after@.len() && !local.fills(j) ==> #[trigger] after@[j]
                == (if j < self@.len() {
                self@[j]
            } else {
                Span::null_span()
            })
    }

    /// A table that holds nothing but the slot of the null identity.
    pub fn new() -> (table: SpanMap)
        ensures
            table@ == seq![Span::null_span()],
            table.wf(),
    {
        let mut spans: Vec<Span> = Vec::new();
        spans.push(Span::null());
        SpanMap { spans }
    }

    /// The number of slots of the table, the one of the null identity
    /// included.
    pub fn len(&self) -> (len: usize)
        ensures
            len == self@.len(),
    {
        self.spans.len()
    }

    /// The span recorded for `id`, if the table holds one.
    pub fn get(&self, id: AstNodeId) -> (found: Option<Span>)
        requires
            self.wf(),
        ensures
            found.is_some() <==> self.contains(id),
            found matches Some(span) ==> span == self@[id.index()],
    {
        let slot: usize = id.to_usize();
        if slot < self.spans.len() {
            let span = self.spans[slot];
            if span == Span::null() {
                None
            } else {
                Some(span)
            }
        } else {
            None
        }
    }

    /// The span recorded for `id`.
    pub fn span_of(&self, id: AstNodeId) -> (span: Span)
        requires
            self.contains(id),
        ensures
            span == self@[id.index()],
            !span.is_null(),
    {
        self.spans[id.to_usize()]
    }

    /// The source file of the span recorded for `id`.
    pub fn source_of(&self, id: AstNodeId) -> (source: SourceId)
        requires
            self.contains(id),
        ensures
            source == self@[id.index()].id,
    {
        self.span_of(id).id
    }

    /// Grows the table, if needed, so that it has a slot for `id`. The new
    /// slots hold the null span, and no slot that was there changes.
    pub fn extend_map(&mut self, id: AstNodeId)
        requires
            old(self).wf(),
            id.index() < u32::MAX,
        ensures
            final(self)@ == SpanMap::grown(old(self)@, id),
            final(self).wf(),
    {
        let slot: usize = id.to_usize();
        while self.spans.len() <= slot
            invariant
                slot == id.index(),
                slot < u32::MAX,
                old(self)@.len() <= self.spans@.len(),
                self.spans@.len() <= slot + 1 || self.spans@ == old(self)@,
                self.spans@.subrange(0, old(self)@.len() as int) == old(self)@,
                forall|i: int|
                    old(self)@.len() <= i < self.spans@.len() ==> self.spans@[i]
                        == Span::null_span(),
                old(self)@.len() >= 1,
                old(self)@[0] == Span::null_span(),
            decreases slot + 1 - self.spans@.len(),
        {
            self.spans.push(Span::null());
        }
        assert(self.spans@ =~= SpanMap::grown(old(self)@, id));
    }

    /// Issues a fresh identity and records `span` for it.
    pub fn add_span(&mut self, counter: &mut AstCounter, span: Span) -> (id: AstNodeId)
        requires
            old(self).wf(),
            !old(counter).exhausted(),
        ensures
            old(counter).issues(id, *final(counter)),
            id.is_issuable(),
            final(self)@ == SpanMap::recorded(old(self)@, id, span),
            final(self).covers(id),
            final(self)@[id.index()] == span,
            final(self).wf(),
    {
        let id = counter.next();
        self.extend_map(id);
        self.spans[id.to_usize()] = span;
        id
    }

    /// Overwrites the span recorded for `id`.
    pub fn update_span(&mut self, id: AstNodeId, span: Span)
        requires
            old(self).wf(),
            old(self).covers(id),
        ensures
            final(self)@ == old(self)@.update(id.index(), span),
            final(self).wf(),
    {
        self.spans[id.to_usize()] = span;
    }

    /// Commits a buffer: records each of its ranges, as a span of the
    /// buffer's source file, for the identity that was reserved for it.
    ///
    /// An empty buffer changes nothing. Otherwise the table is grown once,
    /// to give the buffer's last and largest identity a slot, and then
    /// every entry is written. Slots that the buffer has no entry for keep
    /// what they held.
    pub fn add_local_map(&mut self, local: LocalSpanMap)
        requires
            old(self).wf(),
            local.wf(),
        ensures
            old(self).commits(local, *final(self)),
            local@.len() == 0 ==> final(self)@ == old(self)@,
            final(self).wf(),
    {
        if local.map.is_empty() {
            return ;
        }
        let count: usize = local.map.len();
        let key: AstNodeId = local.map[count - 1].0;
        self.extend_map(key);
        let ghost base: Seq<Span> = self.spans@;
        let mut done: usize = 0;
        while done < count
            invariant
                done <= count,
                count == local.map@.len(),
                local@ == local.map@,
                LocalSpanMap::ordered(local@),
                key == local@.last().0,
                base == SpanMap::grown(old(self)@, key),
                old(self)@.len() >= 1,
                self.spans@.len() == base.len(),
                self.spans@[0] == Span::null_span(),
                forall|i: int|
                    0 <= i < done ==> self.spans@[(#[trigger] local@[i]).0.index()] == (Span {
                        range: local@[i].1,
                        id: local.source,
                    }),
                forall|j: int|
                    0 <= j < base.len() && (forall|i: int|
                        0 <= i < done ==> (#[trigger] local@[i]).0.index() != j)
                        ==> #[trigger] self.spans@[j] == base[j],
            decreases count - done,
        {
            let (id, range) = local.map[done];
            self.spans[id.to_usize()] = Span::new(range, local.source);
            done = done + 1;
        }
        assert forall|j: int|
            0 <= j < self.spans@.len() && !local.fills(j) implies #[trigger] self.spans@[j]
            == (if j < old(self)@.len() {
            old(self)@[j]
        } else {
            Span::null_span()
        }) by {
            assert forall|i: int| 0 <= i < count implies (#[trigger] local@[i]).0.index() != j by {
            }
        }
    }
}

impl AstNodeId {
    /// The span recorded for this identity in `spans`.
    pub fn span(&self, spans: &SpanMap) -> (span: Span)
        requires
            spans.contains(*self),
        ensures
            span == spans@[self.index()],
            !span.is_null(),
    {
        spans.span_of(*self)
    }

    /// The source file of the span recorded for this identity in `spans`.
    pub fn source(&self, spans: &SpanMap) -> (source: SourceId)
        requires
            spans.contains(*self),
        ensures
            source == spans@[self.index()].id,
    {
        spans.source_of(*self)
    }
}

impl Hunk {
    /// Interns `span`: records it in `spans` under a fresh identity.
    pub fn create(spans: &mut SpanMap, counter: &mut AstCounter, span: Span) -> (hunk: Hunk)
        requires
            old(spans).wf(),
            !old(counter).exhausted(),
        ensures
            old(counter).issues(hunk, *final(counter)),
            hunk.is_issuable(),
            final(spans)@ == SpanMap::recorded(old(spans)@, hunk, span),
            final(spans).wf(),
    {
        spans.add_span(counter, span)
    }
}

/// After a buffer is committed, each identity that it reserved resolves to
/// the range reserved for it, as a span of the buffer's source file.
///
/// The one range that cannot be resolved is the empty range at offset
/// zero, reserved in a buffer of the default source file: as a span it is
/// the null span, which stands for a slot without a span.
pub proof fn lemma_commit_resolves(before: SpanMap, local: LocalSpanMap, after: SpanMap, i: int)
    requires
        before.commits(local, after),
        0 <= i < local@.len(),
        !(Span { range: local@[i].1, id: local.source_id() }).is_null(),
    ensures
        after.contains(local@[i].0),
        after@[local@[i].0.index()] == (Span { range: local@[i].1, id: local.source_id() }),
{
}

/// Committing an empty buffer changes neither the contents of the table
/// nor the number of its slots.
pub proof fn lemma_commit_of_empty(before: SpanMap, local: LocalSpanMap, after: SpanMap)
    requires
        before.commits(local, after),
        local@.len() == 0,
    ensures
        after@ == before@,
        after@.len() == before@.len(),
{
}

/// A commit is determined by the table and the buffer: two tables that
/// both are the result of committing `local` to `before` hold the same.
pub proof fn lemma_commit_determined(
    before: SpanMap,
    local: LocalSpanMap,
    first: SpanMap,
    second: SpanMap,
)
    requires
        before.commits(local, first),
        before.commits(local, second),
    ensures
        first@ == second@,
{
    if local@.len() > 0 {
        assert forall|j: int| 0 <= j < first@.len() implies first@[j] == second@[j] by {
            if local.fills(j) {
                let i = choose|i: int| 0 <= i < local@.len() && (#[trigger] local@[i]).0.index() == j;
                assert(first@[local@[i].0.index()] == second@[local@[i].0.index()]);
            }
        }
        assert(first@ =~= second@);
    }
}

/// A commit never shrinks the table, and it leaves alone the span of every
/// identity that the buffer did not reserve.
pub proof fn lemma_commit_keeps(before: SpanMap, local: LocalSpanMap, after: SpanMap, id: AstNodeId)
    requires
        before.commits(local, after),
        before.covers(id),
        !local.reserves(id),
    ensures
        after@.len() >= before@.len(),
        after.covers(id),
        after@[id.index()] == before@[id.index()],
        before.contains(id) ==> after.contains(id),
{
    if local.fills(id.index()) {
        let i = choose|i: int| 0 <= i < local@.len() && (#[trigger] local@[i]).0.index() == id.index();
        assert(local@[i].0 == id);
    }
}

/// Recording a span never shrinks the table, and it leaves alone the span
/// of every other identity.
pub proof fn lemma_record_keeps(table: Seq<Span>, id: AstNodeId, span: Span, other: AstNodeId)
    requires
        0 <= other.index() < table.len(),
        other != id,
    ensures
        SpanMap::recorded(table, id, span).len() >= table.len(),
        SpanMap::recorded(table, id, span)[other.index()] == table[other.index()],
        SpanMap::recorded(table, id, span)[id.index()] == span,
{
}

} // verus!
