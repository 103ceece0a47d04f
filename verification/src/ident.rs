//! Node identities and the allocator that issues them.

use vstd::prelude::*;

verus! {

/// The identity of a node of the tree, or of the bracketing span of a list
/// of nodes. Identities are issued in increasing order by an [`AstCounter`],
/// and each one is issued once. The value zero is the null identity: it
/// names no node.
#[derive(Copy, Clone, Eq, PartialEq, Hash, Ord, PartialOrd, Debug, Structural)]
pub struct AstNodeId(pub u32);

/// The name for a reference to a hunk of source: an interned [`Span`],
/// looked up by identity.
///
/// [`Span`]: crate::location::Span
pub type Hunk = AstNodeId;

impl AstNodeId {
    /// The slot of a span table that belongs to this identity.
    pub open spec fn index(self) -> int {
        self.0 as int
    }

    /// Whether this is the null identity.
    pub open spec fn is_null(self) -> bool {
        self.0 == 0
    }

    /// Whether an allocator can have issued this identity: it is not null,
    /// and it lies below the end of the allocator's range.
    pub open spec fn is_issuable(self) -> bool {
        0 < self.0 < u32::MAX
    }

    /// The null identity.
    pub fn null() -> (id: AstNodeId)
        ensures
            id == AstNodeId(0),
            id.is_null(),
    {
        AstNodeId(0)
    }

    /// The slot of a span table that belongs to this identity.
    pub fn to_usize(&self) -> (slot: usize)
        ensures
            slot == self.index(),
    {
        self.0 as usize
    }
}

impl From<u32> for AstNodeId {
    fn from(raw: u32) -> (id: AstNodeId) {
        AstNodeId(raw)
    }
}

impl vstd::std_specs::convert::FromSpecImpl<u32> for AstNodeId {
    open spec fn obeys_from_spec() -> bool {
        true
    }

    open spec fn from_spec(raw: u32) -> AstNodeId {
        AstNodeId(raw)
    }
}

/// The allocator of node identities: a counter that only moves forward.
///
/// The first identity it issues is one, so the null identity is never
/// issued, and each later one is the successor of the one before.
pub struct AstCounter {
    next: u32,
}

impl AstCounter {
    /// The invariant of the allocator: the null identity is not upcoming.
    #[verifier::type_invariant]
    pub open spec fn wf(self) -> bool {
        self.upcoming() >= 1
    }

    /// The raw value of the identity that is issued next.
    pub closed spec fn upcoming(self) -> int {
        self.next as int
    }

    /// Whether the allocator has run through its range: it can issue no
    /// further identity.
    pub open spec fn exhausted(self) -> bool {
        self.upcoming() >= u32::MAX
    }

    /// Whether issuing from this allocator gives `id` and leaves the
    /// allocator as `after`: `id` is the upcoming identity, and `after`
    /// stands one further.
    pub open spec fn issues(self, id: AstNodeId, after: AstCounter) -> bool {
        &&& id.index() == self.upcoming()
        &&& after.upcoming() == self.upcoming() + 1
    }

    /// An allocator of which nothing was issued yet.
    pub fn new() -> (counter: AstCounter)
        ensures
            counter.wf(),
            counter.upcoming() == 1,
    {
        AstCounter { next: 1 }
    }

    /// The number of identities issued so far.
    pub fn total(&self) -> (count: usize)
        ensures
            self.wf(),
            count == self.upcoming() - 1,
    {
        proof {
            use_type_invariant(self);
        }
        (self.next - 1) as usize
    }

    /// Whether the allocator can issue no further identity.
    pub fn is_exhausted(&self) -> (done: bool)
        ensures
            done == self.exhausted(),
    {
        self.next == u32::MAX
    }

    /// Issues a fresh identity: the successor of the one issued before.
    pub fn next(&mut self) -> (id: AstNodeId)
        requires
            !old(self).exhausted(),
        ensures
            old(self).issues(id, *final(self)),
            id.is_issuable(),
            final(self).wf(),
    {
        proof {
            use_type_invariant(&*self);
        }
        let id = AstNodeId(self.next);
        self.next = self.next + 1;
        id
    }

    /// Issues a fresh identity, unless the allocator has run through its
    /// range; it is then left as it was.
    pub fn try_next(&mut self) -> (issued: Option<AstNodeId>)
        ensures
            issued.is_none() <==> old(self).exhausted(),
            old(self).exhausted() ==> *final(self) == *old(self),
            issued matches Some(id) ==> old(self).issues(id, *final(self)) && id.is_issuable(),
            final(self).wf(),
    {
        proof {
            use_type_invariant(&*self);
        }
        if self.is_exhausted() {
            None
        } else {
            Some(self.next())
        }
    }
}

/// Identities come out in strictly increasing order, so none is issued
/// twice, and none of them is null.
///
/// `states` are the states that an allocator goes through in a run, and
/// `ids[k]` is what it issues in `states[k]`, which takes it to
/// `states[k + 1]`. Then an identity issued earlier is smaller than one
/// issued later, and the first is at least one.
pub proof fn lemma_issued_in_order(states: Seq<AstCounter>, ids: Seq<AstNodeId>, i: int, j: int)
    requires
        states.len() == ids.len() + 1,
        forall|k: int| 0 <= k < states.len() ==> (#[trigger] states[k]).wf(),
        forall|k: int| 0 <= k < ids.len() ==> (#[trigger] states[k]).issues(ids[k], states[k + 1]),
        0 <= i < j < ids.len(),
    ensures
        ids[i].index() < ids[j].index(),
        ids[i] != ids[j],
        !ids[i].is_null(),
        !ids[j].is_null(),
    decreases j - i,
{
    assert(states[i].issues(ids[i], states[i + 1]));
    assert(states[j].issues(ids[j], states[j + 1]));
    assert(states[i].wf());
    if i + 1 < j {
        lemma_issued_in_order(states, ids, i + 1, j);
        assert(states[i + 1].issues(ids[i + 1], states[i + 2]));
    }
}

} // verus!
