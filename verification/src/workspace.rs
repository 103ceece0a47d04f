//! The members of a workspace: the files of a lint run, each under the
//! identity it was given when it was added, and found again by its path.

use vstd::prelude::*;
use crate::member::Member;

verus! {

/// The identity of a member of a workspace: its place in the order in
/// which the members were added.
#[derive(Copy, Clone, Debug, PartialEq, Eq, Hash, PartialOrd, Ord, Structural)]
pub struct MemberId(pub u32);

impl MemberId {
    /// The place of the member in the order in which the members were
    /// added.
    pub open spec fn place(self) -> int {
        self.0 as int
    }
}

impl index_vec::Idx for MemberId {
    /// The identity of the place `idx`. A place beyond the identities is
    /// cut down to its low 32 bits.
    fn from_usize(idx: usize) -> (id: MemberId)
        ensures
            id == MemberId(idx as u32),
            idx <= u32::MAX ==> id.place() == idx,
    {
        MemberId(#[verifier::truncate] (idx as u32))
    }

    /// The place of the member with this identity.
    fn index(self) -> (place: usize)
        ensures
            place == self.place(),
    {
        self.0 as usize
    }
}

/// The members in the order of their identities: an `index_vec::IndexVec`
/// that is indexed by [`MemberId`].
#[verifier::external_body]
pub struct MemberList {
    inner: index_vec::IndexVec<MemberId, Member>,
}

/// The members that a list holds, in the order in which they were pushed.
pub uninterp spec fn member_list_items(list: MemberList) -> Seq<Member>;

/// `index_vec::IndexVec::new` makes a vector without items.
#[verifier::external_body]
fn member_list_new() -> (list: MemberList)
    ensures
        member_list_items(list) == Seq::<Member>::empty(),
{
    MemberList { inner: index_vec::IndexVec::new() }
}

/// `index_vec::IndexSlice::len` gives the number of items of the vector.
#[verifier::external_body]
fn member_list_len(list: &MemberList) -> (len: usize)
    ensures
        len == member_list_items(*list).len(),
{
    list.inner.len()
}

/// `index_vec::IndexVec::push` appends the item and returns the index it
/// was put at: the length before, as a [`MemberId`]. The length must fit
/// the identity.
#[verifier::external_body]
fn member_list_push(list: &mut MemberList, member: Member) -> (id: MemberId)
    requires
        member_list_items(*old(list)).len() <= u32::MAX,
    ensures
        member_list_items(*final(list)) == member_list_items(*old(list)).push(member),
        id.place() == member_list_items(*old(list)).len(),
{
    list.inner.push(member)
}

/// `index_vec::IndexVec::get` gives the item at the index, or nothing
/// where the index lies beyond the items.
#[verifier::external_body]
fn member_list_get(list: &MemberList, id: MemberId) -> (found: Option<&Member>)
    ensures
        found is Some <==> id.place() < member_list_items(*list).len(),
        found matches Some(member) ==> *member == member_list_items(*list)[id.place()],
{
    list.inner.get(id)
}

/// The members of a workspace, in the order in which they were added, each
/// with the path that it was added under.
pub struct WorkspaceMembers {
    paths: Vec<String>,
    members: MemberList,
}

impl WorkspaceMembers {
    /// The invariant of the collection: each member has its path, and the
    /// places of the members fit their identities.
    pub closed spec fn wf(self) -> bool {
        &&& self.paths@.len() == member_list_items(self.members).len()
        &&& self.paths@.len() <= u32::MAX + 1
    }

    /// The members, in the order in which they were added.
    pub closed spec fn members(self) -> Seq<Member> {
        member_list_items(self.members)
    }

    /// The paths that the members were added under, in the same order.
    pub closed spec fn paths(self) -> Seq<Seq<char>> {
        self.paths@.map_values(|path: String| path@)
    }

    /// The member that is found under `path`: the one that was added
    /// under it last.
    pub open spec fn found_by_path(self, path: Seq<char>) -> Option<Member> {
        if self.paths().contains(path) {
            Some(self.members()[self.last_place(path)])
        } else {
            None
        }
    }

    /// The place of the member that was added under `path` last.
    pub open spec fn last_place(self, path: Seq<char>) -> int {
        choose|at: int|
            0 <= at < self.paths().len() && self.paths()[at] == path && forall|later: int|
                at < later < self.paths().len() ==> #[trigger] self.paths()[later] != path
    }

    /// What holds of a collection at all times: there is a path for each
    /// member.
    pub proof fn lemma_paths_of_members(self)
        requires
            self.wf(),
        ensures
            self.paths().len() == self.members().len(),
    {
    }

    /// A collection without members.
    pub fn new() -> (made: WorkspaceMembers)
        ensures
            made.wf(),
            made.members() == Seq::<Member>::empty(),
            made.paths() == Seq::<Seq<char>>::empty(),
    {
        let made = WorkspaceMembers { paths: Vec::new(), members: member_list_new() };
        assert(made.paths() =~= Seq::<Seq<char>>::empty());
        made
    }

    /// Whether no further member can be added: the identities have run
    /// out.
    pub fn is_full(&self) -> (full: bool)
        ensures
            full == (self.members().len() > u32::MAX),
    {
        member_list_len(&self.members) > 0xffff_ffff
    }

    /// Adds `member` under `path`, and gives it the next identity.
    pub fn add_member(&mut self, path: String, member: Member) -> (id: MemberId)
        requires
            old(self).wf(),
            old(self).members().len() <= u32::MAX,
        ensures
            final(self).wf(),
            id.place() == old(self).members().len(),
            final(self).members() == old(self).members().push(member),
            final(self).paths() == old(self).paths().push(path@),
    {
        let id = member_list_push(&mut self.members, member);
        self.paths.push(path);
        assert(self.paths() =~= old(self).paths().push(path@));
        id
    }

    fn path_to_id(&self, path: &String) -> (found: Option<MemberId>)
        requires
            self.wf(),
        ensures
            found is Some <==> self.paths().contains(path@),
            found matches Some(id) ==> id.place() == self.last_place(path@) && 0 <= id.place()
                < self.members().len(),
    {
        let mut at: usize = self.paths.len();
        while at > 0
            invariant
                at <= self.paths@.len(),
                self.wf(),
                forall|later: int|
                    at <= later < self.paths().len() ==> self.paths()[later] != path@,
            decreases at,
        {
            at = at - 1;
            if self.paths[at] == *path {
                assert(self.paths()[at as int] == path@);
                return Some(MemberId(at as u32));
            }
        }
        None
    }

    /// The member that was added under `path`: the last one, where there
    /// are several.
    pub fn get_member_by_path(&self, path: &String) -> (found: Option<&Member>)
        requires
            self.wf(),
        ensures
            found is Some <==> self.paths().contains(path@),
            found matches Some(member) ==> self.found_by_path(path@) == Some(*member),
    {
        match self.path_to_id(path) {
            Some(id) => self.get_member_by_id(id),
            None => None,
        }
    }

    /// The member with the identity `id`, if there is one.
    pub fn get_member_by_id(&self, id: MemberId) -> (found: Option<&Member>)
        ensures
            found is Some <==> id.place() < self.members().len(),
            found matches Some(member) ==> *member == self.members()[id.place()],
    {
        member_list_get(&self.members, id)
    }
}

} // verus!
