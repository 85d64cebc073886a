//! The authorization gate: the immutable set of creator identities.
//!
//! The set is populated once, at initialization, and never changes; a
//! creation request is admitted only when its caller is a member.

use vstd::prelude::*;
use crate::bytes::bytes_eq;

verus! {

/// The set of identities named by a list of members.
pub open spec fn identity_set(members: Seq<Vec<u8>>) -> Set<Seq<u8>> {
    Set::new(|a: Seq<u8>| exists|i: int| 0 <= i < members.len() && members[i]@ == a)
}

/// The identities that may initiate provisioning.
pub struct CreatorSet {
    members: Vec<Vec<u8>>,
}

impl View for CreatorSet {
    type V = Set<Seq<u8>>;

    closed spec fn view(&self) -> Set<Seq<u8>> {
        identity_set(self.members@)
    }
}

impl CreatorSet {
    /// Builds the creator set from the initial member list.  Duplicates in
    /// the list are harmless: membership is all that matters.
    pub fn from_members(members: Vec<Vec<u8>>) -> (r: Self)
        ensures
            r@ == identity_set(members@),
    {
        CreatorSet { members }
    }

    /// Decides whether an identity is a member of the creator set.
    pub fn contains(&self, identity: &Vec<u8>) -> (r: bool)
        ensures
            r == self@.contains(identity@),
    {
        let mut i: usize = 0;
        while i < self.members.len()
            invariant
                i <= self.members.len(),
                forall|j: int| 0 <= j < i ==> self.members@[j]@ != identity@,
            decreases self.members.len() - i,
        {
            if bytes_eq(&self.members[i], identity) {
                proof {
                    assert(self.members@[i as int]@ == identity@);
                }
                return true;
            }
            i = i + 1;
        }
        proof {
            assert(forall|k: int| 0 <= k < self.members@.len() ==> self.members@[k]@ != identity@);
        }
        false
    }

    /// Read-only access to the member identities.
    pub fn members(&self) -> (r: &Vec<Vec<u8>>)
        ensures
            identity_set(r@) == self@,
    {
        &self.members
    }
}

} // verus!
