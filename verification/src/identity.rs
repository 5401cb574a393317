//! Identities of filesystem objects and the set of those already handled.

use std::collections::HashSet;
use vstd::prelude::*;

verus! {

/// What names a filesystem object whatever path led to it: its inode number
/// and the number of the device that holds it. Two hard links to one file
/// have one identity.
#[derive(Clone, Copy, Debug, PartialEq, Eq, Structural, Hash)]
pub struct ObjectIdentity {
    pub inode: u64,
    pub device: u64,
}

/// The number under which the set stores an identity: the inode in the upper
/// 64 bits, the device in the lower 64.
spec fn packed(id: ObjectIdentity) -> u128 {
    (id.inode * 0x1_0000_0000_0000_0000 + id.device) as u128
}

/// Different identities are stored under different numbers.
proof fn lemma_packed_is_injective(a: ObjectIdentity, b: ObjectIdentity)
    requires
        packed(a) == packed(b),
    ensures
        a == b,
{
}

fn pack(id: ObjectIdentity) -> (key: u128)
    ensures
        key == packed(id),
{
    let upper: u128 = id.inode as u128;
    let lower: u128 = id.device as u128;
    upper * 0x1_0000_0000_0000_0000u128 + lower
}

/// The identities that a run has met so far. It starts empty and only grows;
/// an identity is in it once, however often it is inserted.
pub struct SeenSet {
    keys: HashSet<u128>,
}

impl View for SeenSet {
    type V = Set<ObjectIdentity>;

    closed spec fn view(&self) -> Set<ObjectIdentity> {
        Set::new(|id: ObjectIdentity| self.keys@.contains(packed(id)))
    }
}

impl SeenSet {
    /// The empty set.
    pub fn new() -> (seen: SeenSet)
        ensures
            seen@ == Set::<ObjectIdentity>::empty(),
    {
        let seen = SeenSet { keys: HashSet::new() };
        assert(seen@ =~= Set::<ObjectIdentity>::empty());
        seen
    }

    /// Whether `id` has been inserted.
    pub fn contains(&self, id: ObjectIdentity) -> (found: bool)
        ensures
            found == self@.contains(id),
    {
        let key = pack(id);
        self.keys.contains(&key)
    }

    /// Puts `id` into the set and says whether it was new. Inserting an
    /// identity that is already there changes nothing.
    pub fn insert(&mut self, id: ObjectIdentity) -> (fresh: bool)
        ensures
            fresh == !old(self)@.contains(id),
            final(self)@ == old(self)@.insert(id),
            !fresh ==> final(self)@ == old(self)@,
    {
        let key = pack(id);
        let fresh = self.keys.insert(key);
        proof {
            assert forall|other: ObjectIdentity| packed(other) == packed(id) implies other
                == id by {
                lemma_packed_is_injective(other, id);
            }
            assert(self@ =~= old(self)@.insert(id));
            if !fresh {
                assert(old(self)@.insert(id) =~= old(self)@);
            }
        }
        fresh
    }
}

} // verus!
