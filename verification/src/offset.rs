//! Offsets and the arithmetic that applies them to an ID.

use vstd::prelude::*;

verus! {

/// The largest offset that a configuration accepts: the distance from the
/// smallest 32-bit ID to the largest.
pub const MAX_OFFSET: i64 = 4294967295;

/// The smallest offset that a configuration accepts: the distance from the
/// largest 32-bit ID to the smallest.
pub const MIN_OFFSET: i64 = -4294967295;

/// Which of the two IDs of an object is meant.
#[derive(Clone, Copy, Debug, PartialEq, Eq, Structural)]
pub enum IdKind {
    User,
    Group,
}

/// Whether `offset` lies between `MIN_OFFSET` and `MAX_OFFSET`.
pub open spec fn offset_in_range(offset: int) -> bool {
    MIN_OFFSET <= offset <= MAX_OFFSET
}

/// Whether `value` is an ID that an unsigned 32-bit field can hold.
pub open spec fn is_id(value: int) -> bool {
    0 <= value <= u32::MAX
}

/// The ID that `old_id` becomes under `offset`, where there is one.
pub open spec fn shifted_id(old_id: u32, offset: int) -> Option<u32> {
    if is_id(old_id + offset) {
        Some((old_id + offset) as u32)
    } else {
        None
    }
}

/// Adds `offset` to `old_id` in 64-bit signed arithmetic and narrows the sum
/// back to an ID. Returns `None` exactly when the sum is negative or above
/// the largest 32-bit ID; an addition that would leave the 64 bits counts as
/// such a sum.
pub fn shift_id(old_id: u32, offset: i64) -> (new_id: Option<u32>)
    ensures
        new_id == shifted_id(old_id, offset as int),
{
    let wide: i64 = old_id as i64;
    match wide.checked_add(offset) {
        Some(sum) => {
            if 0 <= sum && sum <= u32::MAX as i64 {
                Some(sum as u32)
            } else {
                None
            }
        },
        None => None,
    }
}

/// Shifting an ID by an offset and the result by the opposite offset gives the
/// ID back, whenever the first shift stays within the 32-bit IDs.
pub proof fn lemma_shift_round_trip(old_id: u32, offset: int)
    requires
        shifted_id(old_id, offset) is Some,
    ensures
        shifted_id(shifted_id(old_id, offset).unwrap(), -offset) == Some(old_id),
{
}

/// The offsets that a configuration accepts are enough to take any ID to any
/// other.
pub proof fn lemma_offsets_reach_every_id(from: u32, to: u32)
    ensures
        offset_in_range(to - from),
        shifted_id(from, to - from) == Some(to),
{
}

/// The offsets that a configuration refuses are of no use: under them no ID
/// has a shifted ID.
pub proof fn lemma_shift_needs_offset_in_range(old_id: u32, offset: int)
    requires
        shifted_id(old_id, offset) is Some,
    ensures
        offset_in_range(offset),
{
}

/// An offset that a configuration was refused for.
#[derive(Clone, Copy, Debug, PartialEq, Eq, Structural)]
pub struct OffsetOutOfRange {
    pub kind: IdKind,
    pub offset: i64,
}

/// The two offsets of a run, one for user IDs and one for group IDs, each
/// between `MIN_OFFSET` and `MAX_OFFSET`. A value of this type cannot hold
/// anything else, and nothing changes it once it is made.
#[derive(Clone, Copy, Debug, PartialEq, Eq)]
pub struct OffsetConfig {
    uid_offset: i64,
    gid_offset: i64,
}

/// What `OffsetConfig::new` answers for a pair of offsets: the first that is
/// out of range, the user offset before the group offset, or none.
pub open spec fn first_out_of_range(uid_offset: i64, gid_offset: i64) -> Option<OffsetOutOfRange> {
    if !offset_in_range(uid_offset as int) {
        Some(OffsetOutOfRange { kind: IdKind::User, offset: uid_offset })
    } else if !offset_in_range(gid_offset as int) {
        Some(OffsetOutOfRange { kind: IdKind::Group, offset: gid_offset })
    } else {
        None
    }
}

impl OffsetConfig {
    #[verifier::type_invariant]
    spec fn both_in_range(self) -> bool {
        offset_in_range(self.uid_offset as int) && offset_in_range(self.gid_offset as int)
    }

    /// The offset for user IDs.
    pub closed spec fn spec_uid_offset(&self) -> i64 {
        self.uid_offset
    }

    /// The offset for group IDs.
    pub closed spec fn spec_gid_offset(&self) -> i64 {
        self.gid_offset
    }

    /// Makes a configuration of the two offsets, or names the first of them
    /// that is out of range.
    pub fn new(uid_offset: i64, gid_offset: i64) -> (made: Result<OffsetConfig, OffsetOutOfRange>)
        ensures
            made is Ok <==> first_out_of_range(uid_offset, gid_offset) is None,
            made matches Ok(config) ==> config.uid_offset() == uid_offset && config.gid_offset()
                == gid_offset,
            made matches Err(refused) ==> first_out_of_range(uid_offset, gid_offset) == Some(
                refused,
            ),
    {
        if uid_offset < MIN_OFFSET || uid_offset > MAX_OFFSET {
            Err(OffsetOutOfRange { kind: IdKind::User, offset: uid_offset })
        } else if gid_offset < MIN_OFFSET || gid_offset > MAX_OFFSET {
            Err(OffsetOutOfRange { kind: IdKind::Group, offset: gid_offset })
        } else {
            Ok(OffsetConfig { uid_offset, gid_offset })
        }
    }

    /// The offset for user IDs.
    #[verifier::when_used_as_spec(spec_uid_offset)]
    pub fn uid_offset(&self) -> (offset: i64)
        ensures
            offset == self.uid_offset(),
            offset_in_range(offset as int),
    {
        proof {
            use_type_invariant(self);
        }
        self.uid_offset
    }

    /// The offset for group IDs.
    #[verifier::when_used_as_spec(spec_gid_offset)]
    pub fn gid_offset(&self) -> (offset: i64)
        ensures
            offset == self.gid_offset(),
            offset_in_range(offset as int),
    {
        proof {
            use_type_invariant(self);
        }
        self.gid_offset
    }
}

} // verus!
