//! The ownership shifter: what is to be done for one filesystem entry.
//!
//! The caller reads the entry's metadata without following links, hands it to
//! [`shift_owner`], prints and changes what the returned [`Decision`] asks for,
//! and learns from [`Decision::outcome`] how the entry ended.

use crate::identity::{ObjectIdentity, SeenSet};
use crate::offset::{shift_id, shifted_id, IdKind, OffsetConfig};
use vstd::prelude::*;

verus! {

/// What the shifter reads of an object's own metadata: its identity and its
/// owner. For a symbolic link these are the link's, not its target's.
#[derive(Clone, Copy, Debug, PartialEq, Eq, Structural)]
pub struct ObjectMeta {
    pub inode: u64,
    pub device: u64,
    pub uid: u32,
    pub gid: u32,
}

impl ObjectMeta {
    /// The identity of the object that the metadata belongs to.
    pub open spec fn spec_identity(&self) -> ObjectIdentity {
        ObjectIdentity { inode: self.inode, device: self.device }
    }

    /// The metadata of the same object once it has the given owner.
    pub open spec fn with_owner(self, uid: u32, gid: u32) -> ObjectMeta {
        ObjectMeta { uid, gid, ..self }
    }

    /// The identity of the object that the metadata belongs to.
    #[verifier::when_used_as_spec(spec_identity)]
    pub fn identity(&self) -> (id: ObjectIdentity)
        ensures
            id == self.identity(),
    {
        ObjectIdentity { inode: self.inode, device: self.device }
    }
}

/// The owner that an object has and the owner that it is to get.
#[derive(Clone, Copy, Debug, PartialEq, Eq, Structural)]
pub struct OwnerChange {
    pub old_uid: u32,
    pub old_gid: u32,
    pub new_uid: u32,
    pub new_gid: u32,
}

impl OwnerChange {
    /// The change that takes the new owner back to the old.
    pub open spec fn reversed(self) -> OwnerChange {
        OwnerChange {
            old_uid: self.new_uid,
            old_gid: self.new_gid,
            new_uid: self.old_uid,
            new_gid: self.old_gid,
        }
    }
}

/// Why nothing was changed for an entry. None of these ends a run.
#[derive(Clone, Copy, Debug, PartialEq, Eq, Structural)]
pub enum Failure {
    /// A step of the directory walk failed; there is no entry to handle.
    TraversalStep,
    /// The entry's metadata could not be read.
    MetadataRead,
    /// `old_id` plus `offset` is no 32-bit ID.
    IdentityOverflow { kind: IdKind, old_id: u32, offset: i64 },
    /// The change of ownership was attempted and failed.
    Mutation,
}

/// How the handling of one entry ended.
#[derive(Clone, Copy, Debug, PartialEq, Eq, Structural)]
pub enum ShiftOutcome {
    /// The object has its new owner.
    Applied,
    /// The object had been handled before under this or another path.
    Skipped,
    /// The new owner was computed and, in a dry run, not set.
    DryRunSimulated,
    /// The object keeps its owner, for the reason given.
    Failed(Failure),
}

/// The settings of a run. They hold for every path of the run alike.
#[derive(Clone, Copy, Debug, PartialEq, Eq)]
pub struct ShiftOptions {
    /// Whether the entries below a given path are handled too.
    pub recurse: bool,
    /// Whether each change is announced before it is made.
    pub verbose: bool,
    /// Whether changes are only computed and announced, not made.
    pub dry_run: bool,
    /// The offsets that are added to the IDs.
    pub offsets: OffsetConfig,
}

/// What the caller is to do for an entry.
#[derive(Clone, Copy, Debug, PartialEq, Eq, Structural)]
pub enum Decision {
    /// Nothing: no output, no change.
    Skip,
    /// Report the failure; change nothing.
    Reject(Failure),
    /// If `announce`, print the old and the new owner; then, if `apply`, set
    /// the new owner on the object itself, without following a link.
    Shift { change: OwnerChange, announce: bool, apply: bool },
}

/// The change that the offsets make to the owner in `meta`, or the overflow
/// that prevents it. The user ID is looked at first, so an object whose two
/// IDs both overflow is reported for its user ID.
pub open spec fn planned_change(meta: ObjectMeta, offsets: OffsetConfig) -> Result<
    OwnerChange,
    Failure,
> {
    match shifted_id(meta.uid, offsets.uid_offset() as int) {
        None => Err(
            Failure::IdentityOverflow {
                kind: IdKind::User,
                old_id: meta.uid,
                offset: offsets.uid_offset(),
            },
        ),
        Some(new_uid) => match shifted_id(meta.gid, offsets.gid_offset() as int) {
            None => Err(
                Failure::IdentityOverflow {
                    kind: IdKind::Group,
                    old_id: meta.gid,
                    offset: offsets.gid_offset(),
                },
            ),
            Some(new_gid) => Ok(
                OwnerChange { old_uid: meta.uid, old_gid: meta.gid, new_uid, new_gid },
            ),
        },
    }
}

/// Computes the new owner of the object described by `meta`.
pub fn new_owner(meta: &ObjectMeta, offsets: &OffsetConfig) -> (planned: Result<
    OwnerChange,
    Failure,
>)
    ensures
        planned == planned_change(*meta, *offsets),
{
    let new_uid = match shift_id(meta.uid, offsets.uid_offset()) {
        Some(id) => id,
        None => {
            return Err(
                Failure::IdentityOverflow {
                    kind: IdKind::User,
                    old_id: meta.uid,
                    offset: offsets.uid_offset(),
                },
            );
        },
    };
    let new_gid = match shift_id(meta.gid, offsets.gid_offset()) {
        Some(id) => id,
        None => {
            return Err(
                Failure::IdentityOverflow {
                    kind: IdKind::Group,
                    old_id: meta.gid,
                    offset: offsets.gid_offset(),
                },
            );
        },
    };
    Ok(OwnerChange { old_uid: meta.uid, old_gid: meta.gid, new_uid, new_gid })
}

/// The set of seen identities after an entry with this metadata was handled:
/// an object whose metadata was read is in it from then on, whatever else
/// becomes of the entry and whatever the options are.
pub open spec fn seen_with(seen: Set<ObjectIdentity>, metadata: Option<ObjectMeta>) -> Set<
    ObjectIdentity,
> {
    match metadata {
        Some(meta) => seen.insert(meta.identity()),
        None => seen,
    }
}

/// The decision for an entry with this metadata (`None`: it could not be
/// read) when the identities in `seen` have been handled before.
pub open spec fn decide(
    metadata: Option<ObjectMeta>,
    seen: Set<ObjectIdentity>,
    options: ShiftOptions,
) -> Decision {
    match metadata {
        None => Decision::Reject(Failure::MetadataRead),
        Some(meta) => if seen.contains(meta.identity()) {
            Decision::Skip
        } else {
            match planned_change(meta, options.offsets) {
                Err(failure) => Decision::Reject(failure),
                Ok(change) => Decision::Shift {
                    change,
                    announce: options.verbose,
                    apply: !options.dry_run,
                },
            }
        },
    }
}

/// Decides what is to be done for one entry and records its object as seen.
///
/// `metadata` is the entry's own metadata, or `None` where it could not be
/// read. An object that is in `seen_files` already is skipped; otherwise its
/// new owner is computed, and the decision is to reject the entry where an ID
/// overflows and to shift it where none does.
pub fn shift_owner(
    metadata: Option<ObjectMeta>,
    seen_files: &mut SeenSet,
    options: &ShiftOptions,
) -> (decision: Decision)
    ensures
        decision == decide(metadata, old(seen_files)@, *options),
        final(seen_files)@ == seen_with(old(seen_files)@, metadata),
{
    let meta = match metadata {
        Some(meta) => meta,
        None => {
            return Decision::Reject(Failure::MetadataRead);
        },
    };
    if !seen_files.insert(meta.identity()) {
        return Decision::Skip;
    }
    match new_owner(&meta, &options.offsets) {
        Err(failure) => Decision::Reject(failure),
        Ok(change) => Decision::Shift {
            change,
            announce: options.verbose,
            apply: !options.dry_run,
        },
    }
}

/// How an entry ends under `decision`, where `mutation_failed` says whether
/// the change of ownership, if one was asked for, failed.
pub open spec fn outcome_of(decision: Decision, mutation_failed: bool) -> ShiftOutcome {
    match decision {
        Decision::Skip => ShiftOutcome::Skipped,
        Decision::Reject(failure) => ShiftOutcome::Failed(failure),
        Decision::Shift { change, announce, apply } => if !apply {
            ShiftOutcome::DryRunSimulated
        } else if mutation_failed {
            ShiftOutcome::Failed(Failure::Mutation)
        } else {
            ShiftOutcome::Applied
        },
    }
}

impl Decision {
    /// Whether the decision asks for a change on disk.
    pub open spec fn spec_mutates(&self) -> bool {
        *self matches Decision::Shift { apply, .. } && apply
    }

    /// Whether the decision asks for a change on disk.
    #[verifier::when_used_as_spec(spec_mutates)]
    pub fn mutates(&self) -> (asked: bool)
        ensures
            asked == self.mutates(),
    {
        match self {
            Decision::Shift { apply, .. } => *apply,
            _ => false,
        }
    }

    /// How the entry ended, once the caller has done what the decision asks
    /// for. `mutation_failed` is looked at only where a change on disk was
    /// asked for.
    pub fn outcome(&self, mutation_failed: bool) -> (outcome: ShiftOutcome)
        ensures
            outcome == outcome_of(*self, mutation_failed),
    {
        match self {
            Decision::Skip => ShiftOutcome::Skipped,
            Decision::Reject(failure) => ShiftOutcome::Failed(*failure),
            Decision::Shift { apply, .. } => {
                if !*apply {
                    ShiftOutcome::DryRunSimulated
                } else if mutation_failed {
                    ShiftOutcome::Failed(Failure::Mutation)
                } else {
                    ShiftOutcome::Applied
                }
            },
        }
    }
}

/// The settings of the run proper that goes with a dry run: the same, with
/// changes made.
pub open spec fn without_dry_run(options: ShiftOptions) -> ShiftOptions {
    ShiftOptions { dry_run: false, ..options }
}

/// What a dry run decides where the run proper decides `decision`: the same,
/// without the change on disk.
pub open spec fn withheld(decision: Decision) -> Decision {
    match decision {
        Decision::Shift { change, announce, apply } => Decision::Shift {
            change,
            announce,
            apply: false,
        },
        other => other,
    }
}

/// In a dry run no decision asks for a change on disk, whatever the other
/// settings are, and no entry ends as applied or as a failed change. Apart
/// from that the dry run decides as the run proper does: it skips the same
/// entries, rejects the same entries for the same overflow, and computes and
/// announces the same new owner.
pub proof fn lemma_dry_run_withholds_mutation(
    metadata: Option<ObjectMeta>,
    seen: Set<ObjectIdentity>,
    options: ShiftOptions,
)
    requires
        options.dry_run,
    ensures
        !decide(metadata, seen, options).mutates(),
        decide(metadata, seen, options) == withheld(
            decide(metadata, seen, without_dry_run(options)),
        ),
        forall|mutation_failed: bool|
            #![auto]
            outcome_of(decide(metadata, seen, options), mutation_failed) != ShiftOutcome::Applied
                && outcome_of(decide(metadata, seen, options), mutation_failed)
                != ShiftOutcome::Failed(Failure::Mutation),
{
}

/// A second run with the opposite offsets undoes the first: where the first
/// run finds a new owner for an object, the second, meeting the object with
/// that owner, finds the owner that it had at the start.
pub proof fn lemma_opposite_offsets_restore_owner(
    meta: ObjectMeta,
    forth: OffsetConfig,
    back: OffsetConfig,
)
    requires
        back.uid_offset() == -forth.uid_offset(),
        back.gid_offset() == -forth.gid_offset(),
        planned_change(meta, forth) is Ok,
    ensures
        planned_change(meta, forth) matches Ok(change) ==> planned_change(
            meta.with_owner(change.new_uid, change.new_gid),
            back,
        ) == Ok::<OwnerChange, Failure>(change.reversed()),
{
    crate::offset::lemma_shift_round_trip(meta.uid, forth.uid_offset() as int);
    crate::offset::lemma_shift_round_trip(meta.gid, forth.gid_offset() as int);
}

} // verus!
