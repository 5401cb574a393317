//! Shifting the owning user and group IDs of filesystem objects by a fixed
//! signed offset.
//!
//! The crate holds the decisions of such a run: which objects have been seen,
//! what the new IDs are and when they do not exist, and what is to be done for
//! each entry that a traversal hands in. Reading metadata, walking directories
//! and changing ownership on disk are left to the caller.

pub mod identity;
pub mod offset;
pub mod run;
pub mod shifter;
