//! The verdicts that pass between the execution engine, fork choice and the
//! block importer.

use crate::hash::{ExecutionBlockHash, Hash256};
use vstd::prelude::*;

verus! {

/// What fork choice knows of the payload of a block that it tracks.
#[derive(Clone, Copy, Debug, PartialEq, Eq)]
pub enum ExecutionStatus {
    /// The engine has verified the payload with this block hash.
    Valid(ExecutionBlockHash),
    /// The engine has rejected the payload with this block hash. Nothing may
    /// be built on such a block.
    Invalid(ExecutionBlockHash),
    /// The payload with this block hash was imported before the engine could
    /// verify it.
    Optimistic(ExecutionBlockHash),
    /// The block is from before the merge: no payload is expected of it.
    Irrelevant(ExecutionBlockHash),
}

impl ExecutionStatus {
    /// The execution block that the tracked block names. A block from before
    /// the merge names none.
    pub open spec fn spec_block_hash(self) -> Option<ExecutionBlockHash> {
        match self {
            ExecutionStatus::Valid(hash) => Some(hash),
            ExecutionStatus::Invalid(hash) => Some(hash),
            ExecutionStatus::Optimistic(hash) => Some(hash),
            ExecutionStatus::Irrelevant(_) => None,
        }
    }

    /// The execution block that the tracked block names, if it names one.
    pub fn block_hash(&self) -> (hash: Option<ExecutionBlockHash>)
        ensures
            hash == self.spec_block_hash(),
    {
        match self {
            ExecutionStatus::Valid(hash) => Some(*hash),
            ExecutionStatus::Invalid(hash) => Some(*hash),
            ExecutionStatus::Optimistic(hash) => Some(*hash),
            ExecutionStatus::Irrelevant(_) => None,
        }
    }
}

/// The record that fork choice keeps of an imported block.
#[derive(Clone, Copy, Debug, PartialEq, Eq)]
pub struct ProtoBlock {
    pub root: Hash256,
    pub execution_status: ExecutionStatus,
}

/// The verdict on the payload of one block, reached once for each attempt to
/// import the block.
#[derive(Clone, Copy, Debug, PartialEq, Eq)]
pub enum PayloadVerificationStatus {
    /// The engine has declared the payload valid.
    Verified,
    /// The engine could not yet tell; the block is imported on trust.
    Optimistic,
    /// Execution is not enabled for the block.
    Irrelevant,
}

/// The answer of the execution engine to a payload that was submitted to it.
#[derive(Clone, Copy, Debug, PartialEq, Eq)]
pub enum PayloadStatus {
    Valid,
    Invalid { latest_valid_hash: ExecutionBlockHash },
    Syncing,
    Accepted,
    InvalidBlockHash,
    InvalidTerminalBlock,
}

/// A command to fork choice to mark a segment of the chain as invalid.
#[derive(Clone, Copy, Debug, PartialEq, Eq)]
pub enum InvalidationOperation {
    /// Invalidate the ancestors of `head_block_root` down to, and without,
    /// the block whose payload has the hash `latest_valid_ancestor`. The head
    /// itself is invalidated only where it descends from that ancestor,
    /// unless `always_invalidate_head` is set.
    InvalidateMany {
        head_block_root: Hash256,
        always_invalidate_head: bool,
        latest_valid_ancestor: ExecutionBlockHash,
    },
}

} // verus!
