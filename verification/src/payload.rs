//! Execution payloads as the consensus side sees them.

use crate::hash::ExecutionBlockHash;
use vstd::prelude::*;

verus! {

/// The content of an execution-layer block that is embedded in a consensus
/// block. Three fields are read here; the rest is carried as opaque bytes,
/// which are empty in the default payload.
#[derive(Clone, Debug, PartialEq, Eq)]
pub struct ExecutionPayload {
    pub parent_hash: ExecutionBlockHash,
    pub block_hash: ExecutionBlockHash,
    pub timestamp: u64,
    pub content: Vec<u8>,
}

/// The mathematical value of a payload or of a payload header.
pub struct PayloadView {
    pub parent_hash: ExecutionBlockHash,
    pub block_hash: ExecutionBlockHash,
    pub timestamp: u64,
    pub content: Seq<u8>,
}

impl PayloadView {
    /// The default payload: zero hashes, zero timestamp, no content. A block
    /// from before the merge carries it.
    pub open spec fn empty() -> PayloadView {
        PayloadView {
            parent_hash: ExecutionBlockHash::spec_zero(),
            block_hash: ExecutionBlockHash::spec_zero(),
            timestamp: 0,
            content: Seq::empty(),
        }
    }
}

impl View for ExecutionPayload {
    type V = PayloadView;

    open spec fn view(&self) -> PayloadView {
        PayloadView {
            parent_hash: self.parent_hash,
            block_hash: self.block_hash,
            timestamp: self.timestamp,
            content: self.content@,
        }
    }
}

impl ExecutionPayload {
    /// Whether this is the default payload.
    pub open spec fn spec_is_default(&self) -> bool {
        self@ == PayloadView::empty()
    }

    /// Whether this is the default payload.
    pub fn is_default(&self) -> (default: bool)
        ensures
            default == self.spec_is_default(),
    {
        let default = self.parent_hash == ExecutionBlockHash::zero()
            && self.block_hash == ExecutionBlockHash::zero()
            && self.timestamp == 0
            && self.content.len() == 0;
        assert(self.content@.len() == 0 ==> self.content@ =~= Seq::<u8>::empty());
        default
    }

    /// The hash of the execution block that this payload builds on.
    pub fn parent_hash(&self) -> (hash: ExecutionBlockHash)
        ensures
            hash == self.parent_hash,
    {
        self.parent_hash
    }

    /// The hash of the execution block that this payload describes.
    pub fn block_hash(&self) -> (hash: ExecutionBlockHash)
        ensures
            hash == self.block_hash,
    {
        self.block_hash
    }

    /// The time of the execution block, in seconds since the Unix epoch.
    pub fn timestamp(&self) -> (timestamp: u64)
        ensures
            timestamp == self.timestamp,
    {
        self.timestamp
    }
}

impl Default for ExecutionPayload {
    fn default() -> (payload: ExecutionPayload)
        ensures
            payload.spec_is_default(),
    {
        ExecutionPayload {
            parent_hash: ExecutionBlockHash::zero(),
            block_hash: ExecutionBlockHash::zero(),
            timestamp: 0,
            content: Vec::new(),
        }
    }
}

/// The header of an execution payload, as a chain state keeps it for the
/// payload that was applied last.
#[derive(Clone, Debug, PartialEq, Eq)]
pub struct ExecutionPayloadHeader {
    pub parent_hash: ExecutionBlockHash,
    pub block_hash: ExecutionBlockHash,
    pub timestamp: u64,
    pub content: Vec<u8>,
}

impl View for ExecutionPayloadHeader {
    type V = PayloadView;

    open spec fn view(&self) -> PayloadView {
        PayloadView {
            parent_hash: self.parent_hash,
            block_hash: self.block_hash,
            timestamp: self.timestamp,
            content: self.content@,
        }
    }
}

impl ExecutionPayloadHeader {
    /// Whether this is the default header, which a state holds until the
    /// first payload has been applied.
    pub open spec fn spec_is_default(&self) -> bool {
        self@ == PayloadView::empty()
    }

    /// Whether this is the default header.
    pub fn is_default(&self) -> (default: bool)
        ensures
            default == self.spec_is_default(),
    {
        let default = self.parent_hash == ExecutionBlockHash::zero()
            && self.block_hash == ExecutionBlockHash::zero()
            && self.timestamp == 0
            && self.content.len() == 0;
        assert(self.content@.len() == 0 ==> self.content@ =~= Seq::<u8>::empty());
        default
    }
}

impl Default for ExecutionPayloadHeader {
    fn default() -> (header: ExecutionPayloadHeader)
        ensures
            header.spec_is_default(),
    {
        ExecutionPayloadHeader {
            parent_hash: ExecutionBlockHash::zero(),
            block_hash: ExecutionBlockHash::zero(),
            timestamp: 0,
            content: Vec::new(),
        }
    }
}

} // verus!
