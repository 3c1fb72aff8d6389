//! The chain as payload handling reads it: its configuration, its blocks and
//! its states.

use crate::errors::ArithError;
use crate::hash::{ExecutionBlockHash, Hash256};
use crate::payload::{ExecutionPayload, ExecutionPayloadHeader};
use crate::time::{Epoch, Slot};
use vstd::prelude::*;

verus! {

/// The constants of the chain that payload handling depends on.
#[derive(Clone, Copy, Debug, PartialEq, Eq)]
pub struct ChainSpec {
    /// The number of slots in an epoch; never zero.
    pub slots_per_epoch: u64,
    pub seconds_per_slot: u64,
    pub genesis_slot: Slot,
    /// The terminal block that the operators agreed on ahead of the merge,
    /// or the zero hash where none was configured.
    pub terminal_block_hash: ExecutionBlockHash,
    /// The epoch from which `terminal_block_hash` is in force.
    pub terminal_block_hash_activation_epoch: Epoch,
}

impl ChainSpec {
    /// Whether a terminal block hash is configured.
    pub open spec fn terminal_block_hash_is_set(&self) -> bool {
        self.terminal_block_hash != ExecutionBlockHash::spec_zero()
    }
}

/// The parts of a running chain that payload handling consults directly.
#[derive(Clone, Copy, Debug, PartialEq, Eq)]
pub struct BeaconChain {
    pub spec: ChainSpec,
    /// Whether a connection to an execution engine is configured.
    pub has_execution_layer: bool,
}

/// A consensus block. Its body carries a payload from the fork on that
/// introduced payloads; before the merge that payload is the default one.
#[derive(Clone, Debug, PartialEq, Eq)]
pub struct BeaconBlock {
    pub slot: Slot,
    pub parent_root: Hash256,
    pub execution_payload: Option<ExecutionPayload>,
}

/// A snapshot of the chain state. It is only read here.
#[derive(Clone, Debug, PartialEq, Eq)]
pub struct BeaconState {
    pub slot: Slot,
    /// The time of genesis, in seconds since the Unix epoch.
    pub genesis_time: u64,
    /// The randao mix of the current epoch.
    pub randao_mix: Hash256,
    /// The header of the payload that was applied last; absent in a state of
    /// a fork that knows no payloads.
    pub latest_execution_payload_header: Option<ExecutionPayloadHeader>,
}

impl BeaconState {
    /// The epoch of the state's slot.
    pub fn current_epoch(&self, spec: &ChainSpec) -> (epoch: Epoch)
        requires
            spec.slots_per_epoch > 0,
        ensures
            epoch == self.slot.spec_epoch(spec.slots_per_epoch),
    {
        self.slot.epoch(spec.slots_per_epoch)
    }

    /// Whether a payload has been applied to this state: its latest payload
    /// header is there and is not the default one.
    pub open spec fn merge_transition_complete(&self) -> bool {
        match self.latest_execution_payload_header {
            Some(header) => !header.spec_is_default(),
            None => false,
        }
    }

    /// Whether `block` is the block that completes the merge on this state:
    /// the first one to carry a payload that is not the default.
    pub open spec fn merge_transition_block(&self, block: &BeaconBlock) -> bool {
        match block.execution_payload {
            Some(payload) => !self.merge_transition_complete() && !payload.spec_is_default(),
            None => false,
        }
    }

    /// Whether execution is enabled for `block` on this state: the merge is
    /// complete, or this block completes it.
    pub open spec fn execution_enabled(&self, block: &BeaconBlock) -> bool {
        self.merge_transition_block(block) || self.merge_transition_complete()
    }

    /// The start of the state's slot in seconds since the Unix epoch, where
    /// the slot is not before genesis and the time fits in 64 bits.
    pub open spec fn timestamp_at_slot(&self, spec: &ChainSpec) -> Option<u64> {
        let seconds = self.genesis_time + (self.slot.0 - spec.genesis_slot.0)
            * spec.seconds_per_slot;
        if self.slot.0 >= spec.genesis_slot.0 && seconds <= u64::MAX {
            Some(seconds as u64)
        } else {
            None
        }
    }
}

/// Whether a payload has been applied to `state`.
pub fn is_merge_transition_complete(state: &BeaconState) -> (complete: bool)
    ensures
        complete == state.merge_transition_complete(),
{
    match &state.latest_execution_payload_header {
        Some(header) => !header.is_default(),
        None => false,
    }
}

/// Whether `block` is the block that completes the merge on `state`.
pub fn is_merge_transition_block(state: &BeaconState, block: &BeaconBlock) -> (transition: bool)
    ensures
        transition == state.merge_transition_block(block),
{
    match &block.execution_payload {
        Some(payload) => !is_merge_transition_complete(state) && !payload.is_default(),
        None => false,
    }
}

/// Whether execution is enabled for `block` on `state`.
pub fn is_execution_enabled(state: &BeaconState, block: &BeaconBlock) -> (enabled: bool)
    ensures
        enabled == state.execution_enabled(block),
{
    is_merge_transition_block(state, block) || is_merge_transition_complete(state)
}

/// The time at which the slot of `state` starts, in seconds since the Unix
/// epoch. Fails where the slot lies before genesis or the time does not fit
/// in 64 bits.
pub fn compute_timestamp_at_slot(state: &BeaconState, spec: &ChainSpec) -> (timestamp: Result<
    u64,
    ArithError,
>)
    ensures
        timestamp == match state.timestamp_at_slot(spec) {
            Some(seconds) => Ok::<u64, ArithError>(seconds),
            None => Err(ArithError::Overflow),
        },
{
    let slots_since_genesis = match state.slot.0.checked_sub(spec.genesis_slot.0) {
        Some(slots) => slots,
        None => { return Err(ArithError::Overflow); },
    };
    let since_genesis = match slots_since_genesis.checked_mul(spec.seconds_per_slot) {
        Some(seconds) => seconds,
        None => {
            return Err(ArithError::Overflow);
        },
    };
    match state.genesis_time.checked_add(since_genesis) {
        Some(seconds) => Ok(seconds),
        None => Err(ArithError::Overflow),
    }
}

} // verus!
