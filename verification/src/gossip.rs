//! The check of a payload when its block arrives by gossip, before the block
//! is processed in full.

use crate::chain::BeaconBlock;
use crate::errors::{BeaconChainError, BlockError, ExecutionPayloadError};
use crate::status::{ExecutionStatus, ProtoBlock};
use vstd::prelude::*;

verus! {

impl ExecutionStatus {
    /// Whether a block with this status shows that the merge is complete. A
    /// payload that the engine has not verified yet is taken to show it.
    pub open spec fn merge_complete(self) -> bool {
        self is Valid || self is Optimistic
    }
}

/// Whether the timestamp of `block` has to be checked on gossip: the block
/// carries a payload, its parent is not invalid, and the merge is complete
/// by the parent's status or the payload is not the default one.
pub open spec fn timestamp_is_checked(parent_block: &ProtoBlock, block: &BeaconBlock) -> bool {
    match block.execution_payload {
        None => false,
        Some(payload) => !(parent_block.execution_status is Invalid) && (
        parent_block.execution_status.merge_complete() || !payload.spec_is_default()),
    }
}

/// Whether the start of the block's slot has to be had from the slot clock
/// before the payload of `block` can be checked.
pub fn slot_start_is_needed(parent_block: &ProtoBlock, block: &BeaconBlock) -> (needed: bool)
    ensures
        needed == timestamp_is_checked(parent_block, block),
{
    match &block.execution_payload {
        None => false,
        Some(payload) => match parent_block.execution_status {
            ExecutionStatus::Invalid(_) => false,
            ExecutionStatus::Valid(_) | ExecutionStatus::Optimistic(_) => true,
            ExecutionStatus::Irrelevant(_) => !payload.is_default(),
        },
    }
}

/// The verdict of `validate_execution_payload_for_gossip`.
pub open spec fn gossip_verdict(
    parent_block: &ProtoBlock,
    block: &BeaconBlock,
    slot_start: Option<u64>,
) -> Result<(), BlockError> {
    match block.execution_payload {
        None => Ok(()),
        Some(payload) => if parent_block.execution_status is Invalid {
            Err(BlockError::ParentExecutionPayloadInvalid { parent_root: parent_block.root })
        } else if timestamp_is_checked(parent_block, block) {
            match slot_start {
                None => Err(
                    BlockError::BeaconChainError(BeaconChainError::UnableToComputeTimeAtSlot),
                ),
                Some(expected) => if payload.timestamp == expected {
                    Ok(())
                } else {
                    Err(
                        BlockError::ExecutionPayloadError(
                            ExecutionPayloadError::InvalidPayloadTimestamp {
                                expected,
                                found: payload.timestamp,
                            },
                        ),
                    )
                },
            }
        } else {
            Ok(())
        },
    }
}

/// Checks the payload of a block that arrived by gossip. Only the parent's
/// record in fork choice is consulted, never a state.
///
/// `slot_start` is what the slot clock gives for the block's slot: the start
/// of the slot in whole seconds since the Unix epoch, or nothing where the
/// clock cannot tell. It is read only where the timestamp is checked.
///
/// A block without a payload passes. A block on a parent with an invalid
/// payload is refused. Where the merge is complete by the parent's status,
/// or the payload is not the default one, the payload's timestamp must be
/// the start of the slot.
pub fn validate_execution_payload_for_gossip(
    parent_block: &ProtoBlock,
    block: &BeaconBlock,
    slot_start: Option<u64>,
) -> (verdict: Result<(), BlockError>)
    ensures
        verdict == gossip_verdict(parent_block, block, slot_start),
{
    if let Some(execution_payload) = &block.execution_payload {
        let is_merge_transition_complete = match parent_block.execution_status {
            ExecutionStatus::Valid(_) | ExecutionStatus::Optimistic(_) => true,
            ExecutionStatus::Irrelevant(_) => false,
            ExecutionStatus::Invalid(_) => {
                return Err(
                    BlockError::ParentExecutionPayloadInvalid { parent_root: parent_block.root },
                );
            },
        };

        if is_merge_transition_complete || !execution_payload.is_default() {
            let expected_timestamp = match slot_start {
                Some(seconds) => seconds,
                None => {
                    return Err(
                        BlockError::BeaconChainError(BeaconChainError::UnableToComputeTimeAtSlot),
                    );
                },
            };
            if execution_payload.timestamp() != expected_timestamp {
                return Err(
                    BlockError::ExecutionPayloadError(
                        ExecutionPayloadError::InvalidPayloadTimestamp {
                            expected: expected_timestamp,
                            found: execution_payload.timestamp(),
                        },
                    ),
                );
            }
        }
    }
    Ok(())
}

/// On a parent with an invalid payload a block that carries a payload is
/// refused at once: the verdict names the parent and does not depend on what
/// the slot clock gives.
pub proof fn lemma_invalid_parent_is_refused(
    parent_block: &ProtoBlock,
    block: &BeaconBlock,
    slot_start: Option<u64>,
)
    requires
        parent_block.execution_status is Invalid,
        block.execution_payload is Some,
    ensures
        !timestamp_is_checked(parent_block, block),
        gossip_verdict(parent_block, block, slot_start) == Err::<(), BlockError>(
            BlockError::ParentExecutionPayloadInvalid { parent_root: parent_block.root },
        ),
{
}

/// A default payload on a parent from before the merge passes, and its
/// timestamp is not checked: the verdict does not depend on what the slot
/// clock gives.
pub proof fn lemma_default_payload_before_merge_passes(
    parent_block: &ProtoBlock,
    block: &BeaconBlock,
    slot_start: Option<u64>,
)
    requires
        parent_block.execution_status is Irrelevant,
        block.execution_payload matches Some(payload) && payload.spec_is_default(),
    ensures
        !timestamp_is_checked(parent_block, block),
        gossip_verdict(parent_block, block, slot_start) == Ok::<(), BlockError>(()),
{
}

/// On a parent whose payload is valid or optimistic, and for any payload
/// that is not the default one on a parent that is not invalid, the block
/// passes exactly where the payload's timestamp is the start of the slot. A
/// mismatch is reported with both values, and a clock that cannot tell with
/// a failure of its own.
pub proof fn lemma_timestamp_must_match_slot_start(
    parent_block: &ProtoBlock,
    block: &BeaconBlock,
    slot_start: Option<u64>,
)
    requires
        block.execution_payload is Some,
        !(parent_block.execution_status is Invalid),
        parent_block.execution_status is Valid || parent_block.execution_status is Optimistic
            || !block.execution_payload->Some_0.spec_is_default(),
    ensures
        timestamp_is_checked(parent_block, block),
        gossip_verdict(parent_block, block, slot_start) == ({
            let found = block.execution_payload->Some_0.timestamp;
            match slot_start {
                None => Err::<(), BlockError>(
                    BlockError::BeaconChainError(BeaconChainError::UnableToComputeTimeAtSlot),
                ),
                Some(expected) => if found == expected {
                    Ok(())
                } else {
                    Err(
                        BlockError::ExecutionPayloadError(
                            ExecutionPayloadError::InvalidPayloadTimestamp { expected, found },
                        ),
                    )
                },
            }
        }),
{
}

} // verus!
