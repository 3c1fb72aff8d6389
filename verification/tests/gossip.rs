use execution_payload::chain::BeaconBlock;
use execution_payload::errors::{BeaconChainError, BlockError, ExecutionPayloadError};
use execution_payload::gossip::{slot_start_is_needed, validate_execution_payload_for_gossip};
use execution_payload::hash::{ExecutionBlockHash, Hash256};
use execution_payload::payload::ExecutionPayload;
use execution_payload::status::{ExecutionStatus, ProtoBlock};
use execution_payload::time::Slot;

fn gossip_hash(byte: u8) -> ExecutionBlockHash {
    ExecutionBlockHash(Hash256([byte; 32]))
}

fn gossip_parent(execution_status: ExecutionStatus) -> ProtoBlock {
    ProtoBlock {
        root: Hash256([0x22; 32]),
        execution_status,
    }
}

fn gossip_block(payload: Option<ExecutionPayload>) -> BeaconBlock {
    BeaconBlock {
        slot: Slot(9),
        parent_root: Hash256([0x22; 32]),
        execution_payload: payload,
    }
}

fn payload_at(timestamp: u64) -> ExecutionPayload {
    ExecutionPayload {
        parent_hash: gossip_hash(1),
        block_hash: gossip_hash(2),
        timestamp,
        content: vec![5],
    }
}

#[test]
fn invalid_parent_is_refused_whatever_the_clock_says() {
    let parent = gossip_parent(ExecutionStatus::Invalid(gossip_hash(3)));
    let refusal = Err(BlockError::ParentExecutionPayloadInvalid {
        parent_root: Hash256([0x22; 32]),
    });
    let block = gossip_block(Some(payload_at(108)));
    assert_eq!(validate_execution_payload_for_gossip(&parent, &block, Some(108)), refusal);
    assert_eq!(validate_execution_payload_for_gossip(&parent, &block, Some(1)), refusal);
    assert_eq!(validate_execution_payload_for_gossip(&parent, &block, None), refusal);
    let empty = gossip_block(Some(ExecutionPayload::default()));
    assert_eq!(validate_execution_payload_for_gossip(&parent, &empty, None), refusal);
}

#[test]
fn default_payload_before_merge_passes_without_timestamp_check() {
    let parent = gossip_parent(ExecutionStatus::Irrelevant(ExecutionBlockHash::zero()));
    let block = gossip_block(Some(ExecutionPayload::default()));
    assert_eq!(validate_execution_payload_for_gossip(&parent, &block, Some(108)), Ok(()));
    assert_eq!(validate_execution_payload_for_gossip(&parent, &block, None), Ok(()));
}

#[test]
fn block_without_payload_passes() {
    let block = gossip_block(None);
    let invalid = gossip_parent(ExecutionStatus::Invalid(gossip_hash(3)));
    assert_eq!(validate_execution_payload_for_gossip(&invalid, &block, None), Ok(()));
    let valid = gossip_parent(ExecutionStatus::Valid(gossip_hash(3)));
    assert_eq!(validate_execution_payload_for_gossip(&valid, &block, None), Ok(()));
}

#[test]
fn timestamp_at_slot_start_passes_on_valid_parent() {
    let parent = gossip_parent(ExecutionStatus::Valid(gossip_hash(3)));
    let block = gossip_block(Some(payload_at(108)));
    assert_eq!(validate_execution_payload_for_gossip(&parent, &block, Some(108)), Ok(()));
}

#[test]
fn timestamp_off_slot_start_is_refused_with_both_values() {
    let parent = gossip_parent(ExecutionStatus::Optimistic(gossip_hash(3)));
    let block = gossip_block(Some(payload_at(109)));
    assert_eq!(
        validate_execution_payload_for_gossip(&parent, &block, Some(108)),
        Err(BlockError::ExecutionPayloadError(
            ExecutionPayloadError::InvalidPayloadTimestamp {
                expected: 108,
                found: 109,
            }
        ))
    );
}

#[test]
fn default_payload_after_merge_is_checked_too() {
    let parent = gossip_parent(ExecutionStatus::Valid(gossip_hash(3)));
    let block = gossip_block(Some(ExecutionPayload::default()));
    assert_eq!(
        validate_execution_payload_for_gossip(&parent, &block, Some(108)),
        Err(BlockError::ExecutionPayloadError(
            ExecutionPayloadError::InvalidPayloadTimestamp {
                expected: 108,
                found: 0,
            }
        ))
    );
}

#[test]
fn real_payload_before_merge_is_checked() {
    let parent = gossip_parent(ExecutionStatus::Irrelevant(ExecutionBlockHash::zero()));
    let block = gossip_block(Some(payload_at(108)));
    assert_eq!(validate_execution_payload_for_gossip(&parent, &block, Some(108)), Ok(()));
    assert_eq!(
        validate_execution_payload_for_gossip(&parent, &block, Some(120)),
        Err(BlockError::ExecutionPayloadError(
            ExecutionPayloadError::InvalidPayloadTimestamp {
                expected: 120,
                found: 108,
            }
        ))
    );
}

#[test]
fn payload_with_content_alone_is_not_default() {
    // Zero hashes and a zero timestamp, but content: not the default payload.
    let payload = ExecutionPayload {
        parent_hash: ExecutionBlockHash::zero(),
        block_hash: ExecutionBlockHash::zero(),
        timestamp: 0,
        content: vec![0],
    };
    let parent = gossip_parent(ExecutionStatus::Irrelevant(ExecutionBlockHash::zero()));
    let block = gossip_block(Some(payload));
    assert_eq!(
        validate_execution_payload_for_gossip(&parent, &block, None),
        Err(BlockError::BeaconChainError(
            BeaconChainError::UnableToComputeTimeAtSlot
        ))
    );
}

#[test]
fn silent_clock_is_reported() {
    let parent = gossip_parent(ExecutionStatus::Valid(gossip_hash(3)));
    let block = gossip_block(Some(payload_at(108)));
    assert_eq!(
        validate_execution_payload_for_gossip(&parent, &block, None),
        Err(BlockError::BeaconChainError(
            BeaconChainError::UnableToComputeTimeAtSlot
        ))
    );
}

#[test]
fn slot_start_is_needed_only_where_the_timestamp_is_checked() {
    let invalid = gossip_parent(ExecutionStatus::Invalid(gossip_hash(3)));
    let before = gossip_parent(ExecutionStatus::Irrelevant(ExecutionBlockHash::zero()));
    let valid = gossip_parent(ExecutionStatus::Valid(gossip_hash(3)));
    let optimistic = gossip_parent(ExecutionStatus::Optimistic(gossip_hash(3)));
    let real = gossip_block(Some(payload_at(108)));
    let empty = gossip_block(Some(ExecutionPayload::default()));
    let none = gossip_block(None);

    assert!(!slot_start_is_needed(&invalid, &real));
    assert!(!slot_start_is_needed(&invalid, &empty));
    assert!(!slot_start_is_needed(&before, &empty));
    assert!(!slot_start_is_needed(&valid, &none));
    assert!(slot_start_is_needed(&before, &real));
    assert!(slot_start_is_needed(&valid, &real));
    assert!(slot_start_is_needed(&valid, &empty));
    assert!(slot_start_is_needed(&optimistic, &empty));
}
