use execution_payload::chain::{BeaconBlock, BeaconChain, ChainSpec};
use execution_payload::errors::{
    BeaconChainError, BeaconStateError, BlockError, EngineError, ExecutionPayloadError,
};
use execution_payload::hash::{ExecutionBlockHash, Hash256};
use execution_payload::merge_block::{validate_merge_block, MergeBlockStep, TerminalBlockCheck};
use execution_payload::payload::ExecutionPayload;
use execution_payload::time::{Epoch, Slot};

fn merge_hash(byte: u8) -> ExecutionBlockHash {
    ExecutionBlockHash(Hash256([byte; 32]))
}

fn merge_chain(terminal: ExecutionBlockHash, activation_epoch: u64, engine: bool) -> BeaconChain {
    BeaconChain {
        spec: ChainSpec {
            slots_per_epoch: 32,
            seconds_per_slot: 12,
            genesis_slot: Slot(0),
            terminal_block_hash: terminal,
            terminal_block_hash_activation_epoch: Epoch(activation_epoch),
        },
        has_execution_layer: engine,
    }
}

fn merge_block_at(slot: u64, parent_hash: ExecutionBlockHash) -> BeaconBlock {
    BeaconBlock {
        slot: Slot(slot),
        parent_root: Hash256([7; 32]),
        execution_payload: Some(ExecutionPayload {
            parent_hash,
            block_hash: merge_hash(9),
            timestamp: 100,
            content: vec![1, 2, 3],
        }),
    }
}

/// Runs the check to its end against an engine that gives `answer`, and counts
/// the questions put to the engine.
fn merge_run(
    chain: &BeaconChain,
    block: &BeaconBlock,
    answer: Result<Option<bool>, EngineError>,
) -> (Vec<ExecutionBlockHash>, Result<(), BlockError>) {
    match validate_merge_block(chain, block) {
        MergeBlockStep::Done(result) => (vec![], result),
        MergeBlockStep::CheckTerminalBlock(check) => {
            let asked = check.parent_hash;
            (vec![asked], check.answered(answer))
        }
    }
}

#[test]
fn block_before_activation_epoch_is_refused() {
    // Slot 320 with 32 slots to the epoch is epoch 10.
    let chain = merge_chain(merge_hash(1), 12, true);
    let block = merge_block_at(320, merge_hash(1));
    let (asked, result) = merge_run(&chain, &block, Ok(Some(true)));
    assert!(asked.is_empty());
    assert_eq!(
        result,
        Err(BlockError::ExecutionPayloadError(
            ExecutionPayloadError::InvalidActivationEpoch {
                activation_epoch: Epoch(12),
                epoch: Epoch(10),
            }
        ))
    );
}

#[test]
fn last_slot_before_activation_epoch_is_refused() {
    let chain = merge_chain(merge_hash(1), 12, true);
    let block = merge_block_at(12 * 32 - 1, merge_hash(1));
    let (asked, result) = merge_run(&chain, &block, Ok(Some(true)));
    assert!(asked.is_empty());
    assert_eq!(
        result,
        Err(BlockError::ExecutionPayloadError(
            ExecutionPayloadError::InvalidActivationEpoch {
                activation_epoch: Epoch(12),
                epoch: Epoch(11),
            }
        ))
    );
}

#[test]
fn block_on_another_terminal_hash_is_refused() {
    let chain = merge_chain(merge_hash(1), 12, true);
    let block = merge_block_at(12 * 32, merge_hash(2));
    let (asked, result) = merge_run(&chain, &block, Ok(Some(true)));
    assert!(asked.is_empty());
    assert_eq!(
        result,
        Err(BlockError::ExecutionPayloadError(
            ExecutionPayloadError::InvalidTerminalBlockHash {
                terminal_block_hash: merge_hash(1),
                payload_parent_hash: merge_hash(2),
            }
        ))
    );
}

#[test]
fn block_on_configured_terminal_hash_is_accepted_without_engine() {
    // No engine is configured, and none is needed.
    let chain = merge_chain(merge_hash(1), 12, false);
    let block = merge_block_at(12 * 32, merge_hash(1));
    let (asked, result) = merge_run(&chain, &block, Ok(Some(false)));
    assert!(asked.is_empty());
    assert_eq!(result, Ok(()));
}

#[test]
fn activation_epoch_is_checked_before_terminal_hash() {
    let chain = merge_chain(merge_hash(1), 12, true);
    let block = merge_block_at(0, merge_hash(2));
    let (_, result) = merge_run(&chain, &block, Ok(None));
    assert_eq!(
        result,
        Err(BlockError::ExecutionPayloadError(
            ExecutionPayloadError::InvalidActivationEpoch {
                activation_epoch: Epoch(12),
                epoch: Epoch(0),
            }
        ))
    );
}

#[test]
fn engine_confirms_terminal_block() {
    let chain = merge_chain(ExecutionBlockHash::zero(), 12, true);
    let block = merge_block_at(5, merge_hash(4));
    let (asked, result) = merge_run(&chain, &block, Ok(Some(true)));
    assert_eq!(asked, vec![merge_hash(4)]);
    assert_eq!(result, Ok(()));
}

#[test]
fn engine_denies_terminal_block() {
    let chain = merge_chain(ExecutionBlockHash::zero(), 12, true);
    let block = merge_block_at(5, merge_hash(4));
    let (asked, result) = merge_run(&chain, &block, Ok(Some(false)));
    assert_eq!(asked, vec![merge_hash(4)]);
    assert_eq!(
        result,
        Err(BlockError::ExecutionPayloadError(
            ExecutionPayloadError::InvalidTerminalPoWBlock {
                parent_hash: merge_hash(4)
            }
        ))
    );
}

#[test]
fn engine_that_cannot_tell_lets_the_block_pass() {
    let chain = merge_chain(ExecutionBlockHash::zero(), 12, true);
    let block = merge_block_at(5, merge_hash(4));
    let (asked, result) = merge_run(&chain, &block, Ok(None));
    assert_eq!(asked, vec![merge_hash(4)]);
    assert_eq!(result, Ok(()));
}

#[test]
fn failed_terminal_block_request_is_reported() {
    let chain = merge_chain(ExecutionBlockHash::zero(), 12, true);
    let block = merge_block_at(5, merge_hash(4));
    let failure = EngineError {
        message: String::from("connection refused"),
    };
    let (_, result) = merge_run(&chain, &block, Err(failure.clone()));
    assert_eq!(
        result,
        Err(BlockError::ExecutionPayloadError(
            ExecutionPayloadError::RequestFailed(failure)
        ))
    );
}

#[test]
fn merge_block_without_engine_is_refused() {
    let chain = merge_chain(ExecutionBlockHash::zero(), 12, false);
    let block = merge_block_at(5, merge_hash(4));
    let (asked, result) = merge_run(&chain, &block, Ok(Some(true)));
    assert!(asked.is_empty());
    assert_eq!(
        result,
        Err(BlockError::ExecutionPayloadError(
            ExecutionPayloadError::NoExecutionConnection
        ))
    );
}

#[test]
fn merge_block_without_payload_is_refused() {
    let chain = merge_chain(merge_hash(1), 0, true);
    let block = BeaconBlock {
        slot: Slot(5),
        parent_root: Hash256([7; 32]),
        execution_payload: None,
    };
    let (asked, result) = merge_run(&chain, &block, Ok(Some(true)));
    assert!(asked.is_empty());
    assert_eq!(
        result,
        Err(BlockError::BeaconChainError(
            BeaconChainError::BeaconStateError(BeaconStateError::IncorrectStateVariant)
        ))
    );
}

#[test]
fn terminal_block_check_names_the_parent_in_its_refusal() {
    let check = TerminalBlockCheck {
        parent_hash: merge_hash(6),
    };
    assert_eq!(
        check.answered(Ok(Some(false))),
        Err(BlockError::ExecutionPayloadError(
            ExecutionPayloadError::InvalidTerminalPoWBlock {
                parent_hash: merge_hash(6)
            }
        ))
    );
}
