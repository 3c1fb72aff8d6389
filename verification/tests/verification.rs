use execution_payload::chain::{BeaconBlock, BeaconChain, BeaconState, ChainSpec};
use execution_payload::errors::{
    BeaconChainError, BeaconStateError, BlockError, BlockProcessingError, EngineError,
    ExecutionPayloadError, ForkChoiceError,
};
use execution_payload::hash::{ExecutionBlockHash, Hash256};
use execution_payload::notifier::{
    notify_new_payload, PayloadNotifier, PendingInvalidation, VerificationStep,
};
use execution_payload::payload::{ExecutionPayload, ExecutionPayloadHeader};
use execution_payload::status::{InvalidationOperation, PayloadStatus, PayloadVerificationStatus};
use execution_payload::time::{Epoch, Slot};

/// An engine and a fork choice that answer as they are told and keep what
/// they were handed.
struct Collaborators {
    engine: Result<PayloadStatus, EngineError>,
    fork_choice: Result<(), BeaconChainError>,
    submitted: Vec<ExecutionPayload>,
    invalidations: Vec<InvalidationOperation>,
    log: Vec<&'static str>,
}

fn collaborators(engine: Result<PayloadStatus, EngineError>) -> Collaborators {
    Collaborators {
        engine,
        fork_choice: Ok(()),
        submitted: vec![],
        invalidations: vec![],
        log: vec![],
    }
}

fn drive_verification(
    first: VerificationStep,
    world: &mut Collaborators,
) -> Result<PayloadVerificationStatus, BlockError> {
    let mut step = first;
    loop {
        step = match step {
            VerificationStep::Done(result) => {
                world.log.push("done");
                return result;
            }
            VerificationStep::SubmitPayload(submission) => {
                world.submitted.push(submission.payload.clone());
                world.log.push("engine");
                submission.answered(world.engine.clone())
            }
            VerificationStep::Invalidate(pending) => {
                world.invalidations.push(pending.operation);
                world.log.push("fork choice");
                pending.answered(world.fork_choice.clone())
            }
        };
    }
}

fn verification_hash(byte: u8) -> ExecutionBlockHash {
    ExecutionBlockHash(Hash256([byte; 32]))
}

fn verification_chain(engine: bool) -> BeaconChain {
    BeaconChain {
        spec: ChainSpec {
            slots_per_epoch: 32,
            seconds_per_slot: 12,
            genesis_slot: Slot(0),
            terminal_block_hash: ExecutionBlockHash::zero(),
            terminal_block_hash_activation_epoch: Epoch(0),
        },
        has_execution_layer: engine,
    }
}

fn real_payload() -> ExecutionPayload {
    ExecutionPayload {
        parent_hash: verification_hash(1),
        block_hash: verification_hash(2),
        timestamp: 1_000,
        content: vec![0xde, 0xad],
    }
}

fn block_with(payload: Option<ExecutionPayload>) -> BeaconBlock {
    BeaconBlock {
        slot: Slot(40),
        parent_root: Hash256([0x11; 32]),
        execution_payload: payload,
    }
}

fn state_with(header: Option<ExecutionPayloadHeader>) -> BeaconState {
    BeaconState {
        slot: Slot(40),
        genesis_time: 500,
        randao_mix: Hash256([3; 32]),
        latest_execution_payload_header: header,
    }
}

fn applied_header() -> ExecutionPayloadHeader {
    ExecutionPayloadHeader {
        parent_hash: verification_hash(0),
        block_hash: verification_hash(1),
        timestamp: 900,
        content: vec![1],
    }
}

#[test]
fn default_payload_before_merge_is_irrelevant_without_calls() {
    let state = state_with(Some(ExecutionPayloadHeader::default()));
    let block = block_with(Some(ExecutionPayload::default()));
    // The local checks are not looked at: a violation changes nothing.
    let violation = Err(BlockProcessingError {
        message: String::from("not looked at"),
    });
    let notifier = PayloadNotifier::new(verification_chain(true), block, &state, violation)
        .expect("a notifier is made");
    let mut world = collaborators(Ok(PayloadStatus::Invalid {
        latest_valid_hash: verification_hash(5),
    }));
    let result = drive_verification(notifier.notify_new_payload(), &mut world);
    assert_eq!(result, Ok(PayloadVerificationStatus::Irrelevant));
    assert!(world.submitted.is_empty());
    assert!(world.invalidations.is_empty());
}

#[test]
fn block_without_payload_on_old_state_is_irrelevant() {
    let state = state_with(None);
    let block = block_with(None);
    let notifier = PayloadNotifier::new(verification_chain(false), block, &state, Ok(()))
        .expect("a notifier is made");
    let mut world = collaborators(Ok(PayloadStatus::Valid));
    let result = drive_verification(notifier.notify_new_payload(), &mut world);
    assert_eq!(result, Ok(PayloadVerificationStatus::Irrelevant));
    assert_eq!(world.log, vec!["done"]);
}

#[test]
fn notifier_keeps_chain_and_block() {
    let state = state_with(Some(applied_header()));
    let block = block_with(Some(real_payload()));
    let notifier = PayloadNotifier::new(verification_chain(true), block.clone(), &state, Ok(()))
        .expect("a notifier is made");
    assert_eq!(notifier.chain(), &verification_chain(true));
    assert_eq!(notifier.block(), &block);
    assert_eq!(notifier.chain, verification_chain(true));
    assert_eq!(notifier.block, block);
}

#[test]
fn violation_of_local_checks_refuses_before_the_engine() {
    let state = state_with(Some(applied_header()));
    let block = block_with(Some(real_payload()));
    let violation = BlockProcessingError {
        message: String::from("timestamp"),
    };
    let made = PayloadNotifier::new(verification_chain(true), block, &state, Err(violation.clone()));
    assert_eq!(made.err(), Some(BlockError::PerBlockProcessingError(violation)));
}

#[test]
fn merge_transition_block_enables_execution() {
    // The state has seen no payload yet; the block brings the first one.
    let state = state_with(Some(ExecutionPayloadHeader::default()));
    let block = block_with(Some(real_payload()));
    let notifier = PayloadNotifier::new(verification_chain(true), block, &state, Ok(()))
        .expect("a notifier is made");
    let mut world = collaborators(Ok(PayloadStatus::Valid));
    let result = drive_verification(notifier.notify_new_payload(), &mut world);
    assert_eq!(result, Ok(PayloadVerificationStatus::Verified));
    assert_eq!(world.submitted, vec![real_payload()]);
}

#[test]
fn enabled_execution_needs_a_payload_in_the_block() {
    let state = state_with(Some(applied_header()));
    let block = block_with(None);
    let made = PayloadNotifier::new(verification_chain(true), block, &state, Ok(()));
    assert_eq!(
        made.err(),
        Some(BlockError::BeaconChainError(
            BeaconChainError::BeaconStateError(BeaconStateError::IncorrectStateVariant)
        ))
    );
}

#[test]
fn valid_payload_is_verified() {
    let state = state_with(Some(applied_header()));
    let block = block_with(Some(real_payload()));
    let notifier = PayloadNotifier::new(verification_chain(true), block, &state, Ok(()))
        .expect("a notifier is made");
    let mut world = collaborators(Ok(PayloadStatus::Valid));
    let result = drive_verification(notifier.notify_new_payload(), &mut world);
    assert_eq!(result, Ok(PayloadVerificationStatus::Verified));
    assert_eq!(world.submitted, vec![real_payload()]);
    assert!(world.invalidations.is_empty());
}

#[test]
fn syncing_engine_gives_optimistic() {
    let mut world = collaborators(Ok(PayloadStatus::Syncing));
    let step = notify_new_payload(&verification_chain(true), block_with(Some(real_payload())));
    let result = drive_verification(step, &mut world);
    assert_eq!(result, Ok(PayloadVerificationStatus::Optimistic));
    assert_eq!(world.submitted.len(), 1);
    assert!(world.invalidations.is_empty());
}

#[test]
fn accepted_payload_gives_optimistic() {
    let mut world = collaborators(Ok(PayloadStatus::Accepted));
    let step = notify_new_payload(&verification_chain(true), block_with(Some(real_payload())));
    let result = drive_verification(step, &mut world);
    assert_eq!(result, Ok(PayloadVerificationStatus::Optimistic));
    assert_eq!(world.submitted.len(), 1);
    assert!(world.invalidations.is_empty());
}

#[test]
fn invalid_payload_invalidates_from_parent_then_rejects() {
    let latest_valid_hash = verification_hash(0x77);
    let status = PayloadStatus::Invalid { latest_valid_hash };
    let mut world = collaborators(Ok(status));
    let block = block_with(Some(real_payload()));
    let parent_root = block.parent_root;
    let step = notify_new_payload(&verification_chain(true), block);
    let result = drive_verification(step, &mut world);
    assert_eq!(
        world.invalidations,
        vec![InvalidationOperation::InvalidateMany {
            head_block_root: parent_root,
            always_invalidate_head: false,
            latest_valid_ancestor: latest_valid_hash,
        }]
    );
    assert_eq!(world.log, vec!["engine", "fork choice", "done"]);
    assert_eq!(
        result,
        Err(BlockError::ExecutionPayloadError(
            ExecutionPayloadError::RejectedByExecutionEngine { status }
        ))
    );
}

#[test]
fn failed_invalidation_supersedes_the_rejection() {
    let mut world = collaborators(Ok(PayloadStatus::Invalid {
        latest_valid_hash: verification_hash(0x77),
    }));
    let failure = BeaconChainError::ForkChoiceError(ForkChoiceError {
        message: String::from("unknown head"),
    });
    world.fork_choice = Err(failure.clone());
    let step = notify_new_payload(&verification_chain(true), block_with(Some(real_payload())));
    let result = drive_verification(step, &mut world);
    assert_eq!(world.invalidations.len(), 1);
    assert_eq!(result, Err(BlockError::BeaconChainError(failure)));
}

#[test]
fn invalid_terminal_block_rejects_without_invalidation() {
    let mut world = collaborators(Ok(PayloadStatus::InvalidTerminalBlock));
    let step = notify_new_payload(&verification_chain(true), block_with(Some(real_payload())));
    let result = drive_verification(step, &mut world);
    assert!(world.invalidations.is_empty());
    assert_eq!(
        result,
        Err(BlockError::ExecutionPayloadError(
            ExecutionPayloadError::RejectedByExecutionEngine {
                status: PayloadStatus::InvalidTerminalBlock
            }
        ))
    );
}

#[test]
fn invalid_block_hash_rejects_without_invalidation() {
    let mut world = collaborators(Ok(PayloadStatus::InvalidBlockHash));
    let step = notify_new_payload(&verification_chain(true), block_with(Some(real_payload())));
    let result = drive_verification(step, &mut world);
    assert!(world.invalidations.is_empty());
    assert_eq!(
        result,
        Err(BlockError::ExecutionPayloadError(
            ExecutionPayloadError::RejectedByExecutionEngine {
                status: PayloadStatus::InvalidBlockHash
            }
        ))
    );
}

#[test]
fn failed_request_is_reported() {
    let failure = EngineError {
        message: String::from("timed out"),
    };
    let mut world = collaborators(Err(failure.clone()));
    let step = notify_new_payload(&verification_chain(true), block_with(Some(real_payload())));
    let result = drive_verification(step, &mut world);
    assert!(world.invalidations.is_empty());
    assert_eq!(
        result,
        Err(BlockError::ExecutionPayloadError(
            ExecutionPayloadError::RequestFailed(failure)
        ))
    );
}

#[test]
fn missing_engine_is_reported_before_any_call() {
    let mut world = collaborators(Ok(PayloadStatus::Valid));
    let step = notify_new_payload(&verification_chain(false), block_with(Some(real_payload())));
    let result = drive_verification(step, &mut world);
    assert!(world.submitted.is_empty());
    assert_eq!(
        result,
        Err(BlockError::ExecutionPayloadError(
            ExecutionPayloadError::NoExecutionConnection
        ))
    );
}

#[test]
fn payload_is_looked_for_before_the_engine() {
    let mut world = collaborators(Ok(PayloadStatus::Valid));
    let step = notify_new_payload(&verification_chain(false), block_with(None));
    let result = drive_verification(step, &mut world);
    assert_eq!(
        result,
        Err(BlockError::BeaconChainError(
            BeaconChainError::BeaconStateError(BeaconStateError::IncorrectStateVariant)
        ))
    );
}

#[test]
fn repeated_verification_against_valid_engine_is_stable() {
    let state = state_with(Some(applied_header()));
    let mut world = collaborators(Ok(PayloadStatus::Valid));
    for _ in 0..5 {
        let block = block_with(Some(real_payload()));
        let notifier = PayloadNotifier::new(verification_chain(true), block, &state, Ok(()))
            .expect("a notifier is made");
        let result = drive_verification(notifier.notify_new_payload(), &mut world);
        assert_eq!(result, Ok(PayloadVerificationStatus::Verified));
    }
    assert_eq!(world.submitted.len(), 5);
    assert!(world.invalidations.is_empty());
}

#[test]
fn pending_invalidation_reports_the_status_it_holds() {
    let status = PayloadStatus::Invalid {
        latest_valid_hash: verification_hash(4),
    };
    let pending = PendingInvalidation {
        operation: InvalidationOperation::InvalidateMany {
            head_block_root: Hash256([1; 32]),
            always_invalidate_head: false,
            latest_valid_ancestor: verification_hash(4),
        },
        status,
    };
    assert_eq!(
        pending.answered(Ok(())),
        VerificationStep::Done(Err(BlockError::ExecutionPayloadError(
            ExecutionPayloadError::RejectedByExecutionEngine { status }
        )))
    );
}

#[test]
fn local_checks_are_due_only_where_execution_is_enabled() {
    let before = state_with(Some(ExecutionPayloadHeader::default()));
    let after = state_with(Some(applied_header()));
    let empty = block_with(Some(ExecutionPayload::default()));
    let real = block_with(Some(real_payload()));
    let none = block_with(None);

    assert_eq!(PayloadNotifier::payload_for_local_checks(&before, &empty), None);
    assert_eq!(PayloadNotifier::payload_for_local_checks(&before, &none), None);
    assert_eq!(PayloadNotifier::payload_for_local_checks(&after, &none), None);
    assert_eq!(
        PayloadNotifier::payload_for_local_checks(&before, &real),
        Some(&real_payload())
    );
    assert_eq!(
        PayloadNotifier::payload_for_local_checks(&after, &empty),
        Some(&ExecutionPayload::default())
    );
}
