//! The check of a block that may be the first to carry a payload: it has to
//! stand on a legitimate terminal block.
//!
//! Where a terminal block hash is configured, the check is decided here. Where
//! none is, only the engine can tell whether the payload's parent is a valid
//! terminal proof-of-work block: the check then names the question, and the
//! engine's answer decides it.

use crate::chain::{BeaconBlock, BeaconChain};
use crate::errors::{
    BeaconChainError, BeaconStateError, BlockError, EngineError, ExecutionPayloadError,
};
use crate::hash::ExecutionBlockHash;
use vstd::prelude::*;

verus! {

/// The engine is to be asked whether `parent_hash` is the hash of a valid
/// terminal proof-of-work block.
#[derive(Clone, Copy, Debug, PartialEq, Eq)]
pub struct TerminalBlockCheck {
    pub parent_hash: ExecutionBlockHash,
}

/// Where the check of a merge block stands.
#[derive(Debug, PartialEq, Eq)]
pub enum MergeBlockStep {
    /// The check has ended: the block is accepted or refused.
    Done(Result<(), BlockError>),
    CheckTerminalBlock(TerminalBlockCheck),
}

/// The failure on a block whose body has no field for a payload.
pub open spec fn payload_missing() -> BlockError {
    BlockError::BeaconChainError(
        BeaconChainError::BeaconStateError(BeaconStateError::IncorrectStateVariant),
    )
}

/// The first step of `validate_merge_block`.
pub open spec fn merge_block_start(chain: &BeaconChain, block: &BeaconBlock) -> MergeBlockStep {
    let spec = chain.spec;
    let block_epoch = block.slot.spec_epoch(spec.slots_per_epoch);
    match block.execution_payload {
        None => MergeBlockStep::Done(Err(payload_missing())),
        Some(payload) => if spec.terminal_block_hash_is_set() {
            if block_epoch.0 < spec.terminal_block_hash_activation_epoch.0 {
                MergeBlockStep::Done(
                    Err(
                        BlockError::ExecutionPayloadError(
                            ExecutionPayloadError::InvalidActivationEpoch {
                                activation_epoch: spec.terminal_block_hash_activation_epoch,
                                epoch: block_epoch,
                            },
                        ),
                    ),
                )
            } else if payload.parent_hash != spec.terminal_block_hash {
                MergeBlockStep::Done(
                    Err(
                        BlockError::ExecutionPayloadError(
                            ExecutionPayloadError::InvalidTerminalBlockHash {
                                terminal_block_hash: spec.terminal_block_hash,
                                payload_parent_hash: payload.parent_hash,
                            },
                        ),
                    ),
                )
            } else {
                MergeBlockStep::Done(Ok(()))
            }
        } else if !chain.has_execution_layer {
            MergeBlockStep::Done(
                Err(BlockError::ExecutionPayloadError(ExecutionPayloadError::NoExecutionConnection)),
            )
        } else {
            MergeBlockStep::CheckTerminalBlock(
                TerminalBlockCheck { parent_hash: payload.parent_hash },
            )
        },
    }
}

impl TerminalBlockCheck {
    /// The verdict that follows the engine's answer. An engine that cannot
    /// tell yet does not hold the block up: the block is accepted, and it is
    /// for the caller to treat its import as optimistic.
    pub open spec fn spec_answered(self, answer: Result<Option<bool>, EngineError>) -> Result<
        (),
        BlockError,
    > {
        match answer {
            Err(error) => Err(
                BlockError::ExecutionPayloadError(ExecutionPayloadError::RequestFailed(error)),
            ),
            Ok(Some(true)) => Ok(()),
            Ok(Some(false)) => Err(
                BlockError::ExecutionPayloadError(
                    ExecutionPayloadError::InvalidTerminalPoWBlock { parent_hash: self.parent_hash },
                ),
            ),
            Ok(None) => Ok(()),
        }
    }

    /// Takes the engine's answer on the terminal block and gives the verdict.
    pub fn answered(self, answer: Result<Option<bool>, EngineError>) -> (verdict: Result<
        (),
        BlockError,
    >)
        ensures
            verdict == self.spec_answered(answer),
    {
        match answer {
            Err(error) => Err(
                BlockError::ExecutionPayloadError(ExecutionPayloadError::RequestFailed(error)),
            ),
            Ok(Some(true)) => Ok(()),
            Ok(Some(false)) => Err(
                BlockError::ExecutionPayloadError(
                    ExecutionPayloadError::InvalidTerminalPoWBlock { parent_hash: self.parent_hash },
                ),
            ),
            Ok(None) => Ok(()),
        }
    }
}

/// Checks that `block`, which may be the block that completes the merge, is
/// fit for fork choice.
///
/// The block has to carry a payload. Where a terminal block hash is
/// configured, the block must not come before the activation epoch and its
/// payload must build on that hash; the engine is not asked. Where none is
/// configured, an engine must be there, and the step names the question for
/// it.
pub fn validate_merge_block(chain: &BeaconChain, block: &BeaconBlock) -> (step: MergeBlockStep)
    requires
        chain.spec.slots_per_epoch > 0,
    ensures
        step == merge_block_start(chain, block),
{
    let spec = &chain.spec;
    let block_epoch = block.slot.epoch(spec.slots_per_epoch);
    let execution_payload = match &block.execution_payload {
        Some(payload) => payload,
        None => {
            return MergeBlockStep::Done(
                Err(
                    BlockError::BeaconChainError(
                        BeaconChainError::BeaconStateError(BeaconStateError::IncorrectStateVariant),
                    ),
                ),
            );
        },
    };

    if spec.terminal_block_hash != ExecutionBlockHash::zero() {
        if block_epoch.0 < spec.terminal_block_hash_activation_epoch.0 {
            return MergeBlockStep::Done(
                Err(
                    BlockError::ExecutionPayloadError(
                        ExecutionPayloadError::InvalidActivationEpoch {
                            activation_epoch: spec.terminal_block_hash_activation_epoch,
                            epoch: block_epoch,
                        },
                    ),
                ),
            );
        }
        if execution_payload.parent_hash() != spec.terminal_block_hash {
            return MergeBlockStep::Done(
                Err(
                    BlockError::ExecutionPayloadError(
                        ExecutionPayloadError::InvalidTerminalBlockHash {
                            terminal_block_hash: spec.terminal_block_hash,
                            payload_parent_hash: execution_payload.parent_hash(),
                        },
                    ),
                ),
            );
        }
        return MergeBlockStep::Done(Ok(()));
    }
    if !chain.has_execution_layer {
        return MergeBlockStep::Done(
            Err(BlockError::ExecutionPayloadError(ExecutionPayloadError::NoExecutionConnection)),
        );
    }
    MergeBlockStep::CheckTerminalBlock(
        TerminalBlockCheck { parent_hash: execution_payload.parent_hash() },
    )
}

/// A whole check of a merge block: the hashes that the engine was asked
/// about, and the verdict.
pub struct MergeBlockRun {
    pub engine_queries: Seq<ExecutionBlockHash>,
    pub result: Result<(), BlockError>,
}

impl MergeBlockStep {
    /// The run that a caller makes from this step on, when it puts the
    /// question that the step names to an engine that answers `answer`.
    pub open spec fn run(self, answer: Result<Option<bool>, EngineError>) -> MergeBlockRun {
        match self {
            MergeBlockStep::Done(result) => MergeBlockRun { engine_queries: Seq::empty(), result },
            MergeBlockStep::CheckTerminalBlock(check) => MergeBlockRun {
                engine_queries: seq![check.parent_hash],
                result: check.spec_answered(answer),
            },
        }
    }
}

/// With a terminal block hash configured, a block that carries a payload is
/// judged by the configuration alone. A block before the activation epoch is
/// refused with that epoch and its own; else a payload that builds on
/// another hash than the configured one is refused with both hashes; else
/// the block is accepted. The engine is asked nothing, whatever the case.
pub proof fn lemma_configured_terminal_block_decides(
    chain: &BeaconChain,
    block: &BeaconBlock,
    answer: Result<Option<bool>, EngineError>,
)
    requires
        chain.spec.terminal_block_hash_is_set(),
        block.execution_payload is Some,
    ensures
        ({
            let run = merge_block_start(chain, block).run(answer);
            let epoch = block.slot.spec_epoch(chain.spec.slots_per_epoch);
            let activation_epoch = chain.spec.terminal_block_hash_activation_epoch;
            let terminal_block_hash = chain.spec.terminal_block_hash;
            let payload_parent_hash = block.execution_payload->Some_0.parent_hash;
            &&& run.engine_queries == Seq::<ExecutionBlockHash>::empty()
            &&& run.result == if epoch.0 < activation_epoch.0 {
                Err::<(), BlockError>(
                    BlockError::ExecutionPayloadError(
                        ExecutionPayloadError::InvalidActivationEpoch { activation_epoch, epoch },
                    ),
                )
            } else if payload_parent_hash != terminal_block_hash {
                Err(
                    BlockError::ExecutionPayloadError(
                        ExecutionPayloadError::InvalidTerminalBlockHash {
                            terminal_block_hash,
                            payload_parent_hash,
                        },
                    ),
                )
            } else {
                Ok(())
            }
        }),
{
}

/// Without a configured terminal block hash, and with an engine that
/// answers, a block that carries a payload is judged as the engine judges
/// the payload's parent: accepted where the parent is a valid terminal
/// block, refused where it is not, and accepted where the engine cannot
/// tell. The engine is asked once, about that parent.
pub proof fn lemma_engine_decides_without_configured_terminal_block(
    chain: &BeaconChain,
    block: &BeaconBlock,
    verdict: Option<bool>,
)
    requires
        !chain.spec.terminal_block_hash_is_set(),
        chain.has_execution_layer,
        block.execution_payload is Some,
    ensures
        ({
            let run = merge_block_start(chain, block).run(Ok(verdict));
            let parent_hash = block.execution_payload->Some_0.parent_hash;
            &&& run.engine_queries == seq![parent_hash]
            &&& run.result == match verdict {
                Some(true) => Ok::<(), BlockError>(()),
                Some(false) => Err(
                    BlockError::ExecutionPayloadError(
                        ExecutionPayloadError::InvalidTerminalPoWBlock { parent_hash },
                    ),
                ),
                None => Ok(()),
            }
        }),
{
}

} // verus!
