//! The failures that payload verification and payload production report.
//!
//! Every failure is a value handed to the caller. What a collaborator reports
//! when it fails is carried unread, as the message it gave.

use crate::hash::{ExecutionBlockHash, Hash256};
use crate::status::PayloadStatus;
use crate::time::Epoch;
use vstd::prelude::*;

verus! {

/// A failure of the execution engine client: the request did not get an
/// answer from the engine.
#[derive(Clone, Debug, PartialEq, Eq)]
pub struct EngineError {
    pub message: String,
}

/// A failure of the block store.
#[derive(Clone, Debug, PartialEq, Eq)]
pub struct StoreError {
    pub message: String,
}

/// A failure of fork choice while it applied a command.
#[derive(Clone, Debug, PartialEq, Eq)]
pub struct ForkChoiceError {
    pub message: String,
}

/// A violation that the local checks of a block found.
#[derive(Clone, Debug, PartialEq, Eq)]
pub struct BlockProcessingError {
    pub message: String,
}

/// A failure of a task that was run off the scheduler's own threads.
#[derive(Clone, Debug, PartialEq, Eq)]
pub struct TaskError {
    pub message: String,
}

/// An arithmetic operation on consensus values left the range of its type.
#[derive(Clone, Copy, Debug, PartialEq, Eq)]
pub enum ArithError {
    Overflow,
}

/// A chain state or a block could not give what was asked of it.
#[derive(Clone, Copy, Debug, PartialEq, Eq)]
pub enum BeaconStateError {
    /// The state or block is of a fork that has no such field.
    IncorrectStateVariant,
    ArithError(ArithError),
}

/// A failure inside the chain itself, as opposed to a fault of the block.
#[derive(Clone, Debug, PartialEq, Eq)]
pub enum BeaconChainError {
    /// The slot clock could not tell when a slot starts.
    UnableToComputeTimeAtSlot,
    BeaconStateError(BeaconStateError),
    ForkChoiceError(ForkChoiceError),
    /// The task executor is shutting down and took no new task.
    RuntimeShutdown,
    /// A task that was handed to the executor did not run to its end.
    TaskFailed(TaskError),
}

/// The ways in which the payload of a block is refused.
#[derive(Clone, Debug, PartialEq, Eq)]
pub enum ExecutionPayloadError {
    /// No execution engine is configured.
    NoExecutionConnection,
    /// The request to the engine failed before the engine judged the payload.
    RequestFailed(EngineError),
    /// The engine judged the payload and rejected it.
    RejectedByExecutionEngine { status: PayloadStatus },
    /// The timestamp of the payload is not the start of the block's slot.
    InvalidPayloadTimestamp { expected: u64, found: u64 },
    /// The payload does not build on a valid terminal proof-of-work block.
    InvalidTerminalPoWBlock { parent_hash: ExecutionBlockHash },
    /// The block comes before the epoch at which the configured terminal
    /// block hash takes effect.
    InvalidActivationEpoch { activation_epoch: Epoch, epoch: Epoch },
    /// The payload does not build on the configured terminal block.
    InvalidTerminalBlockHash {
        terminal_block_hash: ExecutionBlockHash,
        payload_parent_hash: ExecutionBlockHash,
    },
}

/// The ways in which a block is refused on import.
#[derive(Clone, Debug, PartialEq, Eq)]
pub enum BlockError {
    /// The parent of the block has a payload that is known to be invalid.
    ParentExecutionPayloadInvalid { parent_root: Hash256 },
    ExecutionPayloadError(ExecutionPayloadError),
    /// The local checks of the block found a violation.
    PerBlockProcessingError(BlockProcessingError),
    BeaconChainError(BeaconChainError),
}

/// The ways in which the production of a payload for a new block fails.
#[derive(Clone, Debug, PartialEq, Eq)]
pub enum BlockProductionError {
    /// No execution engine is configured.
    ExecutionLayerMissing,
    /// The engine could not be asked for the terminal proof-of-work block.
    TerminalPoWBlockLookupFailed(EngineError),
    /// The engine did not hand out a payload.
    GetPayloadFailed(EngineError),
    /// The block store failed while the finalized block was read.
    FailedToReadFinalizedBlock(StoreError),
    /// Neither fork choice nor the block store holds the finalized block.
    MissingFinalizedBlock(Hash256),
    BeaconChain(BeaconChainError),
    BeaconStateError(BeaconStateError),
    /// The task executor is shutting down: the work was not started.
    ShuttingDown,
}

} // verus!
