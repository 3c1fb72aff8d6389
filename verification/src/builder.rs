//! Production of an execution payload for a block that this node proposes.
//!
//! The payload comes from the execution engine, and on the way fork choice and
//! the block store may have to be asked. None of them can be called from here.
//! So the work is cut at each such call: a step either ends the work or names
//! the question to put, and the answer leads to the next step. The caller
//! puts the questions; every decision is taken here.

use crate::chain::{compute_timestamp_at_slot, is_merge_transition_complete, BeaconBlock, BeaconChain, BeaconState};
use crate::errors::{
    ArithError, BeaconChainError, BeaconStateError, BlockProductionError, EngineError, StoreError,
};
use crate::hash::{ExecutionBlockHash, Hash256};
use crate::payload::{ExecutionPayload, PayloadView};
use crate::status::ProtoBlock;
use crate::time::{Checkpoint, Epoch};
use vstd::prelude::*;

verus! {

/// What is taken from a chain state before a payload is produced, so that the
/// state need not be kept while the engine works.
#[derive(Clone, Copy, Debug, PartialEq, Eq)]
pub struct PayloadPreparation {
    pub current_epoch: Epoch,
    pub is_merge_transition_complete: bool,
    pub timestamp: u64,
    pub random: Hash256,
    pub finalized_checkpoint: Checkpoint,
    pub proposer_index: u64,
    pub latest_execution_payload_header_block_hash: ExecutionBlockHash,
}

/// What the engine is told of the block to build, besides the hashes.
#[derive(Clone, Copy, Debug, PartialEq, Eq)]
pub struct PayloadAttributes {
    pub timestamp: u64,
    pub random: Hash256,
    pub proposer_index: u64,
}

/// The engine is to be asked for the hash of the terminal proof-of-work block.
#[derive(Clone, Copy, Debug, PartialEq, Eq)]
pub struct TerminalBlockLookup {
    pub finalized_root: Hash256,
    pub attributes: PayloadAttributes,
}

/// Fork choice is to be asked for the block with the root `finalized_root`.
#[derive(Clone, Copy, Debug, PartialEq, Eq)]
pub struct FinalizedBlockLookup {
    pub parent_hash: ExecutionBlockHash,
    pub finalized_root: Hash256,
    pub attributes: PayloadAttributes,
}

/// The block store is to be asked for the block with the root
/// `finalized_root`, which fork choice does not track.
#[derive(Clone, Copy, Debug, PartialEq, Eq)]
pub struct FinalizedBlockRead {
    pub parent_hash: ExecutionBlockHash,
    pub finalized_root: Hash256,
    pub attributes: PayloadAttributes,
}

/// The engine is to be asked for a payload on top of `parent_hash`.
#[derive(Clone, Copy, Debug, PartialEq, Eq)]
pub struct PayloadRequest {
    pub parent_hash: ExecutionBlockHash,
    pub timestamp: u64,
    pub random: Hash256,
    /// The execution block of the finalized checkpoint, or the zero hash
    /// where it is not known. The engine takes it as a hint.
    pub finalized_block_hash: ExecutionBlockHash,
    pub proposer_index: u64,
}

/// Where the production of a payload stands.
#[derive(Debug, PartialEq, Eq)]
pub enum PrepareStep {
    /// The work has ended, with a payload or with a failure.
    Done(Result<ExecutionPayload, BlockProductionError>),
    FindTerminalBlock(TerminalBlockLookup),
    FindFinalizedBlock(FinalizedBlockLookup),
    ReadFinalizedBlock(FinalizedBlockRead),
    GetPayload(PayloadRequest),
}

/// The mathematical value of a [`PrepareStep`].
pub enum PrepareStepView {
    Done(Result<PayloadView, BlockProductionError>),
    FindTerminalBlock(TerminalBlockLookup),
    FindFinalizedBlock(FinalizedBlockLookup),
    ReadFinalizedBlock(FinalizedBlockRead),
    GetPayload(PayloadRequest),
}

impl View for PrepareStep {
    type V = PrepareStepView;

    open spec fn view(&self) -> PrepareStepView {
        match *self {
            PrepareStep::Done(Ok(payload)) => PrepareStepView::Done(Ok(payload@)),
            PrepareStep::Done(Err(error)) => PrepareStepView::Done(Err(error)),
            PrepareStep::FindTerminalBlock(lookup) => PrepareStepView::FindTerminalBlock(lookup),
            PrepareStep::FindFinalizedBlock(lookup) => PrepareStepView::FindFinalizedBlock(lookup),
            PrepareStep::ReadFinalizedBlock(read) => PrepareStepView::ReadFinalizedBlock(read),
            PrepareStep::GetPayload(request) => PrepareStepView::GetPayload(request),
        }
    }
}

/// The hash that is given to the engine as the finalized block: the one that
/// was found, or the zero hash.
pub open spec fn finalized_hint(found: Option<ExecutionBlockHash>) -> ExecutionBlockHash {
    match found {
        Some(hash) => hash,
        None => ExecutionBlockHash::spec_zero(),
    }
}

impl PayloadAttributes {
    /// The request for a payload on top of `parent_hash`, once `found` is
    /// known of the finalized block.
    pub open spec fn spec_request(
        self,
        parent_hash: ExecutionBlockHash,
        found: Option<ExecutionBlockHash>,
    ) -> PayloadRequest {
        PayloadRequest {
            parent_hash,
            timestamp: self.timestamp,
            random: self.random,
            finalized_block_hash: finalized_hint(found),
            proposer_index: self.proposer_index,
        }
    }

    /// The request for a payload on top of `parent_hash`, once `found` is
    /// known of the finalized block.
    pub fn request(self, parent_hash: ExecutionBlockHash, found: Option<ExecutionBlockHash>) -> (request:
        PayloadRequest)
        ensures
            request == self.spec_request(parent_hash, found),
    {
        let finalized_block_hash = match found {
            Some(hash) => hash,
            None => ExecutionBlockHash::zero(),
        };
        PayloadRequest {
            parent_hash,
            timestamp: self.timestamp,
            random: self.random,
            finalized_block_hash,
            proposer_index: self.proposer_index,
        }
    }
}

/// The value of an answer of the engine to a request for a payload.
pub open spec fn payload_answer_view(answer: Result<ExecutionPayload, EngineError>) -> Result<
    PayloadView,
    EngineError,
> {
    match answer {
        Ok(payload) => Ok(payload@),
        Err(error) => Err(error),
    }
}

/// What `get_execution_payload` returns.
pub open spec fn preparation_of(
    chain: &BeaconChain,
    state: &BeaconState,
    finalized_checkpoint: Checkpoint,
    proposer_index: u64,
) -> Result<PayloadPreparation, BlockProductionError> {
    match state.timestamp_at_slot(&chain.spec) {
        None => Err(BlockProductionError::BeaconStateError(BeaconStateError::ArithError(ArithError::Overflow))),
        Some(timestamp) => match state.latest_execution_payload_header {
            None => Err(BlockProductionError::BeaconStateError(BeaconStateError::IncorrectStateVariant)),
            Some(header) => Ok(
                PayloadPreparation {
                    current_epoch: state.slot.spec_epoch(chain.spec.slots_per_epoch),
                    is_merge_transition_complete: state.merge_transition_complete(),
                    timestamp,
                    random: state.randao_mix,
                    finalized_checkpoint,
                    proposer_index,
                    latest_execution_payload_header_block_hash: header.block_hash,
                },
            ),
        },
    }
}

/// The first step of `prepare_execution_payload`.
pub open spec fn prepare_start(
    chain: &BeaconChain,
    current_epoch: Epoch,
    is_merge_transition_complete: bool,
    timestamp: u64,
    random: Hash256,
    finalized_checkpoint: Checkpoint,
    proposer_index: u64,
    latest_execution_payload_header_block_hash: ExecutionBlockHash,
) -> PrepareStepView {
    let attributes = PayloadAttributes { timestamp, random, proposer_index };
    if !chain.has_execution_layer {
        PrepareStepView::Done(Err(BlockProductionError::ExecutionLayerMissing))
    } else if is_merge_transition_complete {
        PrepareStepView::FindFinalizedBlock(
            FinalizedBlockLookup {
                parent_hash: latest_execution_payload_header_block_hash,
                finalized_root: finalized_checkpoint.root,
                attributes,
            },
        )
    } else if chain.spec.terminal_block_hash_is_set() && current_epoch.0
        < chain.spec.terminal_block_hash_activation_epoch.0 {
        PrepareStepView::Done(Ok(PayloadView::empty()))
    } else {
        PrepareStepView::FindTerminalBlock(
            TerminalBlockLookup { finalized_root: finalized_checkpoint.root, attributes },
        )
    }
}

impl TerminalBlockLookup {
    /// The step that follows the engine's answer. Before the terminal block
    /// is found there is nothing to build on, and the payload is the default
    /// one.
    pub open spec fn spec_answered(
        self,
        answer: Result<Option<ExecutionBlockHash>, EngineError>,
    ) -> PrepareStepView {
        match answer {
            Err(error) => PrepareStepView::Done(
                Err(BlockProductionError::TerminalPoWBlockLookupFailed(error)),
            ),
            Ok(None) => PrepareStepView::Done(Ok(PayloadView::empty())),
            Ok(Some(terminal_hash)) => PrepareStepView::FindFinalizedBlock(
                FinalizedBlockLookup {
                    parent_hash: terminal_hash,
                    finalized_root: self.finalized_root,
                    attributes: self.attributes,
                },
            ),
        }
    }

    /// Takes the engine's answer on the terminal proof-of-work block.
    pub fn answered(self, answer: Result<Option<ExecutionBlockHash>, EngineError>) -> (step:
        PrepareStep)
        ensures
            step@ == self.spec_answered(answer),
    {
        match answer {
            Err(error) => PrepareStep::Done(
                Err(BlockProductionError::TerminalPoWBlockLookupFailed(error)),
            ),
            Ok(None) => PrepareStep::Done(Ok(ExecutionPayload::default())),
            Ok(Some(terminal_hash)) => PrepareStep::FindFinalizedBlock(
                FinalizedBlockLookup {
                    parent_hash: terminal_hash,
                    finalized_root: self.finalized_root,
                    attributes: self.attributes,
                },
            ),
        }
    }
}

impl FinalizedBlockLookup {
    /// The step that follows the answer of fork choice: where it tracks the
    /// block, the block's execution hash is the hint; where it does not, the
    /// block store is asked.
    pub open spec fn spec_answered(
        self,
        answer: Result<Option<ProtoBlock>, BeaconChainError>,
    ) -> PrepareStepView {
        match answer {
            Err(error) => PrepareStepView::Done(Err(BlockProductionError::BeaconChain(error))),
            Ok(Some(block)) => PrepareStepView::GetPayload(
                self.attributes.spec_request(
                    self.parent_hash,
                    block.execution_status.spec_block_hash(),
                ),
            ),
            Ok(None) => PrepareStepView::ReadFinalizedBlock(
                FinalizedBlockRead {
                    parent_hash: self.parent_hash,
                    finalized_root: self.finalized_root,
                    attributes: self.attributes,
                },
            ),
        }
    }

    /// Takes the answer of fork choice on the finalized block.
    pub fn answered(self, answer: Result<Option<ProtoBlock>, BeaconChainError>) -> (step:
        PrepareStep)
        ensures
            step@ == self.spec_answered(answer),
    {
        match answer {
            Err(error) => PrepareStep::Done(Err(BlockProductionError::BeaconChain(error))),
            Ok(Some(block)) => PrepareStep::GetPayload(
                self.attributes.request(self.parent_hash, block.execution_status.block_hash()),
            ),
            Ok(None) => PrepareStep::ReadFinalizedBlock(
                FinalizedBlockRead {
                    parent_hash: self.parent_hash,
                    finalized_root: self.finalized_root,
                    attributes: self.attributes,
                },
            ),
        }
    }
}

impl FinalizedBlockRead {
    /// The execution block that a stored block names: the block hash of its
    /// payload, where it carries one.
    pub open spec fn stored_block_hash(block: BeaconBlock) -> Option<ExecutionBlockHash> {
        match block.execution_payload {
            Some(payload) => Some(payload.block_hash),
            None => None,
        }
    }

    /// The step that follows the answer of the block store. A finalized
    /// block that is nowhere to be found ends the work.
    pub open spec fn spec_answered(
        self,
        answer: Result<Option<BeaconBlock>, StoreError>,
    ) -> PrepareStepView {
        match answer {
            Err(error) => PrepareStepView::Done(
                Err(BlockProductionError::FailedToReadFinalizedBlock(error)),
            ),
            Ok(None) => PrepareStepView::Done(
                Err(BlockProductionError::MissingFinalizedBlock(self.finalized_root)),
            ),
            Ok(Some(block)) => PrepareStepView::GetPayload(
                self.attributes.spec_request(self.parent_hash, Self::stored_block_hash(block)),
            ),
        }
    }

    /// Takes the answer of the block store on the finalized block.
    pub fn answered(self, answer: Result<Option<BeaconBlock>, StoreError>) -> (step: PrepareStep)
        ensures
            step@ == self.spec_answered(answer),
    {
        match answer {
            Err(error) => PrepareStep::Done(
                Err(BlockProductionError::FailedToReadFinalizedBlock(error)),
            ),
            Ok(None) => PrepareStep::Done(
                Err(BlockProductionError::MissingFinalizedBlock(self.finalized_root)),
            ),
            Ok(Some(block)) => {
                let found = match &block.execution_payload {
                    Some(payload) => Some(payload.block_hash()),
                    None => None,
                };
                PrepareStep::GetPayload(self.attributes.request(self.parent_hash, found))
            },
        }
    }
}

impl PayloadRequest {
    /// The end of the work: the payload that the engine built, or its
    /// failure.
    pub open spec fn spec_answered(self, answer: Result<PayloadView, EngineError>) -> PrepareStepView {
        match answer {
            Ok(payload) => PrepareStepView::Done(Ok(payload)),
            Err(error) => PrepareStepView::Done(Err(BlockProductionError::GetPayloadFailed(error))),
        }
    }

    /// Takes the engine's answer to the request for a payload.
    pub fn answered(self, answer: Result<ExecutionPayload, EngineError>) -> (step: PrepareStep)
        ensures
            step@ == self.spec_answered(payload_answer_view(answer)),
    {
        match answer {
            Ok(payload) => PrepareStep::Done(Ok(payload)),
            Err(error) => PrepareStep::Done(Err(BlockProductionError::GetPayloadFailed(error))),
        }
    }
}

/// A question that the production of a payload puts to a collaborator.
pub enum BuilderCall {
    /// To the engine: the hash of the terminal proof-of-work block.
    GetTerminalPowBlockHash,
    /// To fork choice: the tracked block with this root.
    ForkChoiceGetBlock(Hash256),
    /// To the block store: the block with this root.
    StoreGetBlindedBlock(Hash256),
    /// To the engine: a payload.
    GetPayload(PayloadRequest),
}

/// What each collaborator answers when it is asked.
pub struct BuilderAnswers {
    pub terminal_block: Result<Option<ExecutionBlockHash>, EngineError>,
    pub fork_choice_block: Result<Option<ProtoBlock>, BeaconChainError>,
    pub stored_block: Result<Option<BeaconBlock>, StoreError>,
    pub payload: Result<PayloadView, EngineError>,
}

/// A whole production of a payload: the questions in the order in which they
/// were put, and the outcome.
pub struct BuilderRun {
    pub calls: Seq<BuilderCall>,
    pub result: Result<PayloadView, BlockProductionError>,
}

impl BuilderRun {
    /// This run, with `call` put before it.
    pub open spec fn after(self, call: BuilderCall) -> BuilderRun {
        BuilderRun { calls: seq![call] + self.calls, result: self.result }
    }

    /// Whether the engine was asked for a payload in this run.
    pub open spec fn requests_payload(self) -> bool {
        exists|i: int| 0 <= i < self.calls.len() && #[trigger] self.calls[i] is GetPayload
    }
}

impl PrepareStepView {
    /// The number of questions that can still follow this step.
    pub open spec fn rank(self) -> nat {
        match self {
            PrepareStepView::Done(_) => 0,
            PrepareStepView::GetPayload(_) => 1,
            PrepareStepView::ReadFinalizedBlock(_) => 2,
            PrepareStepView::FindFinalizedBlock(_) => 3,
            PrepareStepView::FindTerminalBlock(_) => 4,
        }
    }

    /// The run that a caller makes from this step on, when it puts each
    /// question that a step names and hands the answer to that step, until
    /// a step ends the work.
    pub open spec fn run(self, answers: BuilderAnswers) -> BuilderRun
        decreases self.rank(),
    {
        match self {
            PrepareStepView::Done(result) => BuilderRun { calls: Seq::empty(), result },
            PrepareStepView::FindTerminalBlock(lookup) => lookup.spec_answered(
                answers.terminal_block,
            ).run(answers).after(BuilderCall::GetTerminalPowBlockHash),
            PrepareStepView::FindFinalizedBlock(lookup) => lookup.spec_answered(
                answers.fork_choice_block,
            ).run(answers).after(BuilderCall::ForkChoiceGetBlock(lookup.finalized_root)),
            PrepareStepView::ReadFinalizedBlock(read) => read.spec_answered(
                answers.stored_block,
            ).run(answers).after(BuilderCall::StoreGetBlindedBlock(read.finalized_root)),
            PrepareStepView::GetPayload(request) => request.spec_answered(answers.payload).run(
                answers,
            ).after(BuilderCall::GetPayload(request)),
        }
    }
}

/// Before the merge, while a configured terminal block hash is not yet in
/// force, the payload is the default one and no collaborator is asked
/// anything: in particular the engine is not asked for a payload.
pub proof fn lemma_default_payload_before_activation_epoch(
    chain: &BeaconChain,
    current_epoch: Epoch,
    timestamp: u64,
    random: Hash256,
    finalized_checkpoint: Checkpoint,
    proposer_index: u64,
    latest_execution_payload_header_block_hash: ExecutionBlockHash,
    answers: BuilderAnswers,
)
    requires
        chain.has_execution_layer,
        chain.spec.terminal_block_hash_is_set(),
        current_epoch.0 < chain.spec.terminal_block_hash_activation_epoch.0,
    ensures
        ({
            let run = prepare_start(
                chain,
                current_epoch,
                false,
                timestamp,
                random,
                finalized_checkpoint,
                proposer_index,
                latest_execution_payload_header_block_hash,
            ).run(answers);
            &&& run.result == Ok::<PayloadView, BlockProductionError>(PayloadView::empty())
            &&& run.calls == Seq::<BuilderCall>::empty()
            &&& !run.requests_payload()
        }),
{
}

/// Before the merge, where the engine is asked for the terminal block and has
/// not found it yet, the payload is the default one, and that question is
/// the only one put: the engine is not asked for a payload.
pub proof fn lemma_default_payload_without_terminal_block(
    chain: &BeaconChain,
    current_epoch: Epoch,
    timestamp: u64,
    random: Hash256,
    finalized_checkpoint: Checkpoint,
    proposer_index: u64,
    latest_execution_payload_header_block_hash: ExecutionBlockHash,
    answers: BuilderAnswers,
)
    requires
        chain.has_execution_layer,
        !(chain.spec.terminal_block_hash_is_set() && current_epoch.0
            < chain.spec.terminal_block_hash_activation_epoch.0),
        answers.terminal_block == Ok::<Option<ExecutionBlockHash>, EngineError>(None),
    ensures
        ({
            let run = prepare_start(
                chain,
                current_epoch,
                false,
                timestamp,
                random,
                finalized_checkpoint,
                proposer_index,
                latest_execution_payload_header_block_hash,
            ).run(answers);
            &&& run.result == Ok::<PayloadView, BlockProductionError>(PayloadView::empty())
            &&& run.calls == seq![BuilderCall::GetTerminalPowBlockHash]
            &&& !run.requests_payload()
        }),
{
    reveal_with_fuel(PrepareStepView::run, 2);
}

/// The engine is asked for a payload at most once, as the last question of a
/// run, and what it answers is the outcome of the run. The payload is
/// requested on top of the latest applied payload after the merge, and on top
/// of the terminal block that the engine found before it. The finalized
/// block that the request names is the execution block of the finalized
/// checkpoint as fork choice tracks it, or else as the block store holds it,
/// and the zero hash where neither names one.
pub proof fn lemma_payload_request_ends_the_run(
    chain: &BeaconChain,
    current_epoch: Epoch,
    is_merge_transition_complete: bool,
    timestamp: u64,
    random: Hash256,
    finalized_checkpoint: Checkpoint,
    proposer_index: u64,
    latest_execution_payload_header_block_hash: ExecutionBlockHash,
    answers: BuilderAnswers,
)
    ensures
        ({
            let run = prepare_start(
                chain,
                current_epoch,
                is_merge_transition_complete,
                timestamp,
                random,
                finalized_checkpoint,
                proposer_index,
                latest_execution_payload_header_block_hash,
            ).run(answers);
            &&& forall|i: int|
                0 <= i < run.calls.len() && #[trigger] run.calls[i] is GetPayload ==> {
                    let request = run.calls[i]->GetPayload_0;
                    &&& i == run.calls.len() - 1
                    &&& run.result == PayloadRequest::spec_answered(request, answers.payload)->Done_0
                    &&& request.timestamp == timestamp
                    &&& request.random == random
                    &&& request.proposer_index == proposer_index
                    &&& request.parent_hash == if is_merge_transition_complete {
                        latest_execution_payload_header_block_hash
                    } else {
                        answers.terminal_block->Ok_0->Some_0
                    }
                    &&& request.finalized_block_hash == match answers.fork_choice_block {
                        Ok(Some(found)) => finalized_hint(
                            found.execution_status.spec_block_hash(),
                        ),
                        _ => finalized_hint(
                            FinalizedBlockRead::stored_block_hash(
                                answers.stored_block->Ok_0->Some_0,
                            ),
                        ),
                    }
                }
        }),
{
    reveal_with_fuel(PrepareStepView::run, 5);
}

/// Starts the production of a payload from values that were taken from the
/// state beforehand.
///
/// Without an engine nothing can be produced. After the merge the payload
/// builds on the payload that was applied last. Before it, the payload builds
/// on the terminal block, which the engine has to find; as long as a
/// configured terminal block hash is not yet in force, the payload is the
/// default one and the engine is not asked.
pub fn prepare_execution_payload(
    chain: &BeaconChain,
    current_epoch: Epoch,
    is_merge_transition_complete: bool,
    timestamp: u64,
    random: Hash256,
    finalized_checkpoint: Checkpoint,
    proposer_index: u64,
    latest_execution_payload_header_block_hash: ExecutionBlockHash,
) -> (step: PrepareStep)
    ensures
        step@ == prepare_start(
            chain,
            current_epoch,
            is_merge_transition_complete,
            timestamp,
            random,
            finalized_checkpoint,
            proposer_index,
            latest_execution_payload_header_block_hash,
        ),
{
    if !chain.has_execution_layer {
        return PrepareStep::Done(Err(BlockProductionError::ExecutionLayerMissing));
    }
    let attributes = PayloadAttributes { timestamp, random, proposer_index };
    let parent_hash = if !is_merge_transition_complete {
        let is_terminal_block_hash_set = chain.spec.terminal_block_hash
            != ExecutionBlockHash::zero();
        let is_activation_epoch_reached = current_epoch.0
            >= chain.spec.terminal_block_hash_activation_epoch.0;
        if is_terminal_block_hash_set && !is_activation_epoch_reached {
            return PrepareStep::Done(Ok(ExecutionPayload::default()));
        }
        return PrepareStep::FindTerminalBlock(
            TerminalBlockLookup { finalized_root: finalized_checkpoint.root, attributes },
        );
    } else {
        latest_execution_payload_header_block_hash
    };
    PrepareStep::FindFinalizedBlock(
        FinalizedBlockLookup { parent_hash, finalized_root: finalized_checkpoint.root, attributes },
    )
}

impl PayloadPreparation {
    /// Starts the production of a payload from these values.
    pub fn start(self, chain: &BeaconChain) -> (step: PrepareStep)
        ensures
            step@ == prepare_start(
                chain,
                self.current_epoch,
                self.is_merge_transition_complete,
                self.timestamp,
                self.random,
                self.finalized_checkpoint,
                self.proposer_index,
                self.latest_execution_payload_header_block_hash,
            ),
    {
        prepare_execution_payload(
            chain,
            self.current_epoch,
            self.is_merge_transition_complete,
            self.timestamp,
            self.random,
            self.finalized_checkpoint,
            self.proposer_index,
            self.latest_execution_payload_header_block_hash,
        )
    }
}

/// Takes from `state` all that the production of a payload needs: the current
/// epoch, whether the merge is complete, the timestamp of the slot, the randao
/// mix and the block hash of the latest payload header.
///
/// Fails where the timestamp cannot be computed, and on a state of a fork
/// that knows no payloads.
pub fn get_execution_payload(
    chain: &BeaconChain,
    state: &BeaconState,
    finalized_checkpoint: Checkpoint,
    proposer_index: u64,
) -> (preparation: Result<PayloadPreparation, BlockProductionError>)
    requires
        chain.spec.slots_per_epoch > 0,
    ensures
        preparation == preparation_of(chain, state, finalized_checkpoint, proposer_index),
{
    let current_epoch = state.current_epoch(&chain.spec);
    let is_merge_transition_complete = is_merge_transition_complete(state);
    let timestamp = match compute_timestamp_at_slot(state, &chain.spec) {
        Ok(timestamp) => timestamp,
        Err(error) => {
            return Err(BlockProductionError::BeaconStateError(BeaconStateError::ArithError(error)));
        },
    };
    let random = state.randao_mix;
    let latest_execution_payload_header_block_hash = match &state.latest_execution_payload_header {
        Some(header) => header.block_hash,
        None => {
            return Err(
                BlockProductionError::BeaconStateError(BeaconStateError::IncorrectStateVariant),
            );
        },
    };
    Ok(
        PayloadPreparation {
            current_epoch,
            is_merge_transition_complete,
            timestamp,
            random,
            finalized_checkpoint,
            proposer_index,
            latest_execution_payload_header_block_hash,
        },
    )
}

/// What the caller reports after it tried to start the work as a task of its
/// own: the handle of the task, or, where the executor took no task because
/// it is shutting down, the failure to report.
pub fn task_handle_or_shutting_down<H>(handle: Option<H>) -> (started: Result<
    H,
    BlockProductionError,
>)
    ensures
        started == match handle {
            Some(task) => Ok::<H, BlockProductionError>(task),
            None => Err(BlockProductionError::ShuttingDown),
        },
{
    match handle {
        Some(task) => Ok(task),
        None => Err(BlockProductionError::ShuttingDown),
    }
}

} // verus!
