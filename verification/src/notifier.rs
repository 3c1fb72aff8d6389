//! Verification of the payload of a block that is being imported.
//!
//! The verdict on a payload is the engine's, and an invalid payload has
//! consequences for fork choice. Neither can be reached from here, so the
//! work is cut at each call: a step either ends the work or names what is to
//! be done, and the outcome leads to the next step. The caller submits the
//! payload and applies the invalidation; which of them is due, with what, and
//! what follows from the outcome is decided here.

use crate::chain::{is_execution_enabled, BeaconBlock, BeaconChain, BeaconState};
use crate::errors::{
    BeaconChainError, BeaconStateError, BlockError, BlockProcessingError, EngineError,
    ExecutionPayloadError,
};
use crate::hash::{ExecutionBlockHash, Hash256};
use crate::merge_block::payload_missing;
use crate::payload::ExecutionPayload;
use crate::status::{InvalidationOperation, PayloadStatus, PayloadVerificationStatus};
use vstd::prelude::*;

verus! {

/// A payload is to be submitted to the engine. `parent_root` is the root of
/// the parent of the block that carries it.
#[derive(Debug, PartialEq, Eq)]
pub struct PayloadSubmission {
    pub parent_root: Hash256,
    pub payload: ExecutionPayload,
}

/// An invalidation is to be applied to fork choice, after the engine has
/// answered `status`.
#[derive(Clone, Copy, Debug, PartialEq, Eq)]
pub struct PendingInvalidation {
    pub operation: InvalidationOperation,
    pub status: PayloadStatus,
}

/// Where the verification of a payload stands.
#[derive(Debug, PartialEq, Eq)]
pub enum VerificationStep {
    /// The work has ended, with a verdict or with a failure.
    Done(Result<PayloadVerificationStatus, BlockError>),
    SubmitPayload(PayloadSubmission),
    Invalidate(PendingInvalidation),
}

/// The failure that reports that the engine rejected the payload.
pub open spec fn rejected(status: PayloadStatus) -> BlockError {
    BlockError::ExecutionPayloadError(ExecutionPayloadError::RejectedByExecutionEngine { status })
}

/// The first step of the round trip to the engine for `block`.
pub open spec fn verification_start(chain: &BeaconChain, block: BeaconBlock) -> VerificationStep {
    match block.execution_payload {
        None => VerificationStep::Done(Err(payload_missing())),
        Some(payload) => if !chain.has_execution_layer {
            VerificationStep::Done(
                Err(BlockError::ExecutionPayloadError(ExecutionPayloadError::NoExecutionConnection)),
            )
        } else {
            VerificationStep::SubmitPayload(
                PayloadSubmission { parent_root: block.parent_root, payload },
            )
        },
    }
}

impl PayloadSubmission {
    /// The invalidation that follows where the engine names
    /// `latest_valid_hash` as the last valid ancestor. The block itself was
    /// never handed to fork choice, so the segment to invalidate ends at its
    /// parent, and the parent is invalidated only where it descends from
    /// that ancestor.
    pub open spec fn invalidation(self, latest_valid_hash: ExecutionBlockHash) -> InvalidationOperation {
        InvalidationOperation::InvalidateMany {
            head_block_root: self.parent_root,
            always_invalidate_head: false,
            latest_valid_ancestor: latest_valid_hash,
        }
    }

    /// The step that follows the engine's response.
    ///
    /// A valid payload is verified. While the engine is syncing, or has
    /// accepted the payload without judging it, the verdict is optimistic.
    /// A payload that is invalid with a latest valid hash leads to an
    /// invalidation. A bad block hash or a bad terminal block implicates
    /// nothing but the block: it is rejected and fork choice is left alone.
    pub open spec fn spec_answered(self, response: Result<PayloadStatus, EngineError>) -> VerificationStep {
        match response {
            Err(error) => VerificationStep::Done(
                Err(BlockError::ExecutionPayloadError(ExecutionPayloadError::RequestFailed(error))),
            ),
            Ok(PayloadStatus::Valid) => VerificationStep::Done(
                Ok(PayloadVerificationStatus::Verified),
            ),
            Ok(PayloadStatus::Syncing) => VerificationStep::Done(
                Ok(PayloadVerificationStatus::Optimistic),
            ),
            Ok(PayloadStatus::Accepted) => VerificationStep::Done(
                Ok(PayloadVerificationStatus::Optimistic),
            ),
            Ok(PayloadStatus::Invalid { latest_valid_hash }) => VerificationStep::Invalidate(
                PendingInvalidation {
                    operation: self.invalidation(latest_valid_hash),
                    status: PayloadStatus::Invalid { latest_valid_hash },
                },
            ),
            Ok(PayloadStatus::InvalidBlockHash) => VerificationStep::Done(
                Err(rejected(PayloadStatus::InvalidBlockHash)),
            ),
            Ok(PayloadStatus::InvalidTerminalBlock) => VerificationStep::Done(
                Err(rejected(PayloadStatus::InvalidTerminalBlock)),
            ),
        }
    }

    /// Takes the engine's response to the payload.
    pub fn answered(self, response: Result<PayloadStatus, EngineError>) -> (step: VerificationStep)
        ensures
            step == self.spec_answered(response),
    {
        match response {
            Ok(status) => match status {
                PayloadStatus::Valid => VerificationStep::Done(
                    Ok(PayloadVerificationStatus::Verified),
                ),
                PayloadStatus::Syncing | PayloadStatus::Accepted => VerificationStep::Done(
                    Ok(PayloadVerificationStatus::Optimistic),
                ),
                PayloadStatus::Invalid { latest_valid_hash } => {
                    let latest_root = self.parent_root;
                    VerificationStep::Invalidate(
                        PendingInvalidation {
                            operation: InvalidationOperation::InvalidateMany {
                                head_block_root: latest_root,
                                always_invalidate_head: false,
                                latest_valid_ancestor: latest_valid_hash,
                            },
                            status,
                        },
                    )
                },
                PayloadStatus::InvalidTerminalBlock | PayloadStatus::InvalidBlockHash => {
                    VerificationStep::Done(
                        Err(
                            BlockError::ExecutionPayloadError(
                                ExecutionPayloadError::RejectedByExecutionEngine { status },
                            ),
                        ),
                    )
                },
            },
            Err(error) => VerificationStep::Done(
                Err(BlockError::ExecutionPayloadError(ExecutionPayloadError::RequestFailed(error))),
            ),
        }
    }
}

impl PendingInvalidation {
    /// The end of the work. The rejection is reported only now that fork
    /// choice has been dealt with; where fork choice failed, its failure is
    /// reported in place of the rejection.
    pub open spec fn spec_answered(self, outcome: Result<(), BeaconChainError>) -> VerificationStep {
        match outcome {
            Ok(()) => VerificationStep::Done(Err(rejected(self.status))),
            Err(error) => VerificationStep::Done(Err(BlockError::BeaconChainError(error))),
        }
    }

    /// Takes the outcome of the invalidation in fork choice.
    pub fn answered(self, outcome: Result<(), BeaconChainError>) -> (step: VerificationStep)
        ensures
            step == self.spec_answered(outcome),
    {
        match outcome {
            Ok(()) => VerificationStep::Done(
                Err(
                    BlockError::ExecutionPayloadError(
                        ExecutionPayloadError::RejectedByExecutionEngine { status: self.status },
                    ),
                ),
            ),
            Err(error) => VerificationStep::Done(Err(BlockError::BeaconChainError(error))),
        }
    }
}

/// Starts the round trip to the engine for the payload of `block`.
///
/// The block has to carry a payload and an engine has to be configured; then
/// the payload is to be submitted.
pub fn notify_new_payload(chain: &BeaconChain, block: BeaconBlock) -> (step: VerificationStep)
    ensures
        step == verification_start(chain, block),
{
    let parent_root = block.parent_root;
    let execution_payload = match block.execution_payload {
        Some(payload) => payload,
        None => {
            return VerificationStep::Done(
                Err(
                    BlockError::BeaconChainError(
                        BeaconChainError::BeaconStateError(BeaconStateError::IncorrectStateVariant),
                    ),
                ),
            );
        },
    };
    if !chain.has_execution_layer {
        return VerificationStep::Done(
            Err(BlockError::ExecutionPayloadError(ExecutionPayloadError::NoExecutionConnection)),
        );
    }
    VerificationStep::SubmitPayload(PayloadSubmission { parent_root, payload: execution_payload })
}

/// A block whose payload awaits its verdict. Where execution is not enabled
/// for the block the verdict is known from the start; else it is the
/// engine's, and is sought only when the notifier is used. Using it consumes
/// it, so that no payload is submitted twice.
#[derive(Debug, PartialEq, Eq)]
pub struct PayloadNotifier {
    pub chain: BeaconChain,
    pub block: BeaconBlock,
    payload_verification_status: Option<PayloadVerificationStatus>,
}

impl PayloadNotifier {
    /// The chain that the notifier was made for.
    pub closed spec fn spec_chain(&self) -> BeaconChain {
        self.chain
    }

    /// The block whose payload awaits its verdict.
    pub closed spec fn spec_block(&self) -> BeaconBlock {
        self.block
    }

    /// The verdict that was known when the notifier was made, if any.
    pub closed spec fn precomputed_status(&self) -> Option<PayloadVerificationStatus> {
        self.payload_verification_status
    }

    /// The payload on which the local checks are due before a notifier is
    /// made: that of `block`, where execution is enabled for it on `state`.
    pub open spec fn payload_to_check(state: &BeaconState, block: &BeaconBlock) -> Option<
        ExecutionPayload,
    > {
        if state.execution_enabled(block) {
            block.execution_payload
        } else {
            None
        }
    }

    /// The payload on which the local checks are due, if they are due.
    pub fn payload_for_local_checks<'a>(state: &BeaconState, block: &'a BeaconBlock) -> (due:
        Option<&'a ExecutionPayload>)
        ensures
            match due {
                Some(payload) => Self::payload_to_check(state, block) == Some(*payload),
                None => Self::payload_to_check(state, block) is None,
            },
    {
        if is_execution_enabled(state, block) {
            block.execution_payload.as_ref()
        } else {
            None
        }
    }

    /// Whether `made` is what `new` returns for these arguments.
    ///
    /// Where execution is not enabled for the block on the state, the
    /// notifier holds the verdict `Irrelevant` and the local checks are not
    /// looked at. Where it is enabled, the block has to carry a payload and
    /// the local checks have to have passed; the notifier then holds no
    /// verdict.
    pub open spec fn is_made_from(
        made: Result<PayloadNotifier, BlockError>,
        chain: BeaconChain,
        block: BeaconBlock,
        state: &BeaconState,
        local_checks: Result<(), BlockProcessingError>,
    ) -> bool {
        if !state.execution_enabled(&block) {
            &&& made matches Ok(notifier)
            &&& notifier.spec_chain() == chain
            &&& notifier.spec_block() == block
            &&& notifier.precomputed_status() == Some(PayloadVerificationStatus::Irrelevant)
        } else {
            match (block.execution_payload, local_checks) {
                (None, _) => made == Err::<PayloadNotifier, BlockError>(payload_missing()),
                (Some(_), Err(violation)) => made == Err::<PayloadNotifier, BlockError>(
                    BlockError::PerBlockProcessingError(violation),
                ),
                (Some(_), Ok(())) => {
                    &&& made matches Ok(notifier)
                    &&& notifier.spec_chain() == chain
                    &&& notifier.spec_block() == block
                    &&& notifier.precomputed_status() is None
                },
            }
        }
    }

    /// Prepares the verification of the payload of `block`, which is to be
    /// applied to `state`.
    ///
    /// `local_checks` is the outcome of the checks that need no engine, made
    /// on the payload against `state`. It is read only where those checks
    /// are due. A violation refuses the block before the engine is troubled
    /// with it.
    pub fn new(
        chain: BeaconChain,
        block: BeaconBlock,
        state: &BeaconState,
        local_checks: Result<(), BlockProcessingError>,
    ) -> (made: Result<PayloadNotifier, BlockError>)
        ensures
            PayloadNotifier::is_made_from(made, chain, block, state, local_checks),
    {
        let payload_verification_status = if is_execution_enabled(state, &block) {
            if block.execution_payload.is_none() {
                return Err(
                    BlockError::BeaconChainError(
                        BeaconChainError::BeaconStateError(BeaconStateError::IncorrectStateVariant),
                    ),
                );
            }
            match local_checks {
                Ok(()) => {},
                Err(violation) => {
                    return Err(BlockError::PerBlockProcessingError(violation));
                },
            }
            None
        } else {
            Some(PayloadVerificationStatus::Irrelevant)
        };
        Ok(PayloadNotifier { chain, block, payload_verification_status })
    }

    /// The chain that the notifier was made for.
    pub fn chain(&self) -> (chain: &BeaconChain)
        ensures
            *chain == self.spec_chain(),
    {
        &self.chain
    }

    /// The block whose payload awaits its verdict.
    pub fn block(&self) -> (block: &BeaconBlock)
        ensures
            *block == self.spec_block(),
    {
        &self.block
    }

    /// The first step of `notify_new_payload`.
    pub open spec fn spec_notify_new_payload(self) -> VerificationStep {
        match self.precomputed_status() {
            Some(status) => VerificationStep::Done(Ok(status)),
            None => verification_start(&self.spec_chain(), self.spec_block()),
        }
    }

    /// Seeks the verdict on the payload. A verdict that was known from the
    /// start is given at once; else the round trip to the engine starts.
    pub fn notify_new_payload(self) -> (step: VerificationStep)
        ensures
            step == self.spec_notify_new_payload(),
    {
        if let Some(precomputed_status) = self.payload_verification_status {
            VerificationStep::Done(Ok(precomputed_status))
        } else {
            notify_new_payload(&self.chain, self.block)
        }
    }
}

/// Something that the verification of a payload has a collaborator do.
pub enum VerifierCall {
    /// The engine is handed this payload.
    NewPayload(ExecutionPayload),
    /// Fork choice is handed this invalidation.
    Invalidate(InvalidationOperation),
}

/// What each collaborator answers when it is called.
pub struct VerifierAnswers {
    pub engine: Result<PayloadStatus, EngineError>,
    pub fork_choice: Result<(), BeaconChainError>,
}

/// A whole verification of a payload: the calls in the order in which they
/// were made, and the outcome, which the caller sees after the last call.
pub struct VerificationRun {
    pub calls: Seq<VerifierCall>,
    pub result: Result<PayloadVerificationStatus, BlockError>,
}

impl VerificationRun {
    /// This run, with `call` made before it.
    pub open spec fn after(self, call: VerifierCall) -> VerificationRun {
        VerificationRun { calls: seq![call] + self.calls, result: self.result }
    }

    /// The invalidations that fork choice was handed in this run, in order.
    pub open spec fn invalidations(self) -> Seq<InvalidationOperation> {
        invalidations_among(self.calls)
    }
}

/// The invalidations among `calls`, in order.
pub open spec fn invalidations_among(calls: Seq<VerifierCall>) -> Seq<InvalidationOperation>
    decreases calls.len(),
{
    if calls.len() == 0 {
        Seq::empty()
    } else {
        match calls.last() {
            VerifierCall::Invalidate(operation) => invalidations_among(calls.drop_last()).push(
                operation,
            ),
            VerifierCall::NewPayload(_) => invalidations_among(calls.drop_last()),
        }
    }
}

impl VerificationStep {
    /// The number of calls that can still follow this step.
    pub open spec fn rank(self) -> nat {
        match self {
            VerificationStep::Done(_) => 0,
            VerificationStep::Invalidate(_) => 1,
            VerificationStep::SubmitPayload(_) => 2,
        }
    }

    /// The run that a caller makes from this step on, when it makes each
    /// call that a step names and hands the outcome to that step, until a
    /// step ends the work.
    pub open spec fn run(self, answers: VerifierAnswers) -> VerificationRun
        decreases self.rank(),
    {
        match self {
            VerificationStep::Done(result) => VerificationRun { calls: Seq::empty(), result },
            VerificationStep::SubmitPayload(submission) => submission.spec_answered(
                answers.engine,
            ).run(answers).after(VerifierCall::NewPayload(submission.payload)),
            VerificationStep::Invalidate(pending) => pending.spec_answered(answers.fork_choice).run(
                answers,
            ).after(VerifierCall::Invalidate(pending.operation)),
        }
    }
}

/// What fork choice has been handed in all once the verification from `step`
/// on has run `runs` times over against the same answers, when it had been
/// handed `received` before.
pub open spec fn fork_choice_after_runs(
    step: VerificationStep,
    answers: VerifierAnswers,
    received: Seq<InvalidationOperation>,
    runs: nat,
) -> Seq<InvalidationOperation>
    decreases runs,
{
    if runs == 0 {
        received
    } else {
        fork_choice_after_runs(
            step,
            answers,
            received + step.run(answers).invalidations(),
            (runs - 1) as nat,
        )
    }
}

/// Where execution is not enabled for a block, a notifier is always made for
/// it, and using the notifier gives `Irrelevant` without a single call: the
/// engine is not asked and fork choice is not touched.
pub proof fn lemma_execution_disabled_is_irrelevant(
    made: Result<PayloadNotifier, BlockError>,
    chain: BeaconChain,
    block: BeaconBlock,
    state: &BeaconState,
    local_checks: Result<(), BlockProcessingError>,
    answers: VerifierAnswers,
)
    requires
        PayloadNotifier::is_made_from(made, chain, block, state, local_checks),
        !state.execution_enabled(&block),
    ensures
        made is Ok,
        made->Ok_0.spec_notify_new_payload().run(answers) == (VerificationRun {
            calls: Seq::empty(),
            result: Ok(PayloadVerificationStatus::Irrelevant),
        }),
{
}

/// `Irrelevant` is the verdict exactly where execution is not enabled: a
/// notifier that was made for a block for which execution is enabled never
/// gives it, whatever the collaborators answer.
pub proof fn lemma_irrelevant_only_where_execution_is_disabled(
    made: Result<PayloadNotifier, BlockError>,
    chain: BeaconChain,
    block: BeaconBlock,
    state: &BeaconState,
    local_checks: Result<(), BlockProcessingError>,
    answers: VerifierAnswers,
)
    requires
        PayloadNotifier::is_made_from(made, chain, block, state, local_checks),
        made is Ok,
    ensures
        made->Ok_0.spec_notify_new_payload().run(answers).result == Ok::<
            PayloadVerificationStatus,
            BlockError,
        >(PayloadVerificationStatus::Irrelevant) <==> !state.execution_enabled(&block),
{
    reveal_with_fuel(VerificationStep::run, 3);
}

/// Where the engine is syncing or has accepted the payload without judging
/// it, the verdict is `Optimistic`. The payload was submitted once, and fork
/// choice was handed nothing.
pub proof fn lemma_undecided_engine_is_optimistic(
    chain: &BeaconChain,
    block: BeaconBlock,
    answers: VerifierAnswers,
)
    requires
        chain.has_execution_layer,
        block.execution_payload is Some,
        answers.engine == Ok::<PayloadStatus, EngineError>(PayloadStatus::Syncing)
            || answers.engine == Ok::<PayloadStatus, EngineError>(PayloadStatus::Accepted),
    ensures
        ({
            let run = verification_start(chain, block).run(answers);
            &&& run.result == Ok::<PayloadVerificationStatus, BlockError>(
                PayloadVerificationStatus::Optimistic,
            )
            &&& run.calls == seq![VerifierCall::NewPayload(block.execution_payload->Some_0)]
            &&& run.invalidations() == Seq::<InvalidationOperation>::empty()
        }),
{
    reveal_with_fuel(VerificationStep::run, 3);
    reveal_with_fuel(invalidations_among, 3);
}

/// Where the engine declares the payload invalid and names the latest valid
/// hash `H`, fork choice is handed exactly one invalidation, after the
/// payload was submitted and before the caller sees any outcome: that of
/// the chain that ends at the block's parent, down to `H`, the parent itself
/// only if it descends from `H`. The caller then sees the rejection with
/// the engine's answer in it, unless fork choice failed: then that failure
/// is what the caller sees.
pub proof fn lemma_invalid_payload_invalidates_from_parent(
    chain: &BeaconChain,
    block: BeaconBlock,
    latest_valid_hash: ExecutionBlockHash,
    answers: VerifierAnswers,
)
    requires
        chain.has_execution_layer,
        block.execution_payload is Some,
        answers.engine == Ok::<PayloadStatus, EngineError>(
            PayloadStatus::Invalid { latest_valid_hash },
        ),
    ensures
        ({
            let run = verification_start(chain, block).run(answers);
            let invalidation = InvalidationOperation::InvalidateMany {
                head_block_root: block.parent_root,
                always_invalidate_head: false,
                latest_valid_ancestor: latest_valid_hash,
            };
            &&& run.calls == seq![
                VerifierCall::NewPayload(block.execution_payload->Some_0),
                VerifierCall::Invalidate(invalidation),
            ]
            &&& run.invalidations() == seq![invalidation]
            &&& run.result == match answers.fork_choice {
                Ok(()) => Err::<PayloadVerificationStatus, BlockError>(
                    rejected(PayloadStatus::Invalid { latest_valid_hash }),
                ),
                Err(failure) => Err(BlockError::BeaconChainError(failure)),
            }
        }),
{
    reveal_with_fuel(VerificationStep::run, 3);
    reveal_with_fuel(invalidations_among, 3);
}

/// Where the engine finds the block hash or the terminal block of the
/// payload invalid, the caller sees the rejection with the engine's answer
/// in it, and fork choice was handed nothing: such an answer implicates no
/// block but the one at hand.
pub proof fn lemma_bad_block_rejected_without_invalidation(
    chain: &BeaconChain,
    block: BeaconBlock,
    answers: VerifierAnswers,
)
    requires
        chain.has_execution_layer,
        block.execution_payload is Some,
        answers.engine == Ok::<PayloadStatus, EngineError>(PayloadStatus::InvalidTerminalBlock)
            || answers.engine == Ok::<PayloadStatus, EngineError>(PayloadStatus::InvalidBlockHash),
    ensures
        ({
            let run = verification_start(chain, block).run(answers);
            &&& run.result == Err::<PayloadVerificationStatus, BlockError>(
                rejected(answers.engine->Ok_0),
            )
            &&& run.calls == seq![VerifierCall::NewPayload(block.execution_payload->Some_0)]
            &&& run.invalidations() == Seq::<InvalidationOperation>::empty()
        }),
{
    reveal_with_fuel(VerificationStep::run, 3);
    reveal_with_fuel(invalidations_among, 3);
}

/// Against an engine that answers `Valid`, the round trip gives `Verified`
/// and hands fork choice nothing. So however often it is run over for one
/// block, every run gives `Verified` and fork choice is left with what it
/// had been handed before.
pub proof fn lemma_valid_payload_verifies_every_time(
    chain: &BeaconChain,
    block: BeaconBlock,
    answers: VerifierAnswers,
    received: Seq<InvalidationOperation>,
    runs: nat,
)
    requires
        chain.has_execution_layer,
        block.execution_payload is Some,
        answers.engine == Ok::<PayloadStatus, EngineError>(PayloadStatus::Valid),
    ensures
        verification_start(chain, block).run(answers).result == Ok::<
            PayloadVerificationStatus,
            BlockError,
        >(PayloadVerificationStatus::Verified),
        verification_start(chain, block).run(answers).calls == seq![
            VerifierCall::NewPayload(block.execution_payload->Some_0),
        ],
        fork_choice_after_runs(verification_start(chain, block), answers, received, runs)
            == received,
    decreases runs,
{
    reveal_with_fuel(VerificationStep::run, 3);
    reveal_with_fuel(invalidations_among, 3);
    if runs > 0 {
        lemma_valid_payload_verifies_every_time(chain, block, answers, received, (runs - 1) as nat);
    }
}

} // verus!
