//! The replay protocol of block proposals: whether a request is answered from
//! the cached context, executed afresh, or refused as a breach of the
//! protocol; which storage transaction a fresh execution runs in; and what is
//! answered and cached once the execution pipeline has run.
//!
//! The pipeline itself is not part of this library. [`process_proposal`]
//! decides; where it asks for an execution, the caller settles the storage
//! transaction as told, makes the request a [`BlockProposal`], runs the
//! pipeline on it once, outside of any lock on the [`ProposalProcessor`], and
//! hands the outcome to [`complete_proposal`].

use crate::block_execution_context::{
    kept_count, BlockExecutionContext, BlockExecutionContextView, BlockStateInfo,
    BlockStateInfoView, ProposerResult, ProposerResultView,
};
use crate::bytes::{hash_from_bytes, same_bytes, zero_hash, zeroed_hash};
use crate::consensus_types::{
    same_chain_lock_update, ConsensusParams, CoreChainLock, CoreChainLockView, TxAction, TxRecord,
    TxRecordView, ValidatorSetUpdate, ValidatorSetUpdateView,
};
use crate::execution_result::{fee_covered_of, fee_covered_results, TxExecutionResult};
use crate::transaction::{LiveTransaction, TransactionScope};
use vstd::prelude::*;

verus! {

/// A request of the consensus engine to process a proposed block.
#[derive(PartialEq, Eq, Debug)]
pub struct ProposalRequest {
    pub height: u64,
    pub round: u32,
    /// Hash of the proposed block, as the bytes that came in.
    pub hash: Vec<u8>,
    /// The raw transactions of the block.
    pub txs: Vec<Vec<u8>>,
    pub core_chain_lock_update: Option<CoreChainLock>,
}

/// What a [`ProposalRequest`] holds.
pub struct ProposalRequestView {
    pub height: u64,
    pub round: u32,
    pub hash: Seq<u8>,
    pub txs: Seq<Seq<u8>>,
    pub core_chain_lock_update: Option<CoreChainLockView>,
}

impl View for ProposalRequest {
    type V = ProposalRequestView;

    open spec fn view(&self) -> ProposalRequestView {
        ProposalRequestView {
            height: self.height,
            round: self.round,
            hash: self.hash@,
            txs: self.txs.deep_view(),
            core_chain_lock_update: self.core_chain_lock_update.deep_view(),
        }
    }
}

/// Verdict on a proposed block.
#[derive(Clone, Copy, PartialEq, Eq, Debug, Structural)]
pub enum ProposalStatus {
    Accept,
    Reject,
}

/// The answer to a [`ProposalRequest`]. The state commitment has 32 bytes in
/// every answer.
#[derive(PartialEq, Eq, Debug)]
pub struct ProposalResponse {
    pub status: ProposalStatus,
    pub app_hash: [u8; 32],
    pub tx_results: Vec<TxExecutionResult>,
    pub consensus_param_updates: Option<ConsensusParams>,
    pub validator_set_update: Option<ValidatorSetUpdate>,
}

/// What a [`ProposalResponse`] holds.
pub struct ProposalResponseView {
    pub status: ProposalStatus,
    pub app_hash: Seq<u8>,
    pub tx_results: Seq<TxExecutionResult>,
    pub consensus_param_updates: Option<ConsensusParams>,
    pub validator_set_update: Option<ValidatorSetUpdateView>,
}

impl View for ProposalResponse {
    type V = ProposalResponseView;

    open spec fn view(&self) -> ProposalResponseView {
        ProposalResponseView {
            status: self.status,
            app_hash: self.app_hash@,
            tx_results: self.tx_results@,
            consensus_param_updates: self.consensus_param_updates,
            validator_set_update: self.validator_set_update.deep_view(),
        }
    }
}

/// What the execution pipeline found of a proposed block.
#[derive(PartialEq, Eq, Debug)]
pub struct ExecutionOutcome {
    /// Whether the block's content is valid.
    pub valid: bool,
    pub app_hash: [u8; 32],
    /// One result for each transaction of the block, in the block's order.
    pub tx_results: Vec<TxExecutionResult>,
    /// Protocol version in effect.
    pub protocol_version: u32,
    pub validator_set_update: Option<ValidatorSetUpdate>,
}

/// What an [`ExecutionOutcome`] holds.
pub struct ExecutionOutcomeView {
    pub valid: bool,
    pub app_hash: Seq<u8>,
    pub tx_results: Seq<TxExecutionResult>,
    pub protocol_version: u32,
    pub validator_set_update: Option<ValidatorSetUpdateView>,
}

impl View for ExecutionOutcome {
    type V = ExecutionOutcomeView;

    open spec fn view(&self) -> ExecutionOutcomeView {
        ExecutionOutcomeView {
            valid: self.valid,
            app_hash: self.app_hash@,
            tx_results: self.tx_results@,
            protocol_version: self.protocol_version,
            validator_set_update: self.validator_set_update.deep_view(),
        }
    }
}

/// The storage transaction that a fresh execution runs in.
#[derive(Clone, Copy, PartialEq, Eq, Debug, Structural)]
pub enum TransactionUse {
    /// A transaction begun for the request's height.
    Begun,
    /// The transaction of the genesis height, as it stands.
    Reused,
    /// The transaction of the genesis height, rewound to its savepoint; one
    /// that has no savepoint stays as it is.
    Rewound,
}

/// Why a request fails without an answer.
#[derive(Clone, Copy, PartialEq, Eq, Debug, Structural)]
pub enum ProposalError {
    /// The request came a second time while the node, as proposer, had
    /// neither a block hash nor a result to compare it with.
    RepeatedRequest,
    /// The request names another block than the one known for the round.
    HashMismatch,
    /// The block hash of the request does not have 32 bytes.
    HashSize,
    /// The request is for the genesis height and the chain was not
    /// initialized: there is no transaction to run in.
    GenesisNotInitialized,
}

/// The classes of failures of a request.
#[derive(Clone, Copy, PartialEq, Eq, Debug, Structural)]
pub enum ErrorClass {
    /// The request is malformed or cannot be served; it is not retried.
    RequestMalformed,
    /// The consensus engine presents two blocks for one round.
    ProtocolViolation,
}

impl ProposalError {
    /// The class of the failure.
    pub open spec fn class_of(self) -> ErrorClass {
        if self is HashMismatch {
            ErrorClass::ProtocolViolation
        } else {
            ErrorClass::RequestMalformed
        }
    }

    /// The class of the failure.
    pub fn class(&self) -> (class: ErrorClass)
        ensures
            class == self.class_of(),
    {
        match self {
            ProposalError::HashMismatch => ErrorClass::ProtocolViolation,
            ProposalError::RepeatedRequest => ErrorClass::RequestMalformed,
            ProposalError::HashSize => ErrorClass::RequestMalformed,
            ProposalError::GenesisNotInitialized => ErrorClass::RequestMalformed,
        }
    }

    /// The text of the failure.
    pub open spec fn text(self) -> Seq<char> {
        match self {
            ProposalError::RepeatedRequest => "received a process proposal request twice"@,
            ProposalError::HashMismatch =>
                "received a process proposal request twice with different hash"@,
            ProposalError::HashSize => "block hash is not 32 bytes in process proposal"@,
            ProposalError::GenesisNotInitialized =>
                "received a process proposal request for the genesis height before an init chain request"@,
        }
    }

    /// The text of the failure.
    pub fn message(&self) -> (message: String)
        ensures
            message@ == self.text(),
    {
        match self {
            ProposalError::RepeatedRequest => "received a process proposal request twice".to_owned(),
            ProposalError::HashMismatch =>
                "received a process proposal request twice with different hash".to_owned(),
            ProposalError::HashSize => "block hash is not 32 bytes in process proposal".to_owned(),
            ProposalError::GenesisNotInitialized =>
                "received a process proposal request for the genesis height before an init chain request".to_owned(),
        }
    }
}

/// A proposed block as the execution pipeline takes it: the request with its
/// block hash read.
#[derive(PartialEq, Eq, Debug)]
pub struct BlockProposal {
    pub height: u64,
    pub round: u32,
    pub block_hash: [u8; 32],
    /// The raw transactions of the block.
    pub raw_state_transitions: Vec<Vec<u8>>,
    pub core_chain_lock_update: Option<CoreChainLock>,
}

/// What a [`BlockProposal`] holds.
pub struct BlockProposalView {
    pub height: u64,
    pub round: u32,
    pub block_hash: Seq<u8>,
    pub raw_state_transitions: Seq<Seq<u8>>,
    pub core_chain_lock_update: Option<CoreChainLockView>,
}

impl View for BlockProposal {
    type V = BlockProposalView;

    open spec fn view(&self) -> BlockProposalView {
        BlockProposalView {
            height: self.height,
            round: self.round,
            block_hash: self.block_hash@,
            raw_state_transitions: self.raw_state_transitions.deep_view(),
            core_chain_lock_update: self.core_chain_lock_update.deep_view(),
        }
    }
}

/// The proposal that a request with a block hash of 32 bytes stands for.
pub open spec fn proposal_of(request: ProposalRequestView) -> BlockProposalView {
    BlockProposalView {
        height: request.height,
        round: request.round,
        block_hash: request.hash,
        raw_state_transitions: request.txs,
        core_chain_lock_update: request.core_chain_lock_update,
    }
}

impl BlockProposal {
    /// Reads a request as a proposal. The request is malformed where its block
    /// hash does not have 32 bytes.
    pub fn from_request(request: ProposalRequest) -> (proposal: Result<
        BlockProposal,
        ProposalError,
    >)
        ensures
            match proposal {
                Ok(proposal) => request@.hash.len() == 32 && proposal@ == proposal_of(request@),
                Err(error) => request@.hash.len() != 32 && error == ProposalError::HashSize,
            },
    {
        match hash_from_bytes(request.hash.as_slice()) {
            Some(block_hash) => Ok(
                BlockProposal {
                    height: request.height,
                    round: request.round,
                    block_hash,
                    raw_state_transitions: request.txs,
                    core_chain_lock_update: request.core_chain_lock_update,
                },
            ),
            None => Err(ProposalError::HashSize),
        }
    }
}

/// What is to be done with a request.
#[derive(PartialEq, Eq, Debug)]
pub enum ProposalStep {
    /// Answer with the cached result: nothing is executed and nothing is
    /// written to storage.
    CachedAccept(ProposalResponse),
    /// Execute the request afresh: settle the storage transaction as
    /// `transaction` says, run the execution pipeline once on the request, and
    /// call [`complete_proposal`] with what it found.
    Execute { request: ProposalRequest, transaction: TransactionUse },
}

/// What a [`ProposalStep`] holds.
pub enum ProposalStepView {
    CachedAccept(ProposalResponseView),
    Execute { request: ProposalRequestView, transaction: TransactionUse },
}

impl View for ProposalStep {
    type V = ProposalStepView;

    open spec fn view(&self) -> ProposalStepView {
        match self {
            ProposalStep::CachedAccept(response) => ProposalStepView::CachedAccept(response@),
            ProposalStep::Execute { request, transaction } => ProposalStepView::Execute {
                request: request@,
                transaction: *transaction,
            },
        }
    }
}

/// What a node holds between two requests: the context of the block in
/// flight, the transaction scope, and the height at which the chain begins.
#[derive(Debug)]
pub struct ProposalProcessor {
    pub block_execution_context: Option<BlockExecutionContext>,
    pub transaction: TransactionScope,
    pub genesis_height: u64,
}

/// What a [`ProposalProcessor`] holds.
pub struct ProposalProcessorView {
    pub context: Option<BlockExecutionContextView>,
    pub transaction: Option<LiveTransaction>,
    pub genesis_height: u64,
}

impl View for ProposalProcessor {
    type V = ProposalProcessorView;

    open spec fn view(&self) -> ProposalProcessorView {
        ProposalProcessorView {
            context: self.block_execution_context.deep_view(),
            transaction: self.transaction@,
            genesis_height: self.genesis_height,
        }
    }
}

/// The answer that a cached result stands for: accepted, with the result's
/// commitment, visible results and updates as they are.
pub open spec fn cached_response(result: ProposerResultView) -> ProposalResponseView {
    ProposalResponseView {
        status: ProposalStatus::Accept,
        app_hash: result.app_hash,
        tx_results: result.tx_results,
        consensus_param_updates: result.consensus_param_updates,
        validator_set_update: result.validator_set_update,
    }
}

/// The answer to a block whose content is invalid: rejected, with a commitment
/// of 32 zero bytes and nothing else.
pub open spec fn rejection() -> ProposalResponseView {
    ProposalResponseView {
        status: ProposalStatus::Reject,
        app_hash: zero_hash(),
        tx_results: Seq::empty(),
        consensus_param_updates: None,
        validator_set_update: None,
    }
}

/// What the cached context says of a request.
pub enum Inspection {
    /// The cached result answers the request; the context is kept as given
    /// here.
    Reuse { response: ProposalResponseView, context: BlockExecutionContextView },
    /// The request is executed afresh, and a context that was there is
    /// dropped.
    Execute,
    /// The request fails, and the context stays as it is.
    Fail(ProposalError),
}

/// The decision on a request, from the cached context alone.
///
/// - No context: execute.
/// - The context is of another round: that round is stale; execute.
/// - Same round, block hash known: a cached result answers the request as it
///   is. Without one, the same hash is a replay after a crash, which is
///   executed again, and another hash is a breach of the protocol.
/// - Same round, no block hash yet: without a cached result the request is a
///   repetition that cannot be served. With one, the request confirms the
///   node's own proposal where it has as many transactions as the result kept
///   and the same chain-lock update: the hash is recorded and the cached
///   result answers. Otherwise the proposal has changed; execute.
pub open spec fn inspect(
    context: Option<BlockExecutionContextView>,
    request: ProposalRequestView,
) -> Inspection {
    match context {
        None => Inspection::Execute,
        Some(context) => if context.block_state_info.round != request.round {
            Inspection::Execute
        } else {
            match (context.block_state_info.block_hash, context.proposer_results) {
                (Some(_), Some(result)) => Inspection::Reuse {
                    response: cached_response(result),
                    context,
                },
                (Some(known), None) => if known == request.hash {
                    Inspection::Execute
                } else {
                    Inspection::Fail(ProposalError::HashMismatch)
                },
                (None, None) => Inspection::Fail(ProposalError::RepeatedRequest),
                (None, Some(result)) => if kept_count(result.tx_records) == request.txs.len()
                    && result.core_chain_lock_update == request.core_chain_lock_update {
                    if request.hash.len() == 32 {
                        Inspection::Reuse {
                            response: cached_response(result),
                            context: BlockExecutionContextView {
                                block_state_info: BlockStateInfoView {
                                    block_hash: Some(request.hash),
                                    ..context.block_state_info
                                },
                                ..context
                            },
                        }
                    } else {
                        Inspection::Fail(ProposalError::HashSize)
                    }
                } else {
                    Inspection::Execute
                },
            }
        },
    }
}

/// The transaction that a fresh execution at `height` and `round` runs in, and
/// the scope afterwards. At the genesis height the transaction of the chain's
/// initialization is used, rewound to its savepoint in a later round than the
/// first, and the request fails where there is none. At other heights a
/// transaction is begun.
pub open spec fn acquire(
    transaction: Option<LiveTransaction>,
    genesis_height: u64,
    height: u64,
    round: u32,
) -> Result<(TransactionUse, Option<LiveTransaction>), ProposalError> {
    if height == genesis_height {
        if transaction is None {
            Err(ProposalError::GenesisNotInitialized)
        } else if round > 0 {
            Ok((TransactionUse::Rewound, transaction))
        } else {
            Ok((TransactionUse::Reused, transaction))
        }
    } else {
        Ok((TransactionUse::Begun, Some(LiveTransaction { height, savepoint: None })))
    }
}

/// What [`process_proposal`] makes of a node's state and a request: the state
/// afterwards, and the step or the failure.
pub open spec fn processed(state: ProposalProcessorView, request: ProposalRequestView) -> (
    ProposalProcessorView,
    Result<ProposalStepView, ProposalError>,
) {
    match inspect(state.context, request) {
        Inspection::Fail(error) => (state, Err(error)),
        Inspection::Reuse { response, context } => (
            ProposalProcessorView { context: Some(context), ..state },
            Ok(ProposalStepView::CachedAccept(response)),
        ),
        Inspection::Execute => {
            let dropped = ProposalProcessorView { context: None, ..state };
            match acquire(state.transaction, state.genesis_height, request.height, request.round) {
                Err(error) => (dropped, Err(error)),
                Ok((usage, transaction)) => (
                    ProposalProcessorView { transaction, ..dropped },
                    Ok(ProposalStepView::Execute { request, transaction: usage }),
                ),
            }
        },
    }
}

/// The records of the transactions `txs`, given their results: a transaction
/// is kept where its result is covered by a fee, and removed otherwise.
pub open spec fn records_of(txs: Seq<Seq<u8>>, results: Seq<TxExecutionResult>) -> Seq<
    TxRecordView,
> {
    Seq::new(
        txs.len(),
        |i: int|
            TxRecordView {
                action: if i < results.len() && results[i].fee_covered() {
                    TxAction::Kept
                } else {
                    TxAction::Removed
                },
                tx: txs[i],
            },
    )
}

/// The result that is cached for a proposal whose block the pipeline found
/// valid.
pub open spec fn result_of(
    proposal: BlockProposalView,
    outcome: ExecutionOutcomeView,
) -> ProposerResultView {
    ProposerResultView {
        app_hash: outcome.app_hash,
        tx_results: fee_covered_of(outcome.tx_results),
        tx_records: records_of(proposal.raw_state_transitions, outcome.tx_results),
        core_chain_lock_update: proposal.core_chain_lock_update,
        consensus_param_updates: None,
        validator_set_update: outcome.validator_set_update,
    }
}

/// What [`complete_proposal`] makes of a node's state, a proposal and the
/// pipeline's outcome: the state afterwards, and the answer.
pub open spec fn completed(
    state: ProposalProcessorView,
    proposal: BlockProposalView,
    outcome: ExecutionOutcomeView,
) -> (ProposalProcessorView, ProposalResponseView) {
    if outcome.valid {
        let result = result_of(proposal, outcome);
        let context = BlockExecutionContextView {
            block_state_info: BlockStateInfoView {
                height: proposal.height,
                round: proposal.round,
                block_hash: Some(proposal.block_hash),
            },
            proposer_results: Some(result),
        };
        (ProposalProcessorView { context: Some(context), ..state }, cached_response(result))
    } else {
        (ProposalProcessorView { context: None, ..state }, rejection())
    }
}

/// The view of what [`process_proposal`] returns.
pub open spec fn step_view(outcome: Result<ProposalStep, ProposalError>) -> Result<
    ProposalStepView,
    ProposalError,
> {
    match outcome {
        Ok(step) => Ok(step@),
        Err(error) => Err(error),
    }
}

impl ProposerResult {
    /// The answer that this cached result stands for.
    pub fn to_response(&self) -> (response: ProposalResponse)
        ensures
            response@ == cached_response(self@),
    {
        ProposalResponse {
            status: ProposalStatus::Accept,
            app_hash: self.app_hash,
            tx_results: self.tx_results.clone(),
            consensus_param_updates: self.consensus_param_updates,
            validator_set_update: self.validator_set_update.clone(),
        }
    }
}

impl ProposalResponse {
    /// The answer to a block whose content is invalid.
    pub fn reject() -> (response: ProposalResponse)
        ensures
            response@ == rejection(),
    {
        ProposalResponse {
            status: ProposalStatus::Reject,
            app_hash: zeroed_hash(),
            tx_results: Vec::new(),
            consensus_param_updates: None,
            validator_set_update: None,
        }
    }
}

/// What the inspection of the context found, as [`process_proposal`] needs it.
enum Found {
    /// Answer with the response; record the hash first where there is one.
    Reuse(ProposalResponse, Option<[u8; 32]>),
    Execute,
    Fail(ProposalError),
}

/// Inspects the cached context for a request, and changes nothing.
fn inspect_context(context: &Option<BlockExecutionContext>, request: &ProposalRequest) -> (found:
    Found)
    ensures
        match found {
            Found::Reuse(response, recorded) => match inspect(context.deep_view(), request@) {
                Inspection::Reuse { response: expected, context: kept } => {
                    &&& response@ == expected
                    &&& match recorded {
                        Some(hash) => context->0@.block_state_info.block_hash is None && hash@
                            == request@.hash,
                        None => kept == context->0@,
                    }
                },
                _ => false,
            },
            Found::Execute => inspect(context.deep_view(), request@) is Execute,
            Found::Fail(error) => inspect(context.deep_view(), request@) == Inspection::Fail(error),
        },
{
    match context {
        None => Found::Execute,
        Some(block_execution_context) => {
            if block_execution_context.block_state_info.round != request.round {
                // The context is of another round: process something new.
                Found::Execute
            } else if let Some(current_block_hash) =
                block_execution_context.block_state_info.block_hash {
                if let Some(proposal_info) = &block_execution_context.proposer_results {
                    // The node was the proposer as well: the result is in cache.
                    Found::Reuse(proposal_info.to_response(), None)
                } else if same_bytes(current_block_hash.as_slice(), request.hash.as_slice()) {
                    // The block came in before; it is run again.
                    Found::Execute
                } else {
                    // Another block hash for a block of the same round.
                    Found::Fail(ProposalError::HashMismatch)
                }
            } else {
                match &block_execution_context.proposer_results {
                    None => Found::Fail(ProposalError::RepeatedRequest),
                    Some(proposal_info) => {
                        // The lengths could agree while the transactions differ:
                        // only the count is compared.
                        if proposal_info.expected_transaction_count() == request.txs.len()
                            && same_chain_lock_update(
                            &proposal_info.core_chain_lock_update,
                            &request.core_chain_lock_update,
                        ) {
                            match hash_from_bytes(request.hash.as_slice()) {
                                Some(hash) => Found::Reuse(proposal_info.to_response(), Some(hash)),
                                None => Found::Fail(ProposalError::HashSize),
                            }
                        } else {
                            Found::Execute
                        }
                    },
                }
            }
        },
    }
}

/// Decides what is to be done with a request to process a proposed block.
///
/// The context of the block in flight is consulted first, see [`inspect`]. A
/// request that it answers is answered from the cache; one that breaches the
/// protocol or cannot be compared fails, and the node's state stays as it is.
/// Any other request is executed afresh: the context is dropped, the
/// transaction scope is settled, see [`acquire`], and the request comes back
/// with the transaction to run it in. Where the genesis height has no
/// transaction, the request fails after the context was dropped.
pub fn process_proposal(processor: &mut ProposalProcessor, request: ProposalRequest) -> (outcome:
    Result<ProposalStep, ProposalError>)
    ensures
        (final(processor)@, step_view(outcome)) == processed(old(processor)@, request@),
{
    match inspect_context(&processor.block_execution_context, &request) {
        Found::Fail(error) => {
            return Err(error);
        },
        Found::Reuse(response, recorded) => {
            if let Some(hash) = recorded {
                // The block hash was not known: it is now.
                if let Some(mut context) = processor.block_execution_context.take() {
                    context.block_state_info.block_hash = Some(hash);
                    processor.block_execution_context = Some(context);
                }
            }
            return Ok(ProposalStep::CachedAccept(response));
        },
        Found::Execute => {},
    }
    processor.block_execution_context = None;

    let transaction = if request.height == processor.genesis_height {
        // The genesis height runs in the transaction of the chain's
        // initialization.
        if !processor.transaction.is_live() {
            return Err(ProposalError::GenesisNotInitialized);
        }
        if request.round > 0 {
            let _ = processor.transaction.rollback_to_savepoint();
            TransactionUse::Rewound
        } else {
            TransactionUse::Reused
        }
    } else {
        processor.transaction.begin(request.height);
        TransactionUse::Begun
    };

    Ok(ProposalStep::Execute { request, transaction })
}

/// The records of a block's transactions, given their results.
fn records_for(txs: &Vec<Vec<u8>>, results: &Vec<TxExecutionResult>) -> (records: Vec<TxRecord>)
    ensures
        records.deep_view() == records_of(txs.deep_view(), results@),
{
    let mut records: Vec<TxRecord> = Vec::new();
    let mut i: usize = 0;
    while i < txs.len()
        invariant
            i <= txs.len(),
            records.len() == i,
            forall|j: int|
                0 <= j < i ==> (#[trigger] records[j])@ == records_of(
                    txs.deep_view(),
                    results@,
                )[j],
        decreases txs.len() - i,
    {
        let action = if i < results.len() && results[i].is_fee_covered() {
            TxAction::Kept
        } else {
            TxAction::Removed
        };
        let tx = txs[i].clone();
        assert(tx@ == txs.deep_view()[i as int]);
        records.push(TxRecord { action, tx });
        i += 1;
    }
    assert(records.deep_view() =~= records_of(txs.deep_view(), results@));
    records
}

/// Answers a proposal once the execution pipeline has run on it.
///
/// A block whose content is invalid is rejected, with a commitment of 32 zero
/// bytes, and no context is kept. A valid block is accepted with the
/// pipeline's commitment and the fee-covered results, and the outcome is
/// cached as the context of the proposal's height, round and hash.
pub fn complete_proposal(
    processor: &mut ProposalProcessor,
    proposal: BlockProposal,
    outcome: ExecutionOutcome,
) -> (response: ProposalResponse)
    ensures
        (final(processor)@, response@) == completed(old(processor)@, proposal@, outcome@),
{
    if !outcome.valid {
        processor.block_execution_context = None;
        return ProposalResponse::reject();
    }
    let tx_results = fee_covered_results(&outcome.tx_results);
    let tx_records = records_for(&proposal.raw_state_transitions, &outcome.tx_results);
    let result = ProposerResult {
        app_hash: outcome.app_hash,
        tx_results,
        tx_records,
        core_chain_lock_update: proposal.core_chain_lock_update,
        consensus_param_updates: None,
        validator_set_update: outcome.validator_set_update,
    };
    let response = result.to_response();
    processor.block_execution_context = Some(
        BlockExecutionContext {
            block_state_info: BlockStateInfo {
                height: proposal.height,
                round: proposal.round,
                block_hash: Some(proposal.block_hash),
            },
            proposer_results: Some(result),
        },
    );
    response
}

impl ProposalProcessor {
    /// A node before its first request: no context, no transaction.
    pub fn new(genesis_height: u64) -> (processor: Self)
        ensures
            processor@ == (ProposalProcessorView {
                context: None,
                transaction: None,
                genesis_height,
            }),
    {
        ProposalProcessor {
            block_execution_context: None,
            transaction: TransactionScope::new(),
            genesis_height,
        }
    }
}

} // verus!
