//! What holds of the replay protocol for every state of a node and every
//! request, proved from the definitions of [`processed`] and [`completed`].

use crate::block_execution_context::{kept_count, BlockExecutionContextView, BlockStateInfoView};
use crate::process_proposal::{
    cached_response, completed, inspect, processed, BlockProposalView, ErrorClass,
    ExecutionOutcomeView, ProposalError, ProposalProcessorView, ProposalRequestView,
    ProposalStatus, ProposalStepView, TransactionUse,
};
use crate::transaction::LiveTransaction;
use vstd::prelude::*;

verus! {

/// The context is of the request's round.
pub open spec fn same_round(context: BlockExecutionContextView, request: ProposalRequestView) -> bool {
    context.block_state_info.round == request.round
}

/// There is a transaction for a fresh execution of the request: at the genesis
/// height the one of the chain's initialization must be live.
pub open spec fn executable(state: ProposalProcessorView, request: ProposalRequestView) -> bool {
    request.height != state.genesis_height || state.transaction is Some
}

/// The request is executed afresh: the context is dropped and the cache
/// answers nothing; where there is a transaction to run in, exactly the
/// request is handed on for one execution, and else the request fails.
pub open spec fn executed_afresh(state: ProposalProcessorView, request: ProposalRequestView) -> bool {
    let (after, outcome) = processed(state, request);
    &&& inspect(state.context, request) is Execute
    &&& after.context is None
    &&& after.genesis_height == state.genesis_height
    &&& !(outcome matches Ok(ProposalStepView::CachedAccept(_)))
    &&& if executable(state, request) {
        outcome matches Ok(ProposalStepView::Execute { request: handed, .. }) && handed == request
    } else {
        outcome == Err::<ProposalStepView, ProposalError>(ProposalError::GenesisNotInitialized)
    }
}

/// Idempotent replay: where the context of the request's round knows its
/// block hash and holds a result, the request is answered with that result,
/// commitment and results as they were cached, no execution is asked for, and
/// the node's state stays as it is. So the same request gets the same answer
/// however often it comes.
pub proof fn lemma_resolved_request_replays(
    state: ProposalProcessorView,
    request: ProposalRequestView,
)
    requires
        state.context matches Some(context) && same_round(context, request)
            && context.block_state_info.block_hash is Some && context.proposer_results is Some,
    ensures
        processed(state, request) == (
            state,
            Ok::<ProposalStepView, ProposalError>(
                ProposalStepView::CachedAccept(
                    cached_response(state.context->0.proposer_results->0),
                ),
            ),
        ),
        processed(processed(state, request).0, request) == processed(state, request),
        cached_response(state.context->0.proposer_results->0).app_hash
            == state.context->0.proposer_results->0.app_hash,
        cached_response(state.context->0.proposer_results->0).tx_results
            == state.context->0.proposer_results->0.tx_results,
{
}

/// Once a valid block has been completed, a request of its round is answered
/// with the very answer of the completion, without another execution.
pub proof fn lemma_completed_proposal_replays(
    state: ProposalProcessorView,
    proposal: BlockProposalView,
    outcome: ExecutionOutcomeView,
    request: ProposalRequestView,
)
    requires
        outcome.valid,
        request.round == proposal.round,
    ensures
        processed(completed(state, proposal, outcome).0, request) == (
            completed(state, proposal, outcome).0,
            Ok::<ProposalStepView, ProposalError>(
                ProposalStepView::CachedAccept(completed(state, proposal, outcome).1),
            ),
        ),
{
}

/// A rejected block leaves no context behind: whatever comes next is not
/// answered from a cache, so the same block is executed again when it is
/// proposed again.
pub proof fn lemma_rejected_block_is_not_cached(
    state: ProposalProcessorView,
    proposal: BlockProposalView,
    outcome: ExecutionOutcomeView,
    request: ProposalRequestView,
)
    requires
        !outcome.valid,
    ensures
        completed(state, proposal, outcome).0.context is None,
        inspect(completed(state, proposal, outcome).0.context, request) is Execute,
        !(processed(completed(state, proposal, outcome).0, request).1 matches Ok(
            ProposalStepView::CachedAccept(_),
        )),
{
}

/// Round supersession: a request of another round than the context's is
/// executed afresh, and the context of the earlier round is never used.
pub proof fn lemma_other_round_supersedes(
    state: ProposalProcessorView,
    request: ProposalRequestView,
)
    requires
        state.context matches Some(context) && !same_round(context, request),
    ensures
        executed_afresh(state, request),
{
}

/// Proposer self-confirmation: the context of the request's round has a
/// cached result and no block hash yet. A request with as many transactions as
/// the result kept, the same chain-lock update and a hash of 32 bytes is
/// answered from the cache, and its hash is recorded in the context.
pub proof fn lemma_proposer_confirmation_reuses(
    state: ProposalProcessorView,
    request: ProposalRequestView,
)
    requires
        state.context matches Some(context) && same_round(context, request)
            && context.block_state_info.block_hash is None && context.proposer_results is Some,
        kept_count(state.context->0.proposer_results->0.tx_records) == request.txs.len(),
        state.context->0.proposer_results->0.core_chain_lock_update
            == request.core_chain_lock_update,
        request.hash.len() == 32,
    ensures
        processed(state, request).1 == Ok::<ProposalStepView, ProposalError>(
            ProposalStepView::CachedAccept(cached_response(state.context->0.proposer_results->0)),
        ),
        processed(state, request).0 == (ProposalProcessorView {
            context: Some(
                BlockExecutionContextView {
                    block_state_info: BlockStateInfoView {
                        block_hash: Some(request.hash),
                        ..state.context->0.block_state_info
                    },
                    ..state.context->0
                },
            ),
            ..state
        }),
{
}

/// Proposer self-confirmation, the other way: where the count of
/// transactions or the chain-lock update differs from what the cached result
/// holds, the cache is dropped and the request is executed afresh.
pub proof fn lemma_changed_proposal_reexecutes(
    state: ProposalProcessorView,
    request: ProposalRequestView,
)
    requires
        state.context matches Some(context) && same_round(context, request)
            && context.block_state_info.block_hash is None && context.proposer_results is Some,
        kept_count(state.context->0.proposer_results->0.tx_records) != request.txs.len()
            || state.context->0.proposer_results->0.core_chain_lock_update
            != request.core_chain_lock_update,
    ensures
        executed_afresh(state, request),
{
}

/// A hash conflict is fatal: where the context of the request's round knows
/// another block hash than the request's and holds no result, the request
/// fails as a breach of the protocol. It is not rejected, nothing is executed,
/// and the node's state stays as it is.
pub proof fn lemma_hash_conflict_is_fatal(
    state: ProposalProcessorView,
    request: ProposalRequestView,
)
    requires
        state.context matches Some(context) && same_round(context, request)
            && context.proposer_results is None && context.block_state_info.block_hash is Some
            && context.block_state_info.block_hash->0 != request.hash,
    ensures
        processed(state, request) == (
            state,
            Err::<ProposalStepView, ProposalError>(ProposalError::HashMismatch),
        ),
        ProposalError::HashMismatch.class_of() == ErrorClass::ProtocolViolation,
{
}

/// Round replay at the genesis height never begins a second transaction: a
/// fresh execution there runs in the transaction of the chain's
/// initialization, which stays the live one, rewound to its savepoint in every
/// round after the first.
pub proof fn lemma_genesis_replay_keeps_transaction(
    state: ProposalProcessorView,
    request: ProposalRequestView,
)
    requires
        request.height == state.genesis_height,
        processed(state, request).1 matches Ok(ProposalStepView::Execute { .. }),
    ensures
        state.transaction is Some,
        processed(state, request).0.transaction == state.transaction,
        processed(state, request).1 matches Ok(ProposalStepView::Execute { transaction, .. })
            && transaction == (if request.round > 0 {
            TransactionUse::Rewound
        } else {
            TransactionUse::Reused
        }),
{
}

/// Only a fresh execution touches the transaction scope: a request that is
/// answered from the cache or fails leaves it as it is, and at any other height
/// than the genesis height a fresh execution begins the transaction of the
/// request's height.
pub proof fn lemma_transaction_follows_execution(
    state: ProposalProcessorView,
    request: ProposalRequestView,
)
    ensures
        !(processed(state, request).1 matches Ok(ProposalStepView::Execute { .. }))
            ==> processed(state, request).0.transaction == state.transaction,
        request.height != state.genesis_height && processed(state, request).1 is Ok && !(
        processed(state, request).1 matches Ok(ProposalStepView::CachedAccept(_))) ==> {
            &&& processed(state, request).0.transaction == Some(
                LiveTransaction { height: request.height, savepoint: None },
            )
            &&& processed(state, request).1 matches Ok(
                ProposalStepView::Execute { transaction, .. },
            ) && transaction == TransactionUse::Begun
        },
        processed(state, request).0.genesis_height == state.genesis_height,
{
}

/// The shape of a rejection: a block that the pipeline found invalid is
/// rejected with a commitment of 32 bytes, all zero, whatever else the outcome
/// holds; and no other answer of the protocol is a rejection.
pub proof fn lemma_rejection_shape(
    state: ProposalProcessorView,
    proposal: BlockProposalView,
    outcome: ExecutionOutcomeView,
    request: ProposalRequestView,
)
    ensures
        !outcome.valid ==> completed(state, proposal, outcome).1.status == ProposalStatus::Reject,
        completed(state, proposal, outcome).1.status == ProposalStatus::Reject ==> {
            let response = completed(state, proposal, outcome).1;
            &&& !outcome.valid
            &&& response.app_hash.len() == 32
            &&& forall|i: int| 0 <= i < 32 ==> response.app_hash[i] == 0u8
            &&& response.tx_results.len() == 0
        },
        processed(state, request).1 matches Ok(ProposalStepView::CachedAccept(response))
            ==> response.status == ProposalStatus::Accept,
{
}

} // verus!
