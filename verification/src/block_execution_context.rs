//! The record of the block that is being built or delivered again: its height,
//! round and hash, and the result that the node computed as proposer.

use crate::consensus_types::{
    ConsensusParams, CoreChainLock, CoreChainLockView, TxAction, TxRecord, TxRecordView,
    ValidatorSetUpdate, ValidatorSetUpdateView,
};
use crate::execution_result::TxExecutionResult;
use vstd::prelude::*;

verus! {

/// Height, round and hash of the block in flight.
#[derive(Clone, Copy, PartialEq, Eq, Debug)]
pub struct BlockStateInfo {
    pub height: u64,
    pub round: u32,
    /// Known once the consensus engine has said which block is canonical for
    /// the round; absent while the node is proposer and waits for that.
    pub block_hash: Option<[u8; 32]>,
}

/// What a [`BlockStateInfo`] holds, the hash as its bytes.
pub struct BlockStateInfoView {
    pub height: u64,
    pub round: u32,
    pub block_hash: Option<Seq<u8>>,
}

impl View for BlockStateInfo {
    type V = BlockStateInfoView;

    open spec fn view(&self) -> BlockStateInfoView {
        BlockStateInfoView {
            height: self.height,
            round: self.round,
            block_hash: match self.block_hash {
                Some(hash) => Some(hash@),
                None => None,
            },
        }
    }
}

/// The outcome that the node computed for a height and round.
#[derive(PartialEq, Eq, Debug)]
pub struct ProposerResult {
    pub app_hash: [u8; 32],
    /// Results as the block shows them: the fee-covered ones.
    pub tx_results: Vec<TxExecutionResult>,
    /// The raw transactions considered, each with what became of it.
    pub tx_records: Vec<TxRecord>,
    pub core_chain_lock_update: Option<CoreChainLock>,
    pub consensus_param_updates: Option<ConsensusParams>,
    pub validator_set_update: Option<ValidatorSetUpdate>,
}

/// What a [`ProposerResult`] holds.
pub struct ProposerResultView {
    pub app_hash: Seq<u8>,
    pub tx_results: Seq<TxExecutionResult>,
    pub tx_records: Seq<TxRecordView>,
    pub core_chain_lock_update: Option<CoreChainLockView>,
    pub consensus_param_updates: Option<ConsensusParams>,
    pub validator_set_update: Option<ValidatorSetUpdateView>,
}

impl View for ProposerResult {
    type V = ProposerResultView;

    open spec fn view(&self) -> ProposerResultView {
        ProposerResultView {
            app_hash: self.app_hash@,
            tx_results: self.tx_results@,
            tx_records: self.tx_records.deep_view(),
            core_chain_lock_update: self.core_chain_lock_update.deep_view(),
            consensus_param_updates: self.consensus_param_updates,
            validator_set_update: self.validator_set_update.deep_view(),
        }
    }
}

impl DeepView for ProposerResult {
    type V = ProposerResultView;

    open spec fn deep_view(&self) -> ProposerResultView {
        self@
    }
}

/// Number of the records whose transaction stays in the block.
pub open spec fn kept_count(records: Seq<TxRecordView>) -> nat {
    records.filter(|record: TxRecordView| record.action is Kept).len()
}

impl ProposerResult {
    /// Number of transactions that a proposal made of this result holds: those
    /// of the records that were neither removed nor delayed.
    pub fn expected_transaction_count(&self) -> (count: usize)
        ensures
            count == kept_count(self@.tx_records),
    {
        let mut count: usize = 0;
        let mut i: usize = 0;
        assert(self.tx_records.deep_view().take(0) =~= Seq::empty());
        assert(kept_count(Seq::empty()) == 0) by {
            reveal(Seq::filter);
        }
        while i < self.tx_records.len()
            invariant
                i <= self.tx_records.len(),
                self.tx_records.deep_view().len() == self.tx_records.len(),
                count == kept_count(self.tx_records.deep_view().take(i as int)),
            decreases self.tx_records.len() - i,
        {
            proof {
                let records = self.tx_records.deep_view();
                let record = self.tx_records[i as int]@;
                assert(records.take(i + 1) =~= records.take(i as int).push(record));
                records.take(i as int).lemma_filter_push(
                    record,
                    |record: TxRecordView| record.action is Kept,
                );
                records.take(i as int).lemma_filter_len(
                    |record: TxRecordView| record.action is Kept,
                );
            }
            match self.tx_records[i].action {
                TxAction::Kept => {
                    count += 1;
                },
                TxAction::Removed => {},
                TxAction::Delayed => {},
            }
            i += 1;
        }
        assert(self.tx_records.deep_view().take(i as int) =~= self.tx_records.deep_view());
        count
    }
}

/// The block that is being built or delivered again. A node holds one at most.
#[derive(PartialEq, Eq, Debug)]
pub struct BlockExecutionContext {
    pub block_state_info: BlockStateInfo,
    pub proposer_results: Option<ProposerResult>,
}

/// What a [`BlockExecutionContext`] holds.
pub struct BlockExecutionContextView {
    pub block_state_info: BlockStateInfoView,
    pub proposer_results: Option<ProposerResultView>,
}

impl View for BlockExecutionContext {
    type V = BlockExecutionContextView;

    open spec fn view(&self) -> BlockExecutionContextView {
        BlockExecutionContextView {
            block_state_info: self.block_state_info@,
            proposer_results: self.proposer_results.deep_view(),
        }
    }
}

impl DeepView for BlockExecutionContext {
    type V = BlockExecutionContextView;

    open spec fn deep_view(&self) -> BlockExecutionContextView {
        self@
    }
}

impl BlockExecutionContext {
    /// Height of the block in flight.
    pub fn height(&self) -> (height: u64)
        ensures
            height == self@.block_state_info.height,
    {
        self.block_state_info.height
    }

    /// Round of the block in flight.
    pub fn round(&self) -> (round: u32)
        ensures
            round == self@.block_state_info.round,
    {
        self.block_state_info.round
    }

    /// Hash of the block in flight, once it is known.
    pub fn block_hash(&self) -> (hash: Option<[u8; 32]>)
        ensures
            hash == self.block_state_info.block_hash,
    {
        self.block_state_info.block_hash
    }
}

} // verus!
