//! Values that travel between the consensus engine and the execution core, held
//! as plain data.

use crate::bytes::same_bytes;
use vstd::prelude::*;

verus! {

/// What the application did with a raw transaction of a proposal.
#[derive(Clone, Copy, PartialEq, Eq, Debug, Structural)]
pub enum TxAction {
    /// The transaction stays in the block.
    Kept,
    /// The transaction leaves the proposal and the mempool.
    Removed,
    /// The transaction waits for a later block.
    Delayed,
}

/// A raw transaction that a proposal considered, with what became of it.
#[derive(PartialEq, Eq, Debug)]
pub struct TxRecord {
    pub action: TxAction,
    pub tx: Vec<u8>,
}

/// What a [`TxRecord`] holds.
pub struct TxRecordView {
    pub action: TxAction,
    pub tx: Seq<u8>,
}

impl View for TxRecord {
    type V = TxRecordView;

    open spec fn view(&self) -> TxRecordView {
        TxRecordView { action: self.action, tx: self.tx@ }
    }
}

impl DeepView for TxRecord {
    type V = TxRecordView;

    open spec fn deep_view(&self) -> TxRecordView {
        self@
    }
}

impl Clone for TxRecord {
    fn clone(&self) -> (copy: Self)
        ensures
            copy@ == self@,
    {
        TxRecord { action: self.action, tx: self.tx.clone() }
    }
}

/// A chain lock of the core chain that a block brings forward.
#[derive(PartialEq, Eq, Debug)]
pub struct CoreChainLock {
    pub core_block_height: u32,
    pub core_block_hash: Vec<u8>,
    pub signature: Vec<u8>,
}

/// What a [`CoreChainLock`] holds.
pub struct CoreChainLockView {
    pub core_block_height: u32,
    pub core_block_hash: Seq<u8>,
    pub signature: Seq<u8>,
}

impl View for CoreChainLock {
    type V = CoreChainLockView;

    open spec fn view(&self) -> CoreChainLockView {
        CoreChainLockView {
            core_block_height: self.core_block_height,
            core_block_hash: self.core_block_hash@,
            signature: self.signature@,
        }
    }
}

impl DeepView for CoreChainLock {
    type V = CoreChainLockView;

    open spec fn deep_view(&self) -> CoreChainLockView {
        self@
    }
}

impl Clone for CoreChainLock {
    fn clone(&self) -> (copy: Self)
        ensures
            copy@ == self@,
    {
        CoreChainLock {
            core_block_height: self.core_block_height,
            core_block_hash: self.core_block_hash.clone(),
            signature: self.signature.clone(),
        }
    }
}

impl CoreChainLock {
    /// Whether both chain locks hold the same height, hash and signature.
    pub fn same_as(&self, other: &CoreChainLock) -> (same: bool)
        ensures
            same == (self@ == other@),
    {
        self.core_block_height == other.core_block_height && same_bytes(
            self.core_block_hash.as_slice(),
            other.core_block_hash.as_slice(),
        ) && same_bytes(self.signature.as_slice(), other.signature.as_slice())
    }
}

/// Whether two optional chain-lock updates are equal: both absent, or both
/// present with the same content.
pub fn same_chain_lock_update(left: &Option<CoreChainLock>, right: &Option<CoreChainLock>) -> (same:
    bool)
    ensures
        same == (left.deep_view() == right.deep_view()),
{
    match (left, right) {
        (None, None) => true,
        (Some(l), Some(r)) => l.same_as(r),
        _ => false,
    }
}

/// Consensus parameters that a block changes.
#[derive(Clone, Copy, PartialEq, Eq, Debug, Structural)]
pub struct ConsensusParams {
    pub block_max_bytes: i64,
    pub block_max_gas: i64,
    pub app_version: u64,
}

/// One validator of a new validator set.
#[derive(PartialEq, Eq, Debug)]
pub struct ValidatorUpdate {
    pub pro_tx_hash: Vec<u8>,
    pub public_key: Vec<u8>,
    pub power: i64,
}

/// What a [`ValidatorUpdate`] holds.
pub struct ValidatorUpdateView {
    pub pro_tx_hash: Seq<u8>,
    pub public_key: Seq<u8>,
    pub power: i64,
}

impl View for ValidatorUpdate {
    type V = ValidatorUpdateView;

    open spec fn view(&self) -> ValidatorUpdateView {
        ValidatorUpdateView {
            pro_tx_hash: self.pro_tx_hash@,
            public_key: self.public_key@,
            power: self.power,
        }
    }
}

impl DeepView for ValidatorUpdate {
    type V = ValidatorUpdateView;

    open spec fn deep_view(&self) -> ValidatorUpdateView {
        self@
    }
}

impl Clone for ValidatorUpdate {
    fn clone(&self) -> (copy: Self)
        ensures
            copy@ == self@,
    {
        ValidatorUpdate {
            pro_tx_hash: self.pro_tx_hash.clone(),
            public_key: self.public_key.clone(),
            power: self.power,
        }
    }
}

/// The validator set that takes over after a block.
#[derive(PartialEq, Eq, Debug)]
pub struct ValidatorSetUpdate {
    pub validator_updates: Vec<ValidatorUpdate>,
    pub threshold_public_key: Vec<u8>,
    pub quorum_hash: Vec<u8>,
}

/// What a [`ValidatorSetUpdate`] holds.
pub struct ValidatorSetUpdateView {
    pub validator_updates: Seq<ValidatorUpdateView>,
    pub threshold_public_key: Seq<u8>,
    pub quorum_hash: Seq<u8>,
}

impl View for ValidatorSetUpdate {
    type V = ValidatorSetUpdateView;

    open spec fn view(&self) -> ValidatorSetUpdateView {
        ValidatorSetUpdateView {
            validator_updates: self.validator_updates.deep_view(),
            threshold_public_key: self.threshold_public_key@,
            quorum_hash: self.quorum_hash@,
        }
    }
}

impl DeepView for ValidatorSetUpdate {
    type V = ValidatorSetUpdateView;

    open spec fn deep_view(&self) -> ValidatorSetUpdateView {
        self@
    }
}

impl Clone for ValidatorSetUpdate {
    fn clone(&self) -> (copy: Self)
        ensures
            copy@ == self@,
    {
        let validator_updates = self.validator_updates.clone();
        assert(validator_updates.deep_view() =~= self.validator_updates.deep_view());
        ValidatorSetUpdate {
            validator_updates,
            threshold_public_key: self.threshold_public_key.clone(),
            quorum_hash: self.quorum_hash.clone(),
        }
    }
}

} // verus!
