//! Results of executing the transactions of a block, and the filter that keeps
//! the fee-covered ones for the block's result list.

use vstd::prelude::*;

verus! {

/// How the execution of one transaction ended.
#[derive(Clone, Copy, PartialEq, Eq, Debug, Structural)]
pub enum TxExecutionResult {
    /// The transaction was applied and its fee charged.
    SuccessfulExecution { fee: u64 },
    /// The transaction broke a consensus rule and its sender paid for the
    /// failure.
    PaidConsensusError { code: u32, fee: u64 },
    /// The transaction broke a consensus rule and nobody paid for the failure.
    UnpaidConsensusError { code: u32 },
    /// The node failed while it executed the transaction.
    InternalError,
}

impl TxExecutionResult {
    /// The result is covered by a fee: only these enter a block's result list.
    pub open spec fn fee_covered(self) -> bool {
        self is SuccessfulExecution || self is PaidConsensusError
    }

    /// Whether the result is covered by a fee.
    pub fn is_fee_covered(&self) -> (covered: bool)
        ensures
            covered == self.fee_covered(),
    {
        match self {
            TxExecutionResult::SuccessfulExecution { .. } => true,
            TxExecutionResult::PaidConsensusError { .. } => true,
            TxExecutionResult::UnpaidConsensusError { .. } => false,
            TxExecutionResult::InternalError => false,
        }
    }
}

/// The fee-covered results among `results`, in their order.
pub open spec fn fee_covered_of(results: Seq<TxExecutionResult>) -> Seq<TxExecutionResult> {
    results.filter(|result: TxExecutionResult| result.fee_covered())
}

/// Keeps the results that a fee covers, in their order, and drops the others:
/// a transaction that nobody paid for is validated but does not enter the
/// block's result list.
pub fn fee_covered_results(results: &Vec<TxExecutionResult>) -> (kept: Vec<TxExecutionResult>)
    ensures
        kept@ == fee_covered_of(results@),
{
    let mut kept: Vec<TxExecutionResult> = Vec::new();
    let mut i: usize = 0;
    assert(results@.take(0) =~= Seq::empty());
    assert(fee_covered_of(Seq::empty()) =~= Seq::empty()) by {
        reveal(Seq::filter);
    }
    while i < results.len()
        invariant
            i <= results.len(),
            kept@ == fee_covered_of(results@.take(i as int)),
        decreases results.len() - i,
    {
        let result = results[i];
        proof {
            assert(results@.take(i + 1) =~= results@.take(i as int).push(result));
            results@.take(i as int).lemma_filter_push(
                result,
                |result: TxExecutionResult| result.fee_covered(),
            );
        }
        if result.is_fee_covered() {
            kept.push(result);
        }
        i += 1;
    }
    assert(results@.take(i as int) =~= results@);
    kept
}

} // verus!
