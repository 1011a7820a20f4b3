//! The transactional scope of a block: which storage transaction is live, for
//! which height, and whether it has a savepoint to rewind to.
//!
//! The scope is the record of the storage transaction, not the transaction
//! itself: whoever holds the storage performs each operation there as well.

use vstd::prelude::*;

verus! {

/// The live storage transaction of a height.
#[derive(Clone, Copy, PartialEq, Eq, Debug, Structural)]
pub struct LiveTransaction {
    /// Height that the transaction belongs to.
    pub height: u64,
    /// Round at which the savepoint was set, if one was.
    pub savepoint: Option<u32>,
}

/// Why an operation on the scope was refused.
#[derive(Clone, Copy, PartialEq, Eq, Debug, Structural)]
pub enum TransactionError {
    /// No transaction is live.
    NoTransaction,
    /// The live transaction has no savepoint.
    NoSavepoint,
}

/// Holds at most one live transaction.
#[derive(Debug)]
pub struct TransactionScope {
    live: Option<LiveTransaction>,
}

impl View for TransactionScope {
    type V = Option<LiveTransaction>;

    closed spec fn view(&self) -> Option<LiveTransaction> {
        self.live
    }
}

impl TransactionScope {
    /// A scope with no live transaction.
    pub fn new() -> (scope: Self)
        ensures
            scope@ is None,
    {
        TransactionScope { live: None }
    }

    /// The live transaction, if there is one.
    pub fn current(&self) -> (live: Option<LiveTransaction>)
        ensures
            live == self@,
    {
        self.live
    }

    /// Whether a transaction is live.
    pub fn is_live(&self) -> (live: bool)
        ensures
            live == self@ is Some,
    {
        self.live.is_some()
    }

    /// Begins the transaction of `height`. A transaction that was live is
    /// replaced and handed back, so that one transaction at most is live.
    pub fn begin(&mut self, height: u64) -> (replaced: Option<LiveTransaction>)
        ensures
            final(self)@ == Some(LiveTransaction { height, savepoint: None }),
            replaced == old(self)@,
    {
        let replaced = self.live;
        self.live = Some(LiveTransaction { height, savepoint: None });
        replaced
    }

    /// Sets the savepoint of the live transaction at `round`; an earlier
    /// savepoint is given up.
    pub fn savepoint(&mut self, round: u32) -> (outcome: Result<(), TransactionError>)
        ensures
            match old(self)@ {
                Some(live) => outcome is Ok && final(self)@ == Some(
                    LiveTransaction { height: live.height, savepoint: Some(round) },
                ),
                None => outcome == Err::<(), TransactionError>(TransactionError::NoTransaction)
                    && final(self)@ is None,
            },
    {
        match self.live {
            Some(live) => {
                self.live = Some(LiveTransaction { height: live.height, savepoint: Some(round) });
                Ok(())
            },
            None => Err(TransactionError::NoTransaction),
        }
    }

    /// Rewinds the live transaction to its savepoint and gives the round of the
    /// savepoint. The transaction stays the one it was: no other is begun.
    pub fn rollback_to_savepoint(&mut self) -> (outcome: Result<u32, TransactionError>)
        ensures
            final(self)@ == old(self)@,
            outcome == rewind_of(old(self)@),
    {
        match self.live {
            Some(live) => match live.savepoint {
                Some(round) => Ok(round),
                None => Err(TransactionError::NoSavepoint),
            },
            None => Err(TransactionError::NoTransaction),
        }
    }

    /// Commits the live transaction and gives its height; afterwards none is
    /// live.
    pub fn commit(&mut self) -> (outcome: Result<u64, TransactionError>)
        ensures
            final(self)@ is None,
            match old(self)@ {
                Some(live) => outcome == Ok::<u64, TransactionError>(live.height),
                None => outcome == Err::<u64, TransactionError>(TransactionError::NoTransaction),
            },
    {
        match self.live {
            Some(live) => {
                self.live = None;
                Ok(live.height)
            },
            None => Err(TransactionError::NoTransaction),
        }
    }

    /// Gives up the live transaction, if there is one, and hands it back.
    pub fn discard(&mut self) -> (discarded: Option<LiveTransaction>)
        ensures
            final(self)@ is None,
            discarded == old(self)@,
    {
        let discarded = self.live;
        self.live = None;
        discarded
    }
}

/// What a rewind gives: the round of the savepoint, or why there is nothing to
/// rewind to.
pub open spec fn rewind_of(live: Option<LiveTransaction>) -> Result<u32, TransactionError> {
    match live {
        Some(transaction) => match transaction.savepoint {
            Some(round) => Ok(round),
            None => Err(TransactionError::NoSavepoint),
        },
        None => Err(TransactionError::NoTransaction),
    }
}

} // verus!
