//! What the host tells the ledger about the call in progress.

use crate::amount::Amount;
use crate::identity::Identity;
use vstd::prelude::*;

verus! {

/// The host's answers for one operation: who calls, what its three clocks
/// read, and how much of the asset the ledger holds at that moment.
///
/// The three clocks are distinct counters. Rewards and settlements go by the
/// block nonce, a new position starts from the epoch, and only the reported
/// total of rewards goes by the timestamp.
#[derive(Debug)]
pub struct CallContext {
    /// The identity that started the operation.
    pub caller: Identity,
    /// The block-nonce counter.
    pub block_nonce: u64,
    /// The epoch counter, coarser than the block nonce.
    pub block_epoch: u64,
    /// The wall-clock time of the block.
    pub block_timestamp: u64,
    /// Everything the ledger holds in custody: all principal, a deposit that
    /// comes with the call, and rewards not yet withdrawn.
    pub contract_balance: Amount,
}

/// The mathematical content of a [`CallContext`].
pub struct ContextView {
    pub caller: Identity,
    pub block_nonce: u64,
    pub block_epoch: u64,
    pub block_timestamp: u64,
    pub contract_balance: nat,
}

impl View for CallContext {
    type V = ContextView;

    open spec fn view(&self) -> ContextView {
        ContextView {
            caller: self.caller,
            block_nonce: self.block_nonce,
            block_epoch: self.block_epoch,
            block_timestamp: self.block_timestamp,
            contract_balance: self.contract_balance@,
        }
    }
}

} // verus!
