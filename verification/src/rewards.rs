//! Reward accrual: what a position has earned since its last settlement.

use crate::amount::Amount;
use crate::position::PositionView;
use vstd::prelude::*;

verus! {

/// Reward shared out per block among all stakers.
pub const REWARDS_PER_BLOCK: u64 = 3_000_000_000;

/// The reward pending on `position` at `current_block`, when the ledger holds
/// `pool_balance` in all.
///
/// Nothing accrues unless the block counter has moved past the position's
/// last settlement. Otherwise the position earns, for every elapsed block,
/// the share of `REWARDS_PER_BLOCK` that its principal is of the pool,
/// rounded down once at the end.
pub open spec fn accrued_reward(position: PositionView, current_block: u64, pool_balance: nat) -> nat {
    if current_block <= position.last_action_block {
        0
    } else {
        (position.stake_amount * (REWARDS_PER_BLOCK as nat) * ((current_block
            - position.last_action_block) as nat)) / pool_balance
    }
}

/// Whether the pending reward can be computed: once blocks have elapsed the
/// pool divides the product, so it must not be empty.
pub open spec fn accrual_defined(position: PositionView, current_block: u64, pool_balance: nat) -> bool {
    current_block > position.last_action_block ==> pool_balance > 0
}

/// The transfer that a computed reward calls for: none when it is zero.
pub open spec fn reward_due(reward: nat) -> Option<nat> {
    if reward > 0 {
        Some(reward)
    } else {
        None
    }
}

/// The value of an optional amount.
pub open spec fn amount_of(amount: Option<Amount>) -> Option<nat> {
    match amount {
        Some(a) => Some(a@),
        None => None,
    }
}

} // verus!
