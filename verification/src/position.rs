//! A participant's stored stake.

use crate::amount::Amount;
use vstd::prelude::*;

verus! {

/// What the ledger stores for a participant with an open stake.
#[derive(Debug)]
pub struct StakingPosition {
    /// Principal currently deposited, without any pending reward.
    pub stake_amount: Amount,
    /// Block counter recorded at the participant's last settlement.
    pub last_action_block: u64,
}

/// The mathematical content of a [`StakingPosition`].
pub struct PositionView {
    pub stake_amount: nat,
    pub last_action_block: u64,
}

impl View for StakingPosition {
    type V = PositionView;

    open spec fn view(&self) -> PositionView {
        PositionView {
            stake_amount: self.stake_amount@,
            last_action_block: self.last_action_block,
        }
    }
}

impl PositionView {
    /// The position that a first deposit starts from: no principal yet, and
    /// the clock set to `counter`.
    pub open spec fn fresh(counter: u64) -> PositionView {
        PositionView { stake_amount: 0, last_action_block: counter }
    }

    /// This position once its rewards are settled at `current_block`: the
    /// clock moves there, principal is untouched.
    pub open spec fn settled(self, current_block: u64) -> PositionView {
        PositionView { stake_amount: self.stake_amount, last_action_block: current_block }
    }

    /// This position with `amount` more principal.
    pub open spec fn deposited(self, amount: nat) -> PositionView {
        PositionView {
            stake_amount: self.stake_amount + amount,
            last_action_block: self.last_action_block,
        }
    }

    /// This position with `amount` less principal.
    pub open spec fn withdrawn(self, amount: nat) -> PositionView
        recommends
            amount <= self.stake_amount,
    {
        PositionView {
            stake_amount: (self.stake_amount - amount) as nat,
            last_action_block: self.last_action_block,
        }
    }
}

impl StakingPosition {
    /// A position without principal whose clock reads `counter`.
    pub fn fresh(counter: u64) -> (position: StakingPosition)
        ensures
            position@ == PositionView::fresh(counter),
    {
        StakingPosition { stake_amount: Amount::zero(), last_action_block: counter }
    }
}

impl Clone for StakingPosition {
    fn clone(&self) -> (copy: Self)
        ensures
            copy@ == self@,
    {
        StakingPosition {
            stake_amount: self.stake_amount.clone(),
            last_action_block: self.last_action_block,
        }
    }
}

impl PartialEq for StakingPosition {
    fn eq(&self, other: &Self) -> (same: bool) {
        self.last_action_block == other.last_action_block && self.stake_amount
            == other.stake_amount
    }
}

impl vstd::std_specs::cmp::PartialEqSpecImpl for StakingPosition {
    open spec fn obeys_eq_spec() -> bool {
        true
    }

    open spec fn eq_spec(&self, other: &Self) -> bool {
        self@ == other@
    }
}

} // verus!
