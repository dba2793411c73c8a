//! The ledger as a mathematical object: what it holds, when it is
//! consistent, and what each operation makes of it.

use crate::context::ContextView;
use crate::error::StakingError;
use crate::identity::Identity;
use crate::position::PositionView;
use crate::rewards::{accrual_defined, accrued_reward, REWARDS_PER_BLOCK};
use vstd::prelude::*;

verus! {

/// The informational reward total: `REWARDS_PER_BLOCK` for every unit of time
/// since creation. It is a display figure and is not reconciled with what
/// was paid out.
pub open spec fn reported_total_rewards(creation_timestamp: u64, now: u64) -> nat
    recommends
        creation_timestamp <= now,
{
    ((now - creation_timestamp) as nat) * (REWARDS_PER_BLOCK as nat)
}

/// The mathematical content of a [`StakingContract`].
pub struct ContractView {
    /// The stored position of each participant that has one.
    pub positions: Map<Identity, PositionView>,
    /// The participants listed as active.
    pub staked: Set<Identity>,
    /// The reward total as last reported.
    pub total_rewards: nat,
    /// Wall-clock time at creation.
    pub creation_timestamp: u64,
    /// Epoch counter at creation.
    pub creation_block: u64,
}

impl ContractView {
    /// A participant has a stored position exactly when it is listed as
    /// active, and a stored position always holds principal.
    pub open spec fn inv(self) -> bool {
        &&& forall|id: Identity| self.positions.contains_key(id) <==> self.staked.contains(id)
        &&& forall|id: Identity|
            self.positions.contains_key(id) ==> (#[trigger] self.positions[id]).stake_amount > 0
    }

    /// The principal of `id`: zero for a participant without a position.
    pub open spec fn stake_of(self, id: Identity) -> nat {
        if self.positions.contains_key(id) {
            self.positions[id].stake_amount
        } else {
            0
        }
    }

    /// The position that a deposit by `caller` works on: the stored one, or
    /// for a first deposit a fresh one whose clock reads the epoch counter.
    pub open spec fn pending(self, caller: Identity, block_epoch: u64) -> PositionView {
        if self.staked.contains(caller) {
            self.positions[caller]
        } else {
            PositionView::fresh(block_epoch)
        }
    }

    /// This ledger with `position` stored for `id`, and `id` active.
    pub open spec fn with_position(self, id: Identity, position: PositionView) -> ContractView {
        ContractView {
            positions: self.positions.insert(id, position),
            staked: self.staked.insert(id),
            total_rewards: self.total_rewards,
            creation_timestamp: self.creation_timestamp,
            creation_block: self.creation_block,
        }
    }

    /// This ledger without any position for `id`, and `id` not active.
    pub open spec fn without_position(self, id: Identity) -> ContractView {
        ContractView {
            positions: self.positions.remove(id),
            staked: self.staked.remove(id),
            total_rewards: self.total_rewards,
            creation_timestamp: self.creation_timestamp,
            creation_block: self.creation_block,
        }
    }

    /// The reward that a deposit under `ctx` settles.
    pub open spec fn stake_reward(self, ctx: ContextView) -> nat {
        accrued_reward(
            self.pending(ctx.caller, ctx.block_epoch),
            ctx.block_nonce,
            ctx.contract_balance,
        )
    }

    /// The ledger after the caller of `ctx` has deposited `payment`.
    pub open spec fn after_stake(self, ctx: ContextView, payment: nat) -> ContractView {
        self.with_position(
            ctx.caller,
            self.pending(ctx.caller, ctx.block_epoch).settled(ctx.block_nonce).deposited(payment),
        )
    }

    /// The reward pending for `id` under `ctx`, which is also what a claim or
    /// a withdrawal by `id` settles.
    pub open spec fn pending_reward(self, id: Identity, ctx: ContextView) -> nat {
        accrued_reward(self.positions[id], ctx.block_nonce, ctx.contract_balance)
    }

    /// The ledger after the caller of `ctx` has claimed its rewards.
    pub open spec fn after_claim(self, ctx: ContextView) -> ContractView {
        self.with_position(ctx.caller, self.positions[ctx.caller].settled(ctx.block_nonce))
    }

    /// How much a withdrawal request by `caller` asks for: the amount given,
    /// or the whole principal where none is given.
    pub open spec fn unstake_target(self, caller: Identity, requested: Option<nat>) -> nat {
        match requested {
            Some(amount) => amount,
            None => self.positions[caller].stake_amount,
        }
    }

    /// Why a withdrawal request by `caller` is refused, if it is.
    pub open spec fn unstake_refusal(self, caller: Identity, requested: Option<nat>) -> Option<
        StakingError,
    > {
        if !self.staked.contains(caller) {
            Some(StakingError::NotStaked)
        } else if self.unstake_target(caller, requested) == 0 || self.unstake_target(
            caller,
            requested,
        ) > self.positions[caller].stake_amount {
            Some(StakingError::InvalidUnstakeAmount)
        } else {
            None
        }
    }

    /// The ledger after the caller of `ctx` has withdrawn `target`: the
    /// position is deleted when nothing is left in it.
    pub open spec fn after_unstake(self, ctx: ContextView, target: nat) -> ContractView {
        let left = self.positions[ctx.caller].settled(ctx.block_nonce).withdrawn(target);
        if left.stake_amount == 0 {
            self.without_position(ctx.caller)
        } else {
            self.with_position(ctx.caller, left)
        }
    }

    /// Whether the reward pending for `id` under `ctx` can be computed. For a
    /// participant without a position there is nothing to compute.
    pub open spec fn reward_defined(self, id: Identity, ctx: ContextView) -> bool {
        self.positions.contains_key(id) ==> accrual_defined(
            self.positions[id],
            ctx.block_nonce,
            ctx.contract_balance,
        )
    }

    /// Whether a deposit of `payment` under `ctx` can be carried out: a
    /// deposit that is not refused settles the position it works on.
    pub open spec fn stake_defined(self, ctx: ContextView, payment: nat) -> bool {
        payment > 0 ==> accrual_defined(
            self.pending(ctx.caller, ctx.block_epoch),
            ctx.block_nonce,
            ctx.contract_balance,
        )
    }

    /// Whether a withdrawal request under `ctx` can be carried out: a
    /// request that is not refused settles the caller's position.
    pub open spec fn unstake_defined(self, ctx: ContextView, requested: Option<nat>) -> bool {
        self.unstake_refusal(ctx.caller, requested) is None ==> accrual_defined(
            self.positions[ctx.caller],
            ctx.block_nonce,
            ctx.contract_balance,
        )
    }

    /// This ledger with another reported reward total.
    pub open spec fn with_total_rewards(self, total: nat) -> ContractView {
        ContractView {
            positions: self.positions,
            staked: self.staked,
            total_rewards: total,
            creation_timestamp: self.creation_timestamp,
            creation_block: self.creation_block,
        }
    }
}

} // verus!
