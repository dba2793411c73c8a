//! The ledger and its settlement protocol.
//!
//! Every operation that changes a position first settles it: the pending
//! reward is computed against the principal as it stands and the position's
//! clock is moved to the current block nonce. Only then does principal
//! change. The operations do not move any asset themselves; they return the
//! transfers that the host has to make to the caller.

use crate::active_set::ActiveSet;
use crate::amount::Amount;
use crate::context::CallContext;
use crate::error::StakingError;
use crate::identity::Identity;
use crate::model::{reported_total_rewards, ContractView};
use crate::position::{PositionView, StakingPosition};
use crate::position_store::PositionStore;
use crate::rewards::{accrual_defined, accrued_reward, amount_of, reward_due, REWARDS_PER_BLOCK};
use vstd::prelude::*;

verus! {

/// Whether some row of `rows` belongs to `id`.
pub open spec fn has_row(rows: Seq<(Identity, StakingPosition)>, id: Identity) -> bool {
    exists|i: int| 0 <= i < rows.len() && rows[i].0 == id
}

/// A row of `rows` that belongs to `id`, if there is one.
pub open spec fn row_of(rows: Seq<(Identity, StakingPosition)>, id: Identity) -> int {
    choose|i: int| 0 <= i < rows.len() && rows[i].0 == id
}

/// Whether `rows` can be the positions of a ledger: no participant has two
/// rows, and every row holds principal.
pub open spec fn rows_consistent(rows: Seq<(Identity, StakingPosition)>) -> bool {
    &&& forall|i: int, j: int| 0 <= i < j < rows.len() ==> rows[i].0 != rows[j].0
    &&& forall|i: int| 0 <= i < rows.len() ==> (#[trigger] rows[i]).1@.stake_amount > 0
}

/// The positions that `rows` lists, by participant.
pub open spec fn rows_positions(rows: Seq<(Identity, StakingPosition)>) -> Map<
    Identity,
    PositionView,
> {
    Map::new(|id: Identity| has_row(rows, id), |id: Identity| rows[row_of(rows, id)].1@)
}

/// What a withdrawal hands to the caller.
#[derive(Debug)]
pub struct Withdrawal {
    /// The settled reward, to be transferred first; `None` when it is zero.
    pub reward: Option<Amount>,
    /// The principal taken out, to be transferred after the reward.
    pub principal: Amount,
}

impl Withdrawal {
    /// The transfers to make to the caller, in the order in which they are
    /// to be made: the reward, if there is one, and then the principal.
    pub fn into_transfers(self) -> (transfers: Vec<Amount>)
        ensures
            match self.reward {
                Some(reward) => transfers@.len() == 2 && transfers@[0]@ == reward@
                    && transfers@[1]@ == self.principal@,
                None => transfers@.len() == 1 && transfers@[0]@ == self.principal@,
            },
    {
        let mut transfers: Vec<Amount> = Vec::new();
        match self.reward {
            Some(reward) => {
                transfers.push(reward);
            },
            None => {},
        }
        transfers.push(self.principal);
        transfers
    }
}

/// The staking ledger: the positions, the set of active participants, and
/// the figures recorded at creation.
#[derive(Debug)]
pub struct StakingContract {
    staking_position: PositionStore,
    staked_addresses: ActiveSet,
    total_rewards: Amount,
    creation_timestamp: u64,
    creation_block: u64,
}

impl View for StakingContract {
    type V = ContractView;

    closed spec fn view(&self) -> ContractView {
        ContractView {
            positions: self.staking_position@,
            staked: self.staked_addresses@,
            total_rewards: self.total_rewards@,
            creation_timestamp: self.creation_timestamp,
            creation_block: self.creation_block,
        }
    }
}

impl StakingContract {
    /// The two collections are internally consistent.
    pub closed spec fn wf(&self) -> bool {
        self.staking_position.wf() && self.staked_addresses.wf()
    }

    /// The ledger is well formed and its positions agree with its active set.
    pub open spec fn valid(&self) -> bool {
        self.wf() && self@.inv()
    }

    /// A new ledger, without positions. It records the timestamp and the
    /// epoch counter of the creating call and reports no rewards yet.
    pub fn init(ctx: &CallContext) -> (contract: StakingContract)
        ensures
            contract.valid(),
            contract@.positions == Map::<Identity, PositionView>::empty(),
            contract@.staked == Set::<Identity>::empty(),
            contract@.total_rewards == 0,
            contract@.creation_timestamp == ctx.block_timestamp,
            contract@.creation_block == ctx.block_epoch,
    {
        StakingContract {
            staking_position: PositionStore::new(),
            staked_addresses: ActiveSet::new(),
            total_rewards: Amount::zero(),
            creation_timestamp: ctx.block_timestamp,
            creation_block: ctx.block_epoch,
        }
    }

    /// Rebuilds a ledger from what was persisted: its positions, one row per
    /// participant, and the recorded figures. Returns `None` where the rows
    /// cannot be the positions of a ledger, because a participant has two of
    /// them or one holds no principal.
    pub fn restore(
        rows: &Vec<(Identity, StakingPosition)>,
        total_rewards: Amount,
        creation_timestamp: u64,
        creation_block: u64,
    ) -> (restored: Option<StakingContract>)
        ensures
            restored is Some <==> rows_consistent(rows@),
            restored matches Some(contract) ==> {
                &&& contract.valid()
                &&& contract@.positions == rows_positions(rows@)
                &&& contract@.staked == rows_positions(rows@).dom()
                &&& contract@.total_rewards == total_rewards@
                &&& contract@.creation_timestamp == creation_timestamp
                &&& contract@.creation_block == creation_block
            },
    {
        let mut staking_position = PositionStore::new();
        let mut staked_addresses = ActiveSet::new();
        let mut i: usize = 0;
        while i < rows.len()
            invariant
                i <= rows@.len(),
                staking_position.wf(),
                staked_addresses.wf(),
                rows_consistent(rows@.take(i as int)),
                staking_position@ == rows_positions(rows@.take(i as int)),
                staked_addresses@ == staking_position@.dom(),
            decreases rows@.len() - i,
        {
            let ghost done = rows@.take(i as int);
            let ghost next = rows@.take(i + 1);
            let owner = rows[i].0;
            if rows[i].1.stake_amount.is_zero() {
                return None;
            }
            if !staking_position.is_empty(&owner) {
                return None;
            }
            staking_position.set(owner, rows[i].1.clone());
            let _ = staked_addresses.insert(owner);
            proof {
                assert(next[i as int].0 == owner);
                assert forall|id: Identity| has_row(done, id) implies has_row(next, id) by {}
            }
            i = i + 1;
        }
        assert(rows@.take(i as int) =~= rows@);
        Some(
            StakingContract {
                staking_position,
                staked_addresses,
                total_rewards,
                creation_timestamp,
                creation_block,
            },
        )
    }

    /// Computes the reward pending on `staking_position` under `ctx`, without
    /// changing anything.
    pub fn update_rewards(staking_position: &StakingPosition, ctx: &CallContext) -> (reward: Amount)
        requires
            accrual_defined(staking_position@, ctx.block_nonce, ctx.contract_balance@),
        ensures
            reward@ == accrued_reward(staking_position@, ctx.block_nonce, ctx.contract_balance@),
    {
        let current_block = ctx.block_nonce;
        if current_block <= staking_position.last_action_block {
            return Amount::zero();
        }
        let block_diff: u64 = current_block - staking_position.last_action_block;
        let per_block = Amount::from_u64(REWARDS_PER_BLOCK);
        let elapsed = Amount::from_u64(block_diff);
        staking_position.stake_amount.times(&per_block).times(&elapsed).divided_by(
            &ctx.contract_balance,
        )
    }

    /// Settles `staking_pos` under `ctx`: computes the pending reward against
    /// the principal as it stands, moves the position's clock to the block
    /// nonce whether or not anything accrued, and returns the reward to
    /// transfer to the position's owner, if it is not zero.
    pub fn claim_rewards_for_user(staking_pos: &mut StakingPosition, ctx: &CallContext) -> (reward:
        Option<Amount>)
        requires
            accrual_defined(old(staking_pos)@, ctx.block_nonce, ctx.contract_balance@),
        ensures
            final(staking_pos)@ == old(staking_pos)@.settled(ctx.block_nonce),
            amount_of(reward) == reward_due(
                accrued_reward(old(staking_pos)@, ctx.block_nonce, ctx.contract_balance@),
            ),
    {
        let reward_amount = Self::update_rewards(staking_pos, ctx);
        staking_pos.last_action_block = ctx.block_nonce;
        if reward_amount.is_zero() {
            None
        } else {
            Some(reward_amount)
        }
    }

    /// Fails with `NotStaked` unless `user` has an open position.
    pub fn require_user_staked(&self, user: &Identity) -> (outcome: Result<(), StakingError>)
        requires
            self.valid(),
        ensures
            self@.staked.contains(*user) ==> outcome is Ok,
            !self@.staked.contains(*user) ==> outcome == Err::<(), StakingError>(
                StakingError::NotStaked,
            ),
    {
        if self.staked_addresses.contains(user) {
            Ok(())
        } else {
            Err(StakingError::NotStaked)
        }
    }

    /// Whether the reward pending on `staking_position` under `ctx` can be
    /// computed: once blocks have elapsed, the ledger's balance must not be
    /// zero.
    pub fn can_update_rewards(staking_position: &StakingPosition, ctx: &CallContext) -> (defined: bool)
        ensures
            defined == accrual_defined(staking_position@, ctx.block_nonce, ctx.contract_balance@),
    {
        ctx.block_nonce <= staking_position.last_action_block || !ctx.contract_balance.is_zero()
    }

    /// Whether the reward pending for `addr` under `ctx` can be computed,
    /// which is what `claim_rewards` and `calculate_rewards_for_user` ask for.
    pub fn reward_defined(&self, addr: &Identity, ctx: &CallContext) -> (defined: bool)
        requires
            self.valid(),
        ensures
            defined == self@.reward_defined(*addr, ctx@),
    {
        match self.staking_position.get(addr) {
            Some(staking_pos) => Self::can_update_rewards(&staking_pos, ctx),
            None => true,
        }
    }

    /// Whether `stake` can be called with `payment_amount` under `ctx`.
    pub fn stake_defined(&self, ctx: &CallContext, payment_amount: &Amount) -> (defined: bool)
        requires
            self.valid(),
        ensures
            defined == self@.stake_defined(ctx@, payment_amount@),
    {
        if payment_amount.is_zero() {
            return true;
        }
        match self.staking_position.get(&ctx.caller) {
            Some(staking_pos) => Self::can_update_rewards(&staking_pos, ctx),
            None => Self::can_update_rewards(&StakingPosition::fresh(ctx.block_epoch), ctx),
        }
    }

    /// Whether `unstake` can be called with `opt_unstake_amount` under `ctx`.
    pub fn unstake_defined(&self, ctx: &CallContext, opt_unstake_amount: &Option<Amount>) -> (defined:
        bool)
        requires
            self.valid(),
        ensures
            defined == self@.unstake_defined(ctx@, amount_of(*opt_unstake_amount)),
    {
        let requested = match opt_unstake_amount {
            Some(amount) => Some(amount.clone()),
            None => None,
        };
        match self.unstake_request(&ctx.caller, requested) {
            Ok(request) => Self::can_update_rewards(&request.0, ctx),
            Err(_) => true,
        }
    }

    /// Checks a withdrawal request of `caller`. Returns the caller's position
    /// and the amount to withdraw, or why the request is refused.
    fn unstake_request(&self, caller: &Identity, opt_unstake_amount: Option<Amount>) -> (checked:
        Result<(StakingPosition, Amount), StakingError>)
        requires
            self.valid(),
        ensures
            match self@.unstake_refusal(*caller, amount_of(opt_unstake_amount)) {
                Some(refusal) => checked is Err && checked->Err_0 == refusal,
                None => checked is Ok && checked->Ok_0.0@ == self@.positions[*caller]
                    && checked->Ok_0.1@ == self@.unstake_target(
                    *caller,
                    amount_of(opt_unstake_amount),
                ),
            },
    {
        match self.require_user_staked(caller) {
            Err(refusal) => {
                return Err(refusal);
            },
            Ok(_) => {},
        }
        let staking_pos = self.staking_position.get(caller).unwrap();

        let unstake_amount = match opt_unstake_amount {
            Some(amount) => amount,
            None => staking_pos.stake_amount.clone(),
        };
        if unstake_amount.is_zero() || !unstake_amount.at_most(&staking_pos.stake_amount) {
            return Err(StakingError::InvalidUnstakeAmount);
        }
        Ok((staking_pos, unstake_amount))
    }

    /// Deposits `payment_amount` for the caller.
    ///
    /// A payment of zero is refused with `InvalidPayment`. Otherwise the
    /// caller's position is settled, or for a first deposit a fresh position
    /// whose clock reads the epoch counter, and the payment is added to its
    /// principal. Returns the settled reward to transfer to the caller, if it
    /// is not zero.
    pub fn stake(&mut self, ctx: &CallContext, payment_amount: Amount) -> (outcome: Result<
        Option<Amount>,
        StakingError,
    >)
        requires
            old(self).valid(),
            old(self)@.stake_defined(ctx@, payment_amount@),
        ensures
            final(self).valid(),
            payment_amount@ == 0 ==> outcome == Err::<Option<Amount>, StakingError>(
                StakingError::InvalidPayment,
            ) && final(self)@ == old(self)@,
            payment_amount@ > 0 ==> outcome is Ok && amount_of(outcome->Ok_0) == reward_due(
                old(self)@.stake_reward(ctx@),
            ) && final(self)@ == old(self)@.after_stake(ctx@, payment_amount@),
    {
        if payment_amount.is_zero() {
            return Err(StakingError::InvalidPayment);
        }
        let caller = ctx.caller;
        let new_user = self.staked_addresses.insert(caller);
        let mut staking_pos = if !new_user {
            self.staking_position.get(&caller).unwrap()
        } else {
            StakingPosition::fresh(ctx.block_epoch)
        };

        let reward = Self::claim_rewards_for_user(&mut staking_pos, ctx);
        staking_pos.stake_amount = staking_pos.stake_amount.plus(&payment_amount);

        self.staking_position.set(caller, staking_pos);
        Ok(reward)
    }

    /// Withdraws principal for the caller: `opt_unstake_amount`, or all of it
    /// where no amount is given.
    ///
    /// A caller without a position is refused with `NotStaked`; an amount of
    /// zero or above the principal with `InvalidUnstakeAmount`. Otherwise the
    /// position is settled, the amount is taken from its principal, and the
    /// position is deleted and the caller struck from the active set when
    /// nothing is left. Returns the transfers to make to the caller.
    pub fn unstake(&mut self, ctx: &CallContext, opt_unstake_amount: Option<Amount>) -> (outcome:
        Result<Withdrawal, StakingError>)
        requires
            old(self).valid(),
            old(self)@.unstake_defined(ctx@, amount_of(opt_unstake_amount)),
        ensures
            final(self).valid(),
            match old(self)@.unstake_refusal(ctx.caller, amount_of(opt_unstake_amount)) {
                Some(refusal) => outcome is Err && outcome->Err_0 == refusal && final(self)@
                    == old(self)@,
                None => {
                    let target = old(self)@.unstake_target(
                        ctx.caller,
                        amount_of(opt_unstake_amount),
                    );
                    &&& outcome is Ok
                    &&& amount_of(outcome->Ok_0.reward) == reward_due(
                        old(self)@.pending_reward(ctx.caller, ctx@),
                    )
                    &&& outcome->Ok_0.principal@ == target
                    &&& final(self)@ == old(self)@.after_unstake(ctx@, target)
                },
            },
    {
        let caller = ctx.caller;
        let (mut staking_pos, unstake_amount) = match self.unstake_request(
            &caller,
            opt_unstake_amount,
        ) {
            Err(refusal) => {
                return Err(refusal);
            },
            Ok(request) => request,
        };
        let reward = Self::claim_rewards_for_user(&mut staking_pos, ctx);
        staking_pos.stake_amount = staking_pos.stake_amount.minus(&unstake_amount);

        if !staking_pos.stake_amount.is_zero() {
            self.staking_position.set(caller, staking_pos);
        } else {
            self.staking_position.clear(&caller);
            let _ = self.staked_addresses.swap_remove(&caller);
        }
        assert(self@.staked == old(self)@.after_unstake(ctx@, unstake_amount@).staked);
        Ok(Withdrawal { reward, principal: unstake_amount })
    }

    /// Settles the caller's position without touching its principal.
    ///
    /// A caller without a position is refused with `NotStaked`. Returns the
    /// settled reward to transfer to the caller, if it is not zero.
    pub fn claim_rewards(&mut self, ctx: &CallContext) -> (outcome: Result<
        Option<Amount>,
        StakingError,
    >)
        requires
            old(self).valid(),
            old(self)@.reward_defined(ctx.caller, ctx@),
        ensures
            final(self).valid(),
            !old(self)@.staked.contains(ctx.caller) ==> outcome == Err::<
                Option<Amount>,
                StakingError,
            >(StakingError::NotStaked) && final(self)@ == old(self)@,
            old(self)@.staked.contains(ctx.caller) ==> outcome is Ok && amount_of(outcome->Ok_0)
                == reward_due(old(self)@.pending_reward(ctx.caller, ctx@)) && final(self)@
                == old(self)@.after_claim(ctx@),
    {
        let caller = ctx.caller;
        match self.require_user_staked(&caller) {
            Err(refusal) => {
                return Err(refusal);
            },
            Ok(_) => {},
        }
        let mut staking_pos = self.staking_position.get(&caller).unwrap();

        let reward = Self::claim_rewards_for_user(&mut staking_pos, ctx);

        self.staking_position.set(caller, staking_pos);
        assert(self@.staked == old(self)@.after_claim(ctx@).staked);
        Ok(reward)
    }

    /// Recomputes the informational reward total from the time elapsed since
    /// creation, records it and returns it.
    pub fn update_total_rewards(&mut self, ctx: &CallContext) -> (total: Amount)
        requires
            old(self).valid(),
            old(self)@.creation_timestamp <= ctx.block_timestamp,
        ensures
            final(self).valid(),
            total@ == reported_total_rewards(old(self)@.creation_timestamp, ctx.block_timestamp),
            final(self)@ == old(self)@.with_total_rewards(total@),
    {
        let total_timestamp_passed: u64 = ctx.block_timestamp - self.creation_timestamp;
        let total_rewards = Amount::from_u64(total_timestamp_passed).times(
            &Amount::from_u64(REWARDS_PER_BLOCK),
        );

        self.total_rewards = total_rewards.clone();
        assert(self@ == old(self)@.with_total_rewards(total_rewards@));

        total_rewards
    }

    /// The informational reward total as of `ctx`, recorded as a side effect.
    pub fn get_updated_total_rewards(&mut self, ctx: &CallContext) -> (total: Amount)
        requires
            old(self).valid(),
            old(self)@.creation_timestamp <= ctx.block_timestamp,
        ensures
            final(self).valid(),
            total@ == reported_total_rewards(old(self)@.creation_timestamp, ctx.block_timestamp),
            final(self)@ == old(self)@.with_total_rewards(total@),
    {
        self.update_total_rewards(ctx)
    }

    /// The reward total as last recorded.
    pub fn total_rewards(&self) -> (total: Amount)
        ensures
            total@ == self@.total_rewards,
    {
        self.total_rewards.clone()
    }

    /// The reward pending for `addr` under `ctx`, or `None` where `addr` has
    /// no position. Nothing is recorded and nothing is paid.
    pub fn calculate_rewards_for_user(&self, ctx: &CallContext, addr: &Identity) -> (reward: Option<
        Amount,
    >)
        requires
            self.valid(),
            self@.reward_defined(*addr, ctx@),
        ensures
            amount_of(reward) == if self@.positions.contains_key(*addr) {
                Some(self@.pending_reward(*addr, ctx@))
            } else {
                None
            },
    {
        match self.staking_position.get(addr) {
            Some(staking_pos) => Some(Self::update_rewards(&staking_pos, ctx)),
            None => None,
        }
    }

    /// The principal stored for `user`, or `None` where `user` has no
    /// position.
    pub fn get_stake_amount(&self, user: &Identity) -> (stake: Option<Amount>)
        requires
            self.valid(),
        ensures
            amount_of(stake) == if self@.positions.contains_key(*user) {
                Some(self@.positions[*user].stake_amount)
            } else {
                None
            },
    {
        match self.staking_position.get(user) {
            Some(staking_pos) => Some(staking_pos.stake_amount),
            None => None,
        }
    }

    /// The position stored for `addr`, or `None` where there is none.
    pub fn staking_position(&self, addr: &Identity) -> (stored: Option<StakingPosition>)
        requires
            self.valid(),
        ensures
            match stored {
                Some(position) => self@.positions.contains_key(*addr) && position@
                    == self@.positions[*addr],
                None => !self@.positions.contains_key(*addr),
            },
    {
        self.staking_position.get(addr)
    }

    /// The active participants, each once, in no particular order.
    pub fn staked_addresses(&self) -> (list: Vec<Identity>)
        requires
            self.valid(),
        ensures
            list@.no_duplicates(),
            forall|id: Identity| list@.contains(id) <==> self@.staked.contains(id),
    {
        self.staked_addresses.members()
    }

    /// The epoch counter recorded at creation.
    pub fn contract_creation_block(&self) -> (epoch: u64)
        ensures
            epoch == self@.creation_block,
    {
        self.creation_block
    }

    /// The wall-clock time recorded at creation.
    pub fn contract_creation_timestamp(&self) -> (timestamp: u64)
        ensures
            timestamp == self@.creation_timestamp,
    {
        self.creation_timestamp
    }
}

} // verus!
