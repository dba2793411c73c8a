//! Properties of the ledger that hold for every state and every call.

use crate::context::ContextView;
use crate::model::ContractView;
use crate::identity::Identity;
use crate::position::PositionView;
use crate::rewards::{accrued_reward, REWARDS_PER_BLOCK};
use vstd::prelude::*;

verus! {

/// Whether `after` is what a successful operation of the caller of `ctx`
/// makes of `before`: a deposit, a claim, or a withdrawal.
pub open spec fn settles(before: ContractView, after: ContractView, ctx: ContextView) -> bool {
    ||| exists|payment: nat| payment > 0 && after == before.after_stake(ctx, payment)
    ||| before.staked.contains(ctx.caller) && after == before.after_claim(ctx)
    ||| exists|requested: Option<nat>|
        before.unstake_refusal(ctx.caller, requested) is None && after == before.after_unstake(
            ctx,
            before.unstake_target(ctx.caller, requested),
        )
}

/// In a consistent ledger, for every identity, these three say the same: a
/// position is stored for it, it is in the active set, its principal is not
/// zero.
pub proof fn lemma_position_iff_active_iff_staked(ledger: ContractView, id: Identity)
    requires
        ledger.inv(),
    ensures
        ledger.positions.contains_key(id) <==> ledger.staked.contains(id),
        ledger.staked.contains(id) <==> ledger.stake_of(id) > 0,
{
}

/// A deposit keeps the ledger consistent.
pub proof fn lemma_stake_keeps_invariant(ledger: ContractView, ctx: ContextView, payment: nat)
    requires
        ledger.inv(),
        payment > 0,
    ensures
        ledger.after_stake(ctx, payment).inv(),
{
}

/// A claim keeps the ledger consistent.
pub proof fn lemma_claim_keeps_invariant(ledger: ContractView, ctx: ContextView)
    requires
        ledger.inv(),
        ledger.staked.contains(ctx.caller),
    ensures
        ledger.after_claim(ctx).inv(),
{
}

/// A withdrawal that is not refused keeps the ledger consistent, whether it
/// empties the position or not.
pub proof fn lemma_unstake_keeps_invariant(
    ledger: ContractView,
    ctx: ContextView,
    requested: Option<nat>,
)
    requires
        ledger.inv(),
        ledger.unstake_refusal(ctx.caller, requested) is None,
    ensures
        ledger.after_unstake(ctx, ledger.unstake_target(ctx.caller, requested)).inv(),
{
}

/// Every successful operation keeps the ledger consistent, leaves the
/// positions of all other participants and the figures recorded at creation
/// as they were, and leaves the caller's clock, if the caller still has a
/// position, at the block nonce of the call.
pub proof fn lemma_settlement_step(before: ContractView, after: ContractView, ctx: ContextView)
    requires
        before.inv(),
        settles(before, after, ctx),
    ensures
        after.inv(),
        forall|other: Identity|
            other != ctx.caller ==> after.positions.contains_key(other)
                == before.positions.contains_key(other),
        forall|other: Identity|
            other != ctx.caller && before.positions.contains_key(other) ==> after.positions[other]
                == before.positions[other],
        after.positions.contains_key(ctx.caller) ==> after.positions[ctx.caller].last_action_block
            == ctx.block_nonce,
        after.creation_timestamp == before.creation_timestamp,
        after.creation_block == before.creation_block,
        after.total_rewards == before.total_rewards,
{
}

/// A settlement never moves a stored clock back, as long as the host's block
/// nonce has not gone back since that clock was recorded.
pub proof fn lemma_last_action_block_non_decreasing(
    before: ContractView,
    after: ContractView,
    ctx: ContextView,
)
    requires
        before.inv(),
        settles(before, after, ctx),
        before.positions.contains_key(ctx.caller),
        after.positions.contains_key(ctx.caller),
        before.positions[ctx.caller].last_action_block <= ctx.block_nonce,
    ensures
        before.positions[ctx.caller].last_action_block
            <= after.positions[ctx.caller].last_action_block,
{
}

/// Across two successive settlements of one participant, under block nonces
/// that do not decrease, the stored clock does not decrease.
pub proof fn lemma_successive_settlements_non_decreasing(
    start: ContractView,
    middle: ContractView,
    end: ContractView,
    first: ContextView,
    second: ContextView,
)
    requires
        start.inv(),
        settles(start, middle, first),
        settles(middle, end, second),
        first.caller == second.caller,
        first.block_nonce <= second.block_nonce,
        middle.positions.contains_key(first.caller),
        end.positions.contains_key(first.caller),
    ensures
        middle.positions[first.caller].last_action_block
            <= end.positions[first.caller].last_action_block,
{
}

/// Rewards are never negative, and nothing accrues while the block counter
/// has not moved past the position's last settlement.
pub proof fn lemma_no_reward_without_block_advance(
    position: PositionView,
    current_block: u64,
    pool_balance: nat,
)
    ensures
        accrued_reward(position, current_block, pool_balance) >= 0,
        position.stake_amount >= 0,
        current_block <= position.last_action_block ==> accrued_reward(
            position,
            current_block,
            pool_balance,
        ) == 0,
{
}

/// A position that is the whole pool earns `REWARDS_PER_BLOCK` for every
/// elapsed block, whatever its size.
pub proof fn lemma_sole_staker_reward(position: PositionView, current_block: u64)
    requires
        position.stake_amount > 0,
        position.last_action_block < current_block,
    ensures
        accrued_reward(position, current_block, position.stake_amount) == REWARDS_PER_BLOCK * (
        current_block - position.last_action_block),
{
    let stake = position.stake_amount as int;
    let rate = REWARDS_PER_BLOCK as int;
    let elapsed = (current_block - position.last_action_block) as int;
    assert((stake * rate * elapsed) / stake == rate * elapsed) by (nonlinear_arith)
        requires
            stake > 0,
    ;
}

/// With exactly one active participant, whose principal is all that the
/// ledger holds, that participant's pending reward is `REWARDS_PER_BLOCK`
/// for every block since its last settlement.
pub proof fn lemma_single_participant_reward(ledger: ContractView, ctx: ContextView)
    requires
        ledger.inv(),
        ledger.staked == set![ctx.caller],
        ctx.contract_balance == ledger.stake_of(ctx.caller),
        ledger.positions[ctx.caller].last_action_block < ctx.block_nonce,
    ensures
        ledger.pending_reward(ctx.caller, ctx) == REWARDS_PER_BLOCK * (ctx.block_nonce
            - ledger.positions[ctx.caller].last_action_block),
{
    assert(ledger.staked.contains(ctx.caller));
    lemma_sole_staker_reward(ledger.positions[ctx.caller], ctx.block_nonce);
}

/// Depositing an amount and withdrawing the same amount at the same block
/// nonce cancels out: the withdrawal is accepted, settles no reward and pays
/// back exactly the deposit; the caller's principal and everybody else's
/// position are as before the deposit. A caller that had no position has
/// none afterwards, and the ledger is exactly as it was; a caller that had
/// one has it back with its clock at the block nonce. The deposit itself
/// settles no reward either when the caller is new, or when the block nonce
/// has not moved past the caller's last settlement, so that custody then
/// ends where it started.
pub proof fn lemma_stake_then_unstake_round_trip(
    ledger: ContractView,
    deposit: ContextView,
    withdrawal: ContextView,
    amount: nat,
)
    requires
        ledger.inv(),
        amount > 0,
        withdrawal.caller == deposit.caller,
        withdrawal.block_nonce == deposit.block_nonce,
        ledger.stake_defined(deposit, amount),
    ensures
        ({
            let staked = ledger.after_stake(deposit, amount);
            let unstaked = staked.after_unstake(withdrawal, amount);
            &&& staked.unstake_refusal(deposit.caller, Some(amount)) is None
            &&& staked.unstake_target(deposit.caller, Some(amount)) == amount
            &&& staked.pending_reward(deposit.caller, withdrawal) == 0
            &&& unstaked.stake_of(deposit.caller) == ledger.stake_of(deposit.caller)
            &&& unstaked.staked == ledger.staked
            &&& forall|other: Identity|
                other != deposit.caller && ledger.positions.contains_key(other)
                    ==> unstaked.positions[other] == ledger.positions[other]
            &&& !ledger.staked.contains(deposit.caller) ==> unstaked == ledger
                && ledger.stake_reward(deposit) == 0
            &&& ledger.staked.contains(deposit.caller) ==> unstaked == ledger.after_claim(deposit)
            &&& ledger.staked.contains(deposit.caller) && deposit.block_nonce
                <= ledger.positions[deposit.caller].last_action_block ==> ledger.stake_reward(
                deposit,
            ) == 0
        }),
{
    let caller = deposit.caller;
    let staked = ledger.after_stake(deposit, amount);
    let unstaked = staked.after_unstake(withdrawal, amount);
    if ledger.staked.contains(caller) {
        let expected = ledger.after_claim(deposit);
        assert(unstaked.positions =~= expected.positions);
        assert(unstaked.staked =~= expected.staked);
    } else {
        assert(unstaked.positions =~= ledger.positions);
        let fresh = PositionView::fresh(deposit.block_epoch);
        let rate = REWARDS_PER_BLOCK as int;
        if deposit.block_nonce > fresh.last_action_block {
            let elapsed = (deposit.block_nonce - fresh.last_action_block) as int;
            let pool = deposit.contract_balance as int;
            assert((0 * rate * elapsed) / pool == 0) by (nonlinear_arith)
                requires
                    pool > 0,
            ;
        }
    }
}

} // verus!
