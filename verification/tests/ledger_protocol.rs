use staking_contract::{
    Amount, CallContext, Identity, StakingContract, StakingError, StakingPosition,
    REWARDS_PER_BLOCK,
};

const S: u64 = 1_000_000_000_000_000_000;

fn alice() -> Identity {
    Identity::new([0xa1; 32])
}

fn bob() -> Identity {
    Identity::new([0xb0; 32])
}

fn carol() -> Identity {
    Identity::new([0xc0; 32])
}

fn call(caller: Identity, block_nonce: u64, contract_balance: u64) -> CallContext {
    CallContext {
        caller,
        block_nonce,
        block_epoch: 0,
        block_timestamp: 0,
        contract_balance: Amount::from_u64(contract_balance),
    }
}

fn new_contract() -> StakingContract {
    StakingContract::init(&call(Identity::new([0; 32]), 0, 0))
}

fn position(stake: u64, last_action_block: u64) -> StakingPosition {
    StakingPosition { stake_amount: Amount::from_u64(stake), last_action_block }
}

/// A position is stored exactly for the active participants, and none of the
/// stored positions is empty.
fn assert_consistent(contract: &StakingContract, everyone: &[Identity]) {
    let active = contract.staked_addresses();
    for id in everyone {
        let stored = contract.staking_position(id);
        assert_eq!(stored.is_some(), active.contains(id));
        assert_eq!(contract.require_user_staked(id).is_ok(), active.contains(id));
        if let Some(stored) = stored {
            assert!(!stored.stake_amount.is_zero());
        }
    }
}

#[test]
fn new_ledger_is_empty() {
    let deploy = CallContext {
        caller: alice(),
        block_nonce: 40,
        block_epoch: 3,
        block_timestamp: 1_700_000_000,
        contract_balance: Amount::zero(),
    };
    let contract = StakingContract::init(&deploy);
    assert!(contract.staked_addresses().is_empty());
    assert_eq!(contract.staking_position(&alice()), None);
    assert!(contract.total_rewards().is_zero());
    assert_eq!(contract.contract_creation_timestamp(), 1_700_000_000);
    assert_eq!(contract.contract_creation_block(), 3);
}

#[test]
fn no_reward_right_after_staking() {
    let mut contract = new_contract();
    let ctx = call(alice(), 0, S);
    assert_eq!(contract.stake(&ctx, Amount::from_u64(S)), Ok(None));
    assert_eq!(
        contract.calculate_rewards_for_user(&ctx, &alice()),
        Some(Amount::zero())
    );
}

#[test]
fn sole_participant_claims_hundred_blocks() {
    let mut contract = new_contract();
    assert_eq!(contract.stake(&call(alice(), 0, S), Amount::from_u64(S)), Ok(None));

    let later = call(alice(), 100, S);
    let expected = Amount::from_u64(REWARDS_PER_BLOCK * 100);
    assert_eq!(
        contract.calculate_rewards_for_user(&later, &alice()),
        Some(expected.clone())
    );
    // The preview has recorded nothing.
    assert_eq!(contract.staking_position(&alice()), Some(position(S, 0)));

    assert_eq!(contract.claim_rewards(&later), Ok(Some(expected)));
    assert_eq!(contract.staking_position(&alice()), Some(position(S, 100)));
    assert_eq!(
        contract.calculate_rewards_for_user(&call(alice(), 100, S - 300_000_000_000), &alice()),
        Some(Amount::zero())
    );
}

#[test]
fn partial_then_full_unstake() {
    let mut contract = new_contract();
    contract.stake(&call(alice(), 0, S), Amount::from_u64(S)).unwrap();

    let half = contract
        .unstake(&call(alice(), 0, S), Some(Amount::from_u64(S / 2)))
        .unwrap();
    assert_eq!(half.reward, None);
    assert_eq!(half.principal, Amount::from_u64(S / 2));
    assert_eq!(contract.staking_position(&alice()), Some(position(S / 2, 0)));
    assert_eq!(contract.get_stake_amount(&alice()), Some(Amount::from_u64(S / 2)));
    assert_eq!(contract.staked_addresses(), vec![alice()]);

    let rest = contract
        .unstake(&call(alice(), 0, S / 2), Some(Amount::from_u64(S / 2)))
        .unwrap();
    assert_eq!(rest.reward, None);
    assert_eq!(rest.principal, Amount::from_u64(S / 2));
    assert_eq!(contract.staking_position(&alice()), None);
    assert_eq!(contract.get_stake_amount(&alice()), None);
    assert!(contract.staked_addresses().is_empty());
    assert_eq!(contract.require_user_staked(&alice()), Err(StakingError::NotStaked));
}

#[test]
fn unstake_without_amount_takes_everything() {
    let mut contract = new_contract();
    contract.stake(&call(alice(), 0, 700), Amount::from_u64(700)).unwrap();
    let all = contract.unstake(&call(alice(), 0, 700), None).unwrap();
    assert_eq!(all.principal, Amount::from_u64(700));
    assert_eq!(contract.staking_position(&alice()), None);
}

#[test]
fn unstake_above_principal_is_refused() {
    let mut contract = new_contract();
    contract.stake(&call(alice(), 0, 700), Amount::from_u64(700)).unwrap();
    let refused = contract.unstake(&call(alice(), 50, 700), Some(Amount::from_u64(701)));
    assert_eq!(refused.unwrap_err(), StakingError::InvalidUnstakeAmount);
    // Nothing was settled and nothing was taken.
    assert_eq!(contract.staking_position(&alice()), Some(position(700, 0)));
    assert_eq!(contract.staked_addresses(), vec![alice()]);
}

#[test]
fn unstake_of_zero_is_refused() {
    let mut contract = new_contract();
    contract.stake(&call(alice(), 0, 700), Amount::from_u64(700)).unwrap();
    let refused = contract.unstake(&call(alice(), 50, 700), Some(Amount::zero()));
    assert_eq!(refused.unwrap_err(), StakingError::InvalidUnstakeAmount);
    assert_eq!(contract.staking_position(&alice()), Some(position(700, 0)));
}

#[test]
fn unstake_without_position_is_refused() {
    let mut contract = new_contract();
    contract.stake(&call(alice(), 0, 700), Amount::from_u64(700)).unwrap();
    let refused = contract.unstake(&call(bob(), 0, 700), Some(Amount::from_u64(1)));
    assert_eq!(refused.unwrap_err(), StakingError::NotStaked);
    let refused = contract.unstake(&call(bob(), 0, 700), None);
    assert_eq!(refused.unwrap_err(), StakingError::NotStaked);
    assert_eq!(contract.staking_position(&alice()), Some(position(700, 0)));
    assert_eq!(contract.staking_position(&bob()), None);
}

#[test]
fn claim_without_position_is_refused() {
    let mut contract = new_contract();
    assert_eq!(contract.claim_rewards(&call(alice(), 10, 0)), Err(StakingError::NotStaked));
    contract.stake(&call(alice(), 0, 700), Amount::from_u64(700)).unwrap();
    assert_eq!(contract.claim_rewards(&call(bob(), 10, 700)), Err(StakingError::NotStaked));
    assert_eq!(contract.staking_position(&alice()), Some(position(700, 0)));
}

#[test]
fn stake_of_nothing_is_refused() {
    let mut contract = new_contract();
    assert_eq!(
        contract.stake(&call(alice(), 0, 0), Amount::zero()),
        Err(StakingError::InvalidPayment)
    );
    assert_eq!(contract.staking_position(&alice()), None);
    assert!(contract.staked_addresses().is_empty());

    contract.stake(&call(alice(), 0, 700), Amount::from_u64(700)).unwrap();
    assert_eq!(
        contract.stake(&call(alice(), 9, 700), Amount::zero()),
        Err(StakingError::InvalidPayment)
    );
    assert_eq!(contract.staking_position(&alice()), Some(position(700, 0)));
}

#[test]
fn error_messages() {
    assert_eq!(StakingError::InvalidPayment.message(), "Must pay more than 0");
    assert_eq!(StakingError::NotStaked.message(), "Must stake first");
    assert_eq!(StakingError::InvalidUnstakeAmount.message(), "Invalid unstake amount");
}

#[test]
fn top_up_settles_before_adding_principal() {
    let mut contract = new_contract();
    contract.stake(&call(alice(), 0, 1000), Amount::from_u64(1000)).unwrap();
    // The payment of 1000 is already in custody when the call runs; the
    // reward goes by the old principal of 1000 against the pool of 2000.
    let reward = contract.stake(&call(alice(), 10, 2000), Amount::from_u64(1000)).unwrap();
    assert_eq!(reward, Some(Amount::from_u64(15_000_000_000)));
    assert_eq!(contract.staking_position(&alice()), Some(position(2000, 10)));
    assert_eq!(contract.staked_addresses(), vec![alice()]);
}

#[test]
fn unstake_settles_before_taking_principal() {
    let mut contract = new_contract();
    contract.stake(&call(alice(), 0, 1000), Amount::from_u64(1000)).unwrap();
    let out = contract
        .unstake(&call(alice(), 10, 4000), Some(Amount::from_u64(999)))
        .unwrap();
    // 1000 * 3e9 * 10 / 4000, by the principal before the withdrawal.
    assert_eq!(out.reward, Some(Amount::from_u64(7_500_000_000)));
    assert_eq!(out.principal, Amount::from_u64(999));
    assert_eq!(contract.staking_position(&alice()), Some(position(1, 10)));
}

#[test]
fn withdrawal_lists_the_reward_before_the_principal() {
    let mut contract = new_contract();
    contract.stake(&call(alice(), 0, 1000), Amount::from_u64(1000)).unwrap();
    let out = contract
        .unstake(&call(alice(), 10, 4000), Some(Amount::from_u64(400)))
        .unwrap();
    assert_eq!(
        out.into_transfers(),
        vec![Amount::from_u64(7_500_000_000), Amount::from_u64(400)]
    );
    let out = contract
        .unstake(&call(alice(), 10, 3600), Some(Amount::from_u64(600)))
        .unwrap();
    assert_eq!(out.into_transfers(), vec![Amount::from_u64(600)]);
}

#[test]
fn full_unstake_still_pays_the_pending_reward() {
    let mut contract = new_contract();
    contract.stake(&call(alice(), 0, 1000), Amount::from_u64(1000)).unwrap();
    let out = contract.unstake(&call(alice(), 10, 1000), None).unwrap();
    assert_eq!(out.reward, Some(Amount::from_u64(30_000_000_000)));
    assert_eq!(out.principal, Amount::from_u64(1000));
    assert_eq!(contract.staking_position(&alice()), None);
}

#[test]
fn two_participants_share_by_the_whole_pool() {
    let mut contract = new_contract();
    contract.stake(&call(alice(), 0, 100), Amount::from_u64(100)).unwrap();
    contract.stake(&call(bob(), 0, 400), Amount::from_u64(300)).unwrap();
    assert_consistent(&contract, &[alice(), bob(), Identity::new([7; 32])]);

    let at_ten = |caller| call(caller, 10, 400);
    assert_eq!(
        contract.calculate_rewards_for_user(&at_ten(alice()), &alice()),
        Some(Amount::from_u64(7_500_000_000))
    );
    assert_eq!(
        contract.calculate_rewards_for_user(&at_ten(alice()), &bob()),
        Some(Amount::from_u64(22_500_000_000))
    );

    // Claims by one participant leave the other's position alone.
    contract.claim_rewards(&at_ten(alice())).unwrap();
    assert_eq!(contract.staking_position(&alice()), Some(position(100, 10)));
    assert_eq!(contract.staking_position(&bob()), Some(position(300, 0)));

    contract.unstake(&call(bob(), 12, 400), None).unwrap();
    assert_eq!(contract.staking_position(&alice()), Some(position(100, 10)));
    assert_eq!(contract.staked_addresses(), vec![alice()]);
    assert_consistent(&contract, &[alice(), bob()]);
}

#[test]
fn position_exists_iff_active_iff_staked() {
    let everyone = [alice(), bob(), carol()];
    let mut contract = new_contract();
    assert_consistent(&contract, &everyone);
    contract.stake(&call(alice(), 1, 10), Amount::from_u64(10)).unwrap();
    assert_consistent(&contract, &everyone);
    contract.stake(&call(bob(), 2, 30), Amount::from_u64(20)).unwrap();
    assert_consistent(&contract, &everyone);
    contract.stake(&call(carol(), 2, 60), Amount::from_u64(30)).unwrap();
    assert_consistent(&contract, &everyone);
    assert_eq!(contract.staked_addresses().len(), 3);
    contract.unstake(&call(alice(), 3, 60), None).unwrap();
    assert_consistent(&contract, &everyone);
    assert_eq!(contract.staked_addresses().len(), 2);
    let _ = contract.unstake(&call(alice(), 3, 50), None);
    assert_consistent(&contract, &everyone);
    contract.unstake(&call(bob(), 4, 50), Some(Amount::from_u64(19))).unwrap();
    assert_consistent(&contract, &everyone);
    contract.claim_rewards(&call(carol(), 5, 31)).unwrap();
    assert_consistent(&contract, &everyone);
    contract.unstake(&call(bob(), 6, 31), Some(Amount::from_u64(1))).unwrap();
    assert_consistent(&contract, &everyone);
    assert_eq!(contract.staked_addresses(), vec![carol()]);
}

#[test]
fn last_action_block_follows_the_block_nonce() {
    let mut contract = new_contract();
    let mut recorded = Vec::new();
    contract.stake(&call(alice(), 5, 100), Amount::from_u64(100)).unwrap();
    recorded.push(contract.staking_position(&alice()).unwrap().last_action_block);
    contract.claim_rewards(&call(alice(), 5, 100)).unwrap();
    recorded.push(contract.staking_position(&alice()).unwrap().last_action_block);
    contract.stake(&call(alice(), 8, 200), Amount::from_u64(100)).unwrap();
    recorded.push(contract.staking_position(&alice()).unwrap().last_action_block);
    contract.unstake(&call(alice(), 13, 200), Some(Amount::from_u64(50))).unwrap();
    recorded.push(contract.staking_position(&alice()).unwrap().last_action_block);
    contract.claim_rewards(&call(alice(), 21, 150)).unwrap();
    recorded.push(contract.staking_position(&alice()).unwrap().last_action_block);
    assert_eq!(recorded, vec![5, 5, 8, 13, 21]);
    assert!(recorded.windows(2).all(|pair| pair[0] <= pair[1]));
}

#[test]
fn stake_then_unstake_in_one_block_cancels_out() {
    // A new participant: the ledger is as before.
    let mut contract = new_contract();
    contract.stake(&call(bob(), 0, 40), Amount::from_u64(40)).unwrap();
    let paid_in = Amount::from_u64(S);
    assert_eq!(contract.stake(&call(alice(), 77, S + 40), paid_in.clone()), Ok(None));
    let out = contract.unstake(&call(alice(), 77, S + 40), Some(paid_in.clone())).unwrap();
    assert_eq!(out.reward, None);
    assert_eq!(out.principal, paid_in);
    assert_eq!(contract.staking_position(&alice()), None);
    assert_eq!(contract.staking_position(&bob()), Some(position(40, 0)));
    assert_eq!(contract.staked_addresses(), vec![bob()]);

    // A participant with a position: principal is as before.
    let out_of_bob = contract.stake(&call(bob(), 77, 50), Amount::from_u64(10)).unwrap();
    assert!(out_of_bob.is_some());
    let out = contract.unstake(&call(bob(), 77, 50), Some(Amount::from_u64(10))).unwrap();
    assert_eq!(out.reward, None);
    assert_eq!(out.principal, Amount::from_u64(10));
    assert_eq!(contract.staking_position(&bob()), Some(position(40, 77)));
}

#[test]
fn first_deposit_starts_from_the_epoch_counter() {
    // Epoch ahead of the block nonce: nothing accrues, clock ends at the nonce.
    let mut contract = new_contract();
    let ctx = CallContext {
        caller: alice(),
        block_nonce: 10,
        block_epoch: 50,
        block_timestamp: 0,
        contract_balance: Amount::from_u64(100),
    };
    assert_eq!(contract.stake(&ctx, Amount::from_u64(100)), Ok(None));
    assert_eq!(contract.staking_position(&alice()), Some(position(100, 10)));

    // Epoch behind the block nonce: the fresh position has no principal, so
    // the elapsed blocks earn nothing.
    let ctx = CallContext {
        caller: bob(),
        block_nonce: 1000,
        block_epoch: 2,
        block_timestamp: 0,
        contract_balance: Amount::from_u64(200),
    };
    assert_eq!(contract.stake(&ctx, Amount::from_u64(100)), Ok(None));
    assert_eq!(contract.staking_position(&bob()), Some(position(100, 1000)));
}

#[test]
fn later_deposit_ignores_the_epoch_counter() {
    let mut contract = new_contract();
    contract.stake(&call(alice(), 10, 100), Amount::from_u64(100)).unwrap();
    let ctx = CallContext {
        caller: alice(),
        block_nonce: 20,
        block_epoch: 19,
        block_timestamp: 0,
        contract_balance: Amount::from_u64(200),
    };
    // 100 * 3e9 * (20 - 10) / 200
    assert_eq!(
        contract.stake(&ctx, Amount::from_u64(100)),
        Ok(Some(Amount::from_u64(15_000_000_000)))
    );
}

#[test]
fn preview_for_unknown_identity_is_none() {
    let mut contract = new_contract();
    contract.stake(&call(alice(), 0, 100), Amount::from_u64(100)).unwrap();
    assert_eq!(contract.calculate_rewards_for_user(&call(alice(), 9, 100), &bob()), None);
    assert_eq!(contract.get_stake_amount(&bob()), None);
    assert_eq!(contract.staking_position(&bob()), None);
}

#[test]
fn reported_total_goes_by_the_timestamp() {
    let deploy = CallContext {
        caller: alice(),
        block_nonce: 0,
        block_epoch: 0,
        block_timestamp: 1_000,
        contract_balance: Amount::zero(),
    };
    let mut contract = StakingContract::init(&deploy);
    let now = CallContext {
        caller: bob(),
        block_nonce: 1,
        block_epoch: 0,
        block_timestamp: 1_060,
        contract_balance: Amount::zero(),
    };
    assert_eq!(contract.update_total_rewards(&now), Amount::from_u64(180_000_000_000));
    assert_eq!(contract.total_rewards(), Amount::from_u64(180_000_000_000));
    assert_eq!(contract.get_updated_total_rewards(&deploy), Amount::zero());
    assert!(contract.total_rewards().is_zero());
    assert_eq!(contract.contract_creation_timestamp(), 1_000);

    let far = CallContext {
        caller: bob(),
        block_nonce: 1,
        block_epoch: 0,
        block_timestamp: u64::MAX,
        contract_balance: Amount::zero(),
    };
    assert_eq!(
        contract.get_updated_total_rewards(&far),
        Amount::from_u64(u64::MAX - 1_000).times(&Amount::from_u64(REWARDS_PER_BLOCK))
    );
}

#[test]
fn payouts_can_drain_the_pool() {
    // One unit staked; after 100 blocks the ledger owes 3e11 against a
    // balance of 1. The ledger reports the reward as computed.
    let mut contract = new_contract();
    contract.stake(&call(alice(), 0, 1), Amount::from_u64(1)).unwrap();
    let reward = contract.claim_rewards(&call(alice(), 100, 1)).unwrap();
    assert_eq!(reward, Some(Amount::from_u64(300_000_000_000)));

    // With custody empty, a later settlement cannot be computed.
    let empty = call(alice(), 101, 0);
    assert!(!contract.reward_defined(&alice(), &empty));
    assert!(!contract.unstake_defined(&empty, &None));
    // In the block of the last settlement it can: nothing is divided.
    let same_block = call(alice(), 100, 0);
    assert!(contract.reward_defined(&alice(), &same_block));
    assert_eq!(contract.claim_rewards(&same_block), Ok(None));
}

#[test]
fn operations_on_an_empty_pool_are_defined_where_nothing_is_settled() {
    let mut contract = new_contract();
    contract.stake(&call(alice(), 0, 5), Amount::from_u64(5)).unwrap();
    let empty = call(alice(), 9, 0);
    // Refused requests settle nothing.
    assert!(contract.stake_defined(&empty, &Amount::zero()));
    assert!(contract.unstake_defined(&empty, &Some(Amount::from_u64(6))));
    assert!(contract.unstake_defined(&empty, &Some(Amount::zero())));
    assert!(contract.unstake_defined(&call(bob(), 9, 0), &None));
    assert!(contract.reward_defined(&bob(), &empty));
    // Accepted ones do.
    assert!(!contract.stake_defined(&empty, &Amount::from_u64(1)));
    assert!(!contract.unstake_defined(&empty, &Some(Amount::from_u64(5))));
    assert!(!contract.reward_defined(&alice(), &empty));
    // A first deposit settles a fresh position, whose clock is the epoch.
    assert!(!contract.stake_defined(&call(bob(), 9, 0), &Amount::from_u64(1)));
    assert!(contract.stake_defined(&call(bob(), 0, 0), &Amount::from_u64(1)));
    assert!(contract.stake_defined(&call(bob(), 9, 1), &Amount::from_u64(1)));
}

#[test]
fn restore_rebuilds_the_ledger() {
    let rows = vec![(alice(), position(100, 4)), (bob(), position(300, 9))];
    let mut contract =
        StakingContract::restore(&rows, Amount::from_u64(77), 1_000, 3).unwrap();
    assert_eq!(contract.staking_position(&alice()), Some(position(100, 4)));
    assert_eq!(contract.staking_position(&bob()), Some(position(300, 9)));
    assert_eq!(contract.staked_addresses(), vec![alice(), bob()]);
    assert_eq!(contract.total_rewards(), Amount::from_u64(77));
    assert_eq!(contract.contract_creation_timestamp(), 1_000);
    assert_eq!(contract.contract_creation_block(), 3);
    assert_consistent(&contract, &[alice(), bob(), Identity::new([1; 32])]);

    let reward = contract.claim_rewards(&call(bob(), 10, 400)).unwrap();
    assert_eq!(reward, Some(Amount::from_u64(2_250_000_000)));

    let empty = StakingContract::restore(&Vec::new(), Amount::zero(), 0, 0).unwrap();
    assert!(empty.staked_addresses().is_empty());
}

#[test]
fn restore_refuses_inconsistent_rows() {
    let twice = vec![(alice(), position(100, 4)), (bob(), position(1, 1)), (alice(), position(5, 4))];
    assert!(StakingContract::restore(&twice, Amount::zero(), 0, 0).is_none());
    let hollow = vec![(alice(), position(100, 4)), (bob(), position(0, 9))];
    assert!(StakingContract::restore(&hollow, Amount::zero(), 0, 0).is_none());
}
