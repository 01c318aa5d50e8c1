use panorama_swap::airdrop::{AirDropErrors, AirdropContract, PanxClaim50, PanxClaim500};
use panorama_swap::contract_creator;
use panorama_swap::env::{CallEnv, ChainCall};
use panorama_swap::pair_creator;
use panorama_swap::staking::{StakingContract, StakingErrors};
use panorama_swap::token::{MyPsp22, MyPsp22Lp, PSP22Error, Transfer};
use panorama_swap::vesting::{VestingContract, VestingProgramErrors};
use panorama_swap::AccountId;

const E12: u128 = 1_000_000_000_000;
const DAY_MS: u64 = 86_400_000;

fn acc(n: u64) -> AccountId {
    AccountId::new(n, 0, 0, 0)
}

fn env_at(caller: u64, ms: u64) -> CallEnv {
    CallEnv { caller: acc(caller), account_id: acc(200), block_timestamp: ms, transferred_value: 0 }
}

// ---------------------------------------------------------------- airdrop

#[test]
fn collect_50_tokens() {
    let mut a = AirdropContract::new(acc(7));
    assert_eq!(a.user_airdrop_collection_status(acc(1)), 0);
    let (calls, ev) = a.collect_50_tokens(&env_at(1, 0)).unwrap();
    assert_eq!(ev, PanxClaim50 { caller: acc(1) });
    assert_eq!(calls.len(), 1);
    assert_eq!(calls[0].call, ChainCall::Psp22Transfer { token: acc(7), to: acc(1), amount: 50_000_000_000_000 });
    assert_eq!(calls[0].on_failure, AirDropErrors::PSP22TransferFailed);
    assert_eq!(a.user_airdrop_collection_status(acc(1)), 1);
}

#[test]
fn collect_500_tokens() {
    let mut a = AirdropContract::new(acc(7));
    let (calls, ev) = a.collect_500_tokens(&env_at(2, 0)).unwrap();
    assert_eq!(ev, PanxClaim500 { caller: acc(2) });
    assert_eq!(calls[0].call, ChainCall::Psp22Transfer { token: acc(7), to: acc(2), amount: 500_000_000_000_000 });
    assert_eq!(a.user_airdrop_collection_status(acc(2)), 1);
}

#[test]
fn airdrop_is_claimed_once() {
    let mut a = AirdropContract::new(acc(7));
    assert!(a.collect_50_tokens(&env_at(1, 0)).is_ok());
    assert_eq!(a.collect_50_tokens(&env_at(1, 0)).err(), Some(AirDropErrors::CallerRedeemedAirdrop));
    assert_eq!(a.collect_500_tokens(&env_at(1, 0)).err(), Some(AirDropErrors::CallerRedeemedAirdrop));
    assert!(a.collect_500_tokens(&env_at(3, 0)).is_ok());
}

// ---------------------------------------------------------------- staking

fn staked() -> StakingContract {
    let mut s = StakingContract::new(&env_at(9, 0), acc(7), 10);
    let e = env_at(1, 0);
    let plan = s.add_to_staking(&e, 2000 * E12, 2000 * E12, 1000 * E12).unwrap();
    assert!(plan.entering());
    s.settle_add_to_staking(&e, &plan, 1000 * E12).unwrap();
    s
}

#[test]
fn staking_percentage_is_five() {
    let s = StakingContract::new(&env_at(9, 5000), acc(7), 10);
    assert_eq!(s.staking_percentage, 5);
    assert_eq!(s.get_started_date(), 5000);
}

#[test]
fn staking_entry_needs_a_thousand() {
    let s = StakingContract::new(&env_at(9, 0), acc(7), 5);
    let e = env_at(1, 0);
    assert_eq!(s.add_to_staking(&e, 2000 * E12, 2000 * E12, 999 * E12).err(), Some(StakingErrors::NotEnoghtPSP22ToLock));
    assert_eq!(s.add_to_staking(&e, 999 * E12, 2000 * E12, 999 * E12).err(), Some(StakingErrors::LessThanMinimumRequired));
    assert_eq!(s.add_to_staking(&e, 2000 * E12, 10, 1000 * E12).err(), Some(StakingErrors::NotEnoughAllowance));
}

#[test]
fn staking_locks_and_rewards_daily() {
    let s = staked();
    assert_eq!(s.get_caller_total_locked_amount(acc(1)), 1000 * E12);
    // 5% a year of 1000 PANX, a 365th a day.
    assert_eq!(s.get_amount_to_give_each_day_to_caller(acc(1)), 1000 * E12 * 5 / 100 / 365);
    assert_eq!(s.get_caller_last_redeem(acc(1)), 0);
}

#[test]
fn staking_settle_refuses_unchanged_balance() {
    let mut s = StakingContract::new(&env_at(9, 0), acc(7), 5);
    let e = env_at(1, 0);
    let plan = s.add_to_staking(&e, 2000 * E12, 2000 * E12, 1000 * E12).unwrap();
    assert_eq!(s.settle_add_to_staking(&e, &plan, 2000 * E12), Err(StakingErrors::PSP22TransferFromFailed));
    assert_eq!(s.get_caller_total_locked_amount(acc(1)), 0);
}

#[test]
fn staking_redeems_whole_days() {
    let mut s = staked();
    let daily = 1000 * E12 * 5 / 100 / 365;
    assert_eq!(s.get_redeemable_amount(&env_at(1, 1000)), Err(StakingErrors::ZeroDaysPassed));
    assert_eq!(s.get_redeemable_amount(&env_at(1, 3 * DAY_MS + 5)), Ok(3 * daily));
    let calls = s.redeem_redeemable_amount(&env_at(1, 3 * DAY_MS + 5)).unwrap();
    assert_eq!(calls[0].call, ChainCall::Psp22Transfer { token: acc(7), to: acc(1), amount: 3 * daily });
    assert_eq!(s.get_caller_last_redeem(acc(1)), 3 * 86_400);
    assert_eq!(s.redeem_redeemable_amount(&env_at(1, 3 * DAY_MS + 10)).err(), Some(StakingErrors::NoRedeemableAmount));
}

#[test]
fn staking_auto_stack_adds_rewards() {
    let mut s = staked();
    let daily = 1000 * E12 * 5 / 100 / 365;
    assert_eq!(s.auto_stack(&env_at(1, 2 * DAY_MS)), Ok(()));
    assert_eq!(s.get_caller_total_locked_amount(acc(1)), 1000 * E12 + 2 * daily);
    assert_eq!(s.get_amount_to_give_each_day_to_caller(acc(1)), (1000 * E12 + 2 * daily) * 5 / 100 / 365);
}

#[test]
fn staking_withdraw() {
    let mut s = staked();
    assert_eq!(
        s.withdraw_specific_amount(&env_at(1, 0), 2000 * E12).err(),
        Some(StakingErrors::CallerInsufficientPSP22LockedBalance)
    );
    let calls = s.withdraw_specific_amount(&env_at(1, 0), 400 * E12).unwrap();
    assert_eq!(calls[0].call, ChainCall::Psp22Transfer { token: acc(7), to: acc(1), amount: 400 * E12 });
    assert_eq!(s.get_caller_total_locked_amount(acc(1)), 600 * E12);
    assert_eq!(s.get_amount_to_give_each_day_to_caller(acc(1)), 600 * E12 * 5 / 100 / 365);
}

// ---------------------------------------------------------------- vesting

#[test]
fn vesting_is_managed() {
    let mut v = VestingContract::new(&env_at(9, 0), acc(7));
    assert_eq!(v.add_to_vesting(&env_at(1, 0), acc(1), 365 * E12).err(), Some(VestingProgramErrors::CallerIsNotManager));
    let ev = v.add_to_vesting(&env_at(9, 1000), acc(1), 365 * E12).unwrap();
    assert_eq!(ev.total_vesting_amount, 365 * E12);
    assert_eq!(ev.panx_amount_to_give_each_day, E12);
    assert_eq!(ev.added_account, acc(1));
    assert_eq!(v.get_account_total_vesting_amount(acc(1)), 365 * E12);
    assert_eq!(v.get_account_last_redeem(acc(1)), 1);
    assert_eq!(v.user_tge_collection_status(acc(1)), 0);
}

#[test]
fn vesting_tge_is_a_tenth_once() {
    let mut v = VestingContract::new(&env_at(9, 0), acc(7));
    v.add_to_vesting(&env_at(9, 0), acc(1), 1005).unwrap();
    let (calls, ev) = v.collect_tge_tokens(&env_at(1, 0)).unwrap();
    // 1005 - 1005 * 900 / 1000 = 1005 - 904
    assert_eq!(ev.panx_given_amount, 101);
    assert_eq!(ev.caller_new_balance, 904);
    assert_eq!(calls[0].call, ChainCall::Psp22Transfer { token: acc(7), to: acc(1), amount: 101 });
    assert_eq!(v.get_account_total_vesting_amount(acc(1)), 904);
    assert_eq!(v.collect_tge_tokens(&env_at(1, 0)).err(), Some(VestingProgramErrors::CallerCollectedTGEAlready));
    assert_eq!(v.collect_tge_tokens(&env_at(2, 0)).err(), Some(VestingProgramErrors::CallerInsufficientLockedTokens));
}

#[test]
fn vesting_redeems_daily_part() {
    let mut v = VestingContract::new(&env_at(9, 0), acc(7));
    v.add_to_vesting(&env_at(9, 0), acc(1), 365 * E12).unwrap();
    assert_eq!(v.get_redeemable_amount(&env_at(1, 1000)), Err(VestingProgramErrors::ZeroDaysPassed));
    assert_eq!(v.get_redeemable_amount(&env_at(1, 10 * DAY_MS)), Ok(10 * E12));
    let (calls, ev) = v.redeem_redeemable_amount(&env_at(1, 10 * DAY_MS)).unwrap();
    assert_eq!(calls[0].call, ChainCall::Psp22Transfer { token: acc(7), to: acc(1), amount: 10 * E12 });
    assert_eq!(ev.caller_new_balance, 355 * E12);
    // More days than the balance lasts pay the balance.
    assert_eq!(v.get_redeemable_amount(&env_at(1, 1000 * DAY_MS)), Ok(355 * E12));
}

#[test]
fn vesting_timestamp_in_seconds() {
    let v = VestingContract::new(&env_at(9, 7_000), acc(7));
    assert_eq!(v.get_current_timestamp(&env_at(1, 123_456)), 123);
    assert_eq!(v.get_started_date(), 7_000);
}

// ---------------------------------------------------------------- pair factories

#[test]
fn azero_pair_instantiation_salts_with_version_bytes() {
    let c = contract_creator::PairCreator::new();
    let i = c.create_azero_trading_pair(&env_at(4, 0), [9u8; 32], 0x0102_0304, acc(5), E12, acc(6), acc(8), 77);
    assert_eq!(i.salt, [4, 3, 2, 1]);
    assert_eq!(i.code_hash, [9u8; 32]);
    assert_eq!(i.endowment, 0);
    assert_eq!(i.psp22_contract, acc(5));
    assert_eq!(i.deployer, acc(4));
    assert_eq!(i.lp_lock_timestamp, 77);
}

#[test]
fn pair_registry_records_pairs() {
    let mut r = pair_creator::PairCreator::new();
    assert!(!r.azero_pair_exists(acc(5)));
    let i = r.create_azero_trading_pair([1u8; 32], 3, acc(5), E12, acc(6), acc(8));
    assert_eq!(i.psp22_token2, None);
    assert_eq!(r.record_azero_trading_pair(acc(5), acc(50)), acc(50));
    assert!(r.azero_pair_exists(acc(5)));
    assert!(!r.psp22_pair_exists(acc(5), acc(6)));
    let j = r.create_psp22_trading_pair([2u8; 32], 4, acc(5), acc(6), E12, acc(6), acc(8));
    assert_eq!(j.psp22_token2, Some(acc(6)));
    r.record_psp22_trading_pair(acc(5), acc(6), acc(51));
    assert!(r.psp22_pair_exists(acc(5), acc(6)));
    assert!(r.psp22_pair_exists(acc(6), acc(5)));
}

// ---------------------------------------------------------------- tokens

#[test]
fn my_psp22_mints_supply_to_caller() {
    let (t, ev) = MyPsp22::new(&env_at(1, 0), 1000, Some(String::from("TOKEN")), Some(String::from("TKN")), 12);
    assert_eq!(ev, Transfer { from: None, to: Some(acc(1)), value: 1000 });
    assert_eq!(t.total_supply(), 1000);
    assert_eq!(t.balance_of(acc(1)), 1000);
    assert_eq!(t.balance_of(acc(2)), 0);
    assert_eq!(t.metadata.symbol, Some(String::from("TKN")));
}

#[test]
fn my_psp22_transfers_keep_the_sum() {
    let (mut t, _) = MyPsp22::new(&env_at(1, 0), 1000, None, None, 12);
    let ev = t._transfer_from_to(acc(1), acc(2), 300, Vec::new()).unwrap();
    assert_eq!(ev, Transfer { from: Some(acc(1)), to: Some(acc(2)), value: 300 });
    assert_eq!(t.balance_of(acc(1)), 700);
    assert_eq!(t.balance_of(acc(2)), 300);
    assert_eq!(t._transfer_from_to(acc(2), acc(1), 301, Vec::new()), Err(PSP22Error::InsufficientBalance));
    // A move to oneself changes nothing.
    assert!(t._transfer_from_to(acc(1), acc(1), 100, Vec::new()).is_ok());
    assert_eq!(t.balance_of(acc(1)), 700);
    assert_eq!(t.total_supply(), 1000);
}

#[test]
fn my_psp22_approvals() {
    let (mut t, _) = MyPsp22::new(&env_at(1, 0), 1000, None, None, 12);
    assert!(t._approve_from_to(acc(1), acc(3), 50).is_ok());
    assert_eq!(t.allowance(acc(1), acc(3)), 50);
    assert_eq!(t.allowance(acc(3), acc(1)), 0);
}

#[test]
fn lp_token_belongs_to_the_pair() {
    let t = MyPsp22Lp::new(None, None, 12, acc(40));
    assert_eq!(t.psp22.supply, 1_000_000_000_000_000_000_000);
    assert_eq!(t.get_account_id(&env_at(1, 0)), acc(200));
}

#[test]
fn token_supply_is_the_sum_of_balances() {
    let (mut t, _) = MyPsp22::new(&env_at(1, 0), 1000, None, None, 12);
    t._mint_to(acc(2), 500).unwrap();
    t._transfer_from_to(acc(1), acc(3), 250, Vec::new()).unwrap();
    assert_eq!(t.balance_of(acc(1)) + t.balance_of(acc(2)) + t.balance_of(acc(3)), t.total_supply());
    assert_eq!(t.total_supply(), 1500);
}
