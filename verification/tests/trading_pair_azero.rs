use panorama_swap::env::{CallEnv, ChainCall, Planned};
use panorama_swap::token::PSP22Error;
use panorama_swap::trading_pair_azero::{PairReads, TradingPairAzero, TradingPairErrors};
use panorama_swap::AccountId;

const E12: u128 = 1_000_000_000_000;

fn acc(n: u64) -> AccountId {
    AccountId::new(n, 0, 0, 0)
}

fn env(caller: u64, ms: u64, value: u128) -> CallEnv {
    CallEnv { caller: acc(caller), account_id: acc(100), block_timestamp: ms, transferred_value: value }
}

fn pair() -> TradingPairAzero {
    TradingPairAzero::new(acc(10), E12, acc(11), acc(12), 0, acc(1))
}

/// The pair after a first provision of 10^13 AZERO and 10^14 PSP22 tokens by account 1,
/// the pair holding 10^9 AZERO before.
fn provided() -> TradingPairAzero {
    let mut p = pair();
    let e = env(1, 1_000_000, 10_000_000_000_000);
    let reads = PairReads { a0_balance: 10_001_000_000_000, psp22_balance: 0 };
    let plan = p
        .provide_to_pool(&e, reads, 10_000_000_000_000_000, 100_000_000_000_000, 100_000_000_000_000, 10_000_000_000_000, 1_000_000_000_000_000, 500_000_000_000)
        .unwrap();
    p.settle_provide_to_pool(&e, &plan, 9_900_000_000_000_000, 100_000_000_000_000).unwrap();
    p
}

#[test]
fn check_difference_is_symmetric() {
    let p = pair();
    assert_eq!(p.check_difference(100, 110), Ok(9_523_809_523_800));
    assert_eq!(p.check_difference(110, 100), Ok(9_523_809_523_800));
    assert_eq!(p.check_difference(7, 7), Ok(0));
}

#[test]
fn provide_to_pool_works() {
    let p = pair();
    let e = env(1, 1_000_000, 10_000_000_000_000);
    let reads = PairReads { a0_balance: 10_001_000_000_000, psp22_balance: 0 };
    let plan = p
        .provide_to_pool(&e, reads, 10_000_000_000_000_000, 100_000_000_000_000, 100_000_000_000_000, 10_000_000_000_000, 1_000_000_000_000_000, 500_000_000_000)
        .unwrap();
    assert_eq!(plan.shares(), 1_000_000_000_000_000);
    assert_eq!(
        plan.transfer_from().call,
        ChainCall::Psp22TransferFrom { token: acc(10), from: acc(1), to: acc(100), amount: 100_000_000_000_000 }
    );
    let mut p = p;
    let ev = p.settle_provide_to_pool(&e, &plan, 9_900_000_000_000_000, 100_000_000_000_000).unwrap();
    assert_eq!(ev.shares_given, 1_000_000_000_000_000);
    assert_eq!(p.get_total_supply(), 1_000_000_000_000_000);
    assert_eq!(p.get_lp_token_of(acc(1)), 1_000_000_000_000_000);
    assert_eq!(p.get_amount_to_give_each_day_to_caller(acc(1)), 5479452054);
}

#[test]
fn provide_with_unchanged_balance_is_refused() {
    let mut p = pair();
    let e = env(1, 1_000_000, 10_000_000_000_000);
    let reads = PairReads { a0_balance: 10_001_000_000_000, psp22_balance: 0 };
    let plan = p
        .provide_to_pool(&e, reads, 10_000_000_000_000_000, 100_000_000_000_000, 100_000_000_000_000, 10_000_000_000_000, 1_000_000_000_000_000, 500_000_000_000)
        .unwrap();
    let r = p.settle_provide_to_pool(&e, &plan, 10_000_000_000_000_000, 100_000_000_000_000);
    assert_eq!(r.err(), Some(TradingPairErrors::CallerInsufficientPSP22Balance));
    assert_eq!(p.get_total_supply(), 0);
}

#[test]
fn provide_checks_balance_and_allowance() {
    let p = pair();
    let e = env(1, 0, 10);
    let reads = PairReads { a0_balance: 10, psp22_balance: 0 };
    assert_eq!(p.provide_to_pool(&e, reads, 5, 100, 10, 10, 0, 0).err(), Some(TradingPairErrors::CallerInsufficientPSP22Balance));
    assert_eq!(p.provide_to_pool(&e, reads, 100, 5, 10, 10, 0, 0).err(), Some(TradingPairErrors::NotEnoughAllowance));
}

#[test]
fn get_expected_lp_token_amount_works() {
    let p = pair();
    assert_eq!(p.get_expected_lp_token_amount(10_000_000_000_000, 100_000_000_000_000, 10_001_000_000_000), Ok(1_000_000_000_000_000));
}

#[test]
fn prices_follow_the_constant_product() {
    let p = provided();
    let a0 = 10_001_000_000_000;
    let psp22 = 100_000_000_000_000;
    assert_eq!(p.get_est_price_psp22_to_a0(E12, a0, psp22), Ok(99019801980));
    assert_eq!(p.get_price_for_one_psp22(a0, psp22), Ok(99019801980));
    assert_eq!(p.get_current_price(a0, psp22), 99019801980);
    assert_eq!(p.get_est_price_a0_to_psp22(E12, a0, psp22), Ok(9090082719752));
    assert_eq!(p.get_est_price_a0_to_psp22_for_swap(E12, a0, psp22), Ok(9999000099990));
    assert_eq!(p.get_est_price_a0_to_psp22_for_swap(a0 + 1, a0, psp22), Err(TradingPairErrors::Overflow));
}

#[test]
fn get_price_for_one_psp22_works() {
    let p = provided();
    let price = p.get_price_for_one_psp22(10_001_000_000_000, 100_000_000_000_000).unwrap();
    assert_eq!(price, 99019801980);
    assert_eq!(p.get_est_price_psp22_to_a0(E12, 10_001_000_000_000, 100_000_000_000_000), Ok(price));
}

#[test]
fn get_est_price_psp22_to_a0_works() {
    let p = provided();
    assert_eq!(p.get_est_price_psp22_to_a0(E12, 10_001_000_000_000, 100_000_000_000_000), Ok(99019801980));
}

#[test]
fn get_est_price_a0_to_psp22_for_swap_works() {
    let p = provided();
    assert_eq!(p.get_est_price_a0_to_psp22_for_swap(E12, 10_001_000_000_000, 100_000_000_000_000), Ok(9999000099990));
}

#[test]
fn get_est_price_a0_to_psp22_works() {
    let p = provided();
    assert_eq!(p.get_est_price_a0_to_psp22(E12, 10_001_000_000_000, 100_000_000_000_000), Ok(9090082719752));
}

#[test]
fn get_price_impact_psp22_to_a0_works() {
    let p = provided();
    assert_eq!(p.get_price_impact_psp22_to_a0(E12, 10_001_000_000_000, 100_000_000_000_000), Ok(96116878086));
}

#[test]
fn get_price_impact_a0_to_psp22_works() {
    let p = provided();
    assert_eq!(p.get_price_impact_a0_to_psp22(E12, 10_001_000_000_000, 100_000_000_000_000), Ok(7505697448706));
}

#[test]
fn swap_psp22_works() {
    let mut p = provided();
    let e = env(1, 1_000_000, 0);
    let a0: u128 = 10_001_000_000_000;
    let psp22: u128 = 100_000_000_000_000;
    let price = p.get_est_price_psp22_to_a0(E12, a0, psp22).unwrap();
    assert_eq!(price, 99019801980);
    let reads = PairReads { a0_balance: a0, psp22_balance: psp22 };
    let plan = p.swap_psp22(&e, reads, 9_900_000_000_000_000, 100_000_000_000_000, E12, price, 500_000_000_000).unwrap();
    assert_eq!(
        plan.transfer_from().call,
        ChainCall::Psp22TransferFrom { token: acc(10), from: acc(1), to: acc(100), amount: E12 }
    );
    let (calls, ev) = p.settle_swap_psp22(&plan, 9_899_000_000_000_000).unwrap();
    assert_eq!(calls.len(), 3);
    assert_eq!(calls[0].call, ChainCall::Psp22Transfer { token: acc(10), to: acc(12), amount: 2_000_000_000 });
    let a0_paid = plan.a0_for_caller() + plan.a0_for_vault();
    assert_eq!(a0 - a0_paid, 9_902_970_396_039);
    assert_eq!(psp22 + E12 - plan.psp22_for_vault(), 100_998_000_000_000);
    assert_eq!(ev.a0_given_amount, plan.a0_for_caller());
    assert_eq!(p.get_generated_lp_fees(), (0, 990198019));
    let e = env(1, 1_000_000, 0);
    assert_eq!(p.get_a0_difference_by_percentage(&e, a0 - a0_paid), Ok(9998500200));
    let reads = PairReads { a0_balance: a0 - a0_paid, psp22_balance: psp22 + E12 - plan.psp22_for_vault() };
    let shares: u128 = 500_000_000_000_000;
    let wplan = p.withdraw_specific_amount(&e, reads, shares).unwrap();
    p.burn_withdrawn_shares(&e, &wplan, reads.psp22_balance - wplan.psp22_amount(), reads.a0_balance - wplan.a0_amount());
    p.settle_withdraw_specific_amount(&e, &wplan, reads.psp22_balance - wplan.psp22_amount());
    assert_eq!(p.get_account_overall_lp_fee_rewards(acc(1)), (0, 495099009));
    assert_eq!(p.get_a0_lp_fee_tokens(shares), Ok(495099010));
}

#[test]
fn swap_a0_works() {
    let mut p = provided();
    let a0: u128 = 10_001_000_000_000;
    let psp22: u128 = 100_000_000_000_000;
    let price = p.get_est_price_a0_to_psp22_for_swap(100_000_000_000, a0, psp22).unwrap();
    assert_eq!(price, 999900009999);
    let paid: u128 = 100_000_000_000;
    let e = env(1, 1_000_000, paid);
    let reads = PairReads { a0_balance: a0 + paid, psp22_balance: psp22 };
    let (calls, ev) = p.swap_a0(&e, reads, price, E12).unwrap();
    assert_eq!(calls.len(), 3);
    assert_eq!(calls[0].call, ChainCall::Psp22Transfer { token: acc(10), to: acc(1), amount: 978120978120 });
    assert_eq!(9_900_000_000_000_000 + ev.psp22_given_amount, 9_900_978_120_978_120);
    assert_eq!(calls[1].call, ChainCall::Psp22Transfer { token: acc(10), to: acc(12), amount: 1980001980 });
    assert_eq!(calls[2].call, ChainCall::NativeTransfer { to: acc(12), amount: 200_000_000 });
    assert_eq!(a0 + paid - 200_000_000, 10_100_800_000_000);
    let psp22_after = psp22 - ev.psp22_given_amount - ev.psp22_given_to_vault;
    assert_eq!(psp22_after, 99_019_899_019_900);
    assert_eq!(p.get_generated_lp_fees(), (9900009900, 0));
    assert_eq!(p.get_contract_overall_generated_fee(), (9900009900, 0));
    let e = env(1, 1_000_000, 0);
    assert_eq!(p.get_psp22_difference_by_percentage(&e, psp22_after), Ok(9997500600));
    let reads = PairReads { a0_balance: a0 + paid - 200_000_000, psp22_balance: psp22_after };
    let shares: u128 = 100_000_000_000;
    let wplan = p.withdraw_specific_amount(&e, reads, shares).unwrap();
    p.burn_withdrawn_shares(&e, &wplan, reads.psp22_balance - wplan.psp22_amount(), reads.a0_balance - wplan.a0_amount());
    p.settle_withdraw_specific_amount(&e, &wplan, reads.psp22_balance - wplan.psp22_amount());
    assert_eq!(p.get_account_overall_lp_fee_rewards(acc(1)), (990000, 0));
    assert_eq!(p.get_psp22_lp_fee_tokens(shares), Ok(990000));
}

#[test]
fn get_withdraw_tokens_amount_works() {
    let p = provided();
    assert_eq!(
        p.get_withdraw_tokens_amount(1_000_000_000_000_000, 10_001_000_000_000, 100_000_000_000_000),
        Ok((10_001_000_000_000, 100_000_000_000_000))
    );
    assert_eq!(
        p.get_withdraw_tokens_amount(500_000_000_000_000, 10_001_000_000_000, 100_000_000_000_000),
        Ok((5_000_500_000_000, 50_000_000_000_000))
    );
}

#[test]
fn get_psp22_withdraw_tokens_amount_works() {
    let p = provided();
    assert_eq!(p.get_psp22_withdraw_tokens_amount(1_000_000_000_000_000, 100_000_000_000_000), Ok(100_000_000_000_000));
}

#[test]
fn get_a0_withdraw_tokens_amount_works() {
    let p = provided();
    assert_eq!(p.get_a0_withdraw_tokens_amount(1_000_000_000_000_000, 10_001_000_000_000), Ok(10_001_000_000_000));
}

#[test]
fn get_account_locked_tokens_works() {
    let p = provided();
    assert_eq!(
        p.get_account_locked_tokens(acc(1), 10_001_000_000_000, 100_000_000_000_000),
        Ok((100_000_000_000_000, 10_001_000_000_000))
    );
}

#[test]
fn withdraw_from_pool() {
    let mut p = provided();
    let e = env(1, 1_000_000, 0);
    let reads = PairReads { a0_balance: 10_001_000_000_000, psp22_balance: 100_000_000_000_000 };
    let plan = p.withdraw_specific_amount(&e, reads, 500_000_000_000_000).unwrap();
    assert_eq!(plan.psp22_amount(), 50_000_000_000_000);
    assert_eq!(plan.a0_amount(), 5_000_500_000_000);
    assert_eq!(plan.new_caller_shares(), 500_000_000_000_000);
    assert_eq!(plan.calls().len(), 2);
    let calls = p.burn_withdrawn_shares(&e, &plan, 50_000_000_000_000, 5_000_500_000_000);
    assert_eq!(calls.len(), 1);
    assert_eq!(p.get_lp_token_of(acc(1)), 500_000_000_000_000);
    assert_eq!(p.get_total_supply(), 500_000_000_000_000);
    let ev = p.settle_withdraw_specific_amount(&e, &plan, 50_000_000_000_000);
    assert_eq!(ev.new_shares_balance, 500_000_000_000_000);
    assert_eq!(ev.a0_given_amount, 5_000_500_000_000);
    assert_eq!(
        p.get_account_locked_tokens(acc(1), 5_000_500_000_000, 50_000_000_000_000),
        Ok((50_000_000_000_000, 5_000_500_000_000))
    );
    assert_eq!(p.get_amount_to_give_each_day_to_caller(acc(1)), 2739726027);
}

#[test]
fn withdraw_checks_shares() {
    let p = provided();
    let e = env(1, 1_000_000, 0);
    let reads = PairReads { a0_balance: 10_001_000_000_000, psp22_balance: 100_000_000_000_000 };
    assert_eq!(p.withdraw_specific_amount(&e, reads, 0).err(), Some(TradingPairErrors::ZeroSharesGiven));
    assert_eq!(
        p.withdraw_specific_amount(&e, reads, 2_000_000_000_000_000).err(),
        Some(TradingPairErrors::CallerInsufficientLPBalance)
    );
}

#[test]
fn swap_psp22_out_of_a0() {
    let p = pair();
    let e = env(1, 0, 0);
    let reads = PairReads { a0_balance: 0, psp22_balance: 5 };
    assert_eq!(p.swap_psp22(&e, reads, 10, 10, 1, 1, 0).err(), Some(TradingPairErrors::ContractOutOfA0));
}

#[test]
fn swap_a0_out_of_psp22() {
    let mut p = pair();
    let e = env(1, 0, 5);
    let reads = PairReads { a0_balance: 5, psp22_balance: 0 };
    assert_eq!(p.swap_a0(&e, reads, 1, 0).err(), Some(TradingPairErrors::ContractOutOfPSP22));
}

#[test]
fn swap_a0_pays_caller_and_vault() {
    let mut p = provided();
    let e = env(2, 2_000_000, E12);
    let reads = PairReads { a0_balance: 10_001_000_000_000 + E12, psp22_balance: 100_000_000_000_000 };
    let q: u128 = 9_090_082_719_752;
    let (calls, ev) = p.swap_a0(&e, reads, q, 0).unwrap();
    assert_eq!(calls.len(), 3);
    // 2 per thousand to the vault, 10 per thousand to the LP fee vault.
    assert_eq!(ev.psp22_given_to_vault, q * 2 / 1000);
    assert_eq!(ev.psp22_given_amount, q - q * 2 / 1000 - q * 10 / 1000);
    assert_eq!(calls[2].call, ChainCall::NativeTransfer { to: acc(12), amount: E12 * 2 / 1000 });
    assert_eq!(p.get_transactions_num(), 1);
    assert_eq!(p.get_generated_lp_fees(), (q * 10 / 1000, 0));
}

#[test]
fn swap_a0_refuses_slippage() {
    let mut p = provided();
    let e = env(2, 2_000_000, E12);
    let reads = PairReads { a0_balance: 10_001_000_000_000 + E12, psp22_balance: 100_000_000_000_000 };
    assert_eq!(p.swap_a0(&e, reads, 20_000_000_000_000, 0).err(), Some(TradingPairErrors::SlippageTolerance));
    assert_eq!(p.get_transactions_num(), 0);
}

#[test]
fn transfer_lp_tokens_works() {
    let mut p = provided();
    let e = env(1, 0, 0);
    assert_eq!(p.transfer(&e, acc(2), 500_000_000_000_000, Vec::new()), Ok(()));
    assert_eq!(p.balance_of(acc(1)), 500_000_000_000_000);
    assert_eq!(p.balance_of(acc(2)), 500_000_000_000_000);
    assert_eq!(p.total_supply(), 1_000_000_000_000_000);
    assert_eq!(p.transfer(&e, acc(2), 600_000_000_000_000, Vec::new()), Err(PSP22Error::InsufficientBalance));
}

#[test]
fn transfer_lp_tokens_from_to_works() {
    let mut p = provided();
    let owner = env(1, 0, 0);
    let spender = env(3, 0, 0);
    assert_eq!(p.transfer_from(&spender, acc(1), acc(2), 10, Vec::new()), Err(PSP22Error::InsufficientAllowance));
    assert_eq!(p.approve(&owner, acc(3), 500_000_000_000_000), Ok(()));
    assert_eq!(p.allowance(acc(1), acc(3)), 500_000_000_000_000);
    assert_eq!(p.transfer_from(&spender, acc(1), acc(2), 200_000_000_000_000, Vec::new()), Ok(()));
    assert_eq!(p.balance_of(acc(1)), 800_000_000_000_000);
    assert_eq!(p.balance_of(acc(2)), 200_000_000_000_000);
    assert_eq!(p.allowance(acc(1), acc(3)), 300_000_000_000_000);
}

#[test]
fn planned_calls_carry_their_errors() {
    let p = provided();
    let e = env(1, 1_000_000, 0);
    let reads = PairReads { a0_balance: 10_001_000_000_000, psp22_balance: 100_000_000_000_000 };
    let plan = p.withdraw_specific_amount(&e, reads, 500_000_000_000_000).unwrap();
    let first: &Planned<TradingPairErrors> = &plan.calls()[0];
    assert_eq!(first.on_failure, TradingPairErrors::PSP22TransferFailed);
    assert_eq!(plan.calls()[1].on_failure, TradingPairErrors::A0TransferFailed);
}

#[test]
fn quotes_stay_within_the_reserve() {
    let p = provided();
    let out = p.get_est_price_psp22_to_a0(1_000_000_000_000 * E12, 10_001_000_000_000, 100_000_000_000_000).unwrap();
    assert!(out <= 10_001_000_000_000);
}

#[test]
fn transfer_to_oneself_keeps_the_balance() {
    let mut p = provided();
    let e = env(1, 0, 0);
    assert_eq!(p.transfer(&e, acc(1), 100, Vec::new()), Ok(()));
    assert_eq!(p.balance_of(acc(1)), 1_000_000_000_000_000);
    assert_eq!(p.total_supply(), 1_000_000_000_000_000);
    assert_eq!(p.approve(&e, acc(3), 100), Ok(()));
    let spender = env(3, 0, 0);
    assert_eq!(p.transfer_from(&spender, acc(1), acc(1), 100, Vec::new()), Ok(()));
    assert_eq!(p.balance_of(acc(1)), 1_000_000_000_000_000);
    assert_eq!(p.allowance(acc(1), acc(3)), 0);
}

#[test]
fn swap_with_a_large_fee_is_refused_on_slippage_first() {
    let p = TradingPairAzero::new(acc(10), 10_000_000_000_000_000_000_000_000_000_000, acc(11), acc(12), 0, acc(1));
    let e = env(1, 0, 0);
    let reads = PairReads { a0_balance: 100_000_000_000_000_000_000, psp22_balance: 100_000_000_000_000_000_000 };
    let amount: u128 = 10_000_000_000_000_000_000;
    assert!(p.swap_psp22_is_in_range(reads, amount, amount, amount, 1, 0));
    assert_eq!(p.swap_psp22(&e, reads, amount, amount, amount, 1, 0).err(), Some(TradingPairErrors::SlippageTolerance));
    // Past the slippage check the LP fee part would not fit in 128 bits.
    assert!(!p.swap_psp22_is_in_range(reads, amount, amount, amount, 1, u128::MAX));
}

#[test]
fn range_checks_accept_the_ordinary_messages() {
    let p = provided();
    let a0: u128 = 10_001_000_000_000;
    let psp22: u128 = 100_000_000_000_000;
    let reads = PairReads { a0_balance: a0, psp22_balance: psp22 };
    assert!(p.swap_psp22_is_in_range(reads, 9_900_000_000_000_000, 100_000_000_000_000, E12, 99019801980, 500_000_000_000));
    let e = env(1, 1_000_000, 100_000_000_000);
    let reads_a0 = PairReads { a0_balance: a0 + 100_000_000_000, psp22_balance: psp22 };
    assert!(p.swap_a0_is_in_range(&e, reads_a0, 999900009999, E12));
    // Coins sent beyond the pair's balance are out of range.
    let short = PairReads { a0_balance: 10, psp22_balance: psp22 };
    assert!(!p.swap_a0_is_in_range(&e, short, 1, 0));
    let fresh = pair();
    let first = env(1, 1_000_000, 10_000_000_000_000);
    let reads = PairReads { a0_balance: 10_001_000_000_000, psp22_balance: 0 };
    assert!(fresh.provision_is_in_range(
        &first,
        reads,
        10_000_000_000_000_000,
        100_000_000_000_000,
        100_000_000_000_000,
        10_000_000_000_000,
        1_000_000_000_000_000,
        500_000_000_000
    ));
    assert!(fresh.difference_is_defined(7, 7));
    assert!(!fresh.difference_is_defined(0, 1));
}

#[test]
fn supply_stays_the_sum_of_shares() {
    let mut p = provided();
    let owner = env(1, 1_000_000, 0);
    assert_eq!(p.transfer(&owner, acc(2), 300_000_000_000_000, Vec::new()), Ok(()));
    assert_eq!(p.approve(&owner, acc(3), 100_000_000_000_000), Ok(()));
    assert_eq!(p.transfer_from(&env(3, 0, 0), acc(1), acc(3), 100_000_000_000_000, Vec::new()), Ok(()));
    let reads = PairReads { a0_balance: 10_001_000_000_000, psp22_balance: 100_000_000_000_000 };
    let wplan = p.withdraw_specific_amount(&owner, reads, 200_000_000_000_000).unwrap();
    p.burn_withdrawn_shares(&owner, &wplan, reads.psp22_balance - wplan.psp22_amount(), reads.a0_balance - wplan.a0_amount());
    let sum = p.balance_of(acc(1)) + p.balance_of(acc(2)) + p.balance_of(acc(3));
    assert_eq!(sum, 800_000_000_000_000);
    assert_eq!(p.total_supply(), sum);
}
