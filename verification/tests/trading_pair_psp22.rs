use panorama_swap::env::{CallEnv, ChainCall};
use panorama_swap::trading_pair_psp22::{ProvisionOutcome, TradingPairErrors, TradingPairPsp22};
use panorama_swap::AccountId;

const E12: u128 = 1_000_000_000_000;

fn acc(n: u64) -> AccountId {
    AccountId::new(n, 0, 0, 0)
}

fn env(caller: u64) -> CallEnv {
    CallEnv { caller: acc(caller), account_id: acc(100), block_timestamp: 0, transferred_value: 0 }
}

fn pair() -> TradingPairPsp22 {
    TradingPairPsp22::new(acc(20), acc(21), E12, acc(22), acc(23))
}

/// The pair after a first provision of 1000 of each token by account 1.
fn provided() -> TradingPairPsp22 {
    let mut p = pair();
    let e = env(1);
    let start = p.provide_to_pool(&e, 10_000 * E12, 10_000 * E12, 1000 * E12, 1000 * E12, 0, 1000 * E12, 1000 * E12, 1000 * E12, 0).unwrap();
    let middle = p.provide_token2_to_pool(&e, &start, 9000 * E12, 1000 * E12, 0).unwrap();
    match p.settle_provide_to_pool(&middle, 9000 * E12, 1000 * E12, 1000 * E12).unwrap() {
        ProvisionOutcome::Minted(ev) => assert_eq!(ev.shares_given, 1000 * E12),
        ProvisionOutcome::Refund { .. } => panic!("refund"),
    }
    p
}

#[test]
fn new_pair_is_empty() {
    let p = pair();
    assert_eq!(p.get_total_supply(), 0);
    assert_eq!(p.get_fee(), E12);
    assert_eq!(p.get_transactions_num(), 0);
    assert_eq!(p.get_lp_token_of(acc(1)), 0);
}

#[test]
fn check_diffrenece_is_symmetric() {
    let p = pair();
    assert_eq!(p.check_diffrenece(100, 110), Ok(9523809523800));
    assert_eq!(p.check_diffrenece(110, 100), Ok(9523809523800));
    assert_eq!(p.check_diffrenece(5, 5), Ok(0));
}

#[test]
fn provision_mints_first_shares() {
    let p = provided();
    assert_eq!(p.get_total_supply(), 1000 * E12);
    assert_eq!(p.get_lp_token_of(acc(1)), 1000 * E12);
    assert_eq!(p.get_expected_lp_token_amount(500 * E12, 1000 * E12), Ok(500 * E12));
}

#[test]
fn second_provision_mints_in_proportion() {
    let mut p = pair();
    let e = env(1);
    let start = p.provide_to_pool(&e, 10_000, 10_000, 100, 10_000, 0, 10, 1000, 1000 * E12, 0).unwrap();
    let middle = p.provide_token2_to_pool(&e, &start, 9990, 10, 0).unwrap();
    match p.settle_provide_to_pool(&middle, 9000, 10, 1000).unwrap() {
        ProvisionOutcome::Minted(ev) => assert_eq!(ev.shares_given, 1000 * E12),
        ProvisionOutcome::Refund { .. } => panic!("refund"),
    }
    let start = p.provide_to_pool(&e, 9990, 9000, 90, 9000, 10, 10, 1000, 1000 * E12, 0).unwrap();
    let middle = p.provide_token2_to_pool(&e, &start, 9980, 20, 1000).unwrap();
    assert_eq!(middle.actual_psp22_1_deposit_amount(), 10);
    match p.settle_provide_to_pool(&middle, 8000, 20, 2000).unwrap() {
        ProvisionOutcome::Minted(ev) => assert_eq!(ev.shares_given, 1000 * E12),
        ProvisionOutcome::Refund { .. } => panic!("refund"),
    }
    assert_eq!(p.get_lp_token_of(acc(1)), 2000 * E12);
    assert_eq!(p.get_total_supply(), 2000 * E12);
}

#[test]
fn provision_checks_balances_and_allowances() {
    let p = pair();
    let e = env(1);
    assert_eq!(p.provide_to_pool(&e, 1, 10, 10, 10, 0, 5, 5, 0, 0).err(), Some(TradingPairErrors::CallerInsufficientPSP1Balance));
    assert_eq!(p.provide_to_pool(&e, 10, 1, 10, 10, 0, 5, 5, 0, 0).err(), Some(TradingPairErrors::CallerInsufficientPSP2Balance));
    assert_eq!(p.provide_to_pool(&e, 10, 10, 1, 10, 0, 5, 5, 0, 0).err(), Some(TradingPairErrors::NotEnoughPSP1Allowance));
    assert_eq!(p.provide_to_pool(&e, 10, 10, 10, 1, 0, 5, 5, 0, 0).err(), Some(TradingPairErrors::NotEnoughPSP2Allowance));
}

#[test]
fn provision_refunds_on_slippage() {
    let mut p = provided();
    let e = env(2);
    // 100 more of each token are worth 100 shares; 150 were expected, with no slippage allowed.
    let start = p.provide_to_pool(&e, 1000 * E12, 1000 * E12, 1000 * E12, 1000 * E12, 1000 * E12, 100 * E12, 100 * E12, 150 * E12, 0).unwrap();
    let middle = p.provide_token2_to_pool(&e, &start, 900 * E12, 1100 * E12, 1000 * E12).unwrap();
    assert_eq!(middle.actual_psp22_1_deposit_amount(), 100 * E12);
    match p.settle_provide_to_pool(&middle, 900 * E12, 1100 * E12, 1100 * E12).unwrap() {
        ProvisionOutcome::Refund { calls, error } => {
            assert_eq!(error, TradingPairErrors::SlippageTolerance);
            assert_eq!(calls.len(), 2);
            assert_eq!(calls[0].call, ChainCall::Psp22Transfer { token: acc(20), to: acc(2), amount: 100 * E12 });
        },
        ProvisionOutcome::Minted(_) => panic!("minted"),
    }
    assert_eq!(p.get_total_supply(), 1000 * E12);
}

#[test]
fn estimates_follow_the_constant_product() {
    let p = provided();
    assert_eq!(p.get_est_price_psp22_token1_to_psp22_token2(E12, 1000 * E12, 1000 * E12, 0), Ok(989020869339));
    assert_eq!(p.get_est_price_psp22_token2_to_psp22_token1(E12, 1000 * E12, 2000 * E12, 0), Ok(494755096227));
    assert_eq!(p.get_price_for_one_psp22_token1(1000 * E12, 2000 * E12, 0), Ok(1978041738678));
}

#[test]
fn swap_token1_plans_and_settles() {
    let mut p = provided();
    let e = env(2);
    let out: u128 = 989020869339;
    let plan = p.swap_psp22_token1(&e, 1000 * E12, 1000 * E12, 10 * E12, 10 * E12, 0, E12, out, 0).unwrap();
    assert_eq!(plan.out_for_vault(), out * 25 / 1000);
    assert_eq!(plan.amount_out(), out - out * 25 / 1000);
    assert_eq!(plan.in_for_vault(), E12 * 25 / 1000);
    let (calls, ev) = p.settle_swap_psp22_token1(&plan, 9 * E12).unwrap();
    assert_eq!(calls.len(), 3);
    assert_eq!(calls[0].call, ChainCall::Psp22Transfer { token: acc(21), to: acc(2), amount: out - out * 25 / 1000 });
    assert_eq!(ev.psp22_1_deposited_amount, E12);
    assert_eq!(p.get_transactions_num(), 1);
}

#[test]
fn swap_token1_checks() {
    let p = provided();
    let e = env(2);
    assert_eq!(p.swap_psp22_token1(&e, 0, 1000 * E12, 10 * E12, 10 * E12, 0, E12, 1, 0).err(), Some(TradingPairErrors::ContractOutOfPSP1));
    assert_eq!(p.swap_psp22_token1(&e, 1000 * E12, 0, 10 * E12, 10 * E12, 0, E12, 1, 0).err(), Some(TradingPairErrors::ContractOutOfPSP2));
    assert_eq!(
        p.swap_psp22_token1(&e, 1000 * E12, 1000 * E12, 0, 10 * E12, 0, E12, 1, 0).err(),
        Some(TradingPairErrors::CallerInsufficientPSP1Balance)
    );
    assert_eq!(
        p.swap_psp22_token1(&e, 1000 * E12, 1000 * E12, 10 * E12, 0, 0, E12, 1, 0).err(),
        Some(TradingPairErrors::NotEnoughPSP1Allowance)
    );
    assert_eq!(
        p.swap_psp22_token1(&e, 1000 * E12, 1000 * E12, 10 * E12, 10 * E12, 0, E12, 2 * E12, 0).err(),
        Some(TradingPairErrors::SlippageTolerance)
    );
}

#[test]
fn swap_settle_refuses_unchanged_balance() {
    let mut p = provided();
    let e = env(2);
    let plan = p.swap_psp22_token1(&e, 1000 * E12, 1000 * E12, 10 * E12, 10 * E12, 0, E12, 989020869339, 0).unwrap();
    assert_eq!(p.settle_swap_psp22_token1(&plan, 10 * E12).err(), Some(TradingPairErrors::CallerInsufficientPSP1Balance));
    assert_eq!(p.get_transactions_num(), 0);
}

#[test]
fn withdraw_pays_both_tokens() {
    let mut p = provided();
    let e = env(1);
    assert_eq!(p.get_withdraw_tokens_amount(500 * E12, 1000 * E12, 1000 * E12), Ok((500 * E12, 500 * E12)));
    let (calls, ev) = p.withdraw_specific_amount(&e, 1000 * E12, 1000 * E12, 500 * E12).unwrap();
    assert_eq!(calls.len(), 2);
    assert_eq!(ev.new_shares_balance, 500 * E12);
    assert_eq!(p.get_total_supply(), 500 * E12);
    assert_eq!(p.get_account_locked_tokens(acc(1), 500 * E12, 500 * E12), Ok((500 * E12, 500 * E12)));
    assert_eq!(p.withdraw_specific_amount(&e, 500 * E12, 500 * E12, 0).err(), Some(TradingPairErrors::ZeroSharesGiven));
    assert_eq!(
        p.withdraw_specific_amount(&e, 500 * E12, 500 * E12, 600 * E12).err(),
        Some(TradingPairErrors::CallerInsufficientLPBalance)
    );
}

#[test]
fn lp_transfers_keep_the_sum() {
    let mut p = provided();
    assert_eq!(p.transfer_lp_tokens(&env(1), acc(2), 300 * E12), Ok(()));
    assert_eq!(p.get_lp_token_of(acc(1)) + p.get_lp_token_of(acc(2)), 1000 * E12);
    assert_eq!(p.transfer_lp_tokens(&env(2), acc(1), 400 * E12), Err(TradingPairErrors::CallerInsufficientLPBalance));
}

#[test]
fn lp_transfer_to_oneself_keeps_the_balance() {
    let mut p = provided();
    assert_eq!(p.transfer_lp_tokens(&env(1), acc(1), 300 * E12), Ok(()));
    assert_eq!(p.get_lp_token_of(acc(1)), 1000 * E12);
    assert_eq!(p.get_total_supply(), 1000 * E12);
}

#[test]
fn lp_transfer_from_needs_allowance() {
    let mut p = provided();
    assert_eq!(p.transfer_lp_tokens_from_to(&env(3), acc(1), acc(2), 10), Err(TradingPairErrors::NotEnoughOwnerLPAllowance));
    assert_eq!(p.approve_lp_tokens(&env(1), acc(3), 200 * E12), Ok(()));
    assert_eq!(p.get_lp_tokens_allowance(acc(1), acc(3)), 200 * E12);
    assert_eq!(p.transfer_lp_tokens_from_to(&env(3), acc(1), acc(2), 150 * E12), Ok(()));
    assert_eq!(p.get_lp_token_of(acc(2)), 150 * E12);
    assert_eq!(p.get_lp_tokens_allowance(acc(1), acc(3)), 50 * E12);
}

#[test]
fn panx_holders_get_more_out() {
    let p = provided();
    assert_eq!(p.get_est_price_psp22_token1_to_psp22_token2(E12, 1000 * E12, 1000 * E12, 3500 * E12), Ok(999000999000));
    assert_eq!(p.get_est_price_psp22_token1_to_psp22_token2(E12, 1000 * E12, 1000 * E12, 0), Ok(989020869339));
}

#[test]
fn estimates_stay_within_the_reserve() {
    let p = provided();
    let out = p.get_est_price_psp22_token1_to_psp22_token2(100_000_000 * E12, 1000 * E12, 1000 * E12, 0).unwrap();
    assert!(out <= 1000 * E12);
}
