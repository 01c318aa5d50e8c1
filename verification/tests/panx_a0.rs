use panorama_swap::env::{CallEnv, ChainCall};
use panorama_swap::panx_a0::{PanxA0, PanxA0Call, PanxA0Trap};
use panorama_swap::AccountId;

const E12: u128 = 1_000_000_000_000;

fn acc(n: u64) -> AccountId {
    AccountId::new(n, 0, 0, 0)
}

fn env(caller: u64, ms: u64, value: u128) -> CallEnv {
    CallEnv { caller: acc(caller), account_id: acc(300), block_timestamp: ms, transferred_value: value }
}

fn pool() -> PanxA0 {
    PanxA0::new(&env(9, 0, 0), acc(7), 25)
}

#[test]
fn new_pool_keeps_default_fee() {
    let p = pool();
    assert_eq!(p.get_fee(), 0);
    assert_eq!(p.manager, acc(9));
    assert_eq!(p.get_total_supply(), 0);
    assert_eq!(p.get_transactions_num(), 0);
    assert_eq!(p.get_trans_log(), String::new());
}

#[test]
fn prices_of_the_pool() {
    let p = pool();
    assert_eq!(p.get_price_for_1_panx(1000 * E12, 1010 * E12), Some(989119683481));
    assert_eq!(p.get_price_panx_to_a0(E12, 1000 * E12, 1000 * E12), Some(999000999000));
    assert_eq!(p.get_current_price(1000 * E12, 1000 * E12), Some(999000999000));
    assert_eq!(p.get_price_panx_to_a0_with_lp_fee(10 * E12, 1000 * E12, 1010 * E12), Some(9774797297959));
    assert_eq!(p.get_price_impact_panx_to_a0(E12, 1000 * E12, 1000 * E12), Some(994021919267));
    assert_eq!(p.get_price_a0_to_panx(&env(1, 0, E12), 1000 * E12, 1000 * E12), Some(999000999000));
    assert_eq!(p.get_price_panx_to_a0(E12, 0, 0), Some(0));
    assert_eq!(p.get_price_panx_to_a0(0, 5, 0), None);
    assert_eq!(p.get_price_panx_to_a0(u128::MAX, 2, 0), None);
    assert_eq!(p._min(3, 2), 2);
}

#[test]
fn swap_panx_to_a0_steps() {
    let mut p = pool();
    let e = env(1, 86_400_000, 0);
    assert_eq!(
        p.swap_panx_to_a0(&e, 10 * E12),
        PanxA0Call {
            call: ChainCall::Psp22TransferFrom { token: acc(7), from: acc(1), to: acc(300), amount: 10 * E12 },
            traps_on_failure: false,
        }
    );
    let out: u128 = 9774797297959;
    let (o, pay) = p.price_swap_panx_to_a0(&e, 10 * E12, out, 1, 1000 * E12, 1010 * E12).unwrap();
    assert_eq!(o, out);
    assert_eq!(pay, PanxA0Call { call: ChainCall::NativeTransfer { to: acc(1), amount: out }, traps_on_failure: true });
    p.record_swap_panx_to_a0(&e, out, out, 1000 * E12 - out, 1010 * E12).unwrap();
    assert_eq!(p.get_transactions_num(), 1);
    assert_eq!(p.get_trans_log(), String::from("979451239072, 1970-01-02 00:00:00 UTC;"));
    assert_eq!(p.get_panx_volume_log(), String::from("9774797297959, 1970-01-02 00:00:00 UTC, type: SELL;"));
    assert_eq!(p.get_a0_volume_log(), String::from("9774797297959, 1970-01-02 00:00:00 UTC, type: BUY;"));
}

#[test]
fn swap_traps_on_slippage() {
    let p = pool();
    let e = env(1, 0, 0);
    // The amount out falls short of the validated amount by 100 hundreds.
    assert_eq!(
        p.price_swap_panx_to_a0(&e, 10 * E12, 9774797297959 + 10_000, 100, 1000 * E12, 1010 * E12).err(),
        Some(PanxA0Trap::SlippageExceeded)
    );
    assert_eq!(
        p.price_swap_panx_to_a0(&e, 10 * E12, 9774797297959 - 1, 100, 1000 * E12, 1010 * E12).err(),
        Some(PanxA0Trap::Overflow)
    );
}

#[test]
fn swap_a0_to_panx_steps() {
    let mut p = pool();
    let e = env(1, 0, 10 * E12);
    let (o, call) = p.swap_a0_to_panx(&e, 9774797297959, 1, 1010 * E12, 1000 * E12).unwrap();
    assert_eq!(o, 9774797297959);
    assert_eq!(
        call,
        PanxA0Call { call: ChainCall::Psp22Transfer { token: acc(7), to: acc(1), amount: o }, traps_on_failure: false }
    );
    p.record_swap_a0_to_panx(&e, o, 1010 * E12, 1000 * E12 - o).unwrap();
    assert_eq!(p.get_panx_volume_log(), String::from("9774797297959, 1970-01-01 00:00:00 UTC, type: BUY;"));
    assert_eq!(p.get_a0_volume_log(), String::from("10000000000000, 1970-01-01 00:00:00 UTC, type: SELL;"));
}

#[test]
fn first_deposit_mints_the_root_of_the_product() {
    let mut p = pool();
    let e = env(1, 0, 10_000_000_000_000);
    assert_eq!(
        p.add_to_pool(&e, 100_000_000_000_000).call,
        ChainCall::Psp22TransferFrom { token: acc(7), from: acc(1), to: acc(300), amount: 100_000_000_000_000 }
    );
    assert_eq!(p.get_expected_lp_token_amount(&e, 100_000_000_000_000, 10_000_000_000_000, 100_000_000_000_000), Some(31622776601683));
    let shares = p.settle_add_to_pool(&e, 100_000_000_000_000, 10_000_000_000_000, 100_000_000_000_000).unwrap();
    assert_eq!(shares, 31622776601683);
    assert_eq!(p.get_lp_token_of(acc(1)), 31622776601683);
    assert_eq!(p.get_total_supply(), 31622776601683);
    assert_eq!(
        p.get_lp_trans_log(),
        String::from("PANX: 100000000000000, AO: 10000000000000, share: 31622776601683, date: 1970-01-01 00:00:00 UTC, type: ADD;")
    );
}

#[test]
fn later_deposits_mint_the_smaller_share() {
    let mut p = pool();
    p.settle_add_to_pool(&env(1, 0, 100), 100, 100, 100).unwrap();
    assert_eq!(p.get_total_supply(), 100);
    let e = env(2, 0, 50);
    // 50 AZERO against 150 held, 10 PANX against 110 held.
    assert_eq!(p.settle_add_to_pool(&e, 10, 150, 110), Ok(9));
    assert_eq!(p.get_lp_token_of(acc(2)), 9);
    assert_eq!(p.settle_add_to_pool(&env(3, 0, 0), 0, 150, 110), Err(PanxA0Trap::ZeroShares));
}

#[test]
fn withdraw_burns_shares_and_pays() {
    let mut p = pool();
    p.settle_add_to_pool(&env(1, 0, 100), 100, 100, 100).unwrap();
    let calls = p.withdraw_specific_amount(&env(1, 0, 0), 40, 200, 100).unwrap();
    assert_eq!(calls.len(), 3);
    assert_eq!(calls[0].call, ChainCall::Psp22Approve { token: acc(7), spender: acc(1), amount: 40 });
    assert_eq!(calls[1].call, ChainCall::Psp22Transfer { token: acc(7), to: acc(1), amount: 40 });
    assert_eq!(calls[2], PanxA0Call { call: ChainCall::NativeTransfer { to: acc(1), amount: 80 }, traps_on_failure: true });
    assert_eq!(p.get_lp_token_of(acc(1)), 60);
    assert_eq!(p.get_total_supply(), 60);
    assert_eq!(p.withdraw_specific_amount(&env(1, 0, 0), 61, 200, 100).err(), Some(PanxA0Trap::InsufficientShares));
    let calls = p.withdraw(&env(1, 0, 0), 120, 60).unwrap();
    assert_eq!(calls[2].call, ChainCall::NativeTransfer { to: acc(1), amount: 120 });
    assert_eq!(p.get_lp_token_of(acc(1)), 0);
    assert_eq!(p.get_total_supply(), 0);
}

#[test]
fn pool_queries() {
    let mut p = pool();
    p.settle_add_to_pool(&env(1, 0, 100), 100, 100, 100).unwrap();
    assert_eq!(p.get_withdraw_tokens_amount(50, 300, 100), Some((150, 50)));
    assert_eq!(p.get_account_locked_tokens(acc(1), 300, 100), Some((100, 300)));
    assert_eq!(p.get_account_id(&env(1, 0, 0)), acc(300));
    assert_eq!(p.get_current_timestamp(&env(1, 12_345, 0)), 12);
}

#[test]
fn utc_date_of_the_block() {
    let p = pool();
    assert_eq!(p.get_current_timestamp_as_utc_string(&env(1, 1_654_084_800_000, 0)), Ok(String::from("2022-06-01 12:00:00 UTC")));
    assert_eq!(p.get_current_timestamp_as_utc_string(&env(1, u64::MAX, 0)), Err(PanxA0Trap::DateOutOfRange));
}

#[test]
fn swaps_stay_within_the_reserve() {
    let p = pool();
    let out = p.get_price_panx_to_a0_with_lp_fee(1_000_000_000 * E12, 1000 * E12, 1000 * E12).unwrap();
    assert!(out <= 1000 * E12);
    assert_eq!(out, 999998996991978);
}

#[test]
fn all_shares_are_the_whole_pool() {
    let mut p = pool();
    p.settle_add_to_pool(&env(1, 0, 100), 100, 100, 100).unwrap();
    assert_eq!(p.get_withdraw_tokens_amount(100, 12345, 678), Some((12345, 678)));
}
