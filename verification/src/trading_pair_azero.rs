//! The AZERO/PSP22 trading pair: a constant-product pool of native AZERO coins and
//! one PSP22 token, with LP shares that are themselves a PSP22 token.
use crate::account::{AccountId, Mapping};
use crate::env::{CallEnv, ChainCall, Planned};
use crate::token::PSP22Error;
use crate::wide::{Uint256, w128, w256, wide_from_u128, wide_mul, wide_checked_mul, wide_checked_add, wide_checked_div, wide_div_u128, wide_sub_u128, wide_as_u128, wide_le, lemma_value_bound};
use vstd::prelude::*;

verus! {

/// 10^12, the unit that amounts and percentages are scaled by.
pub const E12: u128 = 1_000_000_000_000u128;

#[derive(Debug, Clone, Copy, PartialEq, Eq)]
pub enum TradingPairErrors {
    CallerInsufficientPSP22Balance,
    CallerInsufficientAZEROBalance,
    NotEnoughAllowance,
    Overflow,
    ZeroSharesGiven,
    SlippageTolerance,
    PSP22TransferFromFailed,
    PSP22TransferFailed,
    A0TransferFailed,
    CallerInsufficientLPBalance,
    ContractOutOfA0,
    ContractOutOfPSP22,
    NotEnoughOwnerLPAllowance,
    ZeroDaysPassed,
    ZeroDailyPSP22,
    ZeroDailyA0,
    UpdateIncentiveProgramError,
    RemoveLpIncentiveProgramError,
    LpStillLocked,
}

/// Emitted when liquidity is provided.
#[derive(Debug, Clone, Copy, PartialEq, Eq)]
pub struct LiquidityPoolProvision {
    pub provider: AccountId,
    pub a0_deposited_amount: u128,
    pub psp22_deposited_amount: u128,
    pub shares_given: u128,
}

/// Emitted when liquidity is withdrawn.
#[derive(Debug, Clone, Copy, PartialEq, Eq)]
pub struct LiquidityPoolWithdrawal {
    pub caller: AccountId,
    pub shares_given: u128,
    pub a0_given_amount: u128,
    pub psp22_given_amount: u128,
    pub new_shares_balance: u128,
}

/// Emitted when AZERO is swapped for PSP22 tokens.
#[derive(Debug, Clone, Copy, PartialEq, Eq)]
pub struct A0Swap {
    pub caller: AccountId,
    pub a0_deposited_amount: u128,
    pub psp22_given_amount: u128,
    pub psp22_given_to_vault: u128,
}

/// Emitted when PSP22 tokens are swapped for AZERO.
#[derive(Debug, Clone, Copy, PartialEq, Eq)]
pub struct PSP22Swap {
    pub caller: AccountId,
    pub psp22_deposited_amount: u128,
    pub a0_given_amount: u128,
    pub a0_given_to_vault: u128,
}

/// The storage of an AZERO/PSP22 trading pair.
#[derive(Debug, Clone)]
pub struct TradingPairAzero {
    pub transasction_number: i64,
    pub psp22_token: AccountId,
    pub fee: u128,
    pub total_supply: u128,
    pub balances: Mapping<AccountId, u128>,
    pub panx_contract: AccountId,
    pub lp_tokens_allowances: Mapping<(AccountId, AccountId), u128>,
    pub vault: AccountId,
    pub traders_fee: u128,
    pub psp22_lp_fee_vault: u128,
    pub azero_lp_fee_vault: u128,
    pub contract_overall_generated_psp22_fee: u128,
    pub contract_overall_generated_azero_fee: u128,
    pub psp22_to_give_in_a_day: Mapping<AccountId, u128>,
    pub account_overall_staking_rewards: Mapping<AccountId, u128>,
    pub account_overall_lp_fee_rewards: Mapping<AccountId, (u128, u128)>,
    pub last_redeemed: Mapping<AccountId, u64>,
    pub staking_percentage: u128,
    pub lp_lock_timestamp: u64,
    pub deployer: AccountId,
}

// ---------------------------------------------------------------------------
// The arithmetic of the pair, over mathematical integers.
// ---------------------------------------------------------------------------

/// The percentage difference between two values, scaled by 10^12: the distance
/// between them over their mean (rounded down), times 100.
pub open spec fn difference_percentage(v1: int, v2: int) -> int {
    if v1 > v2 {
        ((v1 - v2) * 1_000_000_000_000 / ((v1 + v2) / 2)) * 100
    } else if v2 > v1 {
        ((v2 - v1) * 1_000_000_000_000 / ((v1 + v2) / 2)) * 100
    } else {
        0
    }
}

/// `check_difference` neither overflows nor divides by zero before its checked step.
pub open spec fn difference_defined(v1: u128, v2: u128) -> bool {
    ||| v1 == v2
    ||| v1 > v2 && (v1 - v2) * 1_000_000_000_000 <= u128::MAX && v1 + v2 <= u128::MAX && (v1 + v2) / 2 > 0
    ||| v2 > v1 && (v2 - v1) * 1_000_000_000_000 <= u128::MAX && v1 + v2 <= u128::MAX && (v1 + v2) / 2 > 0
}

/// What `check_difference` returns.
pub open spec fn check_difference_result(v1: u128, v2: u128) -> Result<u128, TradingPairErrors> {
    let d = difference_percentage(v1 as int, v2 as int);
    if d > u128::MAX {
        Err(TradingPairErrors::Overflow)
    } else {
        Ok(d as u128)
    }
}


/// An amount as it enters a quote: times 100, the scale at which the quote holds
/// the reserves.
pub open spec fn quote_amount(amount: u128) -> int {
    amount * 100
}

/// An amount after the full LP fee, times 100.
pub open spec fn after_full_lp_fee(amount: u128, fee: u128) -> int {
    amount * (100 * 1_000_000_000_000 - fee) / 1_000_000_000_000
}

/// The constant-product quote: what `w` (an input amount, times 100)
/// buys out of `reserve_out` against `reserve_in`; `Overflow` where a 256-bit step
/// overflows or the denominator is zero.
pub open spec fn quote_result(w: int, reserve_out: int, reserve_in: int) -> Result<u128, TradingPairErrors> {
    let den = reserve_in * 100 + w;
    if w * reserve_out >= w256() || den >= w256() || den == 0 {
        Err(TradingPairErrors::Overflow)
    } else {
        Ok((w * reserve_out / den) as u128)
    }
}

/// `a * b / c` is at most `b` where `c` is at least `a`.
pub proof fn lemma_mul_div_le(a: int, b: int, c: int)
    requires
        0 < a <= c,
        0 <= b,
    ensures
        a * b / c <= b,
        0 <= a * b / c,
{
    assert(a * b <= c * b) by (nonlinear_arith)
        requires
            0 < a <= c,
            0 <= b,
    ;
    assert(a * b / c <= b) by (nonlinear_arith)
        requires
            a * b <= c * b,
            0 < c,
            0 <= b,
    ;
    assert(0 <= a * b / c) by (nonlinear_arith)
        requires
            0 < c,
            0 <= b,
            0 < a,
    ;
}

/// A swap never pays out more than the reserve it pays from.
pub proof fn lemma_quote_within_reserve(w: int, reserve_out: int, reserve_in: int)
    requires
        0 <= w,
        0 <= reserve_out,
        0 <= reserve_in,
    ensures
        quote_result(w, reserve_out, reserve_in) matches Ok(v) ==> v <= reserve_out,
        reserve_in * 100 + w > 0 ==> 0 <= w * reserve_out / (reserve_in * 100 + w) <= reserve_out,
{
    let den = reserve_in * 100 + w;
    if den > 0 {
        if w == 0 {
            assert(w * reserve_out == 0);
        } else {
            lemma_mul_div_le(w, reserve_out, den);
        }
    }
}


/// Of two fractions, the one with the smaller cross product is the smaller after
/// rounding down.
pub proof fn lemma_fraction_le(a: int, b: int, c: int, d: int)
    requires
        0 <= a,
        0 < b,
        0 <= c,
        0 < d,
        a * d <= c * b,
    ensures
        a / b <= c / d,
{
    let q = a / b;
    let p = c / d;
    vstd::arithmetic::div_mod::lemma_fundamental_div_mod(a, b);
    vstd::arithmetic::div_mod::lemma_fundamental_div_mod(c, d);
    assert(q * b <= a);
    assert(c < p * d + d);
    assert(q * b * d <= a * d) by (nonlinear_arith)
        requires
            q * b <= a,
            0 < d,
    ;
    assert(q * d * b <= c * b) by (nonlinear_arith)
        requires
            q * b * d <= a * d,
            a * d <= c * b,
    ;
    assert(q * d <= c) by (nonlinear_arith)
        requires
            q * d * b <= c * b,
            0 < b,
    ;
    assert(q <= p) by (nonlinear_arith)
        requires
            q * d <= c,
            c < p * d + d,
            0 < d,
    ;
}

/// The more goes into a swap, the more comes out.
pub proof fn lemma_quote_monotone(w1: int, w2: int, reserve_out: int, reserve_in: int)
    requires
        0 <= w1 <= w2,
        0 <= reserve_out,
        0 <= reserve_in,
        reserve_in * 100 + w1 > 0,
    ensures
        w1 * reserve_out / (reserve_in * 100 + w1) <= w2 * reserve_out / (reserve_in * 100 + w2),
{
    let i = reserve_in * 100;
    assert(w1 * reserve_out * (i + w2) <= w2 * reserve_out * (i + w1)) by (nonlinear_arith)
        requires
            0 <= w1 <= w2,
            0 <= reserve_out,
            0 <= i,
    ;
    assert(0 <= w1 * reserve_out && 0 <= w2 * reserve_out) by (nonlinear_arith)
        requires
            0 <= w1 <= w2,
            0 <= reserve_out,
    ;
    lemma_fraction_le(w1 * reserve_out, i + w1, w2 * reserve_out, i + w2);
}

/// What a pair reads of the chain before a swap: its two reserves.
#[derive(Debug, Clone, Copy)]
pub struct PairReads {
    pub a0_balance: u128,
    pub psp22_balance: u128,
}

/// A PSP22-to-AZERO swap that has passed its checks: the PSP22 tokens still have to
/// be moved in with `transfer_from`.
#[derive(Debug, Clone, Copy)]
pub struct Psp22SwapPlan {
    caller: AccountId,
    psp22_amount: u128,
    caller_psp22_balance: u128,
    a0_for_caller: u128,
    a0_for_vault: u128,
    psp22_for_vault: u128,
    a0_lp_fee: u128,
    transfer_from: Planned<TradingPairErrors>,
}

impl Psp22SwapPlan {
    /// The account that makes the message.
    pub closed spec fn spec_caller(&self) -> AccountId {
        self.caller
    }

    /// The account that makes the message.
    #[verifier::when_used_as_spec(spec_caller)]
    pub fn caller(&self) -> (r: AccountId)
        ensures
            r == self.spec_caller(),
    {
        self.caller
    }

    /// The PSP22 tokens that the caller swaps in.
    pub closed spec fn spec_psp22_amount(&self) -> u128 {
        self.psp22_amount
    }

    /// The PSP22 tokens that the caller swaps in.
    #[verifier::when_used_as_spec(spec_psp22_amount)]
    pub fn psp22_amount(&self) -> (r: u128)
        ensures
            r == self.spec_psp22_amount(),
    {
        self.psp22_amount
    }

    /// The caller's PSP22 balance before its tokens were moved in.
    pub closed spec fn spec_caller_psp22_balance(&self) -> u128 {
        self.caller_psp22_balance
    }

    /// The caller's PSP22 balance before its tokens were moved in.
    #[verifier::when_used_as_spec(spec_caller_psp22_balance)]
    pub fn caller_psp22_balance(&self) -> (r: u128)
        ensures
            r == self.spec_caller_psp22_balance(),
    {
        self.caller_psp22_balance
    }

    /// The AZERO paid to the caller.
    pub closed spec fn spec_a0_for_caller(&self) -> u128 {
        self.a0_for_caller
    }

    /// The AZERO paid to the caller.
    #[verifier::when_used_as_spec(spec_a0_for_caller)]
    pub fn a0_for_caller(&self) -> (r: u128)
        ensures
            r == self.spec_a0_for_caller(),
    {
        self.a0_for_caller
    }

    /// The AZERO paid to the vault (traders fee).
    pub closed spec fn spec_a0_for_vault(&self) -> u128 {
        self.a0_for_vault
    }

    /// The AZERO paid to the vault (traders fee).
    #[verifier::when_used_as_spec(spec_a0_for_vault)]
    pub fn a0_for_vault(&self) -> (r: u128)
        ensures
            r == self.spec_a0_for_vault(),
    {
        self.a0_for_vault
    }

    /// The PSP22 tokens paid to the vault (traders fee).
    pub closed spec fn spec_psp22_for_vault(&self) -> u128 {
        self.psp22_for_vault
    }

    /// The PSP22 tokens paid to the vault (traders fee).
    #[verifier::when_used_as_spec(spec_psp22_for_vault)]
    pub fn psp22_for_vault(&self) -> (r: u128)
        ensures
            r == self.spec_psp22_for_vault(),
    {
        self.psp22_for_vault
    }

    /// The AZERO booked as LP fee.
    pub closed spec fn spec_a0_lp_fee(&self) -> u128 {
        self.a0_lp_fee
    }

    /// The AZERO booked as LP fee.
    #[verifier::when_used_as_spec(spec_a0_lp_fee)]
    pub fn a0_lp_fee(&self) -> (r: u128)
        ensures
            r == self.spec_a0_lp_fee(),
    {
        self.a0_lp_fee
    }

    /// The `transfer_from` that moves the caller's PSP22 tokens in.
    pub closed spec fn spec_transfer_from(&self) -> Planned<TradingPairErrors> {
        self.transfer_from
    }

    /// The `transfer_from` that moves the caller's PSP22 tokens in.
    #[verifier::when_used_as_spec(spec_transfer_from)]
    pub fn transfer_from(&self) -> (r: Planned<TradingPairErrors>)
        ensures
            r == self.spec_transfer_from(),
    {
        self.transfer_from
    }
}

/// The part of a swap's output that goes to the vault (traders fee) and to the LP
/// fee vault, for a fee of `fee` and a traders fee of `traders_fee` per thousand.
pub open spec fn vault_part(out: int, traders_fee: u128) -> int {
    out * traders_fee / 1000
}

/// The LP fee's part of a swap's output: the fee in whole percent, per hundred.
pub open spec fn lp_part(out: int, fee: u128) -> int {
    out * ((fee / 1_000_000_000_000) * 10) / 1000
}


/// A liquidity provision that has passed its checks: the PSP22 tokens still have
/// to be moved in with `transfer_from`.
#[derive(Debug, Clone, Copy)]
pub struct ProvisionPlan {
    caller: AccountId,
    shares: u128,
    a0_deposited_amount: u128,
    psp22_deposited_amount: u128,
    caller_psp22_balance: u128,
    transfer_from: Planned<TradingPairErrors>,
}

impl ProvisionPlan {
    /// The account that makes the message.
    pub closed spec fn spec_caller(&self) -> AccountId {
        self.caller
    }

    /// The account that makes the message.
    #[verifier::when_used_as_spec(spec_caller)]
    pub fn caller(&self) -> (r: AccountId)
        ensures
            r == self.spec_caller(),
    {
        self.caller
    }

    /// The LP shares of the message.
    pub closed spec fn spec_shares(&self) -> u128 {
        self.shares
    }

    /// The LP shares of the message.
    #[verifier::when_used_as_spec(spec_shares)]
    pub fn shares(&self) -> (r: u128)
        ensures
            r == self.spec_shares(),
    {
        self.shares
    }

    /// The AZERO deposited.
    pub closed spec fn spec_a0_deposited_amount(&self) -> u128 {
        self.a0_deposited_amount
    }

    /// The AZERO deposited.
    #[verifier::when_used_as_spec(spec_a0_deposited_amount)]
    pub fn a0_deposited_amount(&self) -> (r: u128)
        ensures
            r == self.spec_a0_deposited_amount(),
    {
        self.a0_deposited_amount
    }

    /// The PSP22 tokens deposited.
    pub closed spec fn spec_psp22_deposited_amount(&self) -> u128 {
        self.psp22_deposited_amount
    }

    /// The PSP22 tokens deposited.
    #[verifier::when_used_as_spec(spec_psp22_deposited_amount)]
    pub fn psp22_deposited_amount(&self) -> (r: u128)
        ensures
            r == self.spec_psp22_deposited_amount(),
    {
        self.psp22_deposited_amount
    }

    /// The caller's PSP22 balance before its tokens were moved in.
    pub closed spec fn spec_caller_psp22_balance(&self) -> u128 {
        self.caller_psp22_balance
    }

    /// The caller's PSP22 balance before its tokens were moved in.
    #[verifier::when_used_as_spec(spec_caller_psp22_balance)]
    pub fn caller_psp22_balance(&self) -> (r: u128)
        ensures
            r == self.spec_caller_psp22_balance(),
    {
        self.caller_psp22_balance
    }

    /// The `transfer_from` that moves the caller's PSP22 tokens in.
    pub closed spec fn spec_transfer_from(&self) -> Planned<TradingPairErrors> {
        self.transfer_from
    }

    /// The `transfer_from` that moves the caller's PSP22 tokens in.
    #[verifier::when_used_as_spec(spec_transfer_from)]
    pub fn transfer_from(&self) -> (r: Planned<TradingPairErrors>)
        ensures
            r == self.spec_transfer_from(),
    {
        self.transfer_from
    }
}

/// The smaller of two integers.
pub open spec fn min_int(a: int, b: int) -> int {
    if a < b {
        a
    } else {
        b
    }
}

/// The daily incentive of an account that has `locked` PSP22 tokens in the pool.
pub open spec fn daily_incentive(locked: int, staking_percentage: u128) -> int {
    locked * staking_percentage / 100 / 365
}


/// A withdrawal of LP shares that has passed its checks: the pooled tokens that
/// the shares stand for still have to be paid out by `calls`.
#[derive(Debug, Clone)]
pub struct WithdrawalPlan {
    caller: AccountId,
    shares: u128,
    new_caller_shares: u128,
    psp22_amount: u128,
    a0_amount: u128,
    psp22_fee_amount: u128,
    a0_fee_amount: u128,
    calls: Vec<Planned<TradingPairErrors>>,
}

impl WithdrawalPlan {
    /// The account that makes the message.
    pub closed spec fn spec_caller(&self) -> AccountId {
        self.caller
    }

    /// The account that makes the message.
    #[verifier::when_used_as_spec(spec_caller)]
    pub fn caller(&self) -> (r: AccountId)
        ensures
            r == self.spec_caller(),
    {
        self.caller
    }

    /// The LP shares of the message.
    pub closed spec fn spec_shares(&self) -> u128 {
        self.shares
    }

    /// The LP shares of the message.
    #[verifier::when_used_as_spec(spec_shares)]
    pub fn shares(&self) -> (r: u128)
        ensures
            r == self.spec_shares(),
    {
        self.shares
    }

    /// The caller's LP shares once the withdrawn ones are burnt.
    pub closed spec fn spec_new_caller_shares(&self) -> u128 {
        self.new_caller_shares
    }

    /// The caller's LP shares once the withdrawn ones are burnt.
    #[verifier::when_used_as_spec(spec_new_caller_shares)]
    pub fn new_caller_shares(&self) -> (r: u128)
        ensures
            r == self.spec_new_caller_shares(),
    {
        self.new_caller_shares
    }

    /// The PSP22 tokens that the caller swaps in.
    pub closed spec fn spec_psp22_amount(&self) -> u128 {
        self.psp22_amount
    }

    /// The PSP22 tokens that the caller swaps in.
    #[verifier::when_used_as_spec(spec_psp22_amount)]
    pub fn psp22_amount(&self) -> (r: u128)
        ensures
            r == self.spec_psp22_amount(),
    {
        self.psp22_amount
    }

    /// The AZERO that the withdrawn shares stand for.
    pub closed spec fn spec_a0_amount(&self) -> u128 {
        self.a0_amount
    }

    /// The AZERO that the withdrawn shares stand for.
    #[verifier::when_used_as_spec(spec_a0_amount)]
    pub fn a0_amount(&self) -> (r: u128)
        ensures
            r == self.spec_a0_amount(),
    {
        self.a0_amount
    }

    /// The PSP22 LP fees that the withdrawn shares earned.
    pub closed spec fn spec_psp22_fee_amount(&self) -> u128 {
        self.psp22_fee_amount
    }

    /// The PSP22 LP fees that the withdrawn shares earned.
    #[verifier::when_used_as_spec(spec_psp22_fee_amount)]
    pub fn psp22_fee_amount(&self) -> (r: u128)
        ensures
            r == self.spec_psp22_fee_amount(),
    {
        self.psp22_fee_amount
    }

    /// The AZERO LP fees that the withdrawn shares earned.
    pub closed spec fn spec_a0_fee_amount(&self) -> u128 {
        self.a0_fee_amount
    }

    /// The AZERO LP fees that the withdrawn shares earned.
    #[verifier::when_used_as_spec(spec_a0_fee_amount)]
    pub fn a0_fee_amount(&self) -> (r: u128)
        ensures
            r == self.spec_a0_fee_amount(),
    {
        self.a0_fee_amount
    }

    /// The payouts of the pooled tokens that the shares stand for.
    pub closed spec fn planned_calls(&self) -> Seq<Planned<TradingPairErrors>> {
        self.calls@
    }

    /// The payouts of the pooled tokens that the shares stand for.
    pub fn calls(&self) -> (r: &Vec<Planned<TradingPairErrors>>)
        ensures
            r@ == self.planned_calls(),
    {
        &self.calls
    }
}


/// The incentive tokens redeemable by an account with `shares` LP shares out of
/// `total_supply`, a daily amount `daily`, last redeemed at `last`, at time `now`,
/// against a PSP22 reserve `psp22_balance`: the daily amount for each whole day,
/// where the account has pooled tokens and a daily amount.
pub open spec fn redeemable_from(
    shares: u128,
    total_supply: u128,
    daily: u128,
    last: u64,
    now: u64,
    psp22_balance: u128,
) -> Result<u128, TradingPairErrors> {
    let locked = if total_supply == 0 {
        0
    } else {
        shares * psp22_balance / (total_supply as int)
    };
    if locked <= 0 {
        Err(TradingPairErrors::CallerInsufficientPSP22Balance)
    } else if daily <= 0 {
        Err(TradingPairErrors::ZeroDailyPSP22)
    } else {
        Ok((daily * ((now - last) / 86400)) as u128)
    }
}

/// The value of an `Ok`, or zero for an error.
pub open spec fn ok_or_zero(r: Result<u128, TradingPairErrors>) -> u128 {
    match r {
        Ok(v) => v,
        Err(_) => 0,
    }
}

impl TradingPairAzero {
    /// The LP supply is the sum of the LP shares that the accounts hold.
    pub open spec fn shares_backed(&self) -> bool {
        self.balances.total() == self.total_supply
    }

    /// One message moves the LP supply and the sum of the LP shares that the
    /// accounts hold by the same amount: shares are minted to, burnt from or moved
    /// between accounts, never made or lost on their own.
    pub open spec fn shares_step(before: TradingPairAzero, after: TradingPairAzero) -> bool {
        after.balances.total() - before.balances.total() == after.total_supply - before.total_supply
    }

    /// A new pair for `psp22_contract`, with no liquidity, a traders fee of 2 per
    /// thousand and a staking percentage of 2.
    pub fn new(
        psp22_contract: AccountId,
        fee: u128,
        panx_contract: AccountId,
        vault: AccountId,
        lp_lock_timestamp: u64,
        deployer: AccountId,
    ) -> (r: Self)
        ensures
            r.transasction_number == 0,
            r.psp22_token == psp22_contract,
            r.fee == fee,
            r.total_supply == 0,
            r.balances@ == Map::<AccountId, u128>::empty(),
            r.panx_contract == panx_contract,
            r.lp_tokens_allowances@ == Map::<(AccountId, AccountId), u128>::empty(),
            r.vault == vault,
            r.traders_fee == 2,
            r.psp22_lp_fee_vault == 0,
            r.azero_lp_fee_vault == 0,
            r.contract_overall_generated_psp22_fee == 0,
            r.contract_overall_generated_azero_fee == 0,
            r.psp22_to_give_in_a_day@ == Map::<AccountId, u128>::empty(),
            r.account_overall_staking_rewards@ == Map::<AccountId, u128>::empty(),
            r.account_overall_lp_fee_rewards@ == Map::<AccountId, (u128, u128)>::empty(),
            r.last_redeemed@ == Map::<AccountId, u64>::empty(),
            r.staking_percentage == 2,
            r.lp_lock_timestamp == lp_lock_timestamp,
            r.deployer == deployer,
            r.shares_backed(),
    {
        let pair = TradingPairAzero {
            transasction_number: 0,
            psp22_token: psp22_contract,
            fee,
            total_supply: 0,
            balances: Mapping::new(),
            panx_contract,
            lp_tokens_allowances: Mapping::new(),
            vault,
            traders_fee: 2500000000000u128 / E12,
            psp22_lp_fee_vault: 0,
            azero_lp_fee_vault: 0,
            contract_overall_generated_psp22_fee: 0,
            contract_overall_generated_azero_fee: 0,
            psp22_to_give_in_a_day: Mapping::new(),
            account_overall_staking_rewards: Mapping::new(),
            account_overall_lp_fee_rewards: Mapping::new(),
            last_redeemed: Mapping::new(),
            staking_percentage: 2,
            lp_lock_timestamp,
            deployer,
        };
        proof {
            Mapping::<AccountId, u128>::lemma_total_empty(&pair.balances);
        }
        pair
    }

    // -----------------------------------------------------------------------
    // The LP shares as a PSP22 token.
    // -----------------------------------------------------------------------

    /// The LP shares that `spender` may move on behalf of `owner`.
    pub fn allowance(&self, owner: AccountId, spender: AccountId) -> (r: u128)
        ensures
            r == self.lp_tokens_allowances.get_or((owner, spender), 0),
    {
        self.lp_tokens_allowances.get_or_default(&(owner, spender), 0)
    }

    /// The caller allows `spender` to move `value` of its LP shares.
    pub fn approve(&mut self, env: &CallEnv, spender: AccountId, value: u128) -> (r: Result<(), PSP22Error>)
        ensures
            Self::shares_step(*old(self), *final(self)),
            r is Ok,
            final(self).lp_tokens_allowances@ == old(self).lp_tokens_allowances@.insert(
                (env.caller, spender),
                value,
            ),
            final(self).balances@ == old(self).balances@,
            final(self).total_supply == old(self).total_supply,
    {
        let caller = self.get_caller_id(env);
        self.lp_tokens_allowances.insert((caller, spender), value);
        Ok(())
    }

    /// The caller moves `value` of its LP shares to `to`.  A transfer to oneself
    /// leaves the balance as it was.
    pub fn transfer(&mut self, env: &CallEnv, to: AccountId, value: u128, data: Vec<u8>) -> (r: Result<(), PSP22Error>)
        requires
            env.caller != to ==> old(self).balances.get_or(to, 0) + value <= u128::MAX,
        ensures
            Self::shares_step(*old(self), *final(self)),
            ({
                let c = old(self).balances.get_or(env.caller, 0);
                let t = if to == env.caller { (c - value) as u128 } else { old(self).balances.get_or(to, 0) };
                if c < value {
                    r == Err::<(), PSP22Error>(PSP22Error::InsufficientBalance) && *final(self) == *old(self)
                } else {
                    &&& r is Ok
                    &&& final(self).balances@ == old(self).balances@.insert(env.caller, (c - value) as u128).insert(
                        to,
                        (t + value) as u128,
                    )
                    &&& final(self).total_supply == old(self).total_supply
                    &&& final(self).lp_tokens_allowances@ == old(self).lp_tokens_allowances@
                }
            }),
            r is Ok && env.caller == to ==> final(self).balances.get_or(to, 0) == old(self).balances.get_or(to, 0),
            r is Ok && env.caller != to ==> final(self).balances.get_or(env.caller, 0) + final(self).balances.get_or(to, 0)
                == old(self).balances.get_or(env.caller, 0) + old(self).balances.get_or(to, 0),
            forall|a: AccountId|
                a != env.caller && a != to ==> #[trigger] final(self).balances.get_or(a, 0) == old(self).balances.get_or(
                    a,
                    0,
                ),
            old(self).shares_backed() ==> final(self).shares_backed(),
    {
        let caller = self.get_caller_id(env);
        let caller_shares: u128 = self.balances.get_or_default(&caller, 0);
        if caller_shares < value {
            return Err(PSP22Error::InsufficientBalance);
        }
        let new_caller_lp_balance: u128 = caller_shares - value;
        let ghost b0 = self.balances;
        self.balances.insert(caller, new_caller_lp_balance);
        let ghost b1 = self.balances;
        let recipient_shares: u128 = self.balances.get_or_default(&to, 0);
        let new_recipient_lp_balance: u128 = recipient_shares + value;
        self.balances.insert(to, new_recipient_lp_balance);
        proof {
            Mapping::<AccountId, u128>::lemma_total_insert(&b0, &b1, caller, new_caller_lp_balance);
            Mapping::<AccountId, u128>::lemma_total_insert(&b1, &self.balances, to, new_recipient_lp_balance);
        }
        Ok(())
    }

    /// The caller moves `value` LP shares from `from` to `to`, within the allowance
    /// that `from` gave it.  A move from an account to itself leaves its balance as
    /// it was and still spends the allowance.
    pub fn transfer_from(
        &mut self,
        env: &CallEnv,
        from: AccountId,
        to: AccountId,
        value: u128,
        data: Vec<u8>,
    ) -> (r: Result<(), PSP22Error>)
        requires
            from != to ==> old(self).balances.get_or(to, 0) + value <= u128::MAX,
        ensures
            Self::shares_step(*old(self), *final(self)),
            ({
                let allowance = old(self).lp_tokens_allowances.get_or((from, env.caller), 0);
                let f = old(self).balances.get_or(from, 0);
                let t = if to == from { (f - value) as u128 } else { old(self).balances.get_or(to, 0) };
                if allowance < value {
                    r == Err::<(), PSP22Error>(PSP22Error::InsufficientAllowance) && *final(self) == *old(self)
                } else if f < value {
                    r == Err::<(), PSP22Error>(PSP22Error::InsufficientBalance) && *final(self) == *old(self)
                } else {
                    &&& r is Ok
                    &&& final(self).balances@ == old(self).balances@.insert(from, (f - value) as u128).insert(
                        to,
                        (t + value) as u128,
                    )
                    &&& final(self).lp_tokens_allowances@ == old(self).lp_tokens_allowances@.insert(
                        (from, env.caller),
                        (allowance - value) as u128,
                    )
                    &&& final(self).total_supply == old(self).total_supply
                }
            }),
            r is Ok && from == to ==> final(self).balances.get_or(to, 0) == old(self).balances.get_or(to, 0),
            r is Ok && from != to ==> final(self).balances.get_or(from, 0) + final(self).balances.get_or(to, 0)
                == old(self).balances.get_or(from, 0) + old(self).balances.get_or(to, 0),
            forall|a: AccountId|
                a != from && a != to ==> #[trigger] final(self).balances.get_or(a, 0) == old(self).balances.get_or(a, 0),
            old(self).shares_backed() ==> final(self).shares_backed(),
    {
        let caller = self.get_caller_id(env);
        let allowance = self.allowance(from, caller);
        if allowance < value {
            return Err(PSP22Error::InsufficientAllowance);
        }
        let from_shares: u128 = self.balances.get_or_default(&from, 0);
        if from_shares < value {
            return Err(PSP22Error::InsufficientBalance);
        }
        let new_from_lp_balance: u128 = from_shares - value;
        let ghost b0 = self.balances;
        self.balances.insert(from, new_from_lp_balance);
        let ghost b1 = self.balances;
        let recipient_shares: u128 = self.balances.get_or_default(&to, 0);
        let new_recipient_lp_balance: u128 = recipient_shares + value;
        self.balances.insert(to, new_recipient_lp_balance);
        proof {
            Mapping::<AccountId, u128>::lemma_total_insert(&b0, &b1, from, new_from_lp_balance);
            Mapping::<AccountId, u128>::lemma_total_insert(&b1, &self.balances, to, new_recipient_lp_balance);
        }
        let new_allowance = allowance - value;
        self.lp_tokens_allowances.insert((from, caller), new_allowance);
        Ok(())
    }

    /// The LP shares of `owner`.
    pub fn balance_of(&self, owner: AccountId) -> (r: u128)
        ensures
            r == self.balances.get_or(owner, 0),
    {
        self.balances.get_or_default(&owner, 0)
    }

    /// The LP shares in existence.
    pub fn total_supply(&self) -> (r: u128)
        ensures
            r == self.total_supply,
    {
        self.total_supply
    }

    // -----------------------------------------------------------------------
    // Getters.
    // -----------------------------------------------------------------------

    /// The PSP22 tokens that `caller` earns each day in the incentive program.
    pub fn get_amount_to_give_each_day_to_caller(&self, caller: AccountId) -> (r: u128)
        ensures
            r == self.psp22_to_give_in_a_day.get_or(caller, 0),
    {
        self.psp22_to_give_in_a_day.get_or_default(&caller, 0)
    }

    /// The LP fees held for the providers: (PSP22, AZERO).
    pub fn get_generated_lp_fees(&self) -> (r: (u128, u128))
        ensures
            r == (self.psp22_lp_fee_vault, self.azero_lp_fee_vault),
    {
        (self.psp22_lp_fee_vault, self.azero_lp_fee_vault)
    }

    /// The incentive tokens that `owner` has redeemed overall.
    pub fn get_account_overall_staking_rewards(&self, owner: AccountId) -> (r: u128)
        ensures
            r == self.account_overall_staking_rewards.get_or(owner, 0),
    {
        self.account_overall_staking_rewards.get_or_default(&owner, 0)
    }

    /// The LP fees that `owner` has received overall: (PSP22, AZERO).
    pub fn get_account_overall_lp_fee_rewards(&self, owner: AccountId) -> (r: (u128, u128))
        ensures
            r == self.account_overall_lp_fee_rewards.get_or(owner, (0u128, 0u128)),
    {
        self.account_overall_lp_fee_rewards.get_or_default(&owner, (0, 0))
    }

    /// The LP fees that the pair has generated overall: (PSP22, AZERO).
    pub fn get_contract_overall_generated_fee(&self) -> (r: (u128, u128))
        ensures
            r == (self.contract_overall_generated_psp22_fee, self.contract_overall_generated_azero_fee),
    {
        (self.contract_overall_generated_psp22_fee, self.contract_overall_generated_azero_fee)
    }

    /// The pair's own address.
    pub fn get_account_id(&self, env: &CallEnv) -> (r: AccountId)
        ensures
            r == env.account_id,
    {
        env.account_id
    }

    /// The account that deployed the pair.
    pub fn get_deployer_account(&self) -> (r: AccountId)
        ensures
            r == self.deployer,
    {
        self.deployer
    }

    /// The caller of the message.
    pub fn get_caller_id(&self, env: &CallEnv) -> (r: AccountId)
        ensures
            r == env.caller,
    {
        env.caller
    }

    /// The LP shares in existence.
    pub fn get_total_supply(&self) -> (r: u128)
        ensures
            r == self.total_supply,
    {
        self.total_supply
    }

    /// The LP shares of `account`.
    pub fn get_lp_token_of(&self, account: AccountId) -> (r: u128)
        ensures
            r == self.balances.get_or(account, 0),
    {
        self.balances.get_or_default(&account, 0)
    }

    /// The LP fee.
    pub fn get_fee(&self) -> (r: u128)
        ensures
            r == self.fee,
    {
        self.fee
    }

    /// The number of swaps made.
    pub fn get_transactions_num(&self) -> (r: i64)
        ensures
            r == self.transasction_number,
    {
        self.transasction_number
    }

    /// The block timestamp in seconds.
    pub fn get_current_timestamp(&self, env: &CallEnv) -> (r: u64)
        ensures
            r == env.now(),
    {
        env.current_timestamp()
    }

    /// The time before which the deployer cannot withdraw liquidity.
    pub fn get_lp_lock_timestamp(&self) -> (r: u64)
        ensures
            r == self.lp_lock_timestamp,
    {
        self.lp_lock_timestamp
    }

    /// The smaller of two values.
    pub fn _min(&self, value1: u128, value2: u128) -> (r: u128)
        ensures
            r == if value1 < value2 { value1 } else { value2 },
    {
        if value1 < value2 {
            value1
        } else {
            value2
        }
    }

    // -----------------------------------------------------------------------
    // Ratios.
    // -----------------------------------------------------------------------

    /// The percentage difference between two values relative to their mean, scaled
    /// by 10^12; zero for equal values.
    pub fn check_difference(&self, value1: u128, value2: u128) -> (r: Result<u128, TradingPairErrors>)
        requires
            difference_defined(value1, value2),
        ensures
            r == check_difference_result(value1, value2),
    {
        let mut percentage_difference: u128 = 0;
        if value1 > value2 {
            let mean: u128 = (value1 + value2) / 2;
            percentage_difference = (value1 - value2) * E12;
            match (percentage_difference / mean).checked_mul(100u128) {
                Some(result) => {
                    percentage_difference = result;
                },
                None => return Err(TradingPairErrors::Overflow),
            }
        }
        if value2 > value1 {
            let mean: u128 = (value1 + value2) / 2;
            percentage_difference = (value2 - value1) * E12;
            match (percentage_difference / mean).checked_mul(100u128) {
                Some(result) => {
                    percentage_difference = result;
                },
                None => return Err(TradingPairErrors::Overflow),
            }
        }
        Ok(percentage_difference)
    }

    // -----------------------------------------------------------------------
    // Prices.
    // -----------------------------------------------------------------------

    /// An amount as it enters a quote, times 100, in 256 bits.
    fn amount_for_quote(amount_in: u128) -> (r: Uint256)
        ensures
            r.value() == quote_amount(amount_in),
    {
        let a = wide_from_u128(amount_in);
        let h = wide_from_u128(100u128);
        proof {
            assert(a.value() * h.value() < w256()) by (nonlinear_arith)
                requires
                    a.value() < w128(),
                    h.value() == 100,
                    w256() == w128() * w128(),
                    w128() > 100,
            ;
        }
        wide_mul(a, h)
    }

    /// An amount after the full LP fee, times 100, in 256 bits.
    fn amount_after_full_lp_fee(&self, amount_in: u128) -> (r: Uint256)
        requires
            self.fee <= 100 * E12,
        ensures
            r.value() == after_full_lp_fee(amount_in, self.fee),
    {
        let hundred = wide_from_u128(100u128 * E12);
        let full = wide_sub_u128(hundred, self.fee);
        let a = wide_from_u128(amount_in);
        proof {
            assert(a.value() * full.value() < w256()) by (nonlinear_arith)
                requires
                    a.value() < w128(),
                    full.value() < w128(),
                    w256() == w128() * w128(),
            ;
        }
        let with_fees = match wide_checked_mul(a, full) {
            Some(result) => result,
            None => a,
        };
        wide_div_u128(with_fees, E12)
    }

    /// The constant-product quote of `w` against the two reserves.
    fn quote(w: Uint256, reserve_out: u128, reserve_in: u128) -> (r: Result<u128, TradingPairErrors>)
        ensures
            r == quote_result(w.value() as int, reserve_out as int, reserve_in as int),
    {
        let numerator = match wide_checked_mul(w, wide_from_u128(reserve_out)) {
            Some(result) => result,
            None => return Err(TradingPairErrors::Overflow),
        };
        let i = wide_from_u128(reserve_in);
        let h = wide_from_u128(100u128);
        proof {
            assert(i.value() * h.value() < w256()) by (nonlinear_arith)
                requires
                    i.value() < w128(),
                    h.value() == 100,
                    w256() == w128() * w128(),
                    w128() > 100,
            ;
        }
        let denominator = match wide_checked_add(wide_mul(i, h), w) {
            Some(result) => result,
            None => return Err(TradingPairErrors::Overflow),
        };
        match wide_checked_div(numerator, denominator) {
            Some(result) => {
                proof {
                    lemma_quote_within_reserve(w.value() as int, reserve_out as int, reserve_in as int);
                }
                Ok(wide_as_u128(result))
            },
            None => Err(TradingPairErrors::Overflow),
        }
    }

    /// The AZERO that `psp22_amount_in` PSP22 tokens buy against the reserves
    /// `a0_balance` and `psp22_balance`: the constant-product price, before fees.
    pub fn get_est_price_psp22_to_a0(
        &self,
        psp22_amount_in: u128,
        a0_balance: u128,
        psp22_balance: u128,
    ) -> (r: Result<u128, TradingPairErrors>)
        ensures
            r == quote_result(
                quote_amount(psp22_amount_in),
                a0_balance as int,
                psp22_balance as int,
            ),
    {
        let w = Self::amount_for_quote(psp22_amount_in);
        Self::quote(w, a0_balance, psp22_balance)
    }

    /// The PSP22 tokens that `a0_amout_in` AZERO buy in a swap, where `a0_balance`
    /// already holds the coins sent with the swap.
    pub fn get_est_price_a0_to_psp22_for_swap(
        &self,
        a0_amout_in: u128,
        a0_balance: u128,
        psp22_balance: u128,
    ) -> (r: Result<u128, TradingPairErrors>)
        ensures
            r == if a0_amout_in > a0_balance {
                Err(TradingPairErrors::Overflow)
            } else {
                quote_result(
                    quote_amount(a0_amout_in),
                    psp22_balance as int,
                    a0_balance - a0_amout_in,
                )
            },
    {
        let a0_reserve_before: u128 = match a0_balance.checked_sub(a0_amout_in) {
            Some(result) => result,
            None => return Err(TradingPairErrors::Overflow),
        };
        let w = Self::amount_for_quote(a0_amout_in);
        Self::quote(w, psp22_balance, a0_reserve_before)
    }

    /// The PSP22 tokens that `a0_amount_in` AZERO would buy against the reserves.
    pub fn get_est_price_a0_to_psp22(
        &self,
        a0_amount_in: u128,
        a0_balance: u128,
        psp22_balance: u128,
    ) -> (r: Result<u128, TradingPairErrors>)
        ensures
            r == quote_result(
                quote_amount(a0_amount_in),
                psp22_balance as int,
                a0_balance as int,
            ),
    {
        let w = Self::amount_for_quote(a0_amount_in);
        Self::quote(w, psp22_balance, a0_balance)
    }

    /// The AZERO that one PSP22 token buys.
    pub fn get_price_for_one_psp22(
        &self,
        a0_balance: u128,
        psp22_balance: u128,
    ) -> (r: Result<u128, TradingPairErrors>)
        requires
            quote_result(quote_amount(E12), a0_balance as int, psp22_balance as int) is Ok,
        ensures
            r == quote_result(quote_amount(E12), a0_balance as int, psp22_balance as int),
    {
        let amount_out = self.get_est_price_psp22_to_a0(1u128 * E12, a0_balance, psp22_balance).unwrap();
        Ok(amount_out)
    }

    /// The AZERO that one PSP22 token buys.
    pub fn get_current_price(&self, a0_balance: u128, psp22_balance: u128) -> (r: u128)
        requires
            quote_result(quote_amount(E12), a0_balance as int, psp22_balance as int) is Ok,
        ensures
            Ok::<u128, TradingPairErrors>(r) == quote_result(
                quote_amount(E12),
                a0_balance as int,
                psp22_balance as int,
            ),
    {
        self.get_est_price_psp22_to_a0(1u128 * E12, a0_balance, psp22_balance).unwrap()
    }

    /// The AZERO that `psp22_amount_in` would buy right after a swap of the same amount.
    pub fn get_price_impact_psp22_to_a0(
        &self,
        psp22_amount_in: u128,
        a0_balance: u128,
        psp22_balance: u128,
    ) -> (r: Result<u128, TradingPairErrors>)
        requires
            self.fee <= 100 * E12,
            quote_result(quote_amount(psp22_amount_in), a0_balance as int, psp22_balance as int) is Ok,
            psp22_balance + psp22_amount_in <= u128::MAX,
        ensures
            r == quote_result(
                after_full_lp_fee(psp22_amount_in, self.fee),
                a0_balance - quote_result(
                    quote_amount(psp22_amount_in),
                    a0_balance as int,
                    psp22_balance as int,
                )->Ok_0,
                psp22_balance + psp22_amount_in,
            ),
    {
        let current_amount_out = self.get_est_price_psp22_to_a0(psp22_amount_in, a0_balance, psp22_balance).unwrap();
        proof {
            lemma_quote_within_reserve(
                quote_amount(psp22_amount_in),
                a0_balance as int,
                psp22_balance as int,
            );
        }
        let w = self.amount_after_full_lp_fee(psp22_amount_in);
        Self::quote(w, a0_balance - current_amount_out, psp22_balance + psp22_amount_in)
    }

    /// The PSP22 tokens that `a0_amount_in` would buy right after a swap of the same amount.
    pub fn get_price_impact_a0_to_psp22(
        &self,
        a0_amount_in: u128,
        a0_balance: u128,
        psp22_balance: u128,
    ) -> (r: Result<u128, TradingPairErrors>)
        requires
            self.fee <= 100 * E12,
            quote_result(quote_amount(a0_amount_in), psp22_balance as int, a0_balance as int) is Ok,
            a0_balance + a0_amount_in <= u128::MAX,
        ensures
            r == quote_result(
                after_full_lp_fee(a0_amount_in, self.fee),
                psp22_balance - quote_result(
                    quote_amount(a0_amount_in),
                    psp22_balance as int,
                    a0_balance as int,
                )->Ok_0,
                a0_balance + a0_amount_in,
            ),
    {
        let current_amount_out = self.get_est_price_a0_to_psp22(a0_amount_in, a0_balance, psp22_balance).unwrap();
        proof {
            lemma_quote_within_reserve(
                quote_amount(a0_amount_in),
                psp22_balance as int,
                a0_balance as int,
            );
        }
        let w = self.amount_after_full_lp_fee(a0_amount_in);
        Self::quote(w, psp22_balance - current_amount_out, a0_balance + a0_amount_in)
    }

    // -----------------------------------------------------------------------
    // Shares of the pool.
    // -----------------------------------------------------------------------

    /// The PSP22 tokens that the reserves call for beside `a0_deposit_amount` AZERO.
    pub fn get_psp22_amount_for_lp(&self, a0_deposit_amount: u128, a0_contract_balance: u128, psp22_balance: u128) -> (r: u128)
        requires
            psp22_balance * E12 <= u128::MAX,
            a0_contract_balance > 0,
            psp22_balance * E12 / (a0_contract_balance as int) * a0_deposit_amount <= u128::MAX,
        ensures
            r == psp22_balance * E12 / (a0_contract_balance as int) * a0_deposit_amount / (E12 as int),
    {
        ((psp22_balance * E12) / a0_contract_balance * a0_deposit_amount) / E12
    }

    /// The AZERO that the reserves call for beside `psp22_deposit_amount` PSP22 tokens.
    pub fn get_a0_amount_for_lp(&self, psp22_deposit_amount: u128, a0_contract_balance: u128, psp22_balance: u128) -> (r: u128)
        requires
            a0_contract_balance * E12 <= u128::MAX,
            psp22_balance > 0,
            a0_contract_balance * E12 / (psp22_balance as int) * psp22_deposit_amount <= u128::MAX,
        ensures
            r == a0_contract_balance * E12 / (psp22_balance as int) * psp22_deposit_amount / (E12 as int),
    {
        ((a0_contract_balance * E12) / psp22_balance * psp22_deposit_amount) / E12
    }

    /// The part of `reserve` that `shares` of the LP supply stand for, in 256 bits.
    fn wide_share(&self, shares: u128, reserve: u128) -> (r: Result<u128, TradingPairErrors>)
        requires
            self.total_supply > 0 ==> shares * reserve / (self.total_supply as int) < w128(),
        ensures
            r == if self.total_supply == 0 {
                Err(TradingPairErrors::Overflow)
            } else {
                Ok((shares * reserve / (self.total_supply as int)) as u128)
            },
    {
        let a = wide_from_u128(shares);
        let b = wide_from_u128(reserve);
        proof {
            assert(a.value() * b.value() < w256()) by (nonlinear_arith)
                requires
                    a.value() < w128(),
                    b.value() < w128(),
                    w256() == w128() * w128(),
            ;
        }
        match wide_checked_div(wide_mul(a, b), wide_from_u128(self.total_supply)) {
            Some(result) => Ok(wide_as_u128(result)),
            None => Err(TradingPairErrors::Overflow),
        }
    }

    /// The pooled PSP22 tokens that `shares_amount` LP shares stand for, without LP fees.
    pub fn get_psp22_withdraw_tokens_amount(&self, shares_amount: u128, psp22_balance: u128) -> (r: Result<u128, TradingPairErrors>)
        requires
            self.total_supply > 0 ==> shares_amount * psp22_balance / (self.total_supply as int) < w128(),
        ensures
            r == if self.total_supply == 0 {
                Err(TradingPairErrors::Overflow)
            } else {
                Ok((shares_amount * psp22_balance / (self.total_supply as int)) as u128)
            },
    {
        self.wide_share(shares_amount, psp22_balance)
    }

    /// The pooled AZERO that `shares_amount` LP shares stand for, without LP fees.
    pub fn get_a0_withdraw_tokens_amount(&self, shares_amount: u128, a0_balance: u128) -> (r: Result<u128, TradingPairErrors>)
        requires
            self.total_supply > 0 ==> shares_amount * a0_balance / (self.total_supply as int) < w128(),
        ensures
            r == if self.total_supply == 0 {
                Err(TradingPairErrors::Overflow)
            } else {
                Ok((shares_amount * a0_balance / (self.total_supply as int)) as u128)
            },
    {
        self.wide_share(shares_amount, a0_balance)
    }

    /// The PSP22 LP fees that `shares_amount` LP shares have earned.
    pub fn get_psp22_lp_fee_tokens(&self, shares_amount: u128) -> (r: Result<u128, TradingPairErrors>)
        requires
            self.total_supply > 0 ==> shares_amount * self.psp22_lp_fee_vault / (self.total_supply as int) < w128(),
        ensures
            r == if self.total_supply == 0 {
                Err(TradingPairErrors::Overflow)
            } else {
                Ok((shares_amount * self.psp22_lp_fee_vault / (self.total_supply as int)) as u128)
            },
    {
        self.wide_share(shares_amount, self.psp22_lp_fee_vault)
    }

    /// The AZERO LP fees that `shares_amount` LP shares have earned.
    pub fn get_a0_lp_fee_tokens(&self, shares_amount: u128) -> (r: Result<u128, TradingPairErrors>)
        requires
            shares_amount * self.azero_lp_fee_vault <= u128::MAX,
        ensures
            r == if self.total_supply == 0 {
                Err(TradingPairErrors::Overflow)
            } else {
                Ok((shares_amount * self.azero_lp_fee_vault / (self.total_supply as int)) as u128)
            },
    {
        match (shares_amount * self.azero_lp_fee_vault).checked_div(self.total_supply) {
            Some(result) => Ok(result),
            None => Err(TradingPairErrors::Overflow),
        }
    }

    /// The (AZERO, PSP22) that `shares_amount` LP shares stand for with the LP fees.
    pub fn get_withdraw_tokens_amount_with_lp(
        &self,
        shares_amount: u128,
        a0_balance: u128,
        psp22_balance: u128,
    ) -> (r: Result<(u128, u128), TradingPairErrors>)
        requires
            shares_amount * a0_balance <= u128::MAX,
            shares_amount * psp22_balance <= u128::MAX,
        ensures
            r == if self.total_supply == 0 {
                Err(TradingPairErrors::Overflow)
            } else {
                Ok((
                    (shares_amount * a0_balance / (self.total_supply as int)) as u128,
                    (shares_amount * psp22_balance / (self.total_supply as int)) as u128,
                ))
            },
    {
        let amount_of_a0_to_give: u128 = match (shares_amount * a0_balance).checked_div(self.total_supply) {
            Some(result) => result,
            None => return Err(TradingPairErrors::Overflow),
        };
        let amount_of_psp22_to_give: u128 = match (shares_amount * psp22_balance).checked_div(self.total_supply) {
            Some(result) => result,
            None => return Err(TradingPairErrors::Overflow),
        };
        Ok((amount_of_a0_to_give, amount_of_psp22_to_give))
    }

    /// The (AZERO, PSP22) that `shares_amount` LP shares stand for without the LP fees.
    pub fn get_withdraw_tokens_amount(
        &self,
        shares_amount: u128,
        a0_balance: u128,
        psp22_balance: u128,
    ) -> (r: Result<(u128, u128), TradingPairErrors>)
        requires
            shares_amount * a0_balance <= u128::MAX,
            shares_amount * psp22_balance <= u128::MAX,
            self.total_supply > 0 ==> shares_amount * self.psp22_lp_fee_vault / (self.total_supply as int) < w128(),
            self.total_supply > 0 ==> shares_amount * self.azero_lp_fee_vault <= u128::MAX,
            self.total_supply > 0 ==> shares_amount * self.psp22_lp_fee_vault / (self.total_supply as int)
                <= shares_amount * psp22_balance / (self.total_supply as int),
            self.total_supply > 0 ==> shares_amount * self.azero_lp_fee_vault / (self.total_supply as int)
                <= shares_amount * a0_balance / (self.total_supply as int),
        ensures
            r == if self.total_supply == 0 {
                Err(TradingPairErrors::Overflow)
            } else {
                Ok((
                    (shares_amount * a0_balance / (self.total_supply as int) - shares_amount * self.azero_lp_fee_vault
                        / (self.total_supply as int)) as u128,
                    (shares_amount * psp22_balance / (self.total_supply as int) - shares_amount
                        * self.psp22_lp_fee_vault / (self.total_supply as int)) as u128,
                ))
            },
    {
        let mut amount_of_a0_to_give: u128 = match (shares_amount * a0_balance).checked_div(self.total_supply) {
            Some(result) => result,
            None => return Err(TradingPairErrors::Overflow),
        };
        let mut amount_of_psp22_to_give: u128 = match (shares_amount * psp22_balance).checked_div(self.total_supply) {
            Some(result) => result,
            None => return Err(TradingPairErrors::Overflow),
        };
        let psp22_fee_amount_to_give = self.get_psp22_lp_fee_tokens(shares_amount).unwrap();
        let a0_fee_amount_to_give = self.get_a0_lp_fee_tokens(shares_amount).unwrap();
        amount_of_psp22_to_give = amount_of_psp22_to_give - psp22_fee_amount_to_give;
        amount_of_a0_to_give = amount_of_a0_to_give - a0_fee_amount_to_give;
        Ok((amount_of_a0_to_give, amount_of_psp22_to_give))
    }

    /// The caller's LP fee percentage for PSP22: how much larger its pooled PSP22
    /// tokens are with the LP fees than without.
    pub fn get_psp22_difference_by_percentage(&self, env: &CallEnv, psp22_balance: u128) -> (r: Result<u128, TradingPairErrors>)
        requires
            self.total_supply > 0,
            self.balances.get_or(env.caller, 0) * self.psp22_lp_fee_vault / (self.total_supply as int) < w128(),
            self.balances.get_or(env.caller, 0) * psp22_balance / (self.total_supply as int) < w128(),
            self.balances.get_or(env.caller, 0) * psp22_balance / (self.total_supply as int)
                + self.balances.get_or(env.caller, 0) * self.psp22_lp_fee_vault / (self.total_supply as int) <= u128::MAX,
            difference_defined(
                (self.balances.get_or(env.caller, 0) * psp22_balance / (self.total_supply as int)) as u128,
                (self.balances.get_or(env.caller, 0) * psp22_balance / (self.total_supply as int)
                    + self.balances.get_or(env.caller, 0) * self.psp22_lp_fee_vault / (self.total_supply as int)) as u128,
            ),
            check_difference_result(
                (self.balances.get_or(env.caller, 0) * psp22_balance / (self.total_supply as int)) as u128,
                (self.balances.get_or(env.caller, 0) * psp22_balance / (self.total_supply as int)
                    + self.balances.get_or(env.caller, 0) * self.psp22_lp_fee_vault / (self.total_supply as int)) as u128,
            ) is Ok,
        ensures
            r == check_difference_result(
                (self.balances.get_or(env.caller, 0) * psp22_balance / (self.total_supply as int)) as u128,
                (self.balances.get_or(env.caller, 0) * psp22_balance / (self.total_supply as int)
                    + self.balances.get_or(env.caller, 0) * self.psp22_lp_fee_vault / (self.total_supply as int)) as u128,
            ),
    {
        let caller = env.caller;
        let caller_shares: u128 = self.balances.get_or_default(&caller, 0);
        let amount_of_psp22_fees: u128 = self.get_psp22_lp_fee_tokens(caller_shares).unwrap();
        let psp22_amount_without_fees = self.get_psp22_withdraw_tokens_amount(caller_shares, psp22_balance).unwrap();
        let psp22_amount_with_fees = psp22_amount_without_fees + amount_of_psp22_fees;
        let percentage_diff: u128 = self.check_difference(psp22_amount_without_fees, psp22_amount_with_fees).unwrap();
        Ok(percentage_diff)
    }

    /// The caller's LP fee percentage for AZERO: how much larger its pooled AZERO
    /// is with the LP fees than without.
    pub fn get_a0_difference_by_percentage(&self, env: &CallEnv, a0_balance: u128) -> (r: Result<u128, TradingPairErrors>)
        requires
            self.total_supply > 0,
            self.balances.get_or(env.caller, 0) * self.azero_lp_fee_vault <= u128::MAX,
            self.balances.get_or(env.caller, 0) * a0_balance / (self.total_supply as int) < w128(),
            self.balances.get_or(env.caller, 0) * a0_balance / (self.total_supply as int)
                + self.balances.get_or(env.caller, 0) * self.azero_lp_fee_vault / (self.total_supply as int) <= u128::MAX,
            difference_defined(
                (self.balances.get_or(env.caller, 0) * a0_balance / (self.total_supply as int)) as u128,
                (self.balances.get_or(env.caller, 0) * a0_balance / (self.total_supply as int)
                    + self.balances.get_or(env.caller, 0) * self.azero_lp_fee_vault / (self.total_supply as int)) as u128,
            ),
            check_difference_result(
                (self.balances.get_or(env.caller, 0) * a0_balance / (self.total_supply as int)) as u128,
                (self.balances.get_or(env.caller, 0) * a0_balance / (self.total_supply as int)
                    + self.balances.get_or(env.caller, 0) * self.azero_lp_fee_vault / (self.total_supply as int)) as u128,
            ) is Ok,
        ensures
            r == check_difference_result(
                (self.balances.get_or(env.caller, 0) * a0_balance / (self.total_supply as int)) as u128,
                (self.balances.get_or(env.caller, 0) * a0_balance / (self.total_supply as int)
                    + self.balances.get_or(env.caller, 0) * self.azero_lp_fee_vault / (self.total_supply as int)) as u128,
            ),
    {
        let caller = env.caller;
        let caller_shares: u128 = self.balances.get_or_default(&caller, 0);
        let amount_of_a0_fees: u128 = self.get_a0_lp_fee_tokens(caller_shares).unwrap();
        let a0_amount_without_fees = self.get_a0_withdraw_tokens_amount(caller_shares, a0_balance).unwrap();
        let a0_amount_with_fees = a0_amount_without_fees + amount_of_a0_fees;
        let percentage_diff: u128 = self.check_difference(a0_amount_without_fees, a0_amount_with_fees).unwrap();
        Ok(percentage_diff)
    }

    /// The (PSP22, AZERO) that `account_id` has in the pool; the PSP22 part is counted
    /// in whole tokens of 10^12.
    pub fn get_account_locked_tokens(
        &self,
        account_id: AccountId,
        a0_balance: u128,
        psp22_balance: u128,
    ) -> (r: Result<(u128, u128), TradingPairErrors>)
        requires
            self.balances.get_or(account_id, 0) * a0_balance <= u128::MAX,
            self.balances.get_or(account_id, 0) * (psp22_balance / E12) <= u128::MAX,
        ensures
            ({
                let shares = self.balances.get_or(account_id, 0);
                let psp22 = shares * (psp22_balance / E12) / (self.total_supply as int);
                r == if shares == 0 {
                    Ok((0u128, 0u128))
                } else if self.total_supply == 0 {
                    Err(TradingPairErrors::Overflow)
                } else if psp22 * E12 > u128::MAX {
                    Err(TradingPairErrors::Overflow)
                } else {
                    Ok(((psp22 * E12) as u128, (shares * a0_balance / (self.total_supply as int)) as u128))
                }
            }),
    {
        let caller = account_id;
        let caller_shares: u128 = self.balances.get_or_default(&caller, 0);
        if caller_shares <= 0 {
            return Ok((0, 0));
        }
        let amount_of_a0_to_give: u128 = match (caller_shares * a0_balance).checked_div(self.total_supply) {
            Some(result) => result,
            None => return Err(TradingPairErrors::Overflow),
        };
        let actual_psp22_balance: u128 = match psp22_balance.checked_div(E12) {
            Some(result) => result,
            None => return Err(TradingPairErrors::Overflow),
        };
        let amount_of_psp22_to_give: u128 = match (caller_shares * actual_psp22_balance).checked_div(self.total_supply) {
            Some(result) => result,
            None => return Err(TradingPairErrors::Overflow),
        };
        let actual_amount_of_psp22_to_give: u128 = match amount_of_psp22_to_give.checked_mul(E12) {
            Some(result) => result,
            None => return Err(TradingPairErrors::Overflow),
        };
        Ok((actual_amount_of_psp22_to_give, amount_of_a0_to_give))
    }

    /// The LP shares that depositing `a0_deposit_amount` AZERO and
    /// `psp22_deposit_amount` PSP22 tokens would give.
    pub fn get_expected_lp_token_amount(
        &self,
        a0_deposit_amount: u128,
        psp22_deposit_amount: u128,
        a0_balance: u128,
    ) -> (r: Result<u128, TradingPairErrors>)
        requires
            self.total_supply == 0 ==> a0_deposit_amount * psp22_deposit_amount <= u128::MAX,
            self.total_supply > 0 ==> a0_deposit_amount * self.total_supply <= u128::MAX,
        ensures
            r == if self.total_supply == 0 {
                Ok((a0_deposit_amount * psp22_deposit_amount / (E12 as int)) as u128)
            } else if a0_balance == 0 {
                Err(TradingPairErrors::Overflow)
            } else {
                Ok((a0_deposit_amount * self.total_supply / (a0_balance as int)) as u128)
            },
    {
        let mut shares: u128 = 0;
        if self.total_supply == 0 {
            shares = a0_deposit_amount * psp22_deposit_amount;
            shares = match shares.checked_div(E12) {
                Some(result) => result,
                None => return Err(TradingPairErrors::Overflow),
            };
        }
        if self.total_supply > 0 {
            shares = match (a0_deposit_amount * self.total_supply).checked_div(a0_balance) {
                Some(result) => result,
                None => return Err(TradingPairErrors::Overflow),
            };
        }
        Ok(shares)
    }

    // -----------------------------------------------------------------------
    // Swaps.
    // -----------------------------------------------------------------------

    /// A PSP22-to-AZERO swap stays within the pair's arithmetic: where the first
    /// checks pass, the quote, its percentage difference and, past the slippage
    /// check, the fee parts neither overflow nor divide by zero.
    pub open spec fn swap_psp22_in_range(
        &self,
        reads: PairReads,
        caller_psp22_balance: u128,
        contract_allowance: u128,
        psp22_amount_to_transfer: u128,
        a0_amount_to_validate: u128,
        slippage: u128,
    ) -> bool {
        let q = quote_result(quote_amount(psp22_amount_to_transfer), reads.a0_balance as int, reads.psp22_balance as int);
        reads.a0_balance > 0 && reads.psp22_balance > 0 && caller_psp22_balance >= psp22_amount_to_transfer
            && contract_allowance >= psp22_amount_to_transfer ==> {
            &&& q is Ok
            &&& difference_defined(a0_amount_to_validate, q->Ok_0)
            &&& check_difference_result(a0_amount_to_validate, q->Ok_0) is Ok
            &&& check_difference_result(a0_amount_to_validate, q->Ok_0)->Ok_0 <= slippage ==> {
                &&& self.fee_parts_in_range(q->Ok_0)
                &&& psp22_amount_to_transfer * self.traders_fee <= u128::MAX
            }
        }
    }

    /// The traders fee and LP fee parts of a swap's output `out` fit in 128 bits,
    /// each and together.
    pub open spec fn fee_parts_in_range(&self, out: u128) -> bool {
        &&& out * self.traders_fee <= u128::MAX
        &&& out * ((self.fee / E12) * 10) <= u128::MAX
        &&& vault_part(out as int, self.traders_fee) + lp_part(out as int, self.fee) <= u128::MAX
    }

    /// An AZERO-to-PSP22 swap stays within the pair's arithmetic: where the pair
    /// holds both reserves, the coins sent are part of its balance, the quote and its
    /// percentage difference are defined, and past the slippage check the fee parts
    /// and the count of swaps fit.
    pub open spec fn swap_a0_in_range(&self, env: &CallEnv, reads: PairReads, psp22_amount_to_validate: u128, slippage: u128) -> bool {
        let q = quote_result(
            quote_amount(env.transferred_value),
            reads.psp22_balance as int,
            reads.a0_balance - env.transferred_value,
        );
        reads.a0_balance > 0 && reads.psp22_balance > 0 ==> {
            &&& env.transferred_value <= reads.a0_balance
            &&& q is Ok
            &&& difference_defined(psp22_amount_to_validate, q->Ok_0)
            &&& check_difference_result(psp22_amount_to_validate, q->Ok_0) is Ok
            &&& check_difference_result(psp22_amount_to_validate, q->Ok_0)->Ok_0 <= slippage ==> {
                &&& self.fee_parts_in_range(q->Ok_0)
                &&& env.transferred_value * self.traders_fee <= u128::MAX
                &&& self.transasction_number < i64::MAX
            }
        }
    }

    /// Whether `check_difference(v1, v2)` can be computed: see `difference_defined`.
    pub fn difference_is_defined(&self, v1: u128, v2: u128) -> (r: bool)
        ensures
            r == difference_defined(v1, v2),
    {
        if v1 == v2 {
            return true;
        }
        let (hi, lo) = if v1 > v2 {
            (v1, v2)
        } else {
            (v2, v1)
        };
        match (hi - lo).checked_mul(E12) {
            Some(_) => {},
            None => return false,
        }
        match hi.checked_add(lo) {
            Some(sum) => sum / 2 > 0,
            None => false,
        }
    }

    /// Whether the fee parts of a swap's output `out` fit: `fee_parts_in_range`.
    fn fee_parts_fit(&self, out: u128) -> (r: bool)
        ensures
            r == self.fee_parts_in_range(out),
    {
        let vault = match out.checked_mul(self.traders_fee) {
            Some(v) => v / 1000,
            None => return false,
        };
        let lp = match out.checked_mul((self.fee / E12) * 10) {
            Some(v) => v / 1000,
            None => return false,
        };
        vault.checked_add(lp).is_some()
    }

    /// Whether `swap_psp22` can be called with these arguments: `swap_psp22_in_range`.
    pub fn swap_psp22_is_in_range(
        &self,
        reads: PairReads,
        caller_psp22_balance: u128,
        contract_allowance: u128,
        psp22_amount_to_transfer: u128,
        a0_amount_to_validate: u128,
        slippage: u128,
    ) -> (r: bool)
        ensures
            r == self.swap_psp22_in_range(
                reads,
                caller_psp22_balance,
                contract_allowance,
                psp22_amount_to_transfer,
                a0_amount_to_validate,
                slippage,
            ),
    {
        if !(reads.a0_balance > 0 && reads.psp22_balance > 0 && caller_psp22_balance >= psp22_amount_to_transfer
            && contract_allowance >= psp22_amount_to_transfer) {
            return true;
        }
        let q = match self.get_est_price_psp22_to_a0(psp22_amount_to_transfer, reads.a0_balance, reads.psp22_balance) {
            Ok(q) => q,
            Err(_) => return false,
        };
        if !self.difference_is_defined(a0_amount_to_validate, q) {
            return false;
        }
        let d = match self.check_difference(a0_amount_to_validate, q) {
            Ok(d) => d,
            Err(_) => return false,
        };
        if d > slippage {
            return true;
        }
        self.fee_parts_fit(q) && psp22_amount_to_transfer.checked_mul(self.traders_fee).is_some()
    }

    /// Whether `swap_a0` can be called with these arguments: `swap_a0_in_range`.
    pub fn swap_a0_is_in_range(&self, env: &CallEnv, reads: PairReads, psp22_amount_to_validate: u128, slippage: u128) -> (r:
        bool)
        ensures
            r == self.swap_a0_in_range(env, reads, psp22_amount_to_validate, slippage),
    {
        if !(reads.a0_balance > 0 && reads.psp22_balance > 0) {
            return true;
        }
        if env.transferred_value > reads.a0_balance {
            return false;
        }
        let q = match self.get_est_price_a0_to_psp22_for_swap(env.transferred_value, reads.a0_balance, reads.psp22_balance) {
            Ok(q) => q,
            Err(_) => return false,
        };
        if !self.difference_is_defined(psp22_amount_to_validate, q) {
            return false;
        }
        let d = match self.check_difference(psp22_amount_to_validate, q) {
            Ok(d) => d,
            Err(_) => return false,
        };
        if d > slippage {
            return true;
        }
        self.fee_parts_fit(q) && env.transferred_value.checked_mul(self.traders_fee).is_some()
            && self.transasction_number < i64::MAX
    }

    /// Checks and prices a swap of `psp22_amount_to_transfer` PSP22 tokens for AZERO.
    /// On success the caller's tokens still have to be moved in by the planned
    /// `transfer_from`; `settle_swap_psp22` finishes the swap.
    pub fn swap_psp22(
        &self,
        env: &CallEnv,
        reads: PairReads,
        caller_psp22_balance: u128,
        contract_allowance: u128,
        psp22_amount_to_transfer: u128,
        a0_amount_to_validate: u128,
        slippage: u128,
    ) -> (r: Result<Psp22SwapPlan, TradingPairErrors>)
        requires
            self.swap_psp22_in_range(
                reads,
                caller_psp22_balance,
                contract_allowance,
                psp22_amount_to_transfer,
                a0_amount_to_validate,
                slippage,
            ),
        ensures
            ({
                let q = quote_result(
                    quote_amount(psp22_amount_to_transfer),
                    reads.a0_balance as int,
                    reads.psp22_balance as int,
                )->Ok_0;
                let vault = vault_part(q as int, self.traders_fee);
                let lp = lp_part(q as int, self.fee);
                if reads.a0_balance == 0 {
                    r == Err::<Psp22SwapPlan, TradingPairErrors>(TradingPairErrors::ContractOutOfA0)
                } else if reads.psp22_balance == 0 {
                    r == Err::<Psp22SwapPlan, TradingPairErrors>(TradingPairErrors::ContractOutOfPSP22)
                } else if caller_psp22_balance < psp22_amount_to_transfer {
                    r == Err::<Psp22SwapPlan, TradingPairErrors>(TradingPairErrors::CallerInsufficientPSP22Balance)
                } else if contract_allowance < psp22_amount_to_transfer {
                    r == Err::<Psp22SwapPlan, TradingPairErrors>(TradingPairErrors::NotEnoughAllowance)
                } else if check_difference_result(a0_amount_to_validate, q)->Ok_0 > slippage {
                    r == Err::<Psp22SwapPlan, TradingPairErrors>(TradingPairErrors::SlippageTolerance)
                } else if self.azero_lp_fee_vault + lp > u128::MAX
                    || self.contract_overall_generated_azero_fee + lp > u128::MAX
                    || vault + lp > q {
                    r == Err::<Psp22SwapPlan, TradingPairErrors>(TradingPairErrors::Overflow)
                } else {
                    &&& r matches Ok(p)
                    &&& p.caller() == env.caller
                    &&& p.psp22_amount() == psp22_amount_to_transfer
                    &&& p.caller_psp22_balance() == caller_psp22_balance
                    &&& p.a0_for_vault() == vault
                    &&& p.a0_for_caller() == q - (vault + lp)
                    &&& p.a0_lp_fee() == lp
                    &&& p.psp22_for_vault() == vault_part(psp22_amount_to_transfer as int, self.traders_fee)
                    &&& p.transfer_from() == Planned {
                        call: ChainCall::Psp22TransferFrom {
                            token: self.psp22_token,
                            from: env.caller,
                            to: env.account_id,
                            amount: psp22_amount_to_transfer,
                        },
                        on_failure: TradingPairErrors::PSP22TransferFromFailed,
                    }
                }
            }),
    {
        let caller = env.caller;
        if reads.a0_balance <= 0 {
            return Err(TradingPairErrors::ContractOutOfA0);
        }
        if reads.psp22_balance <= 0 {
            return Err(TradingPairErrors::ContractOutOfPSP22);
        }
        if caller_psp22_balance < psp22_amount_to_transfer {
            return Err(TradingPairErrors::CallerInsufficientPSP22Balance);
        }
        if contract_allowance < psp22_amount_to_transfer {
            return Err(TradingPairErrors::NotEnoughAllowance);
        }
        let a0_amount_out_for_caller_before_traders_fee: u128 = self.get_est_price_psp22_to_a0(
            psp22_amount_to_transfer,
            reads.a0_balance,
            reads.psp22_balance,
        ).unwrap();
        let percentage_diff: u128 = self.check_difference(
            a0_amount_to_validate,
            a0_amount_out_for_caller_before_traders_fee,
        ).unwrap();
        if percentage_diff > slippage {
            return Err(TradingPairErrors::SlippageTolerance);
        }
        let a0_amount_out_for_vault: u128 = match (a0_amount_out_for_caller_before_traders_fee * self.traders_fee).checked_div(1000u128) {
            Some(result) => result,
            None => return Err(TradingPairErrors::Overflow),
        };
        let actual_lp_fee: u128 = match (self.fee / E12).checked_mul(10) {
            Some(result) => result,
            None => return Err(TradingPairErrors::Overflow),
        };
        let a0_amount_out_for_lp_vault: u128 = match (a0_amount_out_for_caller_before_traders_fee * actual_lp_fee).checked_div(1000u128) {
            Some(result) => result,
            None => return Err(TradingPairErrors::Overflow),
        };
        if self.azero_lp_fee_vault.checked_add(a0_amount_out_for_lp_vault).is_none() {
            return Err(TradingPairErrors::Overflow);
        }
        if self.contract_overall_generated_azero_fee.checked_add(a0_amount_out_for_lp_vault).is_none() {
            return Err(TradingPairErrors::Overflow);
        }
        let actual_a0_amount_out_for_caller: u128 = match a0_amount_out_for_caller_before_traders_fee.checked_sub(a0_amount_out_for_vault + a0_amount_out_for_lp_vault) {
            Some(result) => result,
            None => return Err(TradingPairErrors::Overflow),
        };
        let psp22_amount_out_for_vault: u128 = match (psp22_amount_to_transfer * self.traders_fee).checked_div(1000u128) {
            Some(result) => result,
            None => return Err(TradingPairErrors::Overflow),
        };
        Ok(Psp22SwapPlan {
            caller,
            psp22_amount: psp22_amount_to_transfer,
            caller_psp22_balance,
            a0_for_caller: actual_a0_amount_out_for_caller,
            a0_for_vault: a0_amount_out_for_vault,
            psp22_for_vault: psp22_amount_out_for_vault,
            a0_lp_fee: a0_amount_out_for_lp_vault,
            transfer_from: Planned {
                call: ChainCall::Psp22TransferFrom {
                    token: self.psp22_token,
                    from: caller,
                    to: env.account_id,
                    amount: psp22_amount_to_transfer,
                },
                on_failure: TradingPairErrors::PSP22TransferFromFailed,
            },
        })
    }

    /// Finishes a PSP22-to-AZERO swap once the `transfer_from` of `plan` went through
    /// and the caller's PSP22 balance reads `caller_balance_after_transfer`: books the
    /// LP fee and returns the payouts to make and the event.
    pub fn settle_swap_psp22(
        &mut self,
        plan: &Psp22SwapPlan,
        caller_balance_after_transfer: u128,
    ) -> (r: Result<(Vec<Planned<TradingPairErrors>>, PSP22Swap), TradingPairErrors>)
        requires
            plan.caller_psp22_balance() != caller_balance_after_transfer ==> old(self).transasction_number < i64::MAX,
        ensures
            Self::shares_step(*old(self), *final(self)),
            plan.caller_psp22_balance() == caller_balance_after_transfer ==> r == Err::<
                (Vec<Planned<TradingPairErrors>>, PSP22Swap),
                TradingPairErrors,
            >(TradingPairErrors::CallerInsufficientPSP22Balance) && *final(self) == *old(self),
            plan.caller_psp22_balance() != caller_balance_after_transfer && (old(self).azero_lp_fee_vault + plan.a0_lp_fee()
                > u128::MAX || old(self).contract_overall_generated_azero_fee + plan.a0_lp_fee() > u128::MAX) ==> r
                == Err::<(Vec<Planned<TradingPairErrors>>, PSP22Swap), TradingPairErrors>(TradingPairErrors::Overflow)
                && *final(self) == *old(self),
            plan.caller_psp22_balance() != caller_balance_after_transfer && old(self).azero_lp_fee_vault + plan.a0_lp_fee()
                <= u128::MAX && old(self).contract_overall_generated_azero_fee + plan.a0_lp_fee() <= u128::MAX ==> {
                &&& r matches Ok((calls, event))
                &&& calls@ == seq![
                    Planned {
                        call: ChainCall::Psp22Transfer { token: old(self).psp22_token, to: old(self).vault, amount: plan.psp22_for_vault() },
                        on_failure: TradingPairErrors::PSP22TransferFailed,
                    },
                    Planned {
                        call: ChainCall::NativeTransfer { to: plan.caller(), amount: plan.a0_for_caller() },
                        on_failure: TradingPairErrors::A0TransferFailed,
                    },
                    Planned {
                        call: ChainCall::NativeTransfer { to: old(self).vault, amount: plan.a0_for_vault() },
                        on_failure: TradingPairErrors::A0TransferFailed,
                    },
                ]
                &&& event == PSP22Swap {
                    caller: plan.caller(),
                    psp22_deposited_amount: plan.psp22_amount(),
                    a0_given_amount: plan.a0_for_caller(),
                    a0_given_to_vault: plan.a0_for_vault(),
                }
                &&& *final(self) == TradingPairAzero {
                    azero_lp_fee_vault: (old(self).azero_lp_fee_vault + plan.a0_lp_fee()) as u128,
                    contract_overall_generated_azero_fee: (old(self).contract_overall_generated_azero_fee + plan.a0_lp_fee()) as u128,
                    transasction_number: (old(self).transasction_number + 1) as i64,
                    ..*old(self)
                }
            },
    {
        if plan.caller_psp22_balance() == caller_balance_after_transfer {
            return Err(TradingPairErrors::CallerInsufficientPSP22Balance);
        }
        let new_azero_lp_fee_vault: u128 = match self.azero_lp_fee_vault.checked_add(plan.a0_lp_fee()) {
            Some(result) => result,
            None => return Err(TradingPairErrors::Overflow),
        };
        let new_overall_azero_fee: u128 = match self.contract_overall_generated_azero_fee.checked_add(plan.a0_lp_fee()) {
            Some(result) => result,
            None => return Err(TradingPairErrors::Overflow),
        };
        self.azero_lp_fee_vault = new_azero_lp_fee_vault;
        self.contract_overall_generated_azero_fee = new_overall_azero_fee;
        let mut calls: Vec<Planned<TradingPairErrors>> = Vec::new();
        calls.push(Planned {
            call: ChainCall::Psp22Transfer { token: self.psp22_token, to: self.vault, amount: plan.psp22_for_vault() },
            on_failure: TradingPairErrors::PSP22TransferFailed,
        });
        calls.push(Planned {
            call: ChainCall::NativeTransfer { to: plan.caller(), amount: plan.a0_for_caller() },
            on_failure: TradingPairErrors::A0TransferFailed,
        });
        calls.push(Planned {
            call: ChainCall::NativeTransfer { to: self.vault, amount: plan.a0_for_vault() },
            on_failure: TradingPairErrors::A0TransferFailed,
        });
        self.transasction_number = self.transasction_number + 1;
        let event = PSP22Swap {
            caller: plan.caller(),
            psp22_deposited_amount: plan.psp22_amount(),
            a0_given_amount: plan.a0_for_caller(),
            a0_given_to_vault: plan.a0_for_vault(),
        };
        Ok((calls, event))
    }

    /// Swaps the AZERO sent with the call for PSP22 tokens.  `reads.a0_balance`
    /// already holds the coins sent.  On success the LP fee is booked and the returned
    /// payouts have to be made.
    pub fn swap_a0(
        &mut self,
        env: &CallEnv,
        reads: PairReads,
        psp22_amount_to_validate: u128,
        slippage: u128,
    ) -> (r: Result<(Vec<Planned<TradingPairErrors>>, A0Swap), TradingPairErrors>)
        requires
            old(self).swap_a0_in_range(env, reads, psp22_amount_to_validate, slippage),
        ensures
            Self::shares_step(*old(self), *final(self)),
            ({
                let q = quote_result(
                    quote_amount(env.transferred_value),
                    reads.psp22_balance as int,
                    reads.a0_balance - env.transferred_value,
                )->Ok_0;
                let vault = vault_part(q as int, old(self).traders_fee);
                let lp = lp_part(q as int, old(self).fee);
                let a0_vault = vault_part(env.transferred_value as int, old(self).traders_fee);
                if reads.a0_balance == 0 {
                    r == Err::<(Vec<Planned<TradingPairErrors>>, A0Swap), TradingPairErrors>(TradingPairErrors::ContractOutOfA0)
                        && *final(self) == *old(self)
                } else if reads.psp22_balance == 0 {
                    r == Err::<(Vec<Planned<TradingPairErrors>>, A0Swap), TradingPairErrors>(TradingPairErrors::ContractOutOfPSP22)
                        && *final(self) == *old(self)
                } else if check_difference_result(psp22_amount_to_validate, q)->Ok_0 > slippage {
                    r == Err::<(Vec<Planned<TradingPairErrors>>, A0Swap), TradingPairErrors>(TradingPairErrors::SlippageTolerance)
                        && *final(self) == *old(self)
                } else if old(self).psp22_lp_fee_vault + lp > u128::MAX
                    || old(self).contract_overall_generated_psp22_fee + lp > u128::MAX
                    || vault + lp > q {
                    r == Err::<(Vec<Planned<TradingPairErrors>>, A0Swap), TradingPairErrors>(TradingPairErrors::Overflow)
                        && *final(self) == *old(self)
                } else {
                    &&& r matches Ok((calls, event))
                    &&& calls@ == seq![
                        Planned {
                            call: ChainCall::Psp22Transfer { token: old(self).psp22_token, to: env.caller, amount: (q - (vault + lp)) as u128 },
                            on_failure: TradingPairErrors::PSP22TransferFailed,
                        },
                        Planned {
                            call: ChainCall::Psp22Transfer { token: old(self).psp22_token, to: old(self).vault, amount: vault as u128 },
                            on_failure: TradingPairErrors::PSP22TransferFailed,
                        },
                        Planned {
                            call: ChainCall::NativeTransfer { to: old(self).vault, amount: a0_vault as u128 },
                            on_failure: TradingPairErrors::A0TransferFailed,
                        },
                    ]
                    &&& event == A0Swap {
                        caller: env.caller,
                        a0_deposited_amount: env.transferred_value,
                        psp22_given_amount: (q - (vault + lp)) as u128,
                        psp22_given_to_vault: vault as u128,
                    }
                    &&& *final(self) == TradingPairAzero {
                        psp22_lp_fee_vault: (old(self).psp22_lp_fee_vault + lp) as u128,
                        contract_overall_generated_psp22_fee: (old(self).contract_overall_generated_psp22_fee + lp) as u128,
                        transasction_number: (old(self).transasction_number + 1) as i64,
                        ..*old(self)
                    }
                }
            }),
    {
        let caller = env.caller;
        if reads.a0_balance <= 0 {
            return Err(TradingPairErrors::ContractOutOfA0);
        }
        if reads.psp22_balance <= 0 {
            return Err(TradingPairErrors::ContractOutOfPSP22);
        }
        let psp22_amount_out_for_caller_before_traders_fee: u128 = self.get_est_price_a0_to_psp22_for_swap(
            env.transferred_value,
            reads.a0_balance,
            reads.psp22_balance,
        ).unwrap();
        let percentage_diff: u128 = self.check_difference(
            psp22_amount_to_validate,
            psp22_amount_out_for_caller_before_traders_fee,
        ).unwrap();
        if percentage_diff > slippage {
            return Err(TradingPairErrors::SlippageTolerance);
        }
        let psp22_amount_out_for_vault: u128 = match (psp22_amount_out_for_caller_before_traders_fee * self.traders_fee).checked_div(1000u128) {
            Some(result) => result,
            None => return Err(TradingPairErrors::Overflow),
        };
        let actual_lp_fee: u128 = match (self.fee / E12).checked_mul(10) {
            Some(result) => result,
            None => return Err(TradingPairErrors::Overflow),
        };
        let psp22_amount_out_for_lp_vault: u128 = match (psp22_amount_out_for_caller_before_traders_fee * actual_lp_fee).checked_div(1000u128) {
            Some(result) => result,
            None => return Err(TradingPairErrors::Overflow),
        };
        let new_psp22_lp_fee_vault: u128 = match self.psp22_lp_fee_vault.checked_add(psp22_amount_out_for_lp_vault) {
            Some(result) => result,
            None => return Err(TradingPairErrors::Overflow),
        };
        let new_contract_overall_generated_psp22_fee: u128 = match self.contract_overall_generated_psp22_fee.checked_add(psp22_amount_out_for_lp_vault) {
            Some(result) => result,
            None => return Err(TradingPairErrors::Overflow),
        };
        let actual_psp22_amount_out_for_caller: u128 = match psp22_amount_out_for_caller_before_traders_fee.checked_sub(psp22_amount_out_for_vault + psp22_amount_out_for_lp_vault) {
            Some(result) => result,
            None => return Err(TradingPairErrors::Overflow),
        };
        let a0_amount_out_for_vault: u128 = match (env.transferred_value * self.traders_fee).checked_div(1000u128) {
            Some(result) => result,
            None => return Err(TradingPairErrors::Overflow),
        };
        self.psp22_lp_fee_vault = new_psp22_lp_fee_vault;
        self.contract_overall_generated_psp22_fee = new_contract_overall_generated_psp22_fee;
        let mut calls: Vec<Planned<TradingPairErrors>> = Vec::new();
        calls.push(Planned {
            call: ChainCall::Psp22Transfer { token: self.psp22_token, to: caller, amount: actual_psp22_amount_out_for_caller },
            on_failure: TradingPairErrors::PSP22TransferFailed,
        });
        calls.push(Planned {
            call: ChainCall::Psp22Transfer { token: self.psp22_token, to: self.vault, amount: psp22_amount_out_for_vault },
            on_failure: TradingPairErrors::PSP22TransferFailed,
        });
        calls.push(Planned {
            call: ChainCall::NativeTransfer { to: self.vault, amount: a0_amount_out_for_vault },
            on_failure: TradingPairErrors::A0TransferFailed,
        });
        self.transasction_number = self.transasction_number + 1;
        Ok((calls, A0Swap {
            caller,
            a0_deposited_amount: env.transferred_value,
            psp22_given_amount: actual_psp22_amount_out_for_caller,
            psp22_given_to_vault: psp22_amount_out_for_vault,
        }))
    }

    // -----------------------------------------------------------------------
    // Liquidity.
    // -----------------------------------------------------------------------

    /// The LP shares that a deposit of `a0` coins (already in `a0_balance`) and `psp22`
    /// tokens earns: a tenth of a trillionth of their product for the first deposit,
    /// otherwise the smaller of the two proportional shares.
    pub open spec fn provision_shares(&self, a0: u128, psp22: u128, a0_balance: u128, psp22_balance: u128) -> int {
        if self.total_supply == 0 {
            a0 * psp22 / 1_000_000_000_000
        } else {
            min_int(
                a0 * self.total_supply / (a0_balance - a0),
                psp22 * self.total_supply / (psp22_balance as int),
            )
        }
    }

    /// The PSP22 tokens that `a0_deposit_amount` AZERO call for at the reserves,
    /// `rb` AZERO before the call.
    pub open spec fn needed_psp22(reads: PairReads, rb: int, a0_deposit_amount: u128) -> int {
        reads.psp22_balance * E12 / rb * a0_deposit_amount / (E12 as int)
    }

    /// The AZERO that `psp22_deposit_amount` PSP22 tokens call for at the reserves.
    pub open spec fn needed_a0(reads: PairReads, rb: int, psp22_deposit_amount: u128) -> int {
        rb * E12 / (reads.psp22_balance as int) * psp22_deposit_amount / (E12 as int)
    }

    /// Whether a provision is refused because both deposits are off the pool's ratio
    /// by more than `slippage`.
    pub open spec fn ratio_refused(&self, env: &CallEnv, reads: PairReads, psp22_deposit_amount: u128, a0_deposit_amount: u128, slippage: u128) -> bool {
        let rb = reads.a0_balance - env.transferred_value;
        &&& self.total_supply > 0
        &&& check_difference_result(psp22_deposit_amount, Self::needed_psp22(reads, rb, a0_deposit_amount) as u128)->Ok_0 > slippage
        &&& check_difference_result(Self::needed_a0(reads, rb, psp22_deposit_amount) as u128, a0_deposit_amount)->Ok_0 > slippage
    }

    /// A provision stays within the pair's arithmetic: where the caller's balance and
    /// allowance cover the deposit, the ratio checks against the reserves and, where
    /// they pass and shares are earned, the shares and their slippage check are
    /// defined.
    pub open spec fn provision_in_range(
        &self,
        env: &CallEnv,
        reads: PairReads,
        caller_psp22_balance: u128,
        contract_allowance: u128,
        psp22_deposit_amount: u128,
        a0_deposit_amount: u128,
        expected_lp_tokens: u128,
        slippage: u128,
    ) -> bool {
        let tv = env.transferred_value;
        let ts = self.total_supply;
        let rb = reads.a0_balance - tv;
        let needed_psp22 = Self::needed_psp22(reads, rb, a0_deposit_amount);
        let needed_a0 = Self::needed_a0(reads, rb, psp22_deposit_amount);
        let shares = self.provision_shares(tv, psp22_deposit_amount, reads.a0_balance, reads.psp22_balance);
        caller_psp22_balance >= psp22_deposit_amount && contract_allowance >= psp22_deposit_amount ==> {
            &&& ts > 0 ==> {
                &&& tv <= reads.a0_balance
                &&& rb > 0
                &&& reads.psp22_balance > 0
                &&& tv * ts <= u128::MAX
                &&& psp22_deposit_amount * ts <= u128::MAX
                &&& reads.psp22_balance * E12 <= u128::MAX
                &&& reads.psp22_balance * E12 / rb * a0_deposit_amount <= u128::MAX
                &&& rb * E12 <= u128::MAX
                &&& rb * E12 / (reads.psp22_balance as int) * psp22_deposit_amount <= u128::MAX
                &&& difference_defined(psp22_deposit_amount, needed_psp22 as u128)
                &&& check_difference_result(psp22_deposit_amount, needed_psp22 as u128) is Ok
                &&& difference_defined(needed_a0 as u128, a0_deposit_amount)
                &&& check_difference_result(needed_a0 as u128, a0_deposit_amount) is Ok
            }
            &&& shares > 0 && !self.ratio_refused(env, reads, psp22_deposit_amount, a0_deposit_amount, slippage) ==> {
                &&& shares < w128()
                &&& difference_defined(expected_lp_tokens, shares as u128)
                &&& check_difference_result(expected_lp_tokens, shares as u128) is Ok
            }
        }
    }

    /// Whether `provide_to_pool` can be called with these arguments:
    /// `provision_in_range`.
    pub fn provision_is_in_range(
        &self,
        env: &CallEnv,
        reads: PairReads,
        caller_psp22_balance: u128,
        contract_allowance: u128,
        psp22_deposit_amount: u128,
        a0_deposit_amount: u128,
        expected_lp_tokens: u128,
        slippage: u128,
    ) -> (r: bool)
        ensures
            r == self.provision_in_range(
                env,
                reads,
                caller_psp22_balance,
                contract_allowance,
                psp22_deposit_amount,
                a0_deposit_amount,
                expected_lp_tokens,
                slippage,
            ),
    {
        if !(caller_psp22_balance >= psp22_deposit_amount && contract_allowance >= psp22_deposit_amount) {
            return true;
        }
        let tv = env.transferred_value;
        let ts = self.total_supply;
        let mut shares: Uint256 = wide_from_u128(0);
        if ts > 0 {
            if tv > reads.a0_balance {
                return false;
            }
            let rb = reads.a0_balance - tv;
            if rb == 0 || reads.psp22_balance == 0 {
                return false;
            }
            let by_a0 = match tv.checked_mul(ts) {
                Some(x) => x / rb,
                None => return false,
            };
            let by_psp22 = match psp22_deposit_amount.checked_mul(ts) {
                Some(x) => x / reads.psp22_balance,
                None => return false,
            };
            let x = match reads.psp22_balance.checked_mul(E12) {
                Some(x) => x,
                None => return false,
            };
            let needed_psp22 = match (x / rb).checked_mul(a0_deposit_amount) {
                Some(y) => y / E12,
                None => return false,
            };
            let y = match rb.checked_mul(E12) {
                Some(y) => y,
                None => return false,
            };
            let needed_a0 = match (y / reads.psp22_balance).checked_mul(psp22_deposit_amount) {
                Some(z) => z / E12,
                None => return false,
            };
            if !self.difference_is_defined(psp22_deposit_amount, needed_psp22) {
                return false;
            }
            let d1 = match self.check_difference(psp22_deposit_amount, needed_psp22) {
                Ok(d) => d,
                Err(_) => return false,
            };
            if !self.difference_is_defined(needed_a0, a0_deposit_amount) {
                return false;
            }
            let d2 = match self.check_difference(needed_a0, a0_deposit_amount) {
                Ok(d) => d,
                Err(_) => return false,
            };
            if d1 > slippage && d2 > slippage {
                return true;
            }
            shares = wide_from_u128(self._min(by_a0, by_psp22));
        } else {
            let a = wide_from_u128(tv);
            let b = wide_from_u128(psp22_deposit_amount);
            proof {
                assert(a.value() * b.value() < w256()) by (nonlinear_arith)
                    requires
                        a.value() < w128(),
                        b.value() < w128(),
                        w256() == w128() * w128(),
                ;
            }
            shares = wide_div_u128(wide_mul(a, b), E12);
        }
        if wide_le(shares, wide_from_u128(0)) {
            return true;
        }
        if !wide_le(shares, wide_from_u128(u128::MAX)) {
            return false;
        }
        let shares_u128 = wide_as_u128(shares);
        if !self.difference_is_defined(expected_lp_tokens, shares_u128) {
            return false;
        }
        self.check_difference(expected_lp_tokens, shares_u128).is_ok()
    }

    /// Checks a liquidity provision of the coins sent with the call and
    /// `psp22_deposit_amount` PSP22 tokens, and works out the shares it earns.  On
    /// success the tokens still have to be moved in by the planned `transfer_from`;
    /// `settle_provide_to_pool` finishes the provision.
    pub fn provide_to_pool(
        &self,
        env: &CallEnv,
        reads: PairReads,
        caller_psp22_balance: u128,
        contract_allowance: u128,
        psp22_deposit_amount: u128,
        a0_deposit_amount: u128,
        expected_lp_tokens: u128,
        slippage: u128,
    ) -> (r: Result<ProvisionPlan, TradingPairErrors>)
        requires
            self.provision_in_range(
                env,
                reads,
                caller_psp22_balance,
                contract_allowance,
                psp22_deposit_amount,
                a0_deposit_amount,
                expected_lp_tokens,
                slippage,
            ),
        ensures
            ({
                let tv = env.transferred_value;
                let ts = self.total_supply;
                let rb = reads.a0_balance - tv;
                let needed_psp22 = reads.psp22_balance * E12 / rb * a0_deposit_amount / (E12 as int);
                let needed_a0 = rb * E12 / (reads.psp22_balance as int) * psp22_deposit_amount / (E12 as int);
                let shares = self.provision_shares(tv, psp22_deposit_amount, reads.a0_balance, reads.psp22_balance);
                let current = self.balances.get_or(env.caller, 0);
                if caller_psp22_balance < psp22_deposit_amount {
                    r == Err::<ProvisionPlan, TradingPairErrors>(TradingPairErrors::CallerInsufficientPSP22Balance)
                } else if contract_allowance < psp22_deposit_amount {
                    r == Err::<ProvisionPlan, TradingPairErrors>(TradingPairErrors::NotEnoughAllowance)
                } else if ts > 0 && check_difference_result(psp22_deposit_amount, needed_psp22 as u128)->Ok_0 > slippage
                    && check_difference_result(needed_a0 as u128, a0_deposit_amount)->Ok_0 > slippage {
                    r == Err::<ProvisionPlan, TradingPairErrors>(TradingPairErrors::SlippageTolerance)
                } else if shares <= 0 {
                    r == Err::<ProvisionPlan, TradingPairErrors>(TradingPairErrors::ZeroSharesGiven)
                } else if check_difference_result(expected_lp_tokens, shares as u128)->Ok_0 > slippage {
                    r == Err::<ProvisionPlan, TradingPairErrors>(TradingPairErrors::SlippageTolerance)
                } else if current + shares > u128::MAX {
                    r == Err::<ProvisionPlan, TradingPairErrors>(TradingPairErrors::Overflow)
                } else {
                    &&& r matches Ok(p)
                    &&& p.caller() == env.caller
                    &&& p.shares() == shares
                    &&& p.a0_deposited_amount() == tv
                    &&& p.psp22_deposited_amount() == psp22_deposit_amount
                    &&& p.caller_psp22_balance() == caller_psp22_balance
                    &&& p.transfer_from() == Planned {
                        call: ChainCall::Psp22TransferFrom {
                            token: self.psp22_token,
                            from: env.caller,
                            to: env.account_id,
                            amount: psp22_deposit_amount,
                        },
                        on_failure: TradingPairErrors::PSP22TransferFromFailed,
                    }
                }
            }),
    {
        let caller = env.caller;
        let tv = env.transferred_value;
        if caller_psp22_balance < psp22_deposit_amount {
            return Err(TradingPairErrors::CallerInsufficientPSP22Balance);
        }
        if contract_allowance < psp22_deposit_amount {
            return Err(TradingPairErrors::NotEnoughAllowance);
        }
        let mut shares: Uint256 = wide_from_u128(0);
        if self.total_supply == 0 {
            let a = wide_from_u128(tv);
            let b = wide_from_u128(psp22_deposit_amount);
            proof {
                assert(a.value() * b.value() < w256()) by (nonlinear_arith)
                    requires
                        a.value() < w128(),
                        b.value() < w128(),
                        w256() == w128() * w128(),
                ;
            }
            shares = wide_mul(a, b);
            match wide_checked_div(shares, wide_from_u128(E12)) {
                Some(result) => {
                    shares = result;
                },
                None => return Err(TradingPairErrors::Overflow),
            }
        }
        if self.total_supply > 0 {
            let reserve_before_transaction = reads.a0_balance - tv;
            let coin_product = (tv * self.total_supply) / reserve_before_transaction;
            let psp22_product = (psp22_deposit_amount * self.total_supply) / reads.psp22_balance;
            shares = wide_from_u128(self._min(coin_product, psp22_product));
            let psp22_amount_needed_to_deposit = self.get_psp22_amount_for_lp(
                a0_deposit_amount,
                reserve_before_transaction,
                reads.psp22_balance,
            );
            let a0_amount_needed_to_deposit = self.get_a0_amount_for_lp(
                psp22_deposit_amount,
                reserve_before_transaction,
                reads.psp22_balance,
            );
            let psp22_deposit_percentage_diff = self.check_difference(
                psp22_deposit_amount,
                psp22_amount_needed_to_deposit,
            ).unwrap();
            let a0_deposit_percentage_diff = self.check_difference(
                a0_amount_needed_to_deposit,
                a0_deposit_amount,
            ).unwrap();
            if psp22_deposit_percentage_diff > slippage && a0_deposit_percentage_diff > slippage {
                return Err(TradingPairErrors::SlippageTolerance);
            }
        }
        if wide_le(shares, wide_from_u128(0)) {
            return Err(TradingPairErrors::ZeroSharesGiven);
        }
        let shares_u128 = wide_as_u128(shares);
        let percentage_diff = self.check_difference(expected_lp_tokens, shares_u128).unwrap();
        if percentage_diff > slippage {
            return Err(TradingPairErrors::SlippageTolerance);
        }
        let current_shares: u128 = self.get_lp_token_of(caller);
        if current_shares.checked_add(shares_u128).is_none() {
            return Err(TradingPairErrors::Overflow);
        }
        Ok(ProvisionPlan {
            caller,
            shares: shares_u128,
            a0_deposited_amount: tv,
            psp22_deposited_amount: psp22_deposit_amount,
            caller_psp22_balance,
            transfer_from: Planned {
                call: ChainCall::Psp22TransferFrom {
                    token: self.psp22_token,
                    from: caller,
                    to: env.account_id,
                    amount: psp22_deposit_amount,
                },
                on_failure: TradingPairErrors::PSP22TransferFromFailed,
            },
        })
    }

    /// Sets the caller's daily incentive from its pooled PSP22 tokens, against the
    /// pool's PSP22 reserve `psp22_balance`, and restarts its redeem clock.
    fn update_incentive_program(&mut self, env: &CallEnv, caller: AccountId, psp22_balance: u128) -> (r: Result<(), TradingPairErrors>)
        requires
            old(self).total_supply > 0,
            old(self).balances.get_or(caller, 0) * psp22_balance / (old(self).total_supply as int) < w128(),
            old(self).balances.get_or(caller, 0) * psp22_balance / (old(self).total_supply as int)
                * old(self).staking_percentage <= u128::MAX,
        ensures
            r is Ok,
            *final(self) == (TradingPairAzero {
                psp22_to_give_in_a_day: final(self).psp22_to_give_in_a_day,
                last_redeemed: final(self).last_redeemed,
                ..*old(self)
            }),
            final(self).psp22_to_give_in_a_day@ == old(self).psp22_to_give_in_a_day@.insert(
                caller,
                daily_incentive(
                    old(self).balances.get_or(caller, 0) * psp22_balance / (old(self).total_supply as int),
                    old(self).staking_percentage,
                ) as u128,
            ),
            final(self).last_redeemed@ == old(self).last_redeemed@.insert(caller, env.now()),
    {
        let account_shares_balance: u128 = self.balances.get_or_default(&caller, 0);
        let caller_locked_psp22_balance = self.get_psp22_withdraw_tokens_amount(account_shares_balance, psp22_balance).unwrap();
        let psp22_amount_to_give_each_day: u128 = match ((caller_locked_psp22_balance * self.staking_percentage) / 100u128).checked_div(365) {
            Some(result) => result,
            None => return Err(TradingPairErrors::Overflow),
        };
        self.psp22_to_give_in_a_day.insert(caller, psp22_amount_to_give_each_day);
        let now = self.get_current_timestamp(env);
        self.last_redeemed.insert(caller, now);
        Ok(())
    }

    /// Finishes a liquidity provision once the `transfer_from` of `plan` went through:
    /// the caller's PSP22 balance now reads `caller_balance_after_transfer` and the
    /// pool's PSP22 reserve `psp22_balance_after_transfer`.  Mints the shares and
    /// enters the caller into the incentive program.
    pub fn settle_provide_to_pool(
        &mut self,
        env: &CallEnv,
        plan: &ProvisionPlan,
        caller_balance_after_transfer: u128,
        psp22_balance_after_transfer: u128,
    ) -> (r: Result<LiquidityPoolProvision, TradingPairErrors>)
        requires
            ({
                let new_shares = old(self).balances.get_or(plan.caller(), 0) + plan.shares();
                let new_supply = old(self).total_supply + plan.shares();
                plan.caller_psp22_balance() != caller_balance_after_transfer && new_shares <= u128::MAX && new_supply
                    <= u128::MAX && new_supply > 0 ==> {
                    &&& new_shares * psp22_balance_after_transfer / new_supply < w128()
                    &&& new_shares * psp22_balance_after_transfer / new_supply * old(self).staking_percentage <= u128::MAX
                }
            }),
        ensures
            Self::shares_step(*old(self), *final(self)),
            ({
                let new_shares = old(self).balances.get_or(plan.caller(), 0) + plan.shares();
                let new_supply = old(self).total_supply + plan.shares();
                if plan.caller_psp22_balance() == caller_balance_after_transfer {
                    r == Err::<LiquidityPoolProvision, TradingPairErrors>(TradingPairErrors::CallerInsufficientPSP22Balance)
                        && *final(self) == *old(self)
                } else if new_shares > u128::MAX || new_supply > u128::MAX || new_supply == 0 {
                    r == Err::<LiquidityPoolProvision, TradingPairErrors>(TradingPairErrors::Overflow) && *final(self)
                        == *old(self)
                } else {
                    &&& r == Ok::<LiquidityPoolProvision, TradingPairErrors>(LiquidityPoolProvision {
                        provider: plan.caller(),
                        a0_deposited_amount: plan.a0_deposited_amount(),
                        psp22_deposited_amount: plan.psp22_deposited_amount(),
                        shares_given: plan.shares(),
                    })
                    &&& *final(self) == TradingPairAzero {
                        balances: final(self).balances,
                        total_supply: new_supply as u128,
                        psp22_to_give_in_a_day: final(self).psp22_to_give_in_a_day,
                        last_redeemed: final(self).last_redeemed,
                        ..*old(self)
                    }
                    &&& final(self).balances@ == old(self).balances@.insert(plan.caller(), new_shares as u128)
                    &&& final(self).psp22_to_give_in_a_day@ == old(self).psp22_to_give_in_a_day@.insert(
                        plan.caller(),
                        daily_incentive(new_shares * psp22_balance_after_transfer / new_supply, old(self).staking_percentage)
                            as u128,
                    )
                    &&& final(self).last_redeemed@ == old(self).last_redeemed@.insert(plan.caller(), env.now())
                }
            }),
            old(self).shares_backed() ==> final(self).shares_backed(),
    {
        if plan.caller_psp22_balance() == caller_balance_after_transfer {
            return Err(TradingPairErrors::CallerInsufficientPSP22Balance);
        }
        let current: u128 = self.balances.get_or_default(&plan.caller(), 0);
        let new_caller_shares: u128 = match current.checked_add(plan.shares()) {
            Some(result) => result,
            None => return Err(TradingPairErrors::Overflow),
        };
        let new_total_supply: u128 = match self.total_supply.checked_add(plan.shares()) {
            Some(result) => result,
            None => return Err(TradingPairErrors::Overflow),
        };
        if new_total_supply == 0 {
            return Err(TradingPairErrors::Overflow);
        }
        let ghost b0 = self.balances;
        self.balances.insert(plan.caller(), new_caller_shares);
        proof {
            Mapping::<AccountId, u128>::lemma_total_insert(&b0, &self.balances, plan.caller(), new_caller_shares);
        }
        self.total_supply = new_total_supply;
        proof {
            assert(self.balances.get_or(plan.caller(), 0) == new_caller_shares);
        }
        let _ = self.update_incentive_program(env, plan.caller(), psp22_balance_after_transfer);
        Ok(LiquidityPoolProvision {
            provider: plan.caller(),
            a0_deposited_amount: plan.a0_deposited_amount(),
            psp22_deposited_amount: plan.psp22_deposited_amount(),
            shares_given: plan.shares(),
        })
    }

    // -----------------------------------------------------------------------
    // The incentive program.
    // -----------------------------------------------------------------------

    /// What `get_psp22_redeemable_amount` returns for `caller` at time `now`.
    pub open spec fn redeemable_result(&self, caller: AccountId, now: u64, psp22_balance: u128) -> Result<u128, TradingPairErrors> {
        redeemable_from(
            self.balances.get_or(caller, 0),
            self.total_supply,
            self.psp22_to_give_in_a_day.get_or(caller, 0),
            self.last_redeemed.get_or(caller, 0),
            now,
            psp22_balance,
        )
    }

    /// The incentive tokens that a redeem pays `caller`: the redeemable amount, or
    /// nothing where there is none.
    pub open spec fn redeem_amount(&self, caller: AccountId, now: u64, psp22_balance: u128) -> u128 {
        ok_or_zero(self.redeemable_result(caller, now, psp22_balance))
    }

    /// A redeem can be computed without a panic.
    pub open spec fn redeem_defined(&self, caller: AccountId, now: u64, psp22_balance: u128) -> bool {
        &&& now >= self.last_redeemed.get_or(caller, 0)
        &&& self.total_supply > 0 ==> self.balances.get_or(caller, 0) * psp22_balance / (self.total_supply as int) < w128()
        &&& self.psp22_to_give_in_a_day.get_or(caller, 0) * ((now - self.last_redeemed.get_or(caller, 0)) / 86400) <= u128::MAX
        &&& self.account_overall_staking_rewards.get_or(caller, 0) + self.redeem_amount(caller, now, psp22_balance) <= u128::MAX
    }

    /// The incentive tokens that the caller can redeem now: its daily amount for each
    /// whole day since it last redeemed, against the pool's PSP22 reserve `psp22_balance`.
    pub fn get_psp22_redeemable_amount(&self, env: &CallEnv, psp22_balance: u128) -> (r: Result<u128, TradingPairErrors>)
        requires
            env.now() >= self.last_redeemed.get_or(env.caller, 0),
            self.total_supply > 0 ==> self.balances.get_or(env.caller, 0) * psp22_balance / (self.total_supply as int) < w128(),
            self.psp22_to_give_in_a_day.get_or(env.caller, 0) * ((env.now() - self.last_redeemed.get_or(env.caller, 0)) / 86400)
                <= u128::MAX,
        ensures
            r == self.redeemable_result(env.caller, env.now(), psp22_balance),
    {
        let caller = env.caller;
        let current_tsp = self.get_current_timestamp(env);
        let account_shares_balance: u128 = self.balances.get_or_default(&caller, 0);
        let caller_locked_psp22_balance = match self.get_psp22_withdraw_tokens_amount(account_shares_balance, psp22_balance) {
            Ok(v) => v,
            Err(_) => 0,
        };
        let last_redeemed: u64 = self.last_redeemed.get_or_default(&caller, 0);
        let psp22_to_give_each_day: u128 = self.psp22_to_give_in_a_day.get_or_default(&caller, 0);
        let days_difference: u64 = match (current_tsp - last_redeemed).checked_div(86400) {
            Some(result) => result,
            None => return Err(TradingPairErrors::Overflow),
        };
        if caller_locked_psp22_balance <= 0 {
            return Err(TradingPairErrors::CallerInsufficientPSP22Balance);
        }
        if psp22_to_give_each_day <= 0 {
            return Err(TradingPairErrors::ZeroDailyPSP22);
        }
        let psp22_redeemable_amount: u128 = psp22_to_give_each_day * (days_difference as u128);
        Ok(psp22_redeemable_amount)
    }

    /// Pays out the caller's redeemable incentive tokens (none where there are none),
    /// books them and restarts its redeem clock; returns the transfer to make, which
    /// fails with `on_failure`.
    fn redeem_for_caller(
        &mut self,
        env: &CallEnv,
        psp22_balance: u128,
        on_failure: TradingPairErrors,
    ) -> (r: Planned<TradingPairErrors>)
        requires
            old(self).redeem_defined(env.caller, env.now(), psp22_balance),
        ensures
            ({
                let amount = old(self).redeem_amount(env.caller, env.now(), psp22_balance);
                &&& r == Planned {
                    call: ChainCall::Psp22Transfer { token: old(self).psp22_token, to: env.caller, amount },
                    on_failure,
                }
                &&& *final(self) == (TradingPairAzero {
                    account_overall_staking_rewards: final(self).account_overall_staking_rewards,
                    last_redeemed: final(self).last_redeemed,
                    ..*old(self)
                })
                &&& final(self).account_overall_staking_rewards@ == old(self).account_overall_staking_rewards@.insert(
                    env.caller,
                    (old(self).account_overall_staking_rewards.get_or(env.caller, 0) + amount) as u128,
                )
                &&& final(self).last_redeemed@ == old(self).last_redeemed@.insert(env.caller, env.now())
            }),
    {
        let caller = env.caller;
        let current_tsp = self.get_current_timestamp(env);
        let psp22_redeemable_amount: u128 = match self.get_psp22_redeemable_amount(env, psp22_balance) {
            Ok(v) => v,
            Err(_) => 0,
        };
        let call = Planned {
            call: ChainCall::Psp22Transfer { token: self.psp22_token, to: caller, amount: psp22_redeemable_amount },
            on_failure,
        };
        let current = self.account_overall_staking_rewards.get_or_default(&caller, 0);
        self.account_overall_staking_rewards.insert(caller, current + psp22_redeemable_amount);
        self.last_redeemed.insert(caller, current_tsp);
        call
    }

    /// The caller redeems its incentive tokens: returns the transfer to make.
    pub fn redeem_redeemable_amount(&mut self, env: &CallEnv, psp22_balance: u128) -> (r: Result<
        Vec<Planned<TradingPairErrors>>,
        TradingPairErrors,
    >)
        requires
            old(self).redeem_defined(env.caller, env.now(), psp22_balance),
        ensures
            Self::shares_step(*old(self), *final(self)),
            ({
                let amount = old(self).redeem_amount(env.caller, env.now(), psp22_balance);
                &&& r matches Ok(calls)
                &&& calls@ == seq![
                    Planned {
                        call: ChainCall::Psp22Transfer { token: old(self).psp22_token, to: env.caller, amount },
                        on_failure: TradingPairErrors::PSP22TransferFailed,
                    },
                ]
                &&& *final(self) == (TradingPairAzero {
                    account_overall_staking_rewards: final(self).account_overall_staking_rewards,
                    last_redeemed: final(self).last_redeemed,
                    ..*old(self)
                })
                &&& final(self).account_overall_staking_rewards@ == old(self).account_overall_staking_rewards@.insert(
                    env.caller,
                    (old(self).account_overall_staking_rewards.get_or(env.caller, 0) + amount) as u128,
                )
                &&& final(self).last_redeemed@ == old(self).last_redeemed@.insert(env.caller, env.now())
            }),
    {
        let call = self.redeem_for_caller(env, psp22_balance, TradingPairErrors::PSP22TransferFailed);
        let mut calls: Vec<Planned<TradingPairErrors>> = Vec::new();
        calls.push(call);
        Ok(calls)
    }

    /// Checks a withdrawal of `shares` LP shares at the reserves `reads` and works out
    /// what they stand for; the payouts are planned.  `burn_withdrawn_shares` and
    /// `settle_withdraw_specific_amount` finish the withdrawal.
    pub fn withdraw_specific_amount(&self, env: &CallEnv, reads: PairReads, shares: u128) -> (r: Result<
        WithdrawalPlan,
        TradingPairErrors,
    >)
        requires
            ({
                let caller_shares = self.balances.get_or(env.caller, 0);
                !(env.now() < self.lp_lock_timestamp && env.caller == self.deployer) && shares > 0
                    && caller_shares >= shares ==> {
                    &&& self.total_supply > 0
                    &&& shares * reads.psp22_balance / (self.total_supply as int) < w128()
                    &&& shares * reads.a0_balance / (self.total_supply as int) < w128()
                    &&& shares * self.psp22_lp_fee_vault / (self.total_supply as int) < w128()
                    &&& shares * self.azero_lp_fee_vault <= u128::MAX
                }
            }),
        ensures
            ({
                let caller_shares = self.balances.get_or(env.caller, 0);
                let ts = self.total_supply as int;
                let psp22_amount = (shares * reads.psp22_balance / ts) as u128;
                let a0_amount = (shares * reads.a0_balance / ts) as u128;
                if env.now() < self.lp_lock_timestamp && env.caller == self.deployer {
                    r is Err && r->Err_0 == TradingPairErrors::LpStillLocked
                } else if shares == 0 {
                    r is Err && r->Err_0 == TradingPairErrors::ZeroSharesGiven
                } else if caller_shares < shares {
                    r is Err && r->Err_0 == TradingPairErrors::CallerInsufficientLPBalance
                } else {
                    &&& r matches Ok(p)
                    &&& p.caller() == env.caller
                    &&& p.shares() == shares
                    &&& p.new_caller_shares() == caller_shares - shares
                    &&& p.psp22_amount() == psp22_amount
                    &&& p.a0_amount() == a0_amount
                    &&& p.psp22_fee_amount() == shares * self.psp22_lp_fee_vault / ts
                    &&& p.a0_fee_amount() == shares * self.azero_lp_fee_vault / ts
                    &&& p.planned_calls() == seq![
                        Planned {
                            call: ChainCall::Psp22Transfer { token: self.psp22_token, to: env.caller, amount: psp22_amount },
                            on_failure: TradingPairErrors::PSP22TransferFailed,
                        },
                        Planned {
                            call: ChainCall::NativeTransfer { to: env.caller, amount: a0_amount },
                            on_failure: TradingPairErrors::A0TransferFailed,
                        },
                    ]
                }
            }),
    {
        let caller = env.caller;
        if self.get_current_timestamp(env) < self.lp_lock_timestamp && caller == self.deployer {
            return Err(TradingPairErrors::LpStillLocked);
        }
        if shares <= 0 {
            return Err(TradingPairErrors::ZeroSharesGiven);
        }
        let caller_shares: u128 = self.balances.get_or_default(&caller, 0);
        if caller_shares < shares {
            return Err(TradingPairErrors::CallerInsufficientLPBalance);
        }
        let psp22_amount_to_give = self.get_psp22_withdraw_tokens_amount(shares, reads.psp22_balance).unwrap();
        let a0_amount_to_give = self.get_a0_withdraw_tokens_amount(shares, reads.a0_balance).unwrap();
        let psp22_fee_amount_to_give = self.get_psp22_lp_fee_tokens(shares).unwrap();
        let a0_fee_amount_to_give = self.get_a0_lp_fee_tokens(shares).unwrap();
        let new_caller_lp_shares: u128 = match caller_shares.checked_sub(shares) {
            Some(result) => result,
            None => return Err(TradingPairErrors::Overflow),
        };
        let mut calls: Vec<Planned<TradingPairErrors>> = Vec::new();
        calls.push(Planned {
            call: ChainCall::Psp22Transfer { token: self.psp22_token, to: caller, amount: psp22_amount_to_give },
            on_failure: TradingPairErrors::PSP22TransferFailed,
        });
        calls.push(Planned {
            call: ChainCall::NativeTransfer { to: caller, amount: a0_amount_to_give },
            on_failure: TradingPairErrors::A0TransferFailed,
        });
        Ok(WithdrawalPlan {
            caller,
            shares,
            new_caller_shares: new_caller_lp_shares,
            psp22_amount: psp22_amount_to_give,
            a0_amount: a0_amount_to_give,
            psp22_fee_amount: psp22_fee_amount_to_give,
            a0_fee_amount: a0_fee_amount_to_give,
            calls,
        })
    }

    /// Burns the withdrawn shares once the payouts of `plan` went through, the pool
    /// now holding `psp22_balance` PSP22 tokens and `a0_balance` AZERO.  Where no LP
    /// supply is left the rest of the pool is paid to the caller too; then the caller's
    /// incentive tokens are redeemed.  Returns the transfers to make.
    pub fn burn_withdrawn_shares(
        &mut self,
        env: &CallEnv,
        plan: &WithdrawalPlan,
        psp22_balance: u128,
        a0_balance: u128,
    ) -> (r: Vec<Planned<TradingPairErrors>>)
        requires
            plan.caller() == env.caller,
            old(self).total_supply >= plan.shares(),
            old(self).balances.get_or(plan.caller(), 0) >= plan.shares(),
            env.now() >= old(self).last_redeemed.get_or(env.caller, 0),
            old(self).total_supply > plan.shares() ==> (old(self).balances.get_or(plan.caller(), 0) - plan.shares()) as u128 * psp22_balance / (old(self).total_supply
                - plan.shares()) < w128(),
            old(self).psp22_to_give_in_a_day.get_or(env.caller, 0) * ((env.now() - old(self).last_redeemed.get_or(
                env.caller,
                0,
            )) / 86400) <= u128::MAX,
            old(self).account_overall_staking_rewards.get_or(env.caller, 0) + ok_or_zero(
                redeemable_from(
                    (old(self).balances.get_or(plan.caller(), 0) - plan.shares()) as u128,
                    (old(self).total_supply - plan.shares()) as u128,
                    old(self).psp22_to_give_in_a_day.get_or(env.caller, 0),
                    old(self).last_redeemed.get_or(env.caller, 0),
                    env.now(),
                    psp22_balance,
                ),
            ) <= u128::MAX,
        ensures
            Self::shares_step(*old(self), *final(self)),
            ({
                let ts = (old(self).total_supply - plan.shares()) as u128;
                let amount = ok_or_zero(
                    redeemable_from(
                        (old(self).balances.get_or(plan.caller(), 0) - plan.shares()) as u128,
                        ts,
                        old(self).psp22_to_give_in_a_day.get_or(env.caller, 0),
                        old(self).last_redeemed.get_or(env.caller, 0),
                        env.now(),
                        psp22_balance,
                    ),
                );
                let redeem = Planned {
                    call: ChainCall::Psp22Transfer { token: old(self).psp22_token, to: env.caller, amount },
                    on_failure: TradingPairErrors::RemoveLpIncentiveProgramError,
                };
                &&& r@ == if ts == 0 {
                    seq![
                        Planned {
                            call: ChainCall::Psp22Transfer { token: old(self).psp22_token, to: env.caller, amount: psp22_balance },
                            on_failure: TradingPairErrors::PSP22TransferFailed,
                        },
                        Planned {
                            call: ChainCall::NativeTransfer { to: env.caller, amount: a0_balance },
                            on_failure: TradingPairErrors::A0TransferFailed,
                        },
                        redeem,
                    ]
                } else {
                    seq![redeem]
                }
                &&& *final(self) == (TradingPairAzero {
                    balances: final(self).balances,
                    total_supply: ts,
                    account_overall_staking_rewards: final(self).account_overall_staking_rewards,
                    last_redeemed: final(self).last_redeemed,
                    ..*old(self)
                })
                &&& final(self).balances@ == old(self).balances@.insert(env.caller, (old(self).balances.get_or(plan.caller(), 0) - plan.shares()) as u128)
                &&& final(self).account_overall_staking_rewards@ == old(self).account_overall_staking_rewards@.insert(
                    env.caller,
                    (old(self).account_overall_staking_rewards.get_or(env.caller, 0) + amount) as u128,
                )
                &&& final(self).last_redeemed@ == old(self).last_redeemed@.insert(env.caller, env.now())
            }),
            old(self).shares_backed() ==> final(self).shares_backed(),
    {
        let remaining: u128 = self.balances.get_or_default(&plan.caller(), 0) - plan.shares();
        let ghost b0 = self.balances;
        self.balances.insert(plan.caller(), remaining);
        proof {
            Mapping::<AccountId, u128>::lemma_total_insert(&b0, &self.balances, plan.caller(), remaining);
        }
        self.total_supply = self.total_supply - plan.shares();
        let mut calls: Vec<Planned<TradingPairErrors>> = Vec::new();
        if self.total_supply == 0 {
            calls.push(Planned {
                call: ChainCall::Psp22Transfer { token: self.psp22_token, to: plan.caller(), amount: psp22_balance },
                on_failure: TradingPairErrors::PSP22TransferFailed,
            });
            calls.push(Planned {
                call: ChainCall::NativeTransfer { to: plan.caller(), amount: a0_balance },
                on_failure: TradingPairErrors::A0TransferFailed,
            });
        }
        let redeem = self.redeem_for_caller(env, psp22_balance, TradingPairErrors::RemoveLpIncentiveProgramError);
        calls.push(redeem);
        calls
    }


    /// Finishes a withdrawal once the transfers of `burn_withdrawn_shares` went
    /// through, the pool now holding `psp22_balance` PSP22 tokens: resets the
    /// caller's daily incentive to its remaining pooled tokens, pays out the LP fees
    /// that the withdrawn shares earned and returns the event.
    pub fn settle_withdraw_specific_amount(&mut self, env: &CallEnv, plan: &WithdrawalPlan, psp22_balance: u128) -> (r:
        LiquidityPoolWithdrawal)
        requires
            plan.caller() == env.caller,
            old(self).balances.get_or(plan.caller(), 0) > 0 ==> old(self).total_supply > 0,
            old(self).balances.get_or(plan.caller(), 0) > 0 ==> old(self).balances.get_or(plan.caller(), 0) * psp22_balance / (old(self).total_supply as int) < w128(),
            old(self).balances.get_or(plan.caller(), 0) > 0 ==> old(self).balances.get_or(plan.caller(), 0) * psp22_balance / (old(self).total_supply as int)
                * old(self).staking_percentage <= u128::MAX,
            old(self).account_overall_lp_fee_rewards.get_or(env.caller, (0u128, 0u128)).0 + plan.psp22_fee_amount() <= u128::MAX,
            old(self).account_overall_lp_fee_rewards.get_or(env.caller, (0u128, 0u128)).1 + plan.a0_fee_amount() <= u128::MAX,
            old(self).psp22_lp_fee_vault >= plan.psp22_fee_amount(),
            old(self).azero_lp_fee_vault >= plan.a0_fee_amount(),
        ensures
            Self::shares_step(*old(self), *final(self)),
            r == (LiquidityPoolWithdrawal {
                caller: plan.caller(),
                shares_given: plan.shares(),
                a0_given_amount: plan.a0_amount(),
                psp22_given_amount: plan.psp22_amount(),
                new_shares_balance: old(self).balances.get_or(plan.caller(), 0),
            }),
            *final(self) == (TradingPairAzero {
                psp22_to_give_in_a_day: final(self).psp22_to_give_in_a_day,
                account_overall_lp_fee_rewards: final(self).account_overall_lp_fee_rewards,
                psp22_lp_fee_vault: (old(self).psp22_lp_fee_vault - plan.psp22_fee_amount()) as u128,
                azero_lp_fee_vault: (old(self).azero_lp_fee_vault - plan.a0_fee_amount()) as u128,
                ..*old(self)
            }),
            final(self).psp22_to_give_in_a_day@ == old(self).psp22_to_give_in_a_day@.insert(
                env.caller,
                if old(self).balances.get_or(plan.caller(), 0) == 0 {
                    0u128
                } else {
                    daily_incentive(
                        old(self).balances.get_or(plan.caller(), 0) * psp22_balance / (old(self).total_supply as int),
                        old(self).staking_percentage,
                    ) as u128
                },
            ),
            final(self).account_overall_lp_fee_rewards@ == old(self).account_overall_lp_fee_rewards@.insert(
                env.caller,
                (
                    (old(self).account_overall_lp_fee_rewards.get_or(env.caller, (0u128, 0u128)).0 + plan.psp22_fee_amount()) as u128,
                    (old(self).account_overall_lp_fee_rewards.get_or(env.caller, (0u128, 0u128)).1 + plan.a0_fee_amount()) as u128,
                ),
            ),
    {
        let caller = plan.caller();
        let remaining: u128 = self.balances.get_or_default(&caller, 0);
        if remaining == 0 {
            self.psp22_to_give_in_a_day.insert(caller, 0);
        }
        if remaining > 0 {
            let caller_locked_psp22_balance = self.get_psp22_withdraw_tokens_amount(remaining, psp22_balance).unwrap();
            let new_psp22_amount_to_give_each_day: u128 = (caller_locked_psp22_balance * self.staking_percentage) / 100u128 / 365;
            self.psp22_to_give_in_a_day.insert(caller, new_psp22_amount_to_give_each_day);
        }
        let (current_overall_psp22_lp_rewards, current_overall_azero_lp_rewards) = self.account_overall_lp_fee_rewards.get_or_default(
            &caller,
            (0u128, 0u128),
        );
        self.account_overall_lp_fee_rewards.insert(
            caller,
            (current_overall_psp22_lp_rewards + plan.psp22_fee_amount(), current_overall_azero_lp_rewards + plan.a0_fee_amount()),
        );
        self.psp22_lp_fee_vault = self.psp22_lp_fee_vault - plan.psp22_fee_amount();
        self.azero_lp_fee_vault = self.azero_lp_fee_vault - plan.a0_fee_amount();
        LiquidityPoolWithdrawal {
            caller,
            shares_given: plan.shares(),
            a0_given_amount: plan.a0_amount(),
            psp22_given_amount: plan.psp22_amount(),
            new_shares_balance: remaining,
        }
    }
}

/// Every state that messages reach from a new pair has an LP supply equal to the sum
/// of the LP shares that the accounts hold: a new pair holds no shares, and each
/// message moves the supply and the sum by the same amount.
pub proof fn lemma_reachable_supply_is_sum_of_shares(states: Seq<TradingPairAzero>)
    requires
        states.len() > 0,
        states[0].shares_backed(),
        forall|i: int| 0 <= i < states.len() - 1 ==> #[trigger] TradingPairAzero::shares_step(states[i], states[i + 1]),
    ensures
        forall|i: int| 0 <= i < states.len() ==> #[trigger] states[i].shares_backed(),
    decreases states.len(),
{
    if states.len() > 1 {
        let prefix = states.drop_last();
        assert forall|i: int| 0 <= i < prefix.len() - 1 implies #[trigger] TradingPairAzero::shares_step(prefix[i], prefix[i + 1]) by {
            assert(TradingPairAzero::shares_step(states[i], states[i + 1]));
        }
        lemma_reachable_supply_is_sum_of_shares(prefix);
        assert forall|i: int| 0 <= i < states.len() implies #[trigger] states[i].shares_backed() by {
            if i < states.len() - 1 {
                assert(prefix[i].shares_backed());
            } else {
                let j = i - 1;
                assert(prefix[j].shares_backed());
                assert(TradingPairAzero::shares_step(states[j], states[j + 1]));
            }
        }
    }
}

/// Two fractions that are equal have equal integer parts.
pub proof fn lemma_equal_ratios_equal_quotients(x: int, y: int, b1: int, b2: int)
    requires
        x >= 0,
        y >= 0,
        b1 > 0,
        b2 > 0,
        x * b2 == y * b1,
    ensures
        x / b1 == y / b2,
{
    let q = x / b1;
    let r = x % b1;
    vstd::arithmetic::div_mod::lemma_fundamental_div_mod(x, b1);
    assert(0 <= r < b1);
    let t = y - q * b2;
    assert(t * b1 == r * b2) by (nonlinear_arith)
        requires
            x == b1 * q + r,
            x * b2 == y * b1,
            t == y - q * b2,
    ;
    assert(0 <= t < b2) by (nonlinear_arith)
        requires
            t * b1 == r * b2,
            0 <= r < b1,
            b1 > 0,
            b2 > 0,
    ;
    assert(y == q * b2 + t);
    vstd::arithmetic::div_mod::lemma_fundamental_div_mod_converse_div(y, b2, q, t);
}

/// A later deposit in the ratio of the reserves that it finds (its AZERO against
/// the AZERO held before the coins came in, its PSP22 tokens against the PSP22
/// reserve) is worth that same part of the LP supply: the depositor's share of the
/// supply is its share of the reserves, whichever side it is counted on.
pub proof fn lemma_proportional_deposit_mints_its_part(
    pair: TradingPairAzero,
    a0: u128,
    psp22: u128,
    a0_balance: u128,
    psp22_balance: u128,
)
    requires
        pair.total_supply > 0,
        a0 < a0_balance,
        psp22_balance > 0,
        a0 * psp22_balance == psp22 * (a0_balance - a0),
    ensures
        pair.provision_shares(a0, psp22, a0_balance, psp22_balance) == a0 * pair.total_supply / (a0_balance - a0),
        pair.provision_shares(a0, psp22, a0_balance, psp22_balance) == psp22 * pair.total_supply / (psp22_balance as int),
{
    let ts = pair.total_supply as int;
    let rb = a0_balance - a0;
    assert((a0 * ts) * psp22_balance == (psp22 * ts) * rb) by (nonlinear_arith)
        requires
            a0 * psp22_balance == psp22 * rb,
    ;
    assert(a0 * ts >= 0 && psp22 * ts >= 0) by (nonlinear_arith)
        requires
            ts > 0,
    ;
    lemma_equal_ratios_equal_quotients(a0 * ts, psp22 * ts, rb, psp22_balance as int);
}

/// The percentage difference that `check_difference` computes does not depend on
/// the order of the two values: it is taken relative to their mean either way.
pub proof fn lemma_difference_symmetric(v1: u128, v2: u128)
    ensures
        difference_defined(v1, v2) == difference_defined(v2, v1),
        check_difference_result(v1, v2) == check_difference_result(v2, v1),
{
}

/// All the LP shares stand for the whole pool: withdrawn together they are worth
/// every coin and token that the pair holds.
pub proof fn lemma_all_shares_take_whole_pool(pair: TradingPairAzero, a0_balance: u128, psp22_balance: u128)
    requires
        pair.total_supply > 0,
    ensures
        pair.total_supply * a0_balance / (pair.total_supply as int) == a0_balance,
        pair.total_supply * psp22_balance / (pair.total_supply as int) == psp22_balance,
{
    vstd::arithmetic::div_mod::lemma_div_multiples_vanish(a0_balance as int, pair.total_supply as int);
    vstd::arithmetic::div_mod::lemma_div_multiples_vanish(psp22_balance as int, pair.total_supply as int);
}

} // verus!
