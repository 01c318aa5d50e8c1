//! The PSP22/PSP22 trading pair: a constant-product pool of two PSP22 tokens, with
//! LP shares kept in the pair's own storage.
use crate::account::{AccountId, Mapping};
use crate::env::{CallEnv, ChainCall, Planned};
use crate::trading_pair_azero::lemma_mul_div_le;
use vstd::prelude::*;

verus! {

/// 10^12, the unit that amounts and percentages are scaled by.
pub const E12: u128 = 1_000_000_000_000u128;

#[derive(Debug, Clone, Copy, PartialEq, Eq)]
pub enum TradingPairErrors {
    CallerInsufficientPSP1Balance,
    CallerInsufficientPSP2Balance,
    NotEnoughPSP1Allowance,
    NotEnoughPSP2Allowance,
    Overflow,
    ZeroSharesGiven,
    SlippageTolerance,
    PSP1TransferFromFailed,
    PSP2TransferFromFailed,
    PSP1TransferFailed,
    PSP2TransferFailed,
    A0TransferFailed,
    CallerInsufficientLPBalance,
    ContractOutOfPSP1,
    ContractOutOfPSP2,
    NotEnoughOwnerLPAllowance,
}

/// Emitted when liquidity is provided.
#[derive(Debug, Clone, Copy, PartialEq, Eq)]
pub struct LiquidityPoolProvision {
    pub from: AccountId,
    pub psp22_1_deposited_amount: u128,
    pub psp22_2_deposited_amount: u128,
    pub shares_given: u128,
}

/// Emitted when liquidity is withdrawn.
#[derive(Debug, Clone, Copy, PartialEq, Eq)]
pub struct LiquidityPoolWithdrawal {
    pub caller: AccountId,
    pub shares_given: u128,
    pub psp22_1_given_amount: u128,
    pub psp22_2_given_amount: u128,
    pub new_shares_balance: u128,
}

/// Emitted when token 1 is swapped for token 2.
#[derive(Debug, Clone, Copy, PartialEq, Eq)]
pub struct PSP22Token1Swap {
    pub caller: AccountId,
    pub psp22_1_deposited_amount: u128,
    pub psp22_2_given_amount: u128,
    pub psp22_2_given_amount_for_vault: u128,
}

/// Emitted when token 2 is swapped for token 1.
#[derive(Debug, Clone, Copy, PartialEq, Eq)]
pub struct PSP22Token2Swap {
    pub caller: AccountId,
    pub psp22_2_deposited_amount: u128,
    pub psp22_1_given_amount: u128,
    pub psp22_1_given_amount_for_vault: u128,
}

/// The storage of a PSP22/PSP22 trading pair.
#[derive(Debug, Clone)]
pub struct TradingPairPsp22 {
    pub transasction_number: i64,
    pub psp22_token1_address: AccountId,
    pub psp22_token2_address: AccountId,
    pub fee: u128,
    pub total_supply: u128,
    pub balances: Mapping<AccountId, u128>,
    pub panx_contract: AccountId,
    pub lp_tokens_allowances: Mapping<(AccountId, AccountId), u128>,
    pub vault: AccountId,
    pub traders_fee: u128,
}

/// The distance between two values, as `u128::abs_diff` gives it.
fn abs_diff_u128(a: u128, b: u128) -> (r: u128)
    ensures
        r == if a > b { a - b } else { b - a },
{
    if a > b {
        a - b
    } else {
        b - a
    }
}

/// The distance between two values.
pub open spec fn distance(a: u128, b: u128) -> int {
    if a > b {
        a - b
    } else {
        b - a
    }
}

/// `check_diffrenece` neither overflows nor divides by zero before its checked step.
pub open spec fn diffrenece_defined(v1: u128, v2: u128) -> bool {
    &&& distance(v1, v2) * 1_000_000_000_000 <= u128::MAX
    &&& v1 + v2 <= u128::MAX
    &&& (v1 + v2) / 2 > 0
}

/// The percentage difference of two values relative to their mean, scaled by
/// 10^12; `Overflow` where it does not fit.
pub open spec fn diffrenece_result(v1: u128, v2: u128) -> Result<u128, TradingPairErrors> {
    let d = 100 * (distance(v1, v2) * 1_000_000_000_000 / ((v1 + v2) / 2));
    if d > u128::MAX {
        Err(TradingPairErrors::Overflow)
    } else {
        Ok(d as u128)
    }
}

/// The percentage of an amount that stays in a swap after the LP fee: the fee in
/// whole percent is taken, half of it (where the fee is at most 1.4%) or one percent
/// less (where it is higher) for a caller who holds 3500 PANX or more.
pub open spec fn kept_percentage(fee: u128, caller_panx_balance: u128) -> int {
    let f = fee / 1_000_000_000_000;
    if caller_panx_balance >= 3500 * 1_000_000_000_000 {
        if fee <= 1_400_000_000_000 {
            100 - f / 2
        } else {
            100 - (f - 1)
        }
    } else {
        100 - f
    }
}

/// The estimate of a swap of `amount_in` against the reserves: `Overflow` where the
/// multiplication of the amount by its kept percentage overflows or the denominator
/// is zero.
pub open spec fn estimate_result(
    amount_in: u128,
    fee: u128,
    caller_panx_balance: u128,
    reserve_out: u128,
    reserve_in: u128,
) -> Result<u128, TradingPairErrors> {
    let w = amount_in * kept_percentage(fee, caller_panx_balance);
    let den = reserve_in * 100 + w;
    if amount_in * (100 - fee / 1_000_000_000_000) > u128::MAX || w > u128::MAX || den == 0 {
        Err(TradingPairErrors::Overflow)
    } else {
        Ok((w * reserve_out / den) as u128)
    }
}

/// The estimate of a swap can be computed without a panic.
pub open spec fn estimate_defined(
    amount_in: u128,
    fee: u128,
    caller_panx_balance: u128,
    reserve_out: u128,
    reserve_in: u128,
) -> bool {
    let w = amount_in * kept_percentage(fee, caller_panx_balance);
    &&& fee / 1_000_000_000_000 <= 100
    &&& amount_in * (100 - fee / 1_000_000_000_000) <= u128::MAX && w <= u128::MAX ==> {
        &&& w * reserve_out <= u128::MAX
        &&& reserve_in * 100 + w <= u128::MAX
    }
}


/// A swap estimate never exceeds the reserve it pays from.
pub proof fn lemma_estimate_within_reserve(
    amount_in: u128,
    fee: u128,
    caller_panx_balance: u128,
    reserve_out: u128,
    reserve_in: u128,
)
    requires
        fee / 1_000_000_000_000 <= 100,
    ensures
        estimate_result(amount_in, fee, caller_panx_balance, reserve_out, reserve_in) matches Ok(v) ==> v <= reserve_out,
{
    let w = amount_in * kept_percentage(fee, caller_panx_balance);
    let den = reserve_in * 100 + w;
    assert(kept_percentage(fee, caller_panx_balance) >= 0);
    assert(w >= 0) by (nonlinear_arith)
        requires
            w == amount_in * kept_percentage(fee, caller_panx_balance),
            kept_percentage(fee, caller_panx_balance) >= 0,
            amount_in >= 0,
    ;
    if den > 0 {
        if w == 0 {
            assert(w * reserve_out == 0);
        } else {
            lemma_mul_div_le(w, reserve_out as int, den);
        }
    }
}

/// A swap that has passed its checks: the tokens in still have to be moved with
/// `transfer_from`.
#[derive(Debug, Clone, Copy)]
pub struct SwapPlan {
    caller: AccountId,
    amount_in: u128,
    caller_balance: u128,
    amount_out: u128,
    out_for_vault: u128,
    in_for_vault: u128,
    transfer_from: Planned<TradingPairErrors>,
}

impl SwapPlan {
    /// The account that swaps.
    pub closed spec fn spec_caller(&self) -> AccountId {
        self.caller
    }

    /// The account that swaps.
    #[verifier::when_used_as_spec(spec_caller)]
    pub fn caller(&self) -> (r: AccountId)
        ensures
            r == self.spec_caller(),
    {
        self.caller
    }

    /// The tokens that the caller swaps in.
    pub closed spec fn spec_amount_in(&self) -> u128 {
        self.amount_in
    }

    /// The tokens that the caller swaps in.
    #[verifier::when_used_as_spec(spec_amount_in)]
    pub fn amount_in(&self) -> (r: u128)
        ensures
            r == self.spec_amount_in(),
    {
        self.amount_in
    }

    /// The caller's balance of the token it swaps in, before the tokens were moved in.
    pub closed spec fn spec_caller_balance(&self) -> u128 {
        self.caller_balance
    }

    /// The caller's balance of the token it swaps in, before the tokens were moved in.
    #[verifier::when_used_as_spec(spec_caller_balance)]
    pub fn caller_balance(&self) -> (r: u128)
        ensures
            r == self.spec_caller_balance(),
    {
        self.caller_balance
    }

    /// The tokens paid to the caller.
    pub closed spec fn spec_amount_out(&self) -> u128 {
        self.amount_out
    }

    /// The tokens paid to the caller.
    #[verifier::when_used_as_spec(spec_amount_out)]
    pub fn amount_out(&self) -> (r: u128)
        ensures
            r == self.spec_amount_out(),
    {
        self.amount_out
    }

    /// The tokens swapped out that go to the vault (traders fee).
    pub closed spec fn spec_out_for_vault(&self) -> u128 {
        self.out_for_vault
    }

    /// The tokens swapped out that go to the vault (traders fee).
    #[verifier::when_used_as_spec(spec_out_for_vault)]
    pub fn out_for_vault(&self) -> (r: u128)
        ensures
            r == self.spec_out_for_vault(),
    {
        self.out_for_vault
    }

    /// The tokens swapped in that go to the vault (traders fee).
    pub closed spec fn spec_in_for_vault(&self) -> u128 {
        self.in_for_vault
    }

    /// The tokens swapped in that go to the vault (traders fee).
    #[verifier::when_used_as_spec(spec_in_for_vault)]
    pub fn in_for_vault(&self) -> (r: u128)
        ensures
            r == self.spec_in_for_vault(),
    {
        self.in_for_vault
    }

    /// The `transfer_from` that moves the caller's tokens in.
    pub closed spec fn spec_transfer_from(&self) -> Planned<TradingPairErrors> {
        self.transfer_from
    }

    /// The `transfer_from` that moves the caller's tokens in.
    #[verifier::when_used_as_spec(spec_transfer_from)]
    pub fn transfer_from(&self) -> (r: Planned<TradingPairErrors>)
        ensures
            r == self.spec_transfer_from(),
    {
        self.transfer_from
    }
}

/// The first step of a provision: the caller's token 1 is moved in.
#[derive(Debug, Clone, Copy)]
pub struct ProvisionStart {
    caller: AccountId,
    excpeted_lp_tokens: u128,
    slippage: u128,
    psp22_token1_deposit_amount: u128,
    psp22_token2_deposit_amount: u128,
    caller_balance_token1: u128,
    caller_balance_token2: u128,
    contract_psp22_1_starting_balance: u128,
    transfer_from: Planned<TradingPairErrors>,
}

impl ProvisionStart {
    /// The account that provides.
    pub closed spec fn spec_caller(&self) -> AccountId {
        self.caller
    }

    /// The account that provides.
    #[verifier::when_used_as_spec(spec_caller)]
    pub fn caller(&self) -> (r: AccountId)
        ensures
            r == self.spec_caller(),
    {
        self.caller
    }

    /// The LP shares that the caller expects.
    pub closed spec fn spec_excpeted_lp_tokens(&self) -> u128 {
        self.excpeted_lp_tokens
    }

    /// The LP shares that the caller expects.
    #[verifier::when_used_as_spec(spec_excpeted_lp_tokens)]
    pub fn excpeted_lp_tokens(&self) -> (r: u128)
        ensures
            r == self.spec_excpeted_lp_tokens(),
    {
        self.excpeted_lp_tokens
    }

    /// The slippage that the caller accepts.
    pub closed spec fn spec_slippage(&self) -> u128 {
        self.slippage
    }

    /// The slippage that the caller accepts.
    #[verifier::when_used_as_spec(spec_slippage)]
    pub fn slippage(&self) -> (r: u128)
        ensures
            r == self.spec_slippage(),
    {
        self.slippage
    }

    /// The token 1 deposit.
    pub closed spec fn spec_psp22_token1_deposit_amount(&self) -> u128 {
        self.psp22_token1_deposit_amount
    }

    /// The token 1 deposit.
    #[verifier::when_used_as_spec(spec_psp22_token1_deposit_amount)]
    pub fn psp22_token1_deposit_amount(&self) -> (r: u128)
        ensures
            r == self.spec_psp22_token1_deposit_amount(),
    {
        self.psp22_token1_deposit_amount
    }

    /// The token 2 deposit.
    pub closed spec fn spec_psp22_token2_deposit_amount(&self) -> u128 {
        self.psp22_token2_deposit_amount
    }

    /// The token 2 deposit.
    #[verifier::when_used_as_spec(spec_psp22_token2_deposit_amount)]
    pub fn psp22_token2_deposit_amount(&self) -> (r: u128)
        ensures
            r == self.spec_psp22_token2_deposit_amount(),
    {
        self.psp22_token2_deposit_amount
    }

    /// The caller's token 1 balance before the deposit.
    pub closed spec fn spec_caller_balance_token1(&self) -> u128 {
        self.caller_balance_token1
    }

    /// The caller's token 1 balance before the deposit.
    #[verifier::when_used_as_spec(spec_caller_balance_token1)]
    pub fn caller_balance_token1(&self) -> (r: u128)
        ensures
            r == self.spec_caller_balance_token1(),
    {
        self.caller_balance_token1
    }

    /// The caller's token 2 balance before the deposit.
    pub closed spec fn spec_caller_balance_token2(&self) -> u128 {
        self.caller_balance_token2
    }

    /// The caller's token 2 balance before the deposit.
    #[verifier::when_used_as_spec(spec_caller_balance_token2)]
    pub fn caller_balance_token2(&self) -> (r: u128)
        ensures
            r == self.spec_caller_balance_token2(),
    {
        self.caller_balance_token2
    }

    /// The pair's token 1 balance before the deposit.
    pub closed spec fn spec_contract_psp22_1_starting_balance(&self) -> u128 {
        self.contract_psp22_1_starting_balance
    }

    /// The pair's token 1 balance before the deposit.
    #[verifier::when_used_as_spec(spec_contract_psp22_1_starting_balance)]
    pub fn contract_psp22_1_starting_balance(&self) -> (r: u128)
        ensures
            r == self.spec_contract_psp22_1_starting_balance(),
    {
        self.contract_psp22_1_starting_balance
    }

    /// The `transfer_from` that moves the caller's token 1 in.
    pub closed spec fn spec_transfer_from(&self) -> Planned<TradingPairErrors> {
        self.transfer_from
    }

    /// The `transfer_from` that moves the caller's token 1 in.
    #[verifier::when_used_as_spec(spec_transfer_from)]
    pub fn transfer_from(&self) -> (r: Planned<TradingPairErrors>)
        ensures
            r == self.spec_transfer_from(),
    {
        self.transfer_from
    }
}

/// The second step of a provision: token 1 came in, token 2 is moved in.
#[derive(Debug, Clone, Copy)]
pub struct ProvisionMiddle {
    start: ProvisionStart,
    actual_psp22_1_deposit_amount: u128,
    contract_psp22_2_starting_balance: u128,
    transfer_from: Planned<TradingPairErrors>,
}

impl ProvisionMiddle {
    /// The first step of the provision.
    pub closed spec fn spec_start(&self) -> ProvisionStart {
        self.start
    }

    /// The first step of the provision.
    #[verifier::when_used_as_spec(spec_start)]
    pub fn start(&self) -> (r: ProvisionStart)
        ensures
            r == self.spec_start(),
    {
        self.start
    }

    /// The token 1 that actually came in.
    pub closed spec fn spec_actual_psp22_1_deposit_amount(&self) -> u128 {
        self.actual_psp22_1_deposit_amount
    }

    /// The token 1 that actually came in.
    #[verifier::when_used_as_spec(spec_actual_psp22_1_deposit_amount)]
    pub fn actual_psp22_1_deposit_amount(&self) -> (r: u128)
        ensures
            r == self.spec_actual_psp22_1_deposit_amount(),
    {
        self.actual_psp22_1_deposit_amount
    }

    /// The pair's token 2 balance before the deposit.
    pub closed spec fn spec_contract_psp22_2_starting_balance(&self) -> u128 {
        self.contract_psp22_2_starting_balance
    }

    /// The pair's token 2 balance before the deposit.
    #[verifier::when_used_as_spec(spec_contract_psp22_2_starting_balance)]
    pub fn contract_psp22_2_starting_balance(&self) -> (r: u128)
        ensures
            r == self.spec_contract_psp22_2_starting_balance(),
    {
        self.contract_psp22_2_starting_balance
    }

    /// The `transfer_from` that moves the caller's token 2 in.
    pub closed spec fn spec_transfer_from(&self) -> Planned<TradingPairErrors> {
        self.transfer_from
    }

    /// The `transfer_from` that moves the caller's token 2 in.
    #[verifier::when_used_as_spec(spec_transfer_from)]
    pub fn transfer_from(&self) -> (r: Planned<TradingPairErrors>)
        ensures
            r == self.spec_transfer_from(),
    {
        self.transfer_from
    }
}

/// How a provision ends: the shares are minted, or the deposits are sent back and
/// the provision fails with `error` (or with the error of a failing refund).
#[derive(Debug, Clone)]
pub enum ProvisionOutcome {
    Minted(LiquidityPoolProvision),
    Refund { calls: Vec<Planned<TradingPairErrors>>, error: TradingPairErrors },
}

impl TradingPairPsp22 {
    /// The LP supply is the sum of the LP shares that the accounts hold.
    pub open spec fn shares_backed(&self) -> bool {
        self.balances.total() == self.total_supply
    }

    /// A new pair of two PSP22 tokens, with no liquidity and a traders fee of 25 per
    /// thousand.
    pub fn new(
        psp22_token1_contract: AccountId,
        psp22_token2_contract: AccountId,
        fee: u128,
        panx_contract: AccountId,
        vault: AccountId,
    ) -> (r: Self)
        ensures
            r.transasction_number == 0,
            r.psp22_token1_address == psp22_token1_contract,
            r.psp22_token2_address == psp22_token2_contract,
            r.fee == fee,
            r.total_supply == 0,
            r.balances@ == Map::<AccountId, u128>::empty(),
            r.panx_contract == panx_contract,
            r.lp_tokens_allowances@ == Map::<(AccountId, AccountId), u128>::empty(),
            r.vault == vault,
            r.traders_fee == 25,
            r.shares_backed(),
    {
        let pair = TradingPairPsp22 {
            transasction_number: 0,
            psp22_token1_address: psp22_token1_contract,
            psp22_token2_address: psp22_token2_contract,
            fee,
            total_supply: 0,
            balances: Mapping::new(),
            panx_contract,
            lp_tokens_allowances: Mapping::new(),
            vault,
            traders_fee: 25,
        };
        proof {
            Mapping::<AccountId, u128>::lemma_total_empty(&pair.balances);
        }
        pair
    }

    /// The percentage difference of two values relative to their mean, scaled by 10^12.
    pub fn check_diffrenece(&self, value1: u128, value2: u128) -> (r: Result<u128, TradingPairErrors>)
        requires
            diffrenece_defined(value1, value2),
        ensures
            r == diffrenece_result(value1, value2),
    {
        let abs_dif = abs_diff_u128(value1, value2);
        let abs_dif_nominated = abs_dif * E12;
        match 100u128.checked_mul(abs_dif_nominated / ((value1 + value2) / 2)) {
            Some(result) => Ok(result),
            None => Err(TradingPairErrors::Overflow),
        }
    }

    /// The LP shares of `account`.
    pub fn get_lp_token_of(&self, account: AccountId) -> (r: u128)
        ensures
            r == self.balances.get_or(account, 0),
    {
        self.balances.get_or_default(&account, 0)
    }

    /// The LP shares that `spender` may move on behalf of `owner`.
    pub fn get_lp_tokens_allowance(&self, owner: AccountId, spender: AccountId) -> (r: u128)
        ensures
            r == self.lp_tokens_allowances.get_or((owner, spender), 0),
    {
        self.lp_tokens_allowances.get_or_default(&(owner, spender), 0)
    }

    /// The pair's own address.
    pub fn get_account_id(&self, env: &CallEnv) -> (r: AccountId)
        ensures
            r == env.account_id,
    {
        env.account_id
    }

    /// The LP fee.
    pub fn get_fee(&self) -> (r: u128)
        ensures
            r == self.fee,
    {
        self.fee
    }

    /// The LP shares in existence.
    pub fn get_total_supply(&self) -> (r: u128)
        ensures
            r == self.total_supply,
    {
        self.total_supply
    }

    /// The number of swaps made.
    pub fn get_transactions_num(&self) -> (r: i64)
        ensures
            r == self.transasction_number,
    {
        self.transasction_number
    }

    /// The part of `reserve` that `share_amount` LP shares stand for.
    fn share_of(&self, share_amount: u128, reserve: u128) -> (r: Result<u128, TradingPairErrors>)
        requires
            share_amount * reserve <= u128::MAX,
        ensures
            r == if self.total_supply == 0 {
                Err(TradingPairErrors::Overflow)
            } else {
                Ok((share_amount * reserve / (self.total_supply as int)) as u128)
            },
    {
        match (share_amount * reserve).checked_div(self.total_supply) {
            Some(result) => Ok(result),
            None => Err(TradingPairErrors::Overflow),
        }
    }

    /// The (token 1, token 2) that `share_amount` LP shares stand for, against the
    /// reserves.
    pub fn get_withdraw_tokens_amount(&self, share_amount: u128, token1_reserve: u128, token2_reserve: u128) -> (r: Result<
        (u128, u128),
        TradingPairErrors,
    >)
        requires
            share_amount * token1_reserve <= u128::MAX,
            share_amount * token2_reserve <= u128::MAX,
        ensures
            r == if self.total_supply == 0 {
                Err(TradingPairErrors::Overflow)
            } else {
                Ok((
                    (share_amount * token1_reserve / (self.total_supply as int)) as u128,
                    (share_amount * token2_reserve / (self.total_supply as int)) as u128,
                ))
            },
    {
        let amount_of_psp22_token1_to_give = match self.share_of(share_amount, token1_reserve) {
            Ok(v) => v,
            Err(e) => return Err(e),
        };
        let amount_of_psp22_token2_to_give = match self.share_of(share_amount, token2_reserve) {
            Ok(v) => v,
            Err(e) => return Err(e),
        };
        Ok((amount_of_psp22_token1_to_give, amount_of_psp22_token2_to_give))
    }

    /// The token 1 that `share_amount` LP shares stand for.
    pub fn get_psp22_token1_withdraw_tokens_amount(&self, share_amount: u128, token1_reserve: u128) -> (r: Result<
        u128,
        TradingPairErrors,
    >)
        requires
            share_amount * token1_reserve <= u128::MAX,
        ensures
            r == if self.total_supply == 0 {
                Err(TradingPairErrors::Overflow)
            } else {
                Ok((share_amount * token1_reserve / (self.total_supply as int)) as u128)
            },
    {
        self.share_of(share_amount, token1_reserve)
    }

    /// The token 2 that `share_amount` LP shares stand for.
    pub fn get_psp22_token2_withdraw_tokens_amount(&self, share_amount: u128, token2_reserve: u128) -> (r: Result<
        u128,
        TradingPairErrors,
    >)
        requires
            share_amount * token2_reserve <= u128::MAX,
        ensures
            r == if self.total_supply == 0 {
                Err(TradingPairErrors::Overflow)
            } else {
                Ok((share_amount * token2_reserve / (self.total_supply as int)) as u128)
            },
    {
        self.share_of(share_amount, token2_reserve)
    }

    /// The (token 1, token 2) that `account_id` has in the pool.
    pub fn get_account_locked_tokens(&self, account_id: AccountId, token1_reserve: u128, token2_reserve: u128) -> (r:
        Result<(u128, u128), TradingPairErrors>)
        requires
            self.balances.get_or(account_id, 0) * token1_reserve <= u128::MAX,
            self.balances.get_or(account_id, 0) * token2_reserve <= u128::MAX,
        ensures
            ({
                let shares = self.balances.get_or(account_id, 0);
                r == if shares == 0 {
                    Ok((0u128, 0u128))
                } else if self.total_supply == 0 {
                    Err(TradingPairErrors::Overflow)
                } else {
                    Ok((
                        (shares * token1_reserve / (self.total_supply as int)) as u128,
                        (shares * token2_reserve / (self.total_supply as int)) as u128,
                    ))
                }
            }),
    {
        let caller_shares: u128 = self.balances.get_or_default(&account_id, 0);
        if caller_shares <= 0 {
            return Ok((0, 0));
        }
        self.get_withdraw_tokens_amount(caller_shares, token1_reserve, token2_reserve)
    }

    /// The LP shares that depositing `psp22_token1_deposit_amount` of token 1 would
    /// give: 1000 shares (of 10^12) for the first deposit.
    pub fn get_expected_lp_token_amount(&self, psp22_token1_deposit_amount: u128, token1_reserve: u128) -> (r: Result<
        u128,
        TradingPairErrors,
    >)
        requires
            psp22_token1_deposit_amount * self.total_supply <= u128::MAX,
        ensures
            r == if self.total_supply == 0 {
                Ok((1000 * E12) as u128)
            } else if token1_reserve == 0 {
                Err(TradingPairErrors::Overflow)
            } else {
                Ok((psp22_token1_deposit_amount * self.total_supply / (token1_reserve as int)) as u128)
            },
    {
        let mut shares: u128 = 0;
        if self.total_supply == 0 {
            shares = 1000u128 * E12;
        }
        if self.total_supply > 0 {
            shares = match (psp22_token1_deposit_amount * self.total_supply).checked_div(token1_reserve) {
                Some(result) => result,
                None => return Err(TradingPairErrors::Overflow),
            };
        }
        Ok(shares)
    }

    /// The estimate of a swap of `amount_in` out of `reserve_out` against `reserve_in`.
    fn estimate(&self, amount_in: u128, caller_panx_balance: u128, reserve_out: u128, reserve_in: u128) -> (r: Result<
        u128,
        TradingPairErrors,
    >)
        requires
            estimate_defined(amount_in, self.fee, caller_panx_balance, reserve_out, reserve_in),
        ensures
            r == estimate_result(amount_in, self.fee, caller_panx_balance, reserve_out, reserve_in),
    {
        let actual_fee: u128 = match self.fee.checked_div(E12) {
            Some(result) => result,
            None => return Err(TradingPairErrors::Overflow),
        };
        let mut amount_in_with_lp_fees: u128 = match amount_in.checked_mul(100u128 - actual_fee) {
            Some(result) => result,
            None => return Err(TradingPairErrors::Overflow),
        };
        if caller_panx_balance >= 3500u128 * E12 {
            if self.fee <= 1400000000000u128 {
                amount_in_with_lp_fees = match amount_in.checked_mul(100u128 - (actual_fee / 2u128)) {
                    Some(result) => result,
                    None => return Err(TradingPairErrors::Overflow),
                };
            }
            if self.fee > 1400000000000u128 {
                amount_in_with_lp_fees = match amount_in.checked_mul(100u128 - (actual_fee - 1u128)) {
                    Some(result) => result,
                    None => return Err(TradingPairErrors::Overflow),
                };
            }
        }
        match (amount_in_with_lp_fees * reserve_out).checked_div((reserve_in * 100) + amount_in_with_lp_fees) {
            Some(result) => Ok(result),
            None => Err(TradingPairErrors::Overflow),
        }
    }

    /// The token 2 that `amount_in` of token 1 buys, for a caller holding
    /// `caller_panx_balance` PANX.
    pub fn get_est_price_psp22_token1_to_psp22_token2(
        &self,
        amount_in: u128,
        token1_reserve: u128,
        token2_reserve: u128,
        caller_panx_balance: u128,
    ) -> (r: Result<u128, TradingPairErrors>)
        requires
            estimate_defined(amount_in, self.fee, caller_panx_balance, token2_reserve, token1_reserve),
        ensures
            r == estimate_result(amount_in, self.fee, caller_panx_balance, token2_reserve, token1_reserve),
    {
        self.estimate(amount_in, caller_panx_balance, token2_reserve, token1_reserve)
    }

    /// The token 1 that `amount_in` of token 2 buys, for a caller holding
    /// `caller_panx_balance` PANX.
    pub fn get_est_price_psp22_token2_to_psp22_token1(
        &self,
        amount_in: u128,
        token1_reserve: u128,
        token2_reserve: u128,
        caller_panx_balance: u128,
    ) -> (r: Result<u128, TradingPairErrors>)
        requires
            estimate_defined(amount_in, self.fee, caller_panx_balance, token1_reserve, token2_reserve),
        ensures
            r == estimate_result(amount_in, self.fee, caller_panx_balance, token1_reserve, token2_reserve),
    {
        self.estimate(amount_in, caller_panx_balance, token1_reserve, token2_reserve)
    }

    /// The token 2 that one token 1 buys.
    pub fn get_price_for_one_psp22_token1(&self, token1_reserve: u128, token2_reserve: u128, caller_panx_balance: u128) -> (r:
        Result<u128, TradingPairErrors>)
        requires
            estimate_defined(E12, self.fee, caller_panx_balance, token2_reserve, token1_reserve),
            estimate_result(E12, self.fee, caller_panx_balance, token2_reserve, token1_reserve) is Ok,
        ensures
            r == estimate_result(E12, self.fee, caller_panx_balance, token2_reserve, token1_reserve),
    {
        let amount_out = self.get_est_price_psp22_token1_to_psp22_token2(1u128 * E12, token1_reserve, token2_reserve, caller_panx_balance).unwrap();
        Ok(amount_out)
    }

    /// The token 1 that one token 2 buys.
    pub fn get_price_for_one_psp22_token2(&self, token1_reserve: u128, token2_reserve: u128, caller_panx_balance: u128) -> (r:
        Result<u128, TradingPairErrors>)
        requires
            estimate_defined(E12, self.fee, caller_panx_balance, token1_reserve, token2_reserve),
            estimate_result(E12, self.fee, caller_panx_balance, token1_reserve, token2_reserve) is Ok,
        ensures
            r == estimate_result(E12, self.fee, caller_panx_balance, token1_reserve, token2_reserve),
    {
        let amount_out: u128 = self.get_est_price_psp22_token2_to_psp22_token1(1u128 * E12, token1_reserve, token2_reserve, caller_panx_balance).unwrap();
        Ok(amount_out)
    }

    /// The token 2 that a hundred token 1 buy.
    pub fn get_current_price(&self, token1_reserve: u128, token2_reserve: u128, caller_panx_balance: u128) -> (r: u128)
        requires
            estimate_defined((100 * E12) as u128, self.fee, caller_panx_balance, token2_reserve, token1_reserve),
            estimate_result((100 * E12) as u128, self.fee, caller_panx_balance, token2_reserve, token1_reserve) is Ok,
        ensures
            Ok::<u128, TradingPairErrors>(r) == estimate_result((100 * E12) as u128, self.fee, caller_panx_balance, token2_reserve, token1_reserve),
    {
        self.get_est_price_psp22_token1_to_psp22_token2(100u128 * E12, token1_reserve, token2_reserve, caller_panx_balance).unwrap()
    }

    /// What `amount_in` would buy right after a swap of the same amount; the output
    /// reserve is taken less the estimate `amount_out` of that swap.
    fn impact(&self, amount_in: u128, amount_out: u128, reserve_out: u128, reserve_in: u128) -> (r: Result<
        u128,
        TradingPairErrors,
    >)
        requires
            self.fee / E12 <= 100,
            amount_out <= reserve_out,
            amount_in * (100 - self.fee / E12) <= u128::MAX ==> {
                let w = amount_in * (100 - self.fee / E12);
                &&& w * (reserve_out - amount_out) <= u128::MAX
                &&& (reserve_in + w) * 100 + w <= u128::MAX
            },
        ensures
            ({
                let w = amount_in * (100 - self.fee / E12);
                let den = (reserve_in + w) * 100 + w;
                r == if w > u128::MAX || den == 0 {
                    Err(TradingPairErrors::Overflow)
                } else {
                    Ok((w * (reserve_out - amount_out) / den) as u128)
                }
            }),
    {
        let amount_in_with_lp_fees: u128 = match amount_in.checked_mul(100 - (self.fee / E12)) {
            Some(result) => result,
            None => return Err(TradingPairErrors::Overflow),
        };
        match (amount_in_with_lp_fees * (reserve_out - amount_out)).checked_div(((reserve_in + amount_in_with_lp_fees) * 100) + amount_in_with_lp_fees) {
            Some(result) => Ok(result),
            None => Err(TradingPairErrors::Overflow),
        }
    }

    /// What `amount_in` of token 1 would buy right after a swap of the same amount.
    pub fn get_price_impact_psp22_token1_to_psp22_token2(
        &self,
        amount_in: u128,
        token1_reserve: u128,
        token2_reserve: u128,
        caller_panx_balance: u128,
    ) -> (r: Result<u128, TradingPairErrors>)
        requires
            estimate_defined(amount_in, self.fee, caller_panx_balance, token2_reserve, token1_reserve),
            estimate_result(amount_in, self.fee, caller_panx_balance, token2_reserve, token1_reserve) is Ok,
            ({
                let out = estimate_result(amount_in, self.fee, caller_panx_balance, token2_reserve, token1_reserve)->Ok_0;
                let w = amount_in * (100 - self.fee / E12);
                w <= u128::MAX ==> w * (token2_reserve - out) <= u128::MAX && (token1_reserve + w) * 100 + w <= u128::MAX
            }),
        ensures
            ({
                let out = estimate_result(amount_in, self.fee, caller_panx_balance, token2_reserve, token1_reserve)->Ok_0;
                let w = amount_in * (100 - self.fee / E12);
                let den = (token1_reserve + w) * 100 + w;
                r == if w > u128::MAX || den == 0 {
                    Err(TradingPairErrors::Overflow)
                } else {
                    Ok((w * (token2_reserve - out) / den) as u128)
                }
            }),
    {
        let psp22_token2_amount_out: u128 = self.get_est_price_psp22_token1_to_psp22_token2(amount_in, token1_reserve, token2_reserve, caller_panx_balance).unwrap();
        proof {
            lemma_estimate_within_reserve(amount_in, self.fee, caller_panx_balance, token2_reserve, token1_reserve);
        }
        self.impact(amount_in, psp22_token2_amount_out, token2_reserve, token1_reserve)
    }

    /// What `amount_in` of token 2 would buy right after a swap of the same amount.
    pub fn get_price_impact_psp22_token2_to_psp22_token1(
        &self,
        amount_in: u128,
        token1_reserve: u128,
        token2_reserve: u128,
        caller_panx_balance: u128,
    ) -> (r: Result<u128, TradingPairErrors>)
        requires
            estimate_defined(amount_in, self.fee, caller_panx_balance, token1_reserve, token2_reserve),
            estimate_result(amount_in, self.fee, caller_panx_balance, token1_reserve, token2_reserve) is Ok,
            ({
                let out = estimate_result(amount_in, self.fee, caller_panx_balance, token1_reserve, token2_reserve)->Ok_0;
                let w = amount_in * (100 - self.fee / E12);
                w <= u128::MAX ==> w * (token1_reserve - out) <= u128::MAX && (token2_reserve + w) * 100 + w <= u128::MAX
            }),
        ensures
            ({
                let out = estimate_result(amount_in, self.fee, caller_panx_balance, token1_reserve, token2_reserve)->Ok_0;
                let w = amount_in * (100 - self.fee / E12);
                let den = (token2_reserve + w) * 100 + w;
                r == if w > u128::MAX || den == 0 {
                    Err(TradingPairErrors::Overflow)
                } else {
                    Ok((w * (token1_reserve - out) / den) as u128)
                }
            }),
    {
        let psp22_token1_amount_out: u128 = self.get_est_price_psp22_token2_to_psp22_token1(amount_in, token1_reserve, token2_reserve, caller_panx_balance).unwrap();
        proof {
            lemma_estimate_within_reserve(amount_in, self.fee, caller_panx_balance, token1_reserve, token2_reserve);
        }
        self.impact(amount_in, psp22_token1_amount_out, token1_reserve, token2_reserve)
    }

    /// The checks and amounts of a swap of `amount_in` of one token (`token_in`)
    /// for the other (`token_out`); the errors are those of that direction.
    fn plan_swap(
        &self,
        env: &CallEnv,
        token1_in: bool,
        token1_reserve: u128,
        token2_reserve: u128,
        caller_balance: u128,
        contract_allowance: u128,
        caller_panx_balance: u128,
        amount_in: u128,
        amount_to_validate: u128,
        slippage: u128,
    ) -> (r: Result<SwapPlan, TradingPairErrors>)
        requires
            token1_reserve > 0 && token2_reserve > 0 && caller_balance >= amount_in && contract_allowance >= amount_in ==> {
                let reserve_in = if token1_in { token1_reserve } else { token2_reserve };
                let reserve_out = if token1_in { token2_reserve } else { token1_reserve };
                let out = estimate_result(amount_in, self.fee, caller_panx_balance, reserve_out, reserve_in);
                &&& estimate_defined(amount_in, self.fee, caller_panx_balance, reserve_out, reserve_in)
                &&& out is Ok
                &&& out->Ok_0 * self.traders_fee <= u128::MAX
                &&& amount_in * self.traders_fee <= u128::MAX
                &&& diffrenece_defined(amount_to_validate, out->Ok_0)
                &&& diffrenece_result(amount_to_validate, out->Ok_0) is Ok
            },
        ensures
            ({
                let reserve_in = if token1_in { token1_reserve } else { token2_reserve };
                let reserve_out = if token1_in { token2_reserve } else { token1_reserve };
                let token_in = if token1_in { self.psp22_token1_address } else { self.psp22_token2_address };
                let out = estimate_result(amount_in, self.fee, caller_panx_balance, reserve_out, reserve_in)->Ok_0;
                let out_vault = out * self.traders_fee / 1000;
                if token1_reserve == 0 {
                    r == Err::<SwapPlan, TradingPairErrors>(TradingPairErrors::ContractOutOfPSP1)
                } else if token2_reserve == 0 {
                    r == Err::<SwapPlan, TradingPairErrors>(TradingPairErrors::ContractOutOfPSP2)
                } else if caller_balance < amount_in {
                    r == Err::<SwapPlan, TradingPairErrors>(
                        if token1_in { TradingPairErrors::CallerInsufficientPSP1Balance } else { TradingPairErrors::CallerInsufficientPSP2Balance },
                    )
                } else if contract_allowance < amount_in {
                    r == Err::<SwapPlan, TradingPairErrors>(
                        if token1_in { TradingPairErrors::NotEnoughPSP1Allowance } else { TradingPairErrors::NotEnoughPSP2Allowance },
                    )
                } else if out_vault > out {
                    r == Err::<SwapPlan, TradingPairErrors>(TradingPairErrors::Overflow)
                } else if diffrenece_result(amount_to_validate, out)->Ok_0 > slippage {
                    r == Err::<SwapPlan, TradingPairErrors>(TradingPairErrors::SlippageTolerance)
                } else {
                    &&& r matches Ok(p)
                    &&& p.caller() == env.caller
                    &&& p.amount_in() == amount_in
                    &&& p.caller_balance() == caller_balance
                    &&& p.out_for_vault() == out_vault
                    &&& p.amount_out() == out - out_vault
                    &&& p.in_for_vault() == amount_in * self.traders_fee / 1000
                    &&& p.transfer_from() == Planned {
                        call: ChainCall::Psp22TransferFrom { token: token_in, from: env.caller, to: env.account_id, amount: amount_in },
                        on_failure: if token1_in { TradingPairErrors::PSP1TransferFromFailed } else { TradingPairErrors::PSP2TransferFromFailed },
                    }
                }
            }),
    {
        let caller = env.caller;
        if token1_reserve <= 0 {
            return Err(TradingPairErrors::ContractOutOfPSP1);
        }
        if token2_reserve <= 0 {
            return Err(TradingPairErrors::ContractOutOfPSP2);
        }
        if caller_balance < amount_in {
            return Err(if token1_in { TradingPairErrors::CallerInsufficientPSP1Balance } else { TradingPairErrors::CallerInsufficientPSP2Balance });
        }
        if contract_allowance < amount_in {
            return Err(if token1_in { TradingPairErrors::NotEnoughPSP1Allowance } else { TradingPairErrors::NotEnoughPSP2Allowance });
        }
        let reserve_in = if token1_in { token1_reserve } else { token2_reserve };
        let reserve_out = if token1_in { token2_reserve } else { token1_reserve };
        let token_in = if token1_in { self.psp22_token1_address } else { self.psp22_token2_address };
        let transfer_from_failed = if token1_in { TradingPairErrors::PSP1TransferFromFailed } else { TradingPairErrors::PSP2TransferFromFailed };
        let amount_out_before_traders_fee = self.estimate(amount_in, caller_panx_balance, reserve_out, reserve_in).unwrap();
        let amount_out_for_vault: u128 = match (amount_out_before_traders_fee * self.traders_fee).checked_div(1000u128) {
            Some(result) => result,
            None => return Err(TradingPairErrors::Overflow),
        };
        let actual_amount_out: u128 = match amount_out_before_traders_fee.checked_sub(amount_out_for_vault) {
            Some(result) => result,
            None => return Err(TradingPairErrors::Overflow),
        };
        let amount_in_for_vault: u128 = match (amount_in * self.traders_fee).checked_div(1000u128) {
            Some(result) => result,
            None => return Err(TradingPairErrors::Overflow),
        };
        let percentage_diff = self.check_diffrenece(amount_to_validate, amount_out_before_traders_fee).unwrap();
        if percentage_diff > slippage {
            return Err(TradingPairErrors::SlippageTolerance);
        }
        Ok(SwapPlan {
            caller,
            amount_in,
            caller_balance,
            amount_out: actual_amount_out,
            out_for_vault: amount_out_for_vault,
            in_for_vault: amount_in_for_vault,
            transfer_from: Planned {
                call: ChainCall::Psp22TransferFrom { token: token_in, from: caller, to: env.account_id, amount: amount_in },
                on_failure: transfer_from_failed,
            },
        })
    }

    /// Checks and prices a swap of `psp22_token1_amount_to_swap` of token 1 for token 2.
    /// On success the caller's tokens still have to be moved in by the planned
    /// `transfer_from`; `settle_swap_psp22_token1` finishes the swap.
    pub fn swap_psp22_token1(
        &self,
        env: &CallEnv,
        token1_reserve: u128,
        token2_reserve: u128,
        caller_token1_balance: u128,
        contract_allowance: u128,
        caller_panx_balance: u128,
        psp22_token1_amount_to_swap: u128,
        amount_to_validate: u128,
        slippage: u128,
    ) -> (r: Result<SwapPlan, TradingPairErrors>)
        requires
            token1_reserve > 0 && token2_reserve > 0 && caller_token1_balance >= psp22_token1_amount_to_swap
                && contract_allowance >= psp22_token1_amount_to_swap ==> {
                let out = estimate_result(psp22_token1_amount_to_swap, self.fee, caller_panx_balance, token2_reserve, token1_reserve);
                &&& estimate_defined(psp22_token1_amount_to_swap, self.fee, caller_panx_balance, token2_reserve, token1_reserve)
                &&& out is Ok
                &&& out->Ok_0 * self.traders_fee <= u128::MAX
                &&& psp22_token1_amount_to_swap * self.traders_fee <= u128::MAX
                &&& diffrenece_defined(amount_to_validate, out->Ok_0)
                &&& diffrenece_result(amount_to_validate, out->Ok_0) is Ok
            },
        ensures
            ({
                let out = estimate_result(psp22_token1_amount_to_swap, self.fee, caller_panx_balance, token2_reserve, token1_reserve)->Ok_0;
                let out_vault = out * self.traders_fee / 1000;
                if token1_reserve == 0 {
                    r == Err::<SwapPlan, TradingPairErrors>(TradingPairErrors::ContractOutOfPSP1)
                } else if token2_reserve == 0 {
                    r == Err::<SwapPlan, TradingPairErrors>(TradingPairErrors::ContractOutOfPSP2)
                } else if caller_token1_balance < psp22_token1_amount_to_swap {
                    r == Err::<SwapPlan, TradingPairErrors>(TradingPairErrors::CallerInsufficientPSP1Balance)
                } else if contract_allowance < psp22_token1_amount_to_swap {
                    r == Err::<SwapPlan, TradingPairErrors>(TradingPairErrors::NotEnoughPSP1Allowance)
                } else if out_vault > out {
                    r == Err::<SwapPlan, TradingPairErrors>(TradingPairErrors::Overflow)
                } else if diffrenece_result(amount_to_validate, out)->Ok_0 > slippage {
                    r == Err::<SwapPlan, TradingPairErrors>(TradingPairErrors::SlippageTolerance)
                } else {
                    &&& r matches Ok(p)
                    &&& p.caller() == env.caller
                    &&& p.amount_in() == psp22_token1_amount_to_swap
                    &&& p.caller_balance() == caller_token1_balance
                    &&& p.out_for_vault() == out_vault
                    &&& p.amount_out() == out - out_vault
                    &&& p.in_for_vault() == psp22_token1_amount_to_swap * self.traders_fee / 1000
                    &&& p.transfer_from() == Planned {
                        call: ChainCall::Psp22TransferFrom {
                            token: self.psp22_token1_address,
                            from: env.caller,
                            to: env.account_id,
                            amount: psp22_token1_amount_to_swap,
                        },
                        on_failure: TradingPairErrors::PSP1TransferFromFailed,
                    }
                }
            }),
    {
        self.plan_swap(
            env,
            true,
            token1_reserve,
            token2_reserve,
            caller_token1_balance,
            contract_allowance,
            caller_panx_balance,
            psp22_token1_amount_to_swap,
            amount_to_validate,
            slippage,
        )
    }

    /// Checks and prices a swap of `psp22_token2_amount_to_swap` of token 2 for token 1.
    /// On success the caller's tokens still have to be moved in by the planned
    /// `transfer_from`; `settle_swap_psp22_token2` finishes the swap.
    pub fn swap_psp22_token2(
        &self,
        env: &CallEnv,
        token1_reserve: u128,
        token2_reserve: u128,
        caller_token2_balance: u128,
        contract_allowance: u128,
        caller_panx_balance: u128,
        psp22_token2_amount_to_swap: u128,
        amount_to_validate: u128,
        slippage: u128,
    ) -> (r: Result<SwapPlan, TradingPairErrors>)
        requires
            token1_reserve > 0 && token2_reserve > 0 && caller_token2_balance >= psp22_token2_amount_to_swap
                && contract_allowance >= psp22_token2_amount_to_swap ==> {
                let out = estimate_result(psp22_token2_amount_to_swap, self.fee, caller_panx_balance, token1_reserve, token2_reserve);
                &&& estimate_defined(psp22_token2_amount_to_swap, self.fee, caller_panx_balance, token1_reserve, token2_reserve)
                &&& out is Ok
                &&& out->Ok_0 * self.traders_fee <= u128::MAX
                &&& psp22_token2_amount_to_swap * self.traders_fee <= u128::MAX
                &&& diffrenece_defined(amount_to_validate, out->Ok_0)
                &&& diffrenece_result(amount_to_validate, out->Ok_0) is Ok
            },
        ensures
            ({
                let out = estimate_result(psp22_token2_amount_to_swap, self.fee, caller_panx_balance, token1_reserve, token2_reserve)->Ok_0;
                let out_vault = out * self.traders_fee / 1000;
                if token1_reserve == 0 {
                    r == Err::<SwapPlan, TradingPairErrors>(TradingPairErrors::ContractOutOfPSP1)
                } else if token2_reserve == 0 {
                    r == Err::<SwapPlan, TradingPairErrors>(TradingPairErrors::ContractOutOfPSP2)
                } else if caller_token2_balance < psp22_token2_amount_to_swap {
                    r == Err::<SwapPlan, TradingPairErrors>(TradingPairErrors::CallerInsufficientPSP2Balance)
                } else if contract_allowance < psp22_token2_amount_to_swap {
                    r == Err::<SwapPlan, TradingPairErrors>(TradingPairErrors::NotEnoughPSP2Allowance)
                } else if out_vault > out {
                    r == Err::<SwapPlan, TradingPairErrors>(TradingPairErrors::Overflow)
                } else if diffrenece_result(amount_to_validate, out)->Ok_0 > slippage {
                    r == Err::<SwapPlan, TradingPairErrors>(TradingPairErrors::SlippageTolerance)
                } else {
                    &&& r matches Ok(p)
                    &&& p.caller() == env.caller
                    &&& p.amount_in() == psp22_token2_amount_to_swap
                    &&& p.caller_balance() == caller_token2_balance
                    &&& p.out_for_vault() == out_vault
                    &&& p.amount_out() == out - out_vault
                    &&& p.in_for_vault() == psp22_token2_amount_to_swap * self.traders_fee / 1000
                    &&& p.transfer_from() == Planned {
                        call: ChainCall::Psp22TransferFrom {
                            token: self.psp22_token2_address,
                            from: env.caller,
                            to: env.account_id,
                            amount: psp22_token2_amount_to_swap,
                        },
                        on_failure: TradingPairErrors::PSP2TransferFromFailed,
                    }
                }
            }),
    {
        self.plan_swap(
            env,
            false,
            token1_reserve,
            token2_reserve,
            caller_token2_balance,
            contract_allowance,
            caller_panx_balance,
            psp22_token2_amount_to_swap,
            amount_to_validate,
            slippage,
        )
    }

    /// Finishes a swap of token 1 for token 2 once the `transfer_from` of `plan` went
    /// through and the caller's token 1 balance reads `caller_balance_after_transfer`.
    pub fn settle_swap_psp22_token1(&mut self, plan: &SwapPlan, caller_balance_after_transfer: u128) -> (r: Result<
        (Vec<Planned<TradingPairErrors>>, PSP22Token1Swap),
        TradingPairErrors,
    >)
        requires
            old(self).transasction_number < i64::MAX,
        ensures
            plan.caller_balance() == caller_balance_after_transfer ==> r == Err::<
                (Vec<Planned<TradingPairErrors>>, PSP22Token1Swap),
                TradingPairErrors,
            >(TradingPairErrors::CallerInsufficientPSP1Balance) && *final(self) == *old(self),
            plan.caller_balance() != caller_balance_after_transfer ==> {
                &&& r matches Ok((calls, event))
                &&& calls@ == seq![
                    Planned {
                        call: ChainCall::Psp22Transfer { token: old(self).psp22_token2_address, to: plan.caller(), amount: plan.amount_out() },
                        on_failure: TradingPairErrors::PSP2TransferFailed,
                    },
                    Planned {
                        call: ChainCall::Psp22Transfer { token: old(self).psp22_token2_address, to: old(self).vault, amount: plan.out_for_vault() },
                        on_failure: TradingPairErrors::PSP2TransferFailed,
                    },
                    Planned {
                        call: ChainCall::Psp22Transfer { token: old(self).psp22_token1_address, to: old(self).vault, amount: plan.in_for_vault() },
                        on_failure: TradingPairErrors::PSP1TransferFailed,
                    },
                ]
                &&& event == PSP22Token1Swap {
                    caller: plan.caller(),
                    psp22_1_deposited_amount: plan.amount_in(),
                    psp22_2_given_amount: plan.amount_out(),
                    psp22_2_given_amount_for_vault: plan.out_for_vault(),
                }
                &&& *final(self) == (TradingPairPsp22 {
                    transasction_number: (old(self).transasction_number + 1) as i64,
                    ..*old(self)
                })
            },
    {
        if plan.caller_balance() == caller_balance_after_transfer {
            return Err(TradingPairErrors::CallerInsufficientPSP1Balance);
        }
        let mut calls: Vec<Planned<TradingPairErrors>> = Vec::new();
        calls.push(Planned {
            call: ChainCall::Psp22Transfer { token: self.psp22_token2_address, to: plan.caller(), amount: plan.amount_out() },
            on_failure: TradingPairErrors::PSP2TransferFailed,
        });
        calls.push(Planned {
            call: ChainCall::Psp22Transfer { token: self.psp22_token2_address, to: self.vault, amount: plan.out_for_vault() },
            on_failure: TradingPairErrors::PSP2TransferFailed,
        });
        calls.push(Planned {
            call: ChainCall::Psp22Transfer { token: self.psp22_token1_address, to: self.vault, amount: plan.in_for_vault() },
            on_failure: TradingPairErrors::PSP1TransferFailed,
        });
        self.transasction_number = self.transasction_number + 1;
        Ok((calls, PSP22Token1Swap {
            caller: plan.caller(),
            psp22_1_deposited_amount: plan.amount_in(),
            psp22_2_given_amount: plan.amount_out(),
            psp22_2_given_amount_for_vault: plan.out_for_vault(),
        }))
    }

    /// Finishes a swap of token 2 for token 1 once the `transfer_from` of `plan` went
    /// through and the caller's token 2 balance reads `caller_balance_after_transfer`.
    pub fn settle_swap_psp22_token2(&mut self, plan: &SwapPlan, caller_balance_after_transfer: u128) -> (r: Result<
        (Vec<Planned<TradingPairErrors>>, PSP22Token2Swap),
        TradingPairErrors,
    >)
        requires
            old(self).transasction_number < i64::MAX,
        ensures
            plan.caller_balance() == caller_balance_after_transfer ==> r == Err::<
                (Vec<Planned<TradingPairErrors>>, PSP22Token2Swap),
                TradingPairErrors,
            >(TradingPairErrors::CallerInsufficientPSP2Balance) && *final(self) == *old(self),
            plan.caller_balance() != caller_balance_after_transfer ==> {
                &&& r matches Ok((calls, event))
                &&& calls@ == seq![
                    Planned {
                        call: ChainCall::Psp22Transfer { token: old(self).psp22_token1_address, to: plan.caller(), amount: plan.amount_out() },
                        on_failure: TradingPairErrors::PSP1TransferFailed,
                    },
                    Planned {
                        call: ChainCall::Psp22Transfer { token: old(self).psp22_token1_address, to: old(self).vault, amount: plan.out_for_vault() },
                        on_failure: TradingPairErrors::PSP1TransferFailed,
                    },
                    Planned {
                        call: ChainCall::Psp22Transfer { token: old(self).psp22_token2_address, to: old(self).vault, amount: plan.in_for_vault() },
                        on_failure: TradingPairErrors::PSP2TransferFailed,
                    },
                ]
                &&& event == PSP22Token2Swap {
                    caller: plan.caller(),
                    psp22_2_deposited_amount: plan.amount_in(),
                    psp22_1_given_amount: plan.amount_out(),
                    psp22_1_given_amount_for_vault: plan.out_for_vault(),
                }
                &&& *final(self) == (TradingPairPsp22 {
                    transasction_number: (old(self).transasction_number + 1) as i64,
                    ..*old(self)
                })
            },
    {
        if plan.caller_balance() == caller_balance_after_transfer {
            return Err(TradingPairErrors::CallerInsufficientPSP2Balance);
        }
        let mut calls: Vec<Planned<TradingPairErrors>> = Vec::new();
        calls.push(Planned {
            call: ChainCall::Psp22Transfer { token: self.psp22_token1_address, to: plan.caller(), amount: plan.amount_out() },
            on_failure: TradingPairErrors::PSP1TransferFailed,
        });
        calls.push(Planned {
            call: ChainCall::Psp22Transfer { token: self.psp22_token1_address, to: self.vault, amount: plan.out_for_vault() },
            on_failure: TradingPairErrors::PSP1TransferFailed,
        });
        calls.push(Planned {
            call: ChainCall::Psp22Transfer { token: self.psp22_token2_address, to: self.vault, amount: plan.in_for_vault() },
            on_failure: TradingPairErrors::PSP2TransferFailed,
        });
        self.transasction_number = self.transasction_number + 1;
        Ok((calls, PSP22Token2Swap {
            caller: plan.caller(),
            psp22_2_deposited_amount: plan.amount_in(),
            psp22_1_given_amount: plan.amount_out(),
            psp22_1_given_amount_for_vault: plan.out_for_vault(),
        }))
    }

    // -----------------------------------------------------------------------
    // LP shares.
    // -----------------------------------------------------------------------

    /// The caller moves `shares_to_transfer` of its LP shares to `recipient`.  A
    /// transfer to oneself leaves the balance as it was.
    pub fn transfer_lp_tokens(&mut self, env: &CallEnv, recipient: AccountId, shares_to_transfer: u128) -> (r: Result<
        (),
        TradingPairErrors,
    >)
        ensures
            ({
                let caller_shares = old(self).balances.get_or(env.caller, 0);
                let recipient_shares = if recipient == env.caller {
                    (caller_shares - shares_to_transfer) as u128
                } else {
                    old(self).balances.get_or(recipient, 0)
                };
                if caller_shares < shares_to_transfer {
                    r == Err::<(), TradingPairErrors>(TradingPairErrors::CallerInsufficientLPBalance) && *final(self) == *old(self)
                } else if recipient_shares + shares_to_transfer > u128::MAX {
                    r == Err::<(), TradingPairErrors>(TradingPairErrors::Overflow) && *final(self) == *old(self)
                } else {
                    &&& r is Ok
                    &&& *final(self) == (TradingPairPsp22 { balances: final(self).balances, ..*old(self) })
                    &&& final(self).balances@ == old(self).balances@.insert(
                        env.caller,
                        (caller_shares - shares_to_transfer) as u128,
                    ).insert(recipient, (recipient_shares + shares_to_transfer) as u128)
                }
            }),
            r is Ok && env.caller == recipient ==> final(self).balances.get_or(recipient, 0) == old(self).balances.get_or(
                recipient,
                0,
            ),
            r is Ok && env.caller != recipient ==> final(self).balances.get_or(env.caller, 0) + final(self).balances.get_or(
                recipient,
                0,
            ) == old(self).balances.get_or(env.caller, 0) + old(self).balances.get_or(recipient, 0),
            forall|a: AccountId|
                a != env.caller && a != recipient ==> #[trigger] final(self).balances.get_or(a, 0) == old(self).balances.get_or(
                    a,
                    0,
                ),
            old(self).shares_backed() ==> final(self).shares_backed(),
    {
        let caller = env.caller;
        let caller_shares: u128 = self.balances.get_or_default(&caller, 0);
        if caller_shares < shares_to_transfer {
            return Err(TradingPairErrors::CallerInsufficientLPBalance);
        }
        let new_caller_lp_balance: u128 = match caller_shares.checked_sub(shares_to_transfer) {
            Some(result) => result,
            None => return Err(TradingPairErrors::Overflow),
        };
        let recipient_shares: u128 = if recipient == caller {
            new_caller_lp_balance
        } else {
            self.balances.get_or_default(&recipient, 0)
        };
        let new_recipient_lp_balance: u128 = match recipient_shares.checked_add(shares_to_transfer) {
            Some(result) => result,
            None => return Err(TradingPairErrors::Overflow),
        };
        let ghost b0 = self.balances;
        self.balances.insert(caller, new_caller_lp_balance);
        let ghost b1 = self.balances;
        self.balances.insert(recipient, new_recipient_lp_balance);
        proof {
            Mapping::<AccountId, u128>::lemma_total_insert(&b0, &b1, caller, new_caller_lp_balance);
            Mapping::<AccountId, u128>::lemma_total_insert(&b1, &self.balances, recipient, new_recipient_lp_balance);
        }
        Ok(())
    }

    /// The caller allows `spender` to move up to `shares_to_approve` of its LP shares;
    /// it cannot allow more than it holds.
    pub fn approve_lp_tokens(&mut self, env: &CallEnv, spender: AccountId, shares_to_approve: u128) -> (r: Result<
        (),
        TradingPairErrors,
    >)
        ensures
            if old(self).balances.get_or(env.caller, 0) < shares_to_approve {
                r == Err::<(), TradingPairErrors>(TradingPairErrors::CallerInsufficientLPBalance) && *final(self) == *old(self)
            } else if shares_to_approve >= u128::MAX {
                r == Err::<(), TradingPairErrors>(TradingPairErrors::Overflow) && *final(self) == *old(self)
            } else {
                &&& r is Ok
                &&& *final(self) == (TradingPairPsp22 { lp_tokens_allowances: final(self).lp_tokens_allowances, ..*old(self) })
                &&& final(self).lp_tokens_allowances@ == old(self).lp_tokens_allowances@.insert(
                    (env.caller, spender),
                    shares_to_approve,
                )
            },
    {
        let caller = env.caller;
        let caller_shares: u128 = self.balances.get_or_default(&caller, 0);
        if caller_shares < shares_to_approve {
            return Err(TradingPairErrors::CallerInsufficientLPBalance);
        }
        if shares_to_approve >= u128::MAX {
            return Err(TradingPairErrors::Overflow);
        }
        self.lp_tokens_allowances.insert((caller, spender), shares_to_approve);
        Ok(())
    }

    /// The caller moves `shares_to_transfer` LP shares from `owner` to `to`, within
    /// the allowance that `owner` gave it.  A move from an account to itself leaves
    /// its balance as it was and still spends the allowance.
    pub fn transfer_lp_tokens_from_to(
        &mut self,
        env: &CallEnv,
        owner: AccountId,
        to: AccountId,
        shares_to_transfer: u128,
    ) -> (r: Result<(), TradingPairErrors>)
        ensures
            ({
                let owner_shares = old(self).balances.get_or(owner, 0);
                let to_shares = if to == owner {
                    (owner_shares - shares_to_transfer) as u128
                } else {
                    old(self).balances.get_or(to, 0)
                };
                let allowance = old(self).lp_tokens_allowances.get_or((owner, env.caller), 0);
                if allowance < shares_to_transfer {
                    r == Err::<(), TradingPairErrors>(TradingPairErrors::NotEnoughOwnerLPAllowance) && *final(self) == *old(self)
                } else if owner_shares < shares_to_transfer {
                    r == Err::<(), TradingPairErrors>(TradingPairErrors::CallerInsufficientLPBalance) && *final(self) == *old(self)
                } else if to_shares + shares_to_transfer > u128::MAX {
                    r == Err::<(), TradingPairErrors>(TradingPairErrors::Overflow) && *final(self) == *old(self)
                } else {
                    &&& r is Ok
                    &&& *final(self) == (TradingPairPsp22 {
                        balances: final(self).balances,
                        lp_tokens_allowances: final(self).lp_tokens_allowances,
                        ..*old(self)
                    })
                    &&& final(self).balances@ == old(self).balances@.insert(owner, (owner_shares - shares_to_transfer) as u128).insert(
                        to,
                        (to_shares + shares_to_transfer) as u128,
                    )
                    &&& final(self).lp_tokens_allowances@ == old(self).lp_tokens_allowances@.insert(
                        (owner, env.caller),
                        (allowance - shares_to_transfer) as u128,
                    )
                }
            }),
            r is Ok && owner == to ==> final(self).balances.get_or(to, 0) == old(self).balances.get_or(to, 0),
            r is Ok && owner != to ==> final(self).balances.get_or(owner, 0) + final(self).balances.get_or(to, 0)
                == old(self).balances.get_or(owner, 0) + old(self).balances.get_or(to, 0),
            forall|a: AccountId|
                a != owner && a != to ==> #[trigger] final(self).balances.get_or(a, 0) == old(self).balances.get_or(a, 0),
            old(self).shares_backed() ==> final(self).shares_backed(),
    {
        let spender = env.caller;
        let owner_shares: u128 = self.balances.get_or_default(&owner, 0);
        let allowance: u128 = self.get_lp_tokens_allowance(owner, spender);
        if allowance < shares_to_transfer {
            return Err(TradingPairErrors::NotEnoughOwnerLPAllowance);
        }
        if owner_shares < shares_to_transfer {
            return Err(TradingPairErrors::CallerInsufficientLPBalance);
        }
        let new_owner_lp_balance: u128 = match owner_shares.checked_sub(shares_to_transfer) {
            Some(result) => result,
            None => return Err(TradingPairErrors::Overflow),
        };
        let to_shares: u128 = if to == owner {
            new_owner_lp_balance
        } else {
            self.balances.get_or_default(&to, 0)
        };
        let new_to_lp_balance: u128 = match to_shares.checked_add(shares_to_transfer) {
            Some(result) => result,
            None => return Err(TradingPairErrors::Overflow),
        };
        let new_allowance: u128 = match allowance.checked_sub(shares_to_transfer) {
            Some(result) => result,
            None => return Err(TradingPairErrors::Overflow),
        };
        let ghost b0 = self.balances;
        self.balances.insert(owner, new_owner_lp_balance);
        let ghost b1 = self.balances;
        self.lp_tokens_allowances.insert((owner, spender), new_allowance);
        self.balances.insert(to, new_to_lp_balance);
        proof {
            Mapping::<AccountId, u128>::lemma_total_insert(&b0, &b1, owner, new_owner_lp_balance);
            Mapping::<AccountId, u128>::lemma_total_insert(&b1, &self.balances, to, new_to_lp_balance);
        }
        Ok(())
    }

    // -----------------------------------------------------------------------
    // Liquidity.
    // -----------------------------------------------------------------------

    /// Checks a withdrawal of `shares` LP shares at the reserves, burns them and
    /// returns the payouts to make and the event.
    pub fn withdraw_specific_amount(
        &mut self,
        env: &CallEnv,
        token1_reserve: u128,
        token2_reserve: u128,
        shares: u128,
    ) -> (r: Result<(Vec<Planned<TradingPairErrors>>, LiquidityPoolWithdrawal), TradingPairErrors>)
        requires
            shares > 0 && old(self).balances.get_or(env.caller, 0) >= shares ==> {
                &&& old(self).total_supply >= shares
                &&& shares * token1_reserve <= u128::MAX
                &&& shares * token2_reserve <= u128::MAX
            },
        ensures
            ({
                let caller_shares = old(self).balances.get_or(env.caller, 0);
                let ts = old(self).total_supply as int;
                let amount1 = (shares * token1_reserve / ts) as u128;
                let amount2 = (shares * token2_reserve / ts) as u128;
                if shares == 0 {
                    r is Err && r->Err_0 == TradingPairErrors::ZeroSharesGiven && *final(self) == *old(self)
                } else if caller_shares < shares {
                    r is Err && r->Err_0 == TradingPairErrors::CallerInsufficientLPBalance && *final(self) == *old(self)
                } else {
                    &&& r matches Ok((calls, event))
                    &&& calls@ == seq![
                        Planned {
                            call: ChainCall::Psp22Transfer { token: old(self).psp22_token1_address, to: env.caller, amount: amount1 },
                            on_failure: TradingPairErrors::PSP1TransferFailed,
                        },
                        Planned {
                            call: ChainCall::Psp22Transfer { token: old(self).psp22_token2_address, to: env.caller, amount: amount2 },
                            on_failure: TradingPairErrors::PSP1TransferFailed,
                        },
                    ]
                    &&& event == LiquidityPoolWithdrawal {
                        caller: env.caller,
                        shares_given: shares,
                        psp22_1_given_amount: amount1,
                        psp22_2_given_amount: amount2,
                        new_shares_balance: (caller_shares - shares) as u128,
                    }
                    &&& *final(self) == (TradingPairPsp22 {
                        balances: final(self).balances,
                        total_supply: (old(self).total_supply - shares) as u128,
                        ..*old(self)
                    })
                    &&& final(self).balances@ == old(self).balances@.insert(env.caller, (caller_shares - shares) as u128)
                }
            }),
            old(self).shares_backed() ==> final(self).shares_backed(),
    {
        if shares <= 0 {
            return Err(TradingPairErrors::ZeroSharesGiven);
        }
        let caller = env.caller;
        let caller_shares: u128 = self.balances.get_or_default(&caller, 0);
        if caller_shares < shares {
            return Err(TradingPairErrors::CallerInsufficientLPBalance);
        }
        let psp22_token1_amount_to_give = self.get_psp22_token1_withdraw_tokens_amount(shares, token1_reserve).unwrap();
        let psp22_token2_amount_to_give = self.get_psp22_token2_withdraw_tokens_amount(shares, token2_reserve).unwrap();
        let new_caller_lp_shares: u128 = match caller_shares.checked_sub(shares) {
            Some(result) => result,
            None => return Err(TradingPairErrors::Overflow),
        };
        let mut calls: Vec<Planned<TradingPairErrors>> = Vec::new();
        calls.push(Planned {
            call: ChainCall::Psp22Transfer { token: self.psp22_token1_address, to: caller, amount: psp22_token1_amount_to_give },
            on_failure: TradingPairErrors::PSP1TransferFailed,
        });
        calls.push(Planned {
            call: ChainCall::Psp22Transfer { token: self.psp22_token2_address, to: caller, amount: psp22_token2_amount_to_give },
            on_failure: TradingPairErrors::PSP1TransferFailed,
        });
        let ghost b0 = self.balances;
        self.balances.insert(caller, caller_shares - shares);
        proof {
            Mapping::<AccountId, u128>::lemma_total_insert(&b0, &self.balances, caller, (caller_shares - shares) as u128);
        }
        self.total_supply = self.total_supply - shares;
        Ok((calls, LiquidityPoolWithdrawal {
            caller,
            shares_given: shares,
            psp22_1_given_amount: psp22_token1_amount_to_give,
            psp22_2_given_amount: psp22_token2_amount_to_give,
            new_shares_balance: new_caller_lp_shares,
        }))
    }

    /// Checks a provision of `psp22_token1_deposit_amount` of token 1 and
    /// `psp22_token2_deposit_amount` of token 2 against the caller's balances and the
    /// pair's allowances; on success token 1 is to be moved in.  `provide_token2_to_pool`
    /// and `settle_provide_to_pool` go on with the provision.
    pub fn provide_to_pool(
        &self,
        env: &CallEnv,
        caller_current_balance_token1: u128,
        caller_current_balance_token2: u128,
        contract_token1_allowance: u128,
        contract_token2_allowance: u128,
        contract_psp22_1_starting_balance: u128,
        psp22_token1_deposit_amount: u128,
        psp22_token2_deposit_amount: u128,
        excpeted_lp_tokens: u128,
        slippage: u128,
    ) -> (r: Result<ProvisionStart, TradingPairErrors>)
        ensures
            if caller_current_balance_token1 < psp22_token1_deposit_amount {
                r == Err::<ProvisionStart, TradingPairErrors>(TradingPairErrors::CallerInsufficientPSP1Balance)
            } else if caller_current_balance_token2 < psp22_token2_deposit_amount {
                r == Err::<ProvisionStart, TradingPairErrors>(TradingPairErrors::CallerInsufficientPSP2Balance)
            } else if contract_token1_allowance < psp22_token1_deposit_amount {
                r == Err::<ProvisionStart, TradingPairErrors>(TradingPairErrors::NotEnoughPSP1Allowance)
            } else if contract_token2_allowance < psp22_token2_deposit_amount {
                r == Err::<ProvisionStart, TradingPairErrors>(TradingPairErrors::NotEnoughPSP2Allowance)
            } else {
                &&& r matches Ok(st)
                &&& st.caller() == env.caller
                &&& st.excpeted_lp_tokens() == excpeted_lp_tokens
                &&& st.slippage() == slippage
                &&& st.psp22_token1_deposit_amount() == psp22_token1_deposit_amount
                &&& st.psp22_token2_deposit_amount() == psp22_token2_deposit_amount
                &&& st.caller_balance_token1() == caller_current_balance_token1
                &&& st.caller_balance_token2() == caller_current_balance_token2
                &&& st.contract_psp22_1_starting_balance() == contract_psp22_1_starting_balance
                &&& st.transfer_from() == Planned {
                    call: ChainCall::Psp22TransferFrom {
                        token: self.psp22_token1_address,
                        from: env.caller,
                        to: env.account_id,
                        amount: psp22_token1_deposit_amount,
                    },
                    on_failure: TradingPairErrors::PSP1TransferFromFailed,
                }
            },
    {
        let caller = env.caller;
        if caller_current_balance_token1 < psp22_token1_deposit_amount {
            return Err(TradingPairErrors::CallerInsufficientPSP1Balance);
        }
        if caller_current_balance_token2 < psp22_token2_deposit_amount {
            return Err(TradingPairErrors::CallerInsufficientPSP2Balance);
        }
        if contract_token1_allowance < psp22_token1_deposit_amount {
            return Err(TradingPairErrors::NotEnoughPSP1Allowance);
        }
        if contract_token2_allowance < psp22_token2_deposit_amount {
            return Err(TradingPairErrors::NotEnoughPSP2Allowance);
        }
        Ok(ProvisionStart {
            caller,
            excpeted_lp_tokens,
            slippage,
            psp22_token1_deposit_amount,
            psp22_token2_deposit_amount,
            caller_balance_token1: caller_current_balance_token1,
            caller_balance_token2: caller_current_balance_token2,
            contract_psp22_1_starting_balance,
            transfer_from: Planned {
                call: ChainCall::Psp22TransferFrom {
                    token: self.psp22_token1_address,
                    from: caller,
                    to: env.account_id,
                    amount: psp22_token1_deposit_amount,
                },
                on_failure: TradingPairErrors::PSP1TransferFromFailed,
            },
        })
    }

    /// Goes on with a provision once token 1 came in: the caller's token 1 balance
    /// now reads `caller_psp1_balance_after_transfer`, the pair's
    /// `contract_psp22_1_closing_balance`, and the pair holds
    /// `contract_psp22_2_starting_balance` of token 2.  The amount that actually came
    /// in is the growth of the pair's balance; token 2 is to be moved in next.
    pub fn provide_token2_to_pool(
        &self,
        env: &CallEnv,
        start: &ProvisionStart,
        caller_psp1_balance_after_transfer: u128,
        contract_psp22_1_closing_balance: u128,
        contract_psp22_2_starting_balance: u128,
    ) -> (r: Result<ProvisionMiddle, TradingPairErrors>)
        ensures
            if start.caller_balance_token1() == caller_psp1_balance_after_transfer {
                r == Err::<ProvisionMiddle, TradingPairErrors>(TradingPairErrors::CallerInsufficientPSP1Balance)
            } else if contract_psp22_1_closing_balance < start.contract_psp22_1_starting_balance() {
                r == Err::<ProvisionMiddle, TradingPairErrors>(TradingPairErrors::Overflow)
            } else {
                &&& r matches Ok(m)
                &&& m.start() == *start
                &&& m.actual_psp22_1_deposit_amount() == (contract_psp22_1_closing_balance
                    - start.contract_psp22_1_starting_balance()) as u128
                &&& m.contract_psp22_2_starting_balance() == contract_psp22_2_starting_balance
                &&& m.transfer_from() == Planned {
                    call: ChainCall::Psp22TransferFrom {
                        token: self.psp22_token2_address,
                        from: start.caller(),
                        to: env.account_id,
                        amount: start.psp22_token2_deposit_amount(),
                    },
                    on_failure: TradingPairErrors::PSP2TransferFromFailed,
                }
            },
    {
        if start.caller_balance_token1() == caller_psp1_balance_after_transfer {
            return Err(TradingPairErrors::CallerInsufficientPSP1Balance);
        }
        let actual_psp22_1_deposit_amount: u128 = match contract_psp22_1_closing_balance.checked_sub(start.contract_psp22_1_starting_balance()) {
            Some(result) => result,
            None => return Err(TradingPairErrors::Overflow),
        };
        Ok(ProvisionMiddle {
            start: *start,
            actual_psp22_1_deposit_amount,
            contract_psp22_2_starting_balance,
            transfer_from: Planned {
                call: ChainCall::Psp22TransferFrom {
                    token: self.psp22_token2_address,
                    from: start.caller(),
                    to: env.account_id,
                    amount: start.psp22_token2_deposit_amount(),
                },
                on_failure: TradingPairErrors::PSP2TransferFromFailed,
            },
        })
    }

    /// The LP shares that a provision of `actual1` of token 1 earns when the pair holds
    /// `token1_balance` of token 1 with it: 1000 shares (of 10^12) for the first.
    pub open spec fn provision_shares(&self, actual1: u128, token1_balance: u128) -> int {
        if self.total_supply == 0 {
            1000 * 1_000_000_000_000int
        } else {
            actual1 * self.total_supply / (token1_balance - actual1)
        }
    }

    /// Finishes a provision once token 2 came in: the caller's token 2 balance now
    /// reads `caller_psp2_balance_after_transfer`, and the pair holds
    /// `contract_token1_balance` of token 1 and `contract_token2_balance` of token 2.
    /// The token 2 deposit is the pair's token 2 balance less what it held before.
    /// Mints the shares, or sends the deposits back where no shares or too few are
    /// earned.
    pub fn settle_provide_to_pool(
        &mut self,
        middle: &ProvisionMiddle,
        caller_psp2_balance_after_transfer: u128,
        contract_token1_balance: u128,
        contract_token2_balance: u128,
    ) -> (r: Result<ProvisionOutcome, TradingPairErrors>)
        requires
            ({
                let start = middle.start();
                let actual1 = middle.actual_psp22_1_deposit_amount();
                let shares = old(self).provision_shares(actual1, contract_token1_balance);
                start.caller_balance_token2() != caller_psp2_balance_after_transfer
                    && contract_token2_balance >= middle.contract_psp22_2_starting_balance() ==> {
                    &&& old(self).total_supply > 0 ==> actual1 * old(self).total_supply <= u128::MAX
                        && contract_token1_balance >= actual1
                    &&& shares > 0 && !(old(self).total_supply > 0 && contract_token1_balance == actual1) ==> {
                        &&& diffrenece_defined(start.excpeted_lp_tokens(), shares as u128)
                        &&& diffrenece_result(start.excpeted_lp_tokens(), shares as u128) is Ok
                        &&& old(self).total_supply + shares <= u128::MAX
                    }
                }
            }),
        ensures
            ({
                let start = middle.start();
                let caller = start.caller();
                let actual1 = middle.actual_psp22_1_deposit_amount();
                let actual2 = (contract_token2_balance - middle.contract_psp22_2_starting_balance()) as u128;
                let shares = old(self).provision_shares(actual1, contract_token1_balance);
                let current = old(self).balances.get_or(caller, 0);
                if start.caller_balance_token2() == caller_psp2_balance_after_transfer {
                    r == Err::<ProvisionOutcome, TradingPairErrors>(TradingPairErrors::CallerInsufficientPSP2Balance)
                        && *final(self) == *old(self)
                } else if contract_token2_balance < middle.contract_psp22_2_starting_balance() {
                    r == Err::<ProvisionOutcome, TradingPairErrors>(TradingPairErrors::Overflow) && *final(self) == *old(self)
                } else if old(self).total_supply > 0 && contract_token1_balance == actual1 {
                    r == Err::<ProvisionOutcome, TradingPairErrors>(TradingPairErrors::Overflow) && *final(self) == *old(self)
                } else if shares <= 0 {
                    &&& r matches Ok(ProvisionOutcome::Refund { calls, error })
                    &&& error == TradingPairErrors::ZeroSharesGiven
                    &&& calls@ == seq![
                        Planned {
                            call: ChainCall::Psp22Transfer { token: old(self).psp22_token1_address, to: caller, amount: actual1 },
                            on_failure: TradingPairErrors::PSP1TransferFailed,
                        },
                        Planned {
                            call: ChainCall::Psp22Transfer { token: old(self).psp22_token2_address, to: caller, amount: actual2 },
                            on_failure: TradingPairErrors::PSP2TransferFailed,
                        },
                    ]
                    &&& *final(self) == *old(self)
                } else if diffrenece_result(start.excpeted_lp_tokens(), shares as u128)->Ok_0 > start.slippage() {
                    &&& r matches Ok(ProvisionOutcome::Refund { calls, error })
                    &&& error == TradingPairErrors::SlippageTolerance
                    &&& calls@ == seq![
                        Planned {
                            call: ChainCall::Psp22Transfer { token: old(self).psp22_token1_address, to: caller, amount: actual1 },
                            on_failure: TradingPairErrors::PSP2TransferFailed,
                        },
                        Planned {
                            call: ChainCall::Psp22Transfer { token: old(self).psp22_token2_address, to: caller, amount: actual2 },
                            on_failure: TradingPairErrors::PSP2TransferFailed,
                        },
                    ]
                    &&& *final(self) == *old(self)
                } else if current + shares > u128::MAX {
                    r == Err::<ProvisionOutcome, TradingPairErrors>(TradingPairErrors::Overflow) && *final(self) == *old(self)
                } else {
                    &&& r matches Ok(ProvisionOutcome::Minted(event))
                    &&& event == LiquidityPoolProvision {
                        from: caller,
                        psp22_1_deposited_amount: actual1,
                        psp22_2_deposited_amount: actual2,
                        shares_given: shares as u128,
                    }
                    &&& *final(self) == (TradingPairPsp22 {
                        balances: final(self).balances,
                        total_supply: (old(self).total_supply + shares) as u128,
                        ..*old(self)
                    })
                    &&& final(self).balances@ == old(self).balances@.insert(caller, (current + shares) as u128)
                }
            }),
            old(self).shares_backed() ==> final(self).shares_backed(),
    {
        let start = middle.start();
        let caller = start.caller();
        if start.caller_balance_token2() == caller_psp2_balance_after_transfer {
            return Err(TradingPairErrors::CallerInsufficientPSP2Balance);
        }
        let contract_psp22_2_closing_balance = contract_token2_balance;
        let actual_psp22_2_deposit_amount: u128 = match contract_psp22_2_closing_balance.checked_sub(middle.contract_psp22_2_starting_balance()) {
            Some(result) => result,
            None => return Err(TradingPairErrors::Overflow),
        };
        let actual_psp22_1_deposit_amount = middle.actual_psp22_1_deposit_amount();
        let mut shares: u128 = 0;
        if self.total_supply == 0 {
            shares = 1000u128 * E12;
        }
        if self.total_supply > 0 {
            shares = match (actual_psp22_1_deposit_amount * self.total_supply).checked_div(contract_token1_balance - actual_psp22_1_deposit_amount) {
                Some(result) => result,
                None => return Err(TradingPairErrors::Overflow),
            };
        }
        if shares <= 0 {
            let mut calls: Vec<Planned<TradingPairErrors>> = Vec::new();
            calls.push(Planned {
                call: ChainCall::Psp22Transfer { token: self.psp22_token1_address, to: caller, amount: actual_psp22_1_deposit_amount },
                on_failure: TradingPairErrors::PSP1TransferFailed,
            });
            calls.push(Planned {
                call: ChainCall::Psp22Transfer { token: self.psp22_token2_address, to: caller, amount: actual_psp22_2_deposit_amount },
                on_failure: TradingPairErrors::PSP2TransferFailed,
            });
            return Ok(ProvisionOutcome::Refund { calls, error: TradingPairErrors::ZeroSharesGiven });
        }
        let percentage_diff = self.check_diffrenece(start.excpeted_lp_tokens(), shares).unwrap();
        if percentage_diff > start.slippage() {
            let mut calls: Vec<Planned<TradingPairErrors>> = Vec::new();
            calls.push(Planned {
                call: ChainCall::Psp22Transfer { token: self.psp22_token1_address, to: caller, amount: actual_psp22_1_deposit_amount },
                on_failure: TradingPairErrors::PSP2TransferFailed,
            });
            calls.push(Planned {
                call: ChainCall::Psp22Transfer { token: self.psp22_token2_address, to: caller, amount: actual_psp22_2_deposit_amount },
                on_failure: TradingPairErrors::PSP2TransferFailed,
            });
            return Ok(ProvisionOutcome::Refund { calls, error: TradingPairErrors::SlippageTolerance });
        }
        let current_shares = self.get_lp_token_of(caller);
        let new_caller_shares: u128 = match current_shares.checked_add(shares) {
            Some(result) => result,
            None => return Err(TradingPairErrors::Overflow),
        };
        let ghost b0 = self.balances;
        self.balances.insert(caller, new_caller_shares);
        proof {
            Mapping::<AccountId, u128>::lemma_total_insert(&b0, &self.balances, caller, new_caller_shares);
        }
        self.total_supply = self.total_supply + shares;
        Ok(ProvisionOutcome::Minted(LiquidityPoolProvision {
            from: caller,
            psp22_1_deposited_amount: actual_psp22_1_deposit_amount,
            psp22_2_deposited_amount: actual_psp22_2_deposit_amount,
            shares_given: shares,
        }))
    }
}

/// The percentage difference that `check_diffrenece` computes does not depend on the
/// order of the two values: it is taken relative to their mean.
pub proof fn lemma_diffrenece_symmetric(v1: u128, v2: u128)
    ensures
        diffrenece_defined(v1, v2) == diffrenece_defined(v2, v1),
        diffrenece_result(v1, v2) == diffrenece_result(v2, v1),
{
}

/// A caller who holds 3500 PANX or more gets at least as much out of a swap as a
/// caller who holds less: a holder's LP fee is never the higher one.
pub proof fn lemma_holder_estimate_not_worse(
    amount_in: u128,
    fee: u128,
    holder_panx: u128,
    other_panx: u128,
    reserve_out: u128,
    reserve_in: u128,
)
    requires
        fee / 1_000_000_000_000 <= 100,
        holder_panx >= 3500 * 1_000_000_000_000,
        other_panx < 3500 * 1_000_000_000_000,
        estimate_result(amount_in, fee, other_panx, reserve_out, reserve_in) is Ok,
        estimate_result(amount_in, fee, holder_panx, reserve_out, reserve_in) is Ok,
    ensures
        estimate_result(amount_in, fee, other_panx, reserve_out, reserve_in)->Ok_0 <= estimate_result(
            amount_in,
            fee,
            holder_panx,
            reserve_out,
            reserve_in,
        )->Ok_0,
{
    let ko = kept_percentage(fee, other_panx);
    let kh = kept_percentage(fee, holder_panx);
    assert(0 <= ko <= kh);
    let wo = amount_in * ko;
    let wh = amount_in * kh;
    assert(0 <= wo <= wh) by (nonlinear_arith)
        requires
            0 <= ko <= kh,
            0 <= amount_in,
            wo == amount_in * ko,
            wh == amount_in * kh,
    ;
    crate::trading_pair_azero::lemma_quote_monotone(wo, wh, reserve_out as int, reserve_in as int);
    crate::trading_pair_azero::lemma_quote_within_reserve(wo, reserve_out as int, reserve_in as int);
    crate::trading_pair_azero::lemma_quote_within_reserve(wh, reserve_out as int, reserve_in as int);
}

/// Above a fee of 1.4%, a caller who holds 3500 PANX or more swaps as a caller
/// without PANX would at a fee one percent lower: the discount is one whole percent
/// of the LP fee.
pub proof fn lemma_holder_pays_one_percent_less(
    amount_in: u128,
    fee: u128,
    holder_panx: u128,
    reserve_out: u128,
    reserve_in: u128,
)
    requires
        fee > 1_400_000_000_000,
        holder_panx >= 3500 * 1_000_000_000_000,
    ensures
        estimate_result(amount_in, fee, holder_panx, reserve_out, reserve_in) == estimate_result(
            amount_in,
            (fee - 1_000_000_000_000) as u128,
            0,
            reserve_out,
            reserve_in,
        ),
{
    let f = fee / 1_000_000_000_000;
    assert((fee - 1_000_000_000_000) as u128 / 1_000_000_000_000 == f - 1);
    assert(kept_percentage(fee, holder_panx) == 101 - f);
    assert(kept_percentage((fee - 1_000_000_000_000) as u128, 0) == 101 - f);
    assert(amount_in * (100 - f) <= amount_in * (101 - f)) by (nonlinear_arith)
        requires
            amount_in >= 0,
    ;
}

/// Up to a fee of 1.4%, a caller who holds 3500 PANX or more swaps as a caller
/// without PANX would with no fee at all: the LP fee is waived.
pub proof fn lemma_holder_low_fee_is_waived(
    amount_in: u128,
    fee: u128,
    holder_panx: u128,
    reserve_out: u128,
    reserve_in: u128,
)
    requires
        fee <= 1_400_000_000_000,
        holder_panx >= 3500 * 1_000_000_000_000,
    ensures
        estimate_result(amount_in, fee, holder_panx, reserve_out, reserve_in) == estimate_result(
            amount_in,
            0,
            0,
            reserve_out,
            reserve_in,
        ),
{
    assert(fee / 1_000_000_000_000 <= 1);
    assert(amount_in * (100 - fee / 1_000_000_000_000) <= amount_in * 100) by (nonlinear_arith)
        requires
            fee / 1_000_000_000_000 >= 0,
            amount_in >= 0,
    ;
}

/// All the LP shares stand for the whole pool: withdrawn together they are worth
/// every token that the pair holds.
pub proof fn lemma_all_shares_take_whole_pool(pair: TradingPairPsp22, token1_reserve: u128, token2_reserve: u128)
    requires
        pair.total_supply > 0,
    ensures
        pair.total_supply * token1_reserve / (pair.total_supply as int) == token1_reserve,
        pair.total_supply * token2_reserve / (pair.total_supply as int) == token2_reserve,
{
    vstd::arithmetic::div_mod::lemma_div_multiples_vanish(token1_reserve as int, pair.total_supply as int);
    vstd::arithmetic::div_mod::lemma_div_multiples_vanish(token2_reserve as int, pair.total_supply as int);
}

} // verus!
