//! The PANX vesting program: the manager grants accounts an amount that vests over
//! a year, a tenth of which they can collect at once (the TGE part).
use crate::account::{AccountId, Mapping};
use crate::env::{CallEnv, ChainCall, Planned};
use vstd::prelude::*;

verus! {

/// The possible errors of the vesting program.
#[derive(Debug, Clone, Copy, PartialEq, Eq)]
pub enum VestingProgramErrors {
    CallerIsNotManager,
    CallerCollectedTGEAlready,
    CallerInsufficientLockedTokens,
    ZeroDaysPassed,
    PSP22TransferFailed,
    Overflow,
}

/// Emitted when an account is added to the program.
#[derive(Debug, Clone, Copy, PartialEq, Eq)]
pub struct AddToVestingProgram {
    pub added_account: AccountId,
    pub total_vesting_amount: u128,
    pub panx_amount_to_give_each_day: u128,
}

/// Emitted when an account collects its TGE part.
#[derive(Debug, Clone, Copy, PartialEq, Eq)]
pub struct CollectedTGE {
    pub caller: AccountId,
    pub panx_given_amount: u128,
    pub caller_new_balance: u128,
}

/// Emitted when an account redeems vested tokens.
#[derive(Debug, Clone, Copy, PartialEq, Eq)]
pub struct Redeem {
    pub caller: AccountId,
    pub panx_given_amount: u128,
    pub caller_new_balance: u128,
}

/// The storage of the vesting contract.
#[derive(Debug, Clone)]
pub struct VestingContract {
    pub manager: AccountId,
    pub panx_psp22: AccountId,
    pub started_date_in_timestamp: u128,
    pub balances: Mapping<AccountId, u128>,
    pub collected_tge: Mapping<AccountId, u128>,
    pub panx_to_give_in_a_day: Mapping<AccountId, u128>,
    pub last_redeemed: Mapping<AccountId, u128>,
}

impl VestingContract {
    /// A new vesting program for `panx_contract`, managed by the caller and started
    /// at the block timestamp (in milliseconds).
    pub fn new(env: &CallEnv, panx_contract: AccountId) -> (r: Self)
        ensures
            r.manager == env.caller,
            r.panx_psp22 == panx_contract,
            r.started_date_in_timestamp == env.block_timestamp,
            r.balances@ == Map::<AccountId, u128>::empty(),
            r.collected_tge@ == Map::<AccountId, u128>::empty(),
            r.panx_to_give_in_a_day@ == Map::<AccountId, u128>::empty(),
            r.last_redeemed@ == Map::<AccountId, u128>::empty(),
    {
        VestingContract {
            manager: env.caller,
            panx_psp22: panx_contract,
            started_date_in_timestamp: env.block_timestamp as u128,
            balances: Mapping::new(),
            collected_tge: Mapping::new(),
            panx_to_give_in_a_day: Mapping::new(),
            last_redeemed: Mapping::new(),
        }
    }

    /// The manager adds `panx_to_give_overall` to the vesting of `account`: it vests
    /// a 365th of its whole amount a day from now on, and may collect its TGE part.
    pub fn add_to_vesting(&mut self, env: &CallEnv, account: AccountId, panx_to_give_overall: u128) -> (r: Result<
        AddToVestingProgram,
        VestingProgramErrors,
    >)
        ensures
            ({
                let new_amount = old(self).balances.get_or(account, 0) + panx_to_give_overall;
                if env.caller != old(self).manager {
                    r == Err::<AddToVestingProgram, VestingProgramErrors>(VestingProgramErrors::CallerIsNotManager)
                        && *final(self) == *old(self)
                } else if new_amount > u128::MAX {
                    r == Err::<AddToVestingProgram, VestingProgramErrors>(VestingProgramErrors::Overflow) && *final(self)
                        == *old(self)
                } else {
                    &&& r == Ok::<AddToVestingProgram, VestingProgramErrors>(AddToVestingProgram {
                        added_account: account,
                        total_vesting_amount: panx_to_give_overall,
                        panx_amount_to_give_each_day: (new_amount / 365) as u128,
                    })
                    &&& *final(self) == (VestingContract {
                        balances: final(self).balances,
                        collected_tge: final(self).collected_tge,
                        panx_to_give_in_a_day: final(self).panx_to_give_in_a_day,
                        last_redeemed: final(self).last_redeemed,
                        ..*old(self)
                    })
                    &&& final(self).balances@ == old(self).balances@.insert(account, new_amount as u128)
                    &&& final(self).panx_to_give_in_a_day@ == old(self).panx_to_give_in_a_day@.insert(
                        account,
                        (new_amount / 365) as u128,
                    )
                    &&& final(self).collected_tge@ == old(self).collected_tge@.insert(account, 0)
                    &&& final(self).last_redeemed@ == old(self).last_redeemed@.insert(account, env.now() as u128)
                }
            }),
    {
        if env.caller != self.manager {
            return Err(VestingProgramErrors::CallerIsNotManager);
        }
        let account_balance: u128 = self.balances.get_or_default(&account, 0);
        let new_vesting_panx_amount: u128 = match account_balance.checked_add(panx_to_give_overall) {
            Some(result) => result,
            None => return Err(VestingProgramErrors::Overflow),
        };
        self.balances.insert(account, new_vesting_panx_amount);
        let panx_amount_to_give_each_day: u128 = match new_vesting_panx_amount.checked_div(365) {
            Some(result) => result,
            None => return Err(VestingProgramErrors::Overflow),
        };
        self.panx_to_give_in_a_day.insert(account, panx_amount_to_give_each_day);
        self.collected_tge.insert(account, 0);
        let now = self.get_current_timestamp(env);
        self.last_redeemed.insert(account, now);
        Ok(AddToVestingProgram {
            added_account: account,
            total_vesting_amount: panx_to_give_overall,
            panx_amount_to_give_each_day,
        })
    }

    /// The caller collects its TGE part, a tenth of its vesting balance (rounded up),
    /// once; returns the transfer to make and the event.
    pub fn collect_tge_tokens(&mut self, env: &CallEnv) -> (r: Result<
        (Vec<Planned<VestingProgramErrors>>, CollectedTGE),
        VestingProgramErrors,
    >)
        requires
            old(self).collected_tge.get_or(env.caller, 0) == 0 && old(self).balances.get_or(env.caller, 0) != 0
                ==> old(self).balances.get_or(env.caller, 0) * 900 <= u128::MAX,
        ensures
            ({
                let balance = old(self).balances.get_or(env.caller, 0);
                let given = balance - balance * 900 / 1000;
                if old(self).collected_tge.get_or(env.caller, 0) != 0 {
                    r == Err::<(Vec<Planned<VestingProgramErrors>>, CollectedTGE), VestingProgramErrors>(
                        VestingProgramErrors::CallerCollectedTGEAlready,
                    ) && *final(self) == *old(self)
                } else if balance == 0 {
                    r == Err::<(Vec<Planned<VestingProgramErrors>>, CollectedTGE), VestingProgramErrors>(
                        VestingProgramErrors::CallerInsufficientLockedTokens,
                    ) && *final(self) == *old(self)
                } else {
                    &&& r matches Ok((calls, event))
                    &&& calls@ == seq![
                        Planned {
                            call: ChainCall::Psp22Transfer { token: old(self).panx_psp22, to: env.caller, amount: given as u128 },
                            on_failure: VestingProgramErrors::PSP22TransferFailed,
                        },
                    ]
                    &&& event == CollectedTGE {
                        caller: env.caller,
                        panx_given_amount: given as u128,
                        caller_new_balance: (balance - given) as u128,
                    }
                    &&& *final(self) == (VestingContract {
                        balances: final(self).balances,
                        collected_tge: final(self).collected_tge,
                        ..*old(self)
                    })
                    &&& final(self).balances@ == old(self).balances@.insert(env.caller, (balance - given) as u128)
                    &&& final(self).collected_tge@ == old(self).collected_tge@.insert(env.caller, 1)
                }
            }),
    {
        let caller = env.caller;
        let caller_current_balance: u128 = self.balances.get_or_default(&caller, 0);
        if self.collected_tge.get_or_default(&caller, 0) != 0 {
            return Err(VestingProgramErrors::CallerCollectedTGEAlready);
        }
        if caller_current_balance <= 0 {
            return Err(VestingProgramErrors::CallerInsufficientLockedTokens);
        }
        let caller_locked_panx_after_tge: u128 = match (caller_current_balance * 900).checked_div(1000) {
            Some(result) => result,
            None => return Err(VestingProgramErrors::Overflow),
        };
        let amount_of_panx_to_give: u128 = match caller_current_balance.checked_sub(caller_locked_panx_after_tge) {
            Some(result) => result,
            None => return Err(VestingProgramErrors::Overflow),
        };
        let mut calls: Vec<Planned<VestingProgramErrors>> = Vec::new();
        calls.push(Planned {
            call: ChainCall::Psp22Transfer { token: self.panx_psp22, to: caller, amount: amount_of_panx_to_give },
            on_failure: VestingProgramErrors::PSP22TransferFailed,
        });
        self.balances.insert(caller, caller_current_balance - amount_of_panx_to_give);
        self.collected_tge.insert(caller, 1);
        Ok((calls, CollectedTGE {
            caller,
            panx_given_amount: amount_of_panx_to_give,
            caller_new_balance: caller_current_balance - amount_of_panx_to_give,
        }))
    }

    /// What `get_redeemable_amount` returns for `caller` at time `now` (in seconds).
    pub open spec fn redeemable_result(&self, caller: AccountId, now: u64) -> Result<u128, VestingProgramErrors> {
        let days = (now - self.last_redeemed.get_or(caller, 0)) / 86400;
        let total = self.balances.get_or(caller, 0);
        let amount = self.panx_to_give_in_a_day.get_or(caller, 0) * days;
        if days <= 0 {
            Err(VestingProgramErrors::ZeroDaysPassed)
        } else if total <= 0 {
            Err(VestingProgramErrors::CallerInsufficientLockedTokens)
        } else if amount > u128::MAX {
            Err(VestingProgramErrors::Overflow)
        } else if amount > total {
            Ok(total)
        } else {
            Ok(amount as u128)
        }
    }

    /// The tokens that the caller can redeem now: its daily amount for each whole day
    /// since it last redeemed, and never more than it has left.
    pub fn get_redeemable_amount(&self, env: &CallEnv) -> (r: Result<u128, VestingProgramErrors>)
        requires
            env.now() >= self.last_redeemed.get_or(env.caller, 0),
        ensures
            r == self.redeemable_result(env.caller, env.now()),
    {
        let caller = env.caller;
        let current_date_in_tsp: u128 = self.get_current_timestamp(env);
        let caller_total_vesting_amount: u128 = self.get_account_total_vesting_amount(caller);
        let date_of_last_redeem_in_tsp: u128 = self.last_redeemed.get_or_default(&caller, 0);
        let panx_to_give_each_day: u128 = self.panx_to_give_in_a_day.get_or_default(&caller, 0);
        let days_difference: u128 = match (current_date_in_tsp - date_of_last_redeem_in_tsp).checked_div(86400) {
            Some(result) => result,
            None => return Err(VestingProgramErrors::Overflow),
        };
        if days_difference <= 0 {
            return Err(VestingProgramErrors::ZeroDaysPassed);
        }
        if caller_total_vesting_amount <= 0 {
            return Err(VestingProgramErrors::CallerInsufficientLockedTokens);
        }
        let mut redeemable_amount: u128 = match panx_to_give_each_day.checked_mul(days_difference) {
            Some(result) => result,
            None => return Err(VestingProgramErrors::Overflow),
        };
        if redeemable_amount > caller_total_vesting_amount {
            redeemable_amount = caller_total_vesting_amount;
        }
        Ok(redeemable_amount)
    }

    /// The caller redeems its vested tokens: they leave its balance; returns the
    /// transfer to make and the event.
    pub fn redeem_redeemable_amount(&mut self, env: &CallEnv) -> (r: Result<
        (Vec<Planned<VestingProgramErrors>>, Redeem),
        VestingProgramErrors,
    >)
        requires
            env.now() >= old(self).last_redeemed.get_or(env.caller, 0),
            old(self).redeemable_result(env.caller, env.now()) is Ok,
        ensures
            ({
                let total = old(self).balances.get_or(env.caller, 0);
                let amount = old(self).redeemable_result(env.caller, env.now())->Ok_0;
                &&& r matches Ok((calls, event))
                &&& calls@ == seq![
                    Planned {
                        call: ChainCall::Psp22Transfer { token: old(self).panx_psp22, to: env.caller, amount },
                        on_failure: VestingProgramErrors::PSP22TransferFailed,
                    },
                ]
                &&& event == Redeem { caller: env.caller, panx_given_amount: amount, caller_new_balance: (total - amount) as u128 }
                &&& *final(self) == (VestingContract {
                    balances: final(self).balances,
                    last_redeemed: final(self).last_redeemed,
                    ..*old(self)
                })
                &&& final(self).balances@ == old(self).balances@.insert(env.caller, (total - amount) as u128)
                &&& final(self).last_redeemed@ == old(self).last_redeemed@.insert(env.caller, env.now() as u128)
            }),
    {
        let caller = env.caller;
        let current_date_in_tsp: u128 = self.get_current_timestamp(env);
        let caller_total_vesting_amount: u128 = self.get_account_total_vesting_amount(caller);
        let redeemable_amount: u128 = self.get_redeemable_amount(env).unwrap();
        self.last_redeemed.insert(caller, current_date_in_tsp);
        let caller_new_vesting_amount: u128 = match caller_total_vesting_amount.checked_sub(redeemable_amount) {
            Some(result) => result,
            None => return Err(VestingProgramErrors::Overflow),
        };
        self.balances.insert(caller, caller_new_vesting_amount);
        let mut calls: Vec<Planned<VestingProgramErrors>> = Vec::new();
        calls.push(Planned {
            call: ChainCall::Psp22Transfer { token: self.panx_psp22, to: caller, amount: redeemable_amount },
            on_failure: VestingProgramErrors::PSP22TransferFailed,
        });
        Ok((calls, Redeem {
            caller,
            panx_given_amount: redeemable_amount,
            caller_new_balance: caller_total_vesting_amount - redeemable_amount,
        }))
    }

    /// The tokens that `account` still has vesting.
    pub fn get_account_total_vesting_amount(&self, account: AccountId) -> (r: u128)
        ensures
            r == self.balances.get_or(account, 0),
    {
        self.balances.get_or_default(&account, 0)
    }

    /// When `account` last redeemed, in seconds.
    pub fn get_account_last_redeem(&self, account: AccountId) -> (r: u128)
        ensures
            r == self.last_redeemed.get_or(account, 0),
    {
        self.last_redeemed.get_or_default(&account, 0)
    }

    /// The daily amount of `account`.
    pub fn get_amount_to_give_each_day_to_account(&self, account: AccountId) -> (r: u128)
        ensures
            r == self.panx_to_give_in_a_day.get_or(account, 0),
    {
        self.panx_to_give_in_a_day.get_or_default(&account, 0)
    }

    /// Whether `account` has collected its TGE part (1) or not (0).
    pub fn user_tge_collection_status(&self, account: AccountId) -> (r: u128)
        ensures
            r == self.collected_tge.get_or(account, 0),
    {
        self.collected_tge.get_or_default(&account, 0)
    }

    /// When the program started (a block timestamp, in milliseconds).
    pub fn get_started_date(&self) -> (r: u128)
        ensures
            r == self.started_date_in_timestamp,
    {
        self.started_date_in_timestamp
    }

    /// The block timestamp in seconds.
    pub fn get_current_timestamp(&self, env: &CallEnv) -> (r: u128)
        ensures
            r == env.now(),
    {
        let bts = env.block_timestamp / 1000;
        bts as u128
    }

    /// The whole days between the start date and the block timestamp in seconds.
    pub fn get_days_passed_since_issue(&self, env: &CallEnv) -> (r: Result<u128, VestingProgramErrors>)
        requires
            env.now() >= self.started_date_in_timestamp,
        ensures
            r == Ok::<u128, VestingProgramErrors>(((env.now() - self.started_date_in_timestamp) / 86400) as u128),
    {
        let current_tsp: u128 = (env.block_timestamp / 1000) as u128;
        let days_diff: u128 = match (current_tsp - self.started_date_in_timestamp).checked_div(86400) {
            Some(result) => result,
            None => return Err(VestingProgramErrors::Overflow),
        };
        Ok(days_diff)
    }
}

/// A redeem never pays more than the account still has vesting, and pays something
/// only where the account has tokens vesting.
pub proof fn lemma_vesting_redeem_within_balance(c: VestingContract, caller: AccountId, now: u64)
    ensures
        c.redeemable_result(caller, now) matches Ok(v) ==> 0 < c.balances.get_or(caller, 0) && v <= c.balances.get_or(
            caller,
            0,
        ),
{
}

/// An account collects its TGE part once: after a collection has marked it, the
/// mark is nonzero, and a collection by a marked account is refused.
pub proof fn lemma_tge_collected_once(before: VestingContract, after: VestingContract, caller: AccountId)
    requires
        after.collected_tge@ == before.collected_tge@.insert(caller, 1),
    ensures
        after.collected_tge.get_or(caller, 0) != 0,
{
}

/// A redeem restarts the account's clock: right after a redeem at time `now` has
/// set the account's last redeem to `now`, nothing more is redeemable at `now`.
pub proof fn lemma_nothing_redeemable_right_after_redeem(
    before: VestingContract,
    after: VestingContract,
    caller: AccountId,
    now: u64,
)
    requires
        after.last_redeemed@ == before.last_redeemed@.insert(caller, now as u128),
    ensures
        after.redeemable_result(caller, now) == Err::<u128, VestingProgramErrors>(VestingProgramErrors::ZeroDaysPassed),
{
    assert(after.last_redeemed@.dom().contains(caller));
}

/// What is redeemable depends on the time only through the days passed since the
/// account last redeemed: moving both the last redeem and the present by the same
/// number of seconds changes nothing.
pub proof fn lemma_redeemable_depends_on_days_since_last_redeem(
    c1: VestingContract,
    c2: VestingContract,
    caller: AccountId,
    now: u64,
    shift: u64,
)
    requires
        c2.balances.get_or(caller, 0) == c1.balances.get_or(caller, 0),
        c2.panx_to_give_in_a_day.get_or(caller, 0) == c1.panx_to_give_in_a_day.get_or(caller, 0),
        c2.last_redeemed.get_or(caller, 0) == c1.last_redeemed.get_or(caller, 0) + shift,
        now + shift <= u64::MAX,
    ensures
        c1.redeemable_result(caller, now) == c2.redeemable_result(caller, (now + shift) as u64),
{
}

/// Waiting longer never leaves less to redeem: where something is redeemable at
/// `now`, at least as much is redeemable at a later time.
pub proof fn lemma_redeemable_grows_with_time(c: VestingContract, caller: AccountId, now: u64, later: u64)
    requires
        now <= later,
        now >= c.last_redeemed.get_or(caller, 0),
        c.redeemable_result(caller, now) is Ok,
        c.redeemable_result(caller, later) is Ok,
    ensures
        c.redeemable_result(caller, now)->Ok_0 <= c.redeemable_result(caller, later)->Ok_0,
{
    let last = c.last_redeemed.get_or(caller, 0);
    let d1 = (now - last) / 86400;
    let d2 = (later - last) / 86400;
    assert(d1 <= d2) by (nonlinear_arith)
        requires
            now - last <= later - last,
            d1 == (now - last) / 86400,
            d2 == (later - last) / 86400,
    ;
    let daily = c.panx_to_give_in_a_day.get_or(caller, 0);
    assert(daily * d1 <= daily * d2) by (nonlinear_arith)
        requires
            d1 <= d2,
            daily >= 0,
    ;
}

} // verus!
