//! The PANX staking program: accounts lock at least 1000 PANX and earn 5% a year,
//! paid daily, which they can redeem or stake again.
use crate::account::{AccountId, Mapping};
use crate::env::{CallEnv, ChainCall, Planned};
use vstd::prelude::*;

verus! {

#[derive(Debug, Clone, Copy, PartialEq, Eq)]
pub enum StakingErrors {
    CallerInsufficientPSP22Balance,
    CallerInsufficientPSP22LockedBalance,
    NoRedeemableAmount,
    ZeroDaysPassed,
    NotEnoghtPSP22ToLock,
    NotEnoughAllowance,
    Overflow,
    PSP22TransferFromFailed,
    PSP22TransferFailed,
    LessThanMinimumRequired,
}

/// The storage of the staking contract.
#[derive(Debug, Clone)]
pub struct StakingContract {
    pub manager: AccountId,
    pub psp22_contract: AccountId,
    pub started_date_in_timestamp: u128,
    pub balances: Mapping<AccountId, u128>,
    pub psp22_to_give_in_a_day: Mapping<AccountId, u128>,
    pub last_redeemed: Mapping<AccountId, u64>,
    pub staking_percentage: u128,
    pub account_overall_taken_rewards: Mapping<AccountId, u128>,
}

/// The least PANX (in units of 10^-12) that an account must hold to enter staking.
pub open spec fn minimum_to_enter() -> u128 {
    1_000_000_000_000_000u128
}

/// The daily reward on `locked` tokens at `percentage` a year.
pub open spec fn daily_reward(locked: int, percentage: u128) -> int {
    locked * percentage / 100 / 365
}

/// A stake that has passed its checks: the tokens still have to be moved in.
#[derive(Debug, Clone, Copy)]
pub struct StakePlan {
    caller: AccountId,
    caller_balance: u128,
    locked_balance: u128,
    psp22_to_lock: u128,
    entering: bool,
    transfer_from: Planned<StakingErrors>,
}

impl StakePlan {
    /// The account that stakes.
    pub closed spec fn spec_caller(&self) -> AccountId {
        self.caller
    }

    /// The account that stakes.
    #[verifier::when_used_as_spec(spec_caller)]
    pub fn caller(&self) -> (r: AccountId)
        ensures
            r == self.spec_caller(),
    {
        self.caller
    }

    /// The account's balance before the tokens were moved in.
    pub closed spec fn spec_caller_balance(&self) -> u128 {
        self.caller_balance
    }

    /// The account's balance before the tokens were moved in.
    #[verifier::when_used_as_spec(spec_caller_balance)]
    pub fn caller_balance(&self) -> (r: u128)
        ensures
            r == self.spec_caller_balance(),
    {
        self.caller_balance
    }

    /// The tokens the account had locked before.
    pub closed spec fn spec_locked_balance(&self) -> u128 {
        self.locked_balance
    }

    /// The tokens the account had locked before.
    #[verifier::when_used_as_spec(spec_locked_balance)]
    pub fn locked_balance(&self) -> (r: u128)
        ensures
            r == self.spec_locked_balance(),
    {
        self.locked_balance
    }

    /// The tokens to lock.
    pub closed spec fn spec_psp22_to_lock(&self) -> u128 {
        self.psp22_to_lock
    }

    /// The tokens to lock.
    #[verifier::when_used_as_spec(spec_psp22_to_lock)]
    pub fn psp22_to_lock(&self) -> (r: u128)
        ensures
            r == self.spec_psp22_to_lock(),
    {
        self.psp22_to_lock
    }

    /// Whether the account enters the program with this stake.
    pub closed spec fn spec_entering(&self) -> bool {
        self.entering
    }

    /// Whether the account enters the program with this stake.
    #[verifier::when_used_as_spec(spec_entering)]
    pub fn entering(&self) -> (r: bool)
        ensures
            r == self.spec_entering(),
    {
        self.entering
    }

    /// The `transfer_from` that moves the account's tokens in.
    pub closed spec fn spec_transfer_from(&self) -> Planned<StakingErrors> {
        self.transfer_from
    }

    /// The `transfer_from` that moves the account's tokens in.
    #[verifier::when_used_as_spec(spec_transfer_from)]
    pub fn transfer_from(&self) -> (r: Planned<StakingErrors>)
        ensures
            r == self.spec_transfer_from(),
    {
        self.transfer_from
    }
}

impl StakingContract {
    /// A new staking program for `psp22_contract`, managed by the caller and started
    /// at the block timestamp (in milliseconds).  The staking percentage is 5,
    /// whatever `staking_percentage` is given.
    pub fn new(env: &CallEnv, psp22_contract: AccountId, staking_percentage: u128) -> (r: Self)
        ensures
            r.manager == env.caller,
            r.psp22_contract == psp22_contract,
            r.started_date_in_timestamp == env.block_timestamp,
            r.balances@ == Map::<AccountId, u128>::empty(),
            r.psp22_to_give_in_a_day@ == Map::<AccountId, u128>::empty(),
            r.last_redeemed@ == Map::<AccountId, u64>::empty(),
            r.staking_percentage == 5,
            r.account_overall_taken_rewards@ == Map::<AccountId, u128>::empty(),
    {
        StakingContract {
            manager: env.caller,
            psp22_contract,
            started_date_in_timestamp: env.block_timestamp as u128,
            balances: Mapping::new(),
            psp22_to_give_in_a_day: Mapping::new(),
            last_redeemed: Mapping::new(),
            staking_percentage: 5,
            account_overall_taken_rewards: Mapping::new(),
        }
    }

    /// Checks a stake of `psp22_to_lock` tokens by the caller, who holds
    /// `caller_current_psp22_balance` and allowed the contract `contract_allowance`.
    /// An account with nothing locked must hold and lock at least 1000 PANX.  On
    /// success the tokens still have to be moved in; `settle_add_to_staking` finishes.
    pub fn add_to_staking(
        &self,
        env: &CallEnv,
        caller_current_psp22_balance: u128,
        contract_allowance: u128,
        psp22_to_lock: u128,
    ) -> (r: Result<StakePlan, StakingErrors>)
        ensures
            ({
                let locked = self.balances.get_or(env.caller, 0);
                let entering = caller_current_psp22_balance >= minimum_to_enter() && locked == 0;
                if entering && psp22_to_lock < minimum_to_enter() {
                    r == Err::<StakePlan, StakingErrors>(StakingErrors::NotEnoghtPSP22ToLock)
                } else if locked == 0 && !entering {
                    r == Err::<StakePlan, StakingErrors>(StakingErrors::LessThanMinimumRequired)
                } else if contract_allowance < psp22_to_lock {
                    r == Err::<StakePlan, StakingErrors>(StakingErrors::NotEnoughAllowance)
                } else if caller_current_psp22_balance < psp22_to_lock {
                    r == Err::<StakePlan, StakingErrors>(StakingErrors::CallerInsufficientPSP22Balance)
                } else {
                    &&& r matches Ok(plan)
                    &&& plan.caller() == env.caller
                    &&& plan.caller_balance() == caller_current_psp22_balance
                    &&& plan.locked_balance() == locked
                    &&& plan.psp22_to_lock() == psp22_to_lock
                    &&& plan.entering() == entering
                    &&& plan.transfer_from() == Planned {
                        call: ChainCall::Psp22TransferFrom {
                            token: self.psp22_contract,
                            from: env.caller,
                            to: env.account_id,
                            amount: psp22_to_lock,
                        },
                        on_failure: StakingErrors::PSP22TransferFromFailed,
                    }
                }
            }),
    {
        let caller = env.caller;
        let caller_locked_psp22_balance: u128 = self.balances.get_or_default(&caller, 0);
        let minimum_psp22_tokens_to_enter: u128 = 1000 * 1_000_000_000_000u128;
        let entering = caller_current_psp22_balance >= minimum_psp22_tokens_to_enter && caller_locked_psp22_balance == 0;
        if entering && psp22_to_lock < minimum_psp22_tokens_to_enter {
            return Err(StakingErrors::NotEnoghtPSP22ToLock);
        }
        if !entering && caller_locked_psp22_balance == 0 {
            return Err(StakingErrors::LessThanMinimumRequired);
        }
        if contract_allowance < psp22_to_lock {
            return Err(StakingErrors::NotEnoughAllowance);
        }
        if caller_current_psp22_balance < psp22_to_lock {
            return Err(StakingErrors::CallerInsufficientPSP22Balance);
        }
        Ok(StakePlan {
            caller,
            caller_balance: caller_current_psp22_balance,
            locked_balance: caller_locked_psp22_balance,
            psp22_to_lock,
            entering,
            transfer_from: Planned {
                call: ChainCall::Psp22TransferFrom {
                    token: self.psp22_contract,
                    from: caller,
                    to: env.account_id,
                    amount: psp22_to_lock,
                },
                on_failure: StakingErrors::PSP22TransferFromFailed,
            },
        })
    }

    /// Finishes a stake once the `transfer_from` of `plan` went through and the
    /// caller's balance reads `caller_balance_after_transfer`: locks the tokens and
    /// sets the caller's daily reward; an account entering starts its redeem clock.
    pub fn settle_add_to_staking(&mut self, env: &CallEnv, plan: &StakePlan, caller_balance_after_transfer: u128) -> (r:
        Result<(), StakingErrors>)
        requires
            plan.caller() == env.caller,
            plan.locked_balance() + plan.psp22_to_lock() <= u128::MAX ==> (plan.locked_balance() + plan.psp22_to_lock())
                * old(self).staking_percentage <= u128::MAX,
        ensures
            ({
                let new_locked = plan.locked_balance() + plan.psp22_to_lock();
                if caller_balance_after_transfer == plan.caller_balance() {
                    r == Err::<(), StakingErrors>(StakingErrors::PSP22TransferFromFailed) && *final(self) == *old(self)
                } else if new_locked > u128::MAX {
                    r == Err::<(), StakingErrors>(StakingErrors::Overflow) && *final(self) == *old(self)
                } else {
                    &&& r is Ok
                    &&& *final(self) == (StakingContract {
                        balances: final(self).balances,
                        psp22_to_give_in_a_day: final(self).psp22_to_give_in_a_day,
                        last_redeemed: final(self).last_redeemed,
                        ..*old(self)
                    })
                    &&& final(self).balances@ == old(self).balances@.insert(plan.caller(), new_locked as u128)
                    &&& final(self).psp22_to_give_in_a_day@ == old(self).psp22_to_give_in_a_day@.insert(
                        plan.caller(),
                        daily_reward(new_locked, old(self).staking_percentage) as u128,
                    )
                    &&& final(self).last_redeemed@ == if plan.entering() {
                        old(self).last_redeemed@.insert(plan.caller(), env.now())
                    } else {
                        old(self).last_redeemed@
                    }
                }
            }),
    {
        if caller_balance_after_transfer == plan.caller_balance() {
            return Err(StakingErrors::PSP22TransferFromFailed);
        }
        let new_locked_balance: u128 = match plan.locked_balance().checked_add(plan.psp22_to_lock()) {
            Some(result) => result,
            None => return Err(StakingErrors::Overflow),
        };
        self.balances.insert(plan.caller(), new_locked_balance);
        let amount_of_psp22_tokens_to_give_each_day: u128 = match ((new_locked_balance * self.staking_percentage) / 100u128).checked_div(365) {
            Some(result) => result,
            None => return Err(StakingErrors::Overflow),
        };
        self.psp22_to_give_in_a_day.insert(plan.caller(), amount_of_psp22_tokens_to_give_each_day);
        if plan.entering() {
            let now = self.get_current_timestamp(env);
            self.last_redeemed.insert(plan.caller(), now);
        }
        Ok(())
    }

    /// What `get_redeemable_amount` returns for `caller` at time `now`.
    pub open spec fn redeemable_result(&self, caller: AccountId, now: u64) -> Result<u128, StakingErrors> {
        let days = (now - self.last_redeemed.get_or(caller, 0)) / 86400;
        if days <= 0 {
            Err(StakingErrors::ZeroDaysPassed)
        } else if self.balances.get_or(caller, 0) <= 0 {
            Err(StakingErrors::CallerInsufficientPSP22LockedBalance)
        } else {
            Ok((self.psp22_to_give_in_a_day.get_or(caller, 0) * days) as u128)
        }
    }

    /// A redeem for `caller` at time `now` can be computed without a panic.
    pub open spec fn redeem_defined(&self, caller: AccountId, now: u64) -> bool {
        &&& now >= self.last_redeemed.get_or(caller, 0)
        &&& self.psp22_to_give_in_a_day.get_or(caller, 0) * ((now - self.last_redeemed.get_or(caller, 0)) / 86400) <= u128::MAX
    }

    /// The rewards that the caller can redeem now: its daily reward for each whole
    /// day since it last redeemed, where a day has passed and it has tokens locked.
    pub fn get_redeemable_amount(&self, env: &CallEnv) -> (r: Result<u128, StakingErrors>)
        requires
            self.redeem_defined(env.caller, env.now()),
        ensures
            r == self.redeemable_result(env.caller, env.now()),
    {
        let caller = env.caller;
        let current_tsp = self.get_current_timestamp(env);
        let caller_total_locked_psp22_balance: u128 = self.get_caller_total_locked_amount(caller);
        let last_redeemed: u64 = self.last_redeemed.get_or_default(&caller, 0);
        let psp22_to_give_each_day: u128 = self.psp22_to_give_in_a_day.get_or_default(&caller, 0);
        let days_difference: u64 = match (current_tsp - last_redeemed).checked_div(86400) {
            Some(result) => result,
            None => return Err(StakingErrors::Overflow),
        };
        if days_difference <= 0 {
            return Err(StakingErrors::ZeroDaysPassed);
        }
        if caller_total_locked_psp22_balance <= 0 {
            return Err(StakingErrors::CallerInsufficientPSP22LockedBalance);
        }
        let psp22_redeemable_amount: u128 = psp22_to_give_each_day * (days_difference as u128);
        Ok(psp22_redeemable_amount)
    }

    /// The caller redeems its rewards: returns the transfer to make.  The overall
    /// rewards of the caller are set to this redeem's amount.
    pub fn redeem_redeemable_amount(&mut self, env: &CallEnv) -> (r: Result<Vec<Planned<StakingErrors>>, StakingErrors>)
        requires
            old(self).redeem_defined(env.caller, env.now()),
        ensures
            ({
                let amount = match old(self).redeemable_result(env.caller, env.now()) {
                    Ok(v) => v,
                    Err(_) => 0u128,
                };
                if amount == 0 {
                    r == Err::<Vec<Planned<StakingErrors>>, StakingErrors>(StakingErrors::NoRedeemableAmount)
                        && *final(self) == *old(self)
                } else {
                    &&& r matches Ok(calls)
                    &&& calls@ == seq![
                        Planned {
                            call: ChainCall::Psp22Transfer { token: old(self).psp22_contract, to: env.caller, amount },
                            on_failure: StakingErrors::PSP22TransferFailed,
                        },
                    ]
                    &&& *final(self) == (StakingContract {
                        account_overall_taken_rewards: final(self).account_overall_taken_rewards,
                        last_redeemed: final(self).last_redeemed,
                        ..*old(self)
                    })
                    &&& final(self).account_overall_taken_rewards@ == old(self).account_overall_taken_rewards@.insert(env.caller, amount)
                    &&& final(self).last_redeemed@ == old(self).last_redeemed@.insert(env.caller, env.now())
                }
            }),
    {
        let caller = env.caller;
        let current_tsp = self.get_current_timestamp(env);
        let psp22_redeemable_amount: u128 = match self.get_redeemable_amount(env) {
            Ok(v) => v,
            Err(_) => 0,
        };
        if psp22_redeemable_amount <= 0 {
            return Err(StakingErrors::NoRedeemableAmount);
        }
        let mut calls: Vec<Planned<StakingErrors>> = Vec::new();
        calls.push(Planned {
            call: ChainCall::Psp22Transfer { token: self.psp22_contract, to: caller, amount: psp22_redeemable_amount },
            on_failure: StakingErrors::PSP22TransferFailed,
        });
        self.account_overall_taken_rewards.insert(caller, psp22_redeemable_amount);
        self.last_redeemed.insert(caller, current_tsp);
        Ok(calls)
    }

    /// The caller stakes its rewards again: they are added to its locked tokens and
    /// its daily reward grows with them.
    pub fn auto_stack(&mut self, env: &CallEnv) -> (r: Result<(), StakingErrors>)
        requires
            old(self).redeem_defined(env.caller, env.now()),
            ({
                let amount = match old(self).redeemable_result(env.caller, env.now()) {
                    Ok(v) => v,
                    Err(_) => 0u128,
                };
                let new_locked = old(self).balances.get_or(env.caller, 0) + amount;
                &&& new_locked <= u128::MAX
                &&& new_locked * old(self).staking_percentage <= u128::MAX
            }),
        ensures
            ({
                let amount = match old(self).redeemable_result(env.caller, env.now()) {
                    Ok(v) => v,
                    Err(_) => 0u128,
                };
                let new_locked = old(self).balances.get_or(env.caller, 0) + amount;
                if amount == 0 {
                    r == Err::<(), StakingErrors>(StakingErrors::NoRedeemableAmount) && *final(self) == *old(self)
                } else {
                    &&& r is Ok
                    &&& *final(self) == (StakingContract {
                        balances: final(self).balances,
                        psp22_to_give_in_a_day: final(self).psp22_to_give_in_a_day,
                        account_overall_taken_rewards: final(self).account_overall_taken_rewards,
                        last_redeemed: final(self).last_redeemed,
                        ..*old(self)
                    })
                    &&& final(self).balances@ == old(self).balances@.insert(env.caller, new_locked as u128)
                    &&& final(self).psp22_to_give_in_a_day@ == old(self).psp22_to_give_in_a_day@.insert(
                        env.caller,
                        daily_reward(new_locked, old(self).staking_percentage) as u128,
                    )
                    &&& final(self).account_overall_taken_rewards@ == old(self).account_overall_taken_rewards@.insert(env.caller, amount)
                    &&& final(self).last_redeemed@ == old(self).last_redeemed@.insert(env.caller, env.now())
                }
            }),
    {
        let caller = env.caller;
        let current_tsp = self.get_current_timestamp(env);
        let caller_total_psp22_locked_amount: u128 = self.get_caller_total_locked_amount(caller);
        let psp22_redeemable_amount: u128 = match self.get_redeemable_amount(env) {
            Ok(v) => v,
            Err(_) => 0,
        };
        if psp22_redeemable_amount <= 0 {
            return Err(StakingErrors::NoRedeemableAmount);
        }
        self.last_redeemed.insert(caller, current_tsp);
        let new_psp22_locked_balance: u128 = caller_total_psp22_locked_amount + psp22_redeemable_amount;
        let new_amount_of_psp22_to_give_each_day: u128 = match ((new_psp22_locked_balance * self.staking_percentage) / 100u128).checked_div(365) {
            Some(result) => result,
            None => return Err(StakingErrors::Overflow),
        };
        self.psp22_to_give_in_a_day.insert(caller, new_amount_of_psp22_to_give_each_day);
        self.balances.insert(caller, new_psp22_locked_balance);
        self.account_overall_taken_rewards.insert(caller, psp22_redeemable_amount);
        Ok(())
    }

    /// The caller takes `amount_of_tokens_to_withdraw` of its locked tokens back: its
    /// daily reward shrinks with them; returns the transfer to make.
    pub fn withdraw_specific_amount(&mut self, env: &CallEnv, amount_of_tokens_to_withdraw: u128) -> (r: Result<
        Vec<Planned<StakingErrors>>,
        StakingErrors,
    >)
        requires
            old(self).balances.get_or(env.caller, 0) >= amount_of_tokens_to_withdraw ==> (old(self).balances.get_or(env.caller, 0)
                - amount_of_tokens_to_withdraw) * old(self).staking_percentage <= u128::MAX,
        ensures
            ({
                let locked = old(self).balances.get_or(env.caller, 0);
                if locked < amount_of_tokens_to_withdraw {
                    r == Err::<Vec<Planned<StakingErrors>>, StakingErrors>(StakingErrors::CallerInsufficientPSP22LockedBalance)
                        && *final(self) == *old(self)
                } else {
                    &&& r matches Ok(calls)
                    &&& calls@ == seq![
                        Planned {
                            call: ChainCall::Psp22Transfer {
                                token: old(self).psp22_contract,
                                to: env.caller,
                                amount: amount_of_tokens_to_withdraw,
                            },
                            on_failure: StakingErrors::PSP22TransferFailed,
                        },
                    ]
                    &&& *final(self) == (StakingContract {
                        balances: final(self).balances,
                        psp22_to_give_in_a_day: final(self).psp22_to_give_in_a_day,
                        ..*old(self)
                    })
                    &&& final(self).balances@ == old(self).balances@.insert(
                        env.caller,
                        (locked - amount_of_tokens_to_withdraw) as u128,
                    )
                    &&& final(self).psp22_to_give_in_a_day@ == old(self).psp22_to_give_in_a_day@.insert(
                        env.caller,
                        daily_reward(locked - amount_of_tokens_to_withdraw, old(self).staking_percentage) as u128,
                    )
                }
            }),
    {
        let caller = env.caller;
        let caller_total_psp22_locked_amount: u128 = self.balances.get_or_default(&caller, 0);
        if caller_total_psp22_locked_amount < amount_of_tokens_to_withdraw {
            return Err(StakingErrors::CallerInsufficientPSP22LockedBalance);
        }
        let new_psp22_locked_balance = caller_total_psp22_locked_amount - amount_of_tokens_to_withdraw;
        self.balances.insert(caller, new_psp22_locked_balance);
        let new_amount_to_give_each_day: u128 = match ((new_psp22_locked_balance * self.staking_percentage) / 100u128).checked_div(365) {
            Some(result) => result,
            None => return Err(StakingErrors::Overflow),
        };
        self.psp22_to_give_in_a_day.insert(caller, new_amount_to_give_each_day);
        let mut calls: Vec<Planned<StakingErrors>> = Vec::new();
        calls.push(Planned {
            call: ChainCall::Psp22Transfer { token: self.psp22_contract, to: caller, amount: amount_of_tokens_to_withdraw },
            on_failure: StakingErrors::PSP22TransferFailed,
        });
        Ok(calls)
    }

    /// The tokens that `caller` has locked.
    pub fn get_caller_total_locked_amount(&self, caller: AccountId) -> (r: u128)
        ensures
            r == self.balances.get_or(caller, 0),
    {
        self.balances.get_or_default(&caller, 0)
    }

    /// When `caller` last redeemed, in seconds.
    pub fn get_caller_last_redeem(&self, caller: AccountId) -> (r: u64)
        ensures
            r == self.last_redeemed.get_or(caller, 0),
    {
        self.last_redeemed.get_or_default(&caller, 0)
    }

    /// The daily reward of `caller`.
    pub fn get_amount_to_give_each_day_to_caller(&self, caller: AccountId) -> (r: u128)
        ensures
            r == self.psp22_to_give_in_a_day.get_or(caller, 0),
    {
        self.psp22_to_give_in_a_day.get_or_default(&caller, 0)
    }

    /// When the program started (a block timestamp, in milliseconds).
    pub fn get_started_date(&self) -> (r: u128)
        ensures
            r == self.started_date_in_timestamp,
    {
        self.started_date_in_timestamp
    }

    /// The block timestamp in seconds.
    pub fn get_current_timestamp(&self, env: &CallEnv) -> (r: u64)
        ensures
            r == env.now(),
    {
        env.current_timestamp()
    }

    /// The whole days between the start date and the block timestamp in seconds.
    pub fn get_days_passed_since_issue(&self, env: &CallEnv) -> (r: u128)
        requires
            env.now() >= self.started_date_in_timestamp,
        ensures
            r == (env.now() - self.started_date_in_timestamp) / 86400,
    {
        let current_tsp: u128 = (env.block_timestamp / 1000) as u128;
        (current_tsp - self.started_date_in_timestamp) / 86400
    }
}

} // verus!
