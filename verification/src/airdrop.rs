//! The PANX airdrop: each account can claim 50 or 500 PANX, once.
use crate::account::{AccountId, Mapping};
use crate::env::{CallEnv, ChainCall, Planned};
use vstd::prelude::*;

verus! {

/// 10^12, one PANX.
pub const E12: u128 = 1_000_000_000_000u128;

/// The possible errors of the airdrop.
#[derive(Debug, Clone, Copy, PartialEq, Eq)]
pub enum AirDropErrors {
    CallerRedeemedAirdrop,
    Overflow,
    PSP22TransferFailed,
}

/// Emitted when 50 PANX are claimed.
#[derive(Debug, Clone, Copy, PartialEq, Eq)]
pub struct PanxClaim50 {
    pub caller: AccountId,
}

/// Emitted when 500 PANX are claimed.
#[derive(Debug, Clone, Copy, PartialEq, Eq)]
pub struct PanxClaim500 {
    pub caller: AccountId,
}

/// The storage of the airdrop contract.
#[derive(Debug, Clone)]
pub struct AirdropContract {
    pub panx_psp22: AccountId,
    pub collected_airdrop: Mapping<AccountId, i64>,
}

impl AirdropContract {
    /// A new airdrop of `panx_contract` tokens that nobody has claimed.
    pub fn new(panx_contract: AccountId) -> (r: Self)
        ensures
            r.panx_psp22 == panx_contract,
            r.collected_airdrop@ == Map::<AccountId, i64>::empty(),
    {
        AirdropContract { panx_psp22: panx_contract, collected_airdrop: Mapping::new() }
    }

    /// Claims `whole_tokens` PANX for the caller, who must not have claimed before.
    fn collect(&mut self, env: &CallEnv, whole_tokens: u128) -> (r: Result<Vec<Planned<AirDropErrors>>, AirDropErrors>)
        requires
            whole_tokens * E12 <= u128::MAX,
        ensures
            old(self).collected_airdrop.get_or(env.caller, 0) != 0 ==> r == Err::<Vec<Planned<AirDropErrors>>, AirDropErrors>(
                AirDropErrors::CallerRedeemedAirdrop,
            ) && *final(self) == *old(self),
            old(self).collected_airdrop.get_or(env.caller, 0) == 0 ==> {
                &&& r matches Ok(calls)
                &&& calls@ == seq![
                    Planned {
                        call: ChainCall::Psp22Transfer { token: old(self).panx_psp22, to: env.caller, amount: (whole_tokens * E12) as u128 },
                        on_failure: AirDropErrors::PSP22TransferFailed,
                    },
                ]
                &&& final(self).panx_psp22 == old(self).panx_psp22
                &&& final(self).collected_airdrop@ == old(self).collected_airdrop@.insert(env.caller, 1)
            },
    {
        if self.collected_airdrop.get_or_default(&env.caller, 0) != 0 {
            return Err(AirDropErrors::CallerRedeemedAirdrop);
        }
        let tokens_to_transfer: u128 = match whole_tokens.checked_mul(E12) {
            Some(result) => result,
            None => return Err(AirDropErrors::Overflow),
        };
        let mut calls: Vec<Planned<AirDropErrors>> = Vec::new();
        calls.push(Planned {
            call: ChainCall::Psp22Transfer { token: self.panx_psp22, to: env.caller, amount: tokens_to_transfer },
            on_failure: AirDropErrors::PSP22TransferFailed,
        });
        self.collected_airdrop.insert(env.caller, 1);
        Ok(calls)
    }

    /// The caller claims 50 PANX: returns the transfer to make and the event.
    pub fn collect_50_tokens(&mut self, env: &CallEnv) -> (r: Result<(Vec<Planned<AirDropErrors>>, PanxClaim50), AirDropErrors>)
        ensures
            old(self).collected_airdrop.get_or(env.caller, 0) != 0 ==> r == Err::<
                (Vec<Planned<AirDropErrors>>, PanxClaim50),
                AirDropErrors,
            >(AirDropErrors::CallerRedeemedAirdrop) && *final(self) == *old(self),
            old(self).collected_airdrop.get_or(env.caller, 0) == 0 ==> {
                &&& r matches Ok((calls, event))
                &&& calls@ == seq![
                    Planned {
                        call: ChainCall::Psp22Transfer { token: old(self).panx_psp22, to: env.caller, amount: 50_000_000_000_000u128 },
                        on_failure: AirDropErrors::PSP22TransferFailed,
                    },
                ]
                &&& event == PanxClaim50 { caller: env.caller }
                &&& final(self).panx_psp22 == old(self).panx_psp22
                &&& final(self).collected_airdrop@ == old(self).collected_airdrop@.insert(env.caller, 1)
            },
    {
        match self.collect(env, 50) {
            Ok(calls) => Ok((calls, PanxClaim50 { caller: env.caller })),
            Err(e) => Err(e),
        }
    }

    /// The caller claims 500 PANX: returns the transfer to make and the event.
    pub fn collect_500_tokens(&mut self, env: &CallEnv) -> (r: Result<(Vec<Planned<AirDropErrors>>, PanxClaim500), AirDropErrors>)
        ensures
            old(self).collected_airdrop.get_or(env.caller, 0) != 0 ==> r == Err::<
                (Vec<Planned<AirDropErrors>>, PanxClaim500),
                AirDropErrors,
            >(AirDropErrors::CallerRedeemedAirdrop) && *final(self) == *old(self),
            old(self).collected_airdrop.get_or(env.caller, 0) == 0 ==> {
                &&& r matches Ok((calls, event))
                &&& calls@ == seq![
                    Planned {
                        call: ChainCall::Psp22Transfer { token: old(self).panx_psp22, to: env.caller, amount: 500_000_000_000_000u128 },
                        on_failure: AirDropErrors::PSP22TransferFailed,
                    },
                ]
                &&& event == PanxClaim500 { caller: env.caller }
                &&& final(self).panx_psp22 == old(self).panx_psp22
                &&& final(self).collected_airdrop@ == old(self).collected_airdrop@.insert(env.caller, 1)
            },
    {
        match self.collect(env, 500) {
            Ok(calls) => Ok((calls, PanxClaim500 { caller: env.caller })),
            Err(e) => Err(e),
        }
    }

    /// Whether `account` has claimed (1) or not (0).
    pub fn user_airdrop_collection_status(&self, account: AccountId) -> (r: i64)
        ensures
            r == self.collected_airdrop.get_or(account, 0),
    {
        self.collected_airdrop.get_or_default(&account, 0)
    }
}

/// An account claims the airdrop at most once: after a claim has marked it, the
/// mark is nonzero, and a claim of either amount by a marked account is refused.
pub proof fn lemma_airdrop_claimed_once(before: AirdropContract, after: AirdropContract, caller: AccountId)
    requires
        after.collected_airdrop@ == before.collected_airdrop@.insert(caller, 1),
    ensures
        after.collected_airdrop.get_or(caller, 0) != 0,
{
}

} // verus!
