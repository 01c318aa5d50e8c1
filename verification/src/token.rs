//! PSP22 tokens: the error type of the standard and the project's own token.
use crate::account::{AccountId, Mapping};
use crate::env::CallEnv;
use vstd::prelude::*;

verus! {

/// The errors of the PSP22 standard.
#[derive(Debug, Clone, PartialEq, Eq)]
pub enum PSP22Error {
    /// Custom error type for implementation-based errors.
    Custom(String),
    /// Returned when an account does not have enough tokens to complete the operation.
    InsufficientBalance,
    /// Returned if there is not enough allowance to complete the operation.
    InsufficientAllowance,
    /// Returned if recipient's address is zero.
    ZeroRecipientAddress,
    /// Returned if sender's address is zero.
    ZeroSenderAddress,
    /// Returned if a safe transfer check failed.
    SafeTransferCheckFailed(String),
}

/// Emitted when tokens move; `from` is `None` for a mint.
#[derive(Debug, Clone, Copy, PartialEq, Eq)]
pub struct Transfer {
    pub from: Option<AccountId>,
    pub to: Option<AccountId>,
    pub value: u128,
}

/// Emitted when an allowance is set.
#[derive(Debug, Clone, Copy, PartialEq, Eq)]
pub struct Approval {
    pub owner: AccountId,
    pub spender: AccountId,
    pub value: u128,
}

/// The ledger of a PSP22 token: its supply, balances and allowances.
#[derive(Debug, Clone)]
pub struct Psp22Data {
    pub supply: u128,
    pub balances: Mapping<AccountId, u128>,
    pub allowances: Mapping<(AccountId, AccountId), u128>,
}

/// The metadata of a PSP22 token.
#[derive(Debug, Clone)]
pub struct Psp22Metadata {
    pub name: Option<String>,
    pub symbol: Option<String>,
    pub decimals: u8,
}

impl Psp22Data {
    /// An empty ledger.
    pub fn new() -> (r: Self)
        ensures
            r.supply == 0,
            r.balances@ == Map::<AccountId, u128>::empty(),
            r.allowances@ == Map::<(AccountId, AccountId), u128>::empty(),
            r.balances.total() == 0,
    {
        let r = Psp22Data { supply: 0, balances: Mapping::new(), allowances: Mapping::new() };
        proof {
            Mapping::<AccountId, u128>::lemma_total_empty(&r.balances);
        }
        r
    }

    /// Mints `amount` to `account`: its balance and the supply grow by `amount`.
    pub fn mint_to(&mut self, account: AccountId, amount: u128)
        requires
            old(self).balances.get_or(account, 0) + amount <= u128::MAX,
            old(self).supply + amount <= u128::MAX,
        ensures
            final(self).supply == old(self).supply + amount,
            final(self).balances@ == old(self).balances@.insert(account, (old(self).balances.get_or(account, 0) + amount) as u128),
            final(self).allowances@ == old(self).allowances@,
            final(self).balances.total() == old(self).balances.total() + amount,
    {
        let new_balance = self.balances.get_or_default(&account, 0) + amount;
        let ghost before = self.balances;
        self.balances.insert(account, new_balance);
        proof {
            Mapping::<AccountId, u128>::lemma_total_insert(&before, &self.balances, account, new_balance);
        }
        self.supply = self.supply + amount;
    }
}

/// The project's PSP22 token, with metadata.
#[derive(Debug, Clone)]
pub struct MyPsp22 {
    pub psp22: Psp22Data,
    pub metadata: Psp22Metadata,
    pub holders: u128,
    pub is_holder: Mapping<AccountId, bool>,
}

impl MyPsp22 {
    /// A new token whose whole `initial_supply` belongs to the caller; returns the
    /// mint event too.
    pub fn new(env: &CallEnv, initial_supply: u128, name: Option<String>, symbol: Option<String>, decimal: u8) -> (r: (
        Self,
        Transfer,
    ))
        ensures
            r.0.psp22.supply == initial_supply,
            r.0.psp22.balances@ == Map::<AccountId, u128>::empty().insert(env.caller, initial_supply),
            r.0.psp22.allowances@ == Map::<(AccountId, AccountId), u128>::empty(),
            r.0.metadata.decimals == decimal,
            r.0.metadata.name == name,
            r.0.metadata.symbol == symbol,
            r.1 == (Transfer { from: None, to: Some(env.caller), value: initial_supply }),
            r.0.psp22.balances.total() == r.0.psp22.supply,
    {
        let mut instance = MyPsp22 {
            psp22: Psp22Data::new(),
            metadata: Psp22Metadata { name: None, symbol: None, decimals: 0 },
            holders: 0,
            is_holder: Mapping::new(),
        };
        let event = match instance._mint_to(env.caller, initial_supply) {
            Ok(e) => e,
            Err(_) => Transfer { from: None, to: Some(env.caller), value: initial_supply },
        };
        instance.metadata.name = name;
        instance.metadata.symbol = symbol;
        instance.metadata.decimals = decimal;
        (instance, event)
    }

    /// The transfer event for a move of `amount` from `from` to `to`.
    pub fn _emit_transfer_event(&self, from: Option<AccountId>, to: Option<AccountId>, amount: u128) -> (r: Transfer)
        ensures
            r == (Transfer { from, to, value: amount }),
    {
        Transfer { from, to, value: amount }
    }

    /// The approval event for an allowance of `amount` from `owner` to `spender`.
    pub fn _emit_approval_event(&self, owner: AccountId, spender: AccountId, amount: u128) -> (r: Approval)
        ensures
            r == (Approval { owner, spender, value: amount }),
    {
        Approval { owner, spender, value: amount }
    }

    /// Sets the allowance of `spender` over `owner`'s tokens to `amount`.
    pub fn _approve_from_to(&mut self, owner: AccountId, spender: AccountId, amount: u128) -> (r: Result<Approval, PSP22Error>)
        ensures
            r == Ok::<Approval, PSP22Error>(Approval { owner, spender, value: amount }),
            final(self).psp22.allowances@ == old(self).psp22.allowances@.insert((owner, spender), amount),
            final(self).psp22.balances@ == old(self).psp22.balances@,
            final(self).psp22.supply == old(self).psp22.supply,
            *final(self) == (MyPsp22 { psp22: final(self).psp22, ..*old(self) }),
    {
        self.psp22.allowances.insert((owner, spender), amount);
        Ok(self._emit_approval_event(owner, spender, amount))
    }

    /// Mints `amount` to `account`.
    pub fn _mint_to(&mut self, account: AccountId, amount: u128) -> (r: Result<Transfer, PSP22Error>)
        requires
            old(self).psp22.balances.get_or(account, 0) + amount <= u128::MAX,
            old(self).psp22.supply + amount <= u128::MAX,
        ensures
            r == Ok::<Transfer, PSP22Error>(Transfer { from: None, to: Some(account), value: amount }),
            final(self).psp22.supply == old(self).psp22.supply + amount,
            final(self).psp22.balances@ == old(self).psp22.balances@.insert(
                account,
                (old(self).psp22.balances.get_or(account, 0) + amount) as u128,
            ),
            final(self).psp22.allowances@ == old(self).psp22.allowances@,
            *final(self) == (MyPsp22 { psp22: final(self).psp22, ..*old(self) }),
            final(self).psp22.balances.total() == old(self).psp22.balances.total() + amount,
    {
        self.psp22.mint_to(account, amount);
        Ok(self._emit_transfer_event(None, Some(account), amount))
    }

    /// Moves `amount` from `from` to `to`.  The recipient's balance is read after the
    /// sender's is written, so a move to oneself changes nothing.
    pub fn _transfer_from_to(&mut self, from: AccountId, to: AccountId, amount: u128, data: Vec<u8>) -> (r: Result<
        Transfer,
        PSP22Error,
    >)
        requires
            old(self).psp22.balances.get_or(from, 0) >= amount ==> (if from == to {
                old(self).psp22.balances.get_or(from, 0) as int
            } else {
                old(self).psp22.balances.get_or(to, 0) + amount
            }) <= u128::MAX,
        ensures
            ({
                let from_balance = old(self).psp22.balances.get_or(from, 0);
                let moved = old(self).psp22.balances@.insert(from, (from_balance - amount) as u128);
                let to_balance = if from == to { (from_balance - amount) as u128 } else { old(self).psp22.balances.get_or(to, 0) };
                if from_balance < amount {
                    r == Err::<Transfer, PSP22Error>(PSP22Error::InsufficientBalance) && final(self).psp22.balances@
                        == old(self).psp22.balances@
                } else {
                    &&& r == Ok::<Transfer, PSP22Error>(Transfer { from: Some(from), to: Some(to), value: amount })
                    &&& final(self).psp22.balances@ == moved.insert(to, (to_balance + amount) as u128)
                }
            }),
            final(self).psp22.supply == old(self).psp22.supply,
            final(self).psp22.allowances@ == old(self).psp22.allowances@,
            *final(self) == (MyPsp22 { psp22: final(self).psp22, ..*old(self) }),
            final(self).psp22.balances.get_or(from, 0) + final(self).psp22.balances.get_or(to, 0) == old(self).psp22.balances.get_or(
                from,
                0,
            ) + old(self).psp22.balances.get_or(to, 0),
            forall|a: AccountId|
                a != from && a != to ==> #[trigger] final(self).psp22.balances.get_or(a, 0) == old(self).psp22.balances.get_or(
                    a,
                    0,
                ),
            final(self).psp22.balances.total() == old(self).psp22.balances.total(),
    {
        let from_balance = self.psp22.balances.get_or_default(&from, 0);
        if from_balance < amount {
            return Err(PSP22Error::InsufficientBalance);
        }
        let ghost b0 = self.psp22.balances;
        self.psp22.balances.insert(from, from_balance - amount);
        let ghost b1 = self.psp22.balances;
        let to_balance = self.psp22.balances.get_or_default(&to, 0);
        self.psp22.balances.insert(to, to_balance + amount);
        proof {
            Mapping::<AccountId, u128>::lemma_total_insert(&b0, &b1, from, (from_balance - amount) as u128);
            Mapping::<AccountId, u128>::lemma_total_insert(&b1, &self.psp22.balances, to, (to_balance + amount) as u128);
        }
        Ok(self._emit_transfer_event(Some(from), Some(to), amount))
    }

    /// The tokens that `owner` holds.
    pub fn balance_of(&self, owner: AccountId) -> (r: u128)
        ensures
            r == self.psp22.balances.get_or(owner, 0),
    {
        self.psp22.balances.get_or_default(&owner, 0)
    }

    /// The tokens in existence.
    pub fn total_supply(&self) -> (r: u128)
        ensures
            r == self.psp22.supply,
    {
        self.psp22.supply
    }

    /// The tokens that `spender` may move on behalf of `owner`.
    pub fn allowance(&self, owner: AccountId, spender: AccountId) -> (r: u128)
        ensures
            r == self.psp22.allowances.get_or((owner, spender), 0),
    {
        self.psp22.allowances.get_or_default(&(owner, spender), 0)
    }
}

/// The LP token of a trading pair, with metadata.
#[derive(Debug, Clone)]
pub struct MyPsp22Lp {
    pub psp22: Psp22Data,
    pub metadata: Psp22Metadata,
}

impl MyPsp22Lp {
    /// A new LP token of which 10^21 belong to the trading pair `tpa_address`.
    pub fn new(name: Option<String>, symbol: Option<String>, decimal: u8, tpa_address: AccountId) -> (r: Self)
        ensures
            r.psp22.supply == 1_000_000_000_000_000_000_000u128,
            r.psp22.balances.total() == r.psp22.supply,
            r.psp22.balances@ == Map::<AccountId, u128>::empty().insert(tpa_address, 1_000_000_000_000_000_000_000u128),
            r.metadata.name == name,
            r.metadata.symbol == symbol,
            r.metadata.decimals == decimal,
    {
        let mut instance = MyPsp22Lp { psp22: Psp22Data::new(), metadata: Psp22Metadata { name, symbol, decimals: decimal } };
        instance.psp22.mint_to(tpa_address, 1_000_000_000_000_000_000_000u128);
        instance
    }

    /// The token's own address.
    pub fn get_account_id(&self, env: &CallEnv) -> (r: AccountId)
        ensures
            r == env.account_id,
    {
        env.account_id
    }
}

/// A plain PSP22 token with metadata whose events are not emitted.
#[derive(Debug, Clone)]
pub struct Contract {
    pub psp22: Psp22Data,
    pub metadata: Psp22Metadata,
}

impl Contract {
    /// A new token whose whole `total_supply` belongs to the caller.
    pub fn new(env: &CallEnv, total_supply: u128, name: Option<String>, symbol: Option<String>, decimal: u8) -> (r: Self)
        ensures
            r.psp22.supply == total_supply,
            r.psp22.balances.total() == r.psp22.supply,
            r.psp22.balances@ == Map::<AccountId, u128>::empty().insert(env.caller, total_supply),
            r.metadata.name == name,
            r.metadata.symbol == symbol,
            r.metadata.decimals == decimal,
    {
        let mut instance = Contract { psp22: Psp22Data::new(), metadata: Psp22Metadata { name, symbol, decimals: decimal } };
        instance.psp22.mint_to(env.caller, total_supply);
        instance
    }

    /// No event is emitted for a transfer.
    pub fn _emit_transfer_event(&self, _from: Option<AccountId>, _to: Option<AccountId>, _amount: u128) {
    }

    /// No event is emitted for an approval.
    pub fn _emit_approval_event(&self, _owner: AccountId, _spender: AccountId, _amount: u128) {
    }
}

} // verus!
