//! The pair registry: deploys AZERO and PSP22 trading pairs and refuses a second
//! pool for the same tokens.
use crate::account::{AccountId, Mapping};
use vstd::prelude::*;

verus! {

/// Emitted for a new AZERO trading pair.
#[derive(Debug, Clone, Copy, PartialEq, Eq)]
pub struct NewTPA {
    pub caller: AccountId,
    pub psp22_address: AccountId,
    pub lp_fee: u128,
}

/// Emitted for a new PSP22 trading pair.
#[derive(Debug, Clone, Copy, PartialEq, Eq)]
pub struct NewTPP {
    pub caller: AccountId,
    pub psp22_1_address: AccountId,
    pub psp22_2_address: AccountId,
    pub lp_fee: u128,
}

/// A trading pair to instantiate: the code, the salt, and the arguments of its
/// constructor (`psp22_token2` is `None` for an AZERO pair).
#[derive(Debug, Clone, Copy, PartialEq, Eq)]
pub struct PairInstantiation {
    pub code_hash: [u8; 32],
    pub salt: u32,
    pub endowment: u128,
    pub psp22_token1: AccountId,
    pub psp22_token2: Option<AccountId>,
    pub fee: u128,
    pub panx_contract: AccountId,
    pub vault: AccountId,
}

/// The storage of the registry.
#[derive(Debug, Clone)]
pub struct PairCreator {
    pub azero_pairs: Mapping<AccountId, AccountId>,
    pub psp22_pairs: Mapping<(AccountId, AccountId), AccountId>,
    pub zero_address: AccountId,
}

/// The all-zero account.
pub open spec fn zero_account() -> AccountId {
    AccountId { w0: 0, w1: 0, w2: 0, w3: 0 }
}

impl PairCreator {
    /// A new registry with no pairs.
    pub fn new() -> (r: Self)
        ensures
            r.azero_pairs@ == Map::<AccountId, AccountId>::empty(),
            r.psp22_pairs@ == Map::<(AccountId, AccountId), AccountId>::empty(),
            r.zero_address == zero_account(),
    {
        PairCreator { azero_pairs: Mapping::new(), psp22_pairs: Mapping::new(), zero_address: AccountId::zero() }
    }

    /// Whether an AZERO pair of `psp22_token` is recorded (at a nonzero address).
    pub open spec fn azero_pair_recorded(&self, psp22_token: AccountId) -> bool {
        self.azero_pairs.get_or(psp22_token, self.zero_address) != zero_account()
    }

    /// Whether a PSP22 pair of `a` and `b` is recorded (at a nonzero address).
    pub open spec fn psp22_pair_recorded(&self, a: AccountId, b: AccountId) -> bool {
        self.psp22_pairs.get_or((a, b), self.zero_address) != zero_account()
    }

    /// Whether an AZERO pair of `psp22_token` exists.
    pub fn azero_pair_exists(&self, psp22_token: AccountId) -> (r: bool)
        ensures
            r == self.azero_pair_recorded(psp22_token),
    {
        let mut pool_exists = false;
        let exists = self.azero_pairs.get_or_default(&psp22_token, self.zero_address);
        if exists.is_zero() {
            pool_exists = false;
        } else {
            pool_exists = true;
        }
        pool_exists
    }

    /// Whether a PSP22 pair of `psp22_token_a` and `psp22_token_b` exists.
    pub fn psp22_pair_exists(&self, psp22_token_a: AccountId, psp22_token_b: AccountId) -> (r: bool)
        ensures
            r == self.psp22_pair_recorded(psp22_token_a, psp22_token_b),
    {
        let mut pool_exists = false;
        let exists = self.psp22_pairs.get_or_default(&(psp22_token_a, psp22_token_b), self.zero_address);
        if exists.is_zero() {
            pool_exists = false;
        } else {
            pool_exists = true;
        }
        pool_exists
    }

    /// The instantiation of an AZERO pair for `psp22_addrr`, which must not exist yet;
    /// `record_azero_trading_pair` records the pair once it is deployed.
    pub fn create_azero_trading_pair(
        &self,
        azero_trading_pair_hash: [u8; 32],
        version: u32,
        psp22_addrr: AccountId,
        fee: u128,
        panx_contract: AccountId,
        vault_address: AccountId,
    ) -> (r: PairInstantiation)
        requires
            !self.azero_pair_recorded(psp22_addrr),
        ensures
            r == (PairInstantiation {
                code_hash: azero_trading_pair_hash,
                salt: version,
                endowment: 0,
                psp22_token1: psp22_addrr,
                psp22_token2: None,
                fee,
                panx_contract,
                vault: vault_address,
            }),
    {
        PairInstantiation {
            code_hash: azero_trading_pair_hash,
            salt: version,
            endowment: 0,
            psp22_token1: psp22_addrr,
            psp22_token2: None,
            fee,
            panx_contract,
            vault: vault_address,
        }
    }

    /// Records the AZERO pair of `psp22_addrr` deployed at `add`; returns `add`.
    pub fn record_azero_trading_pair(&mut self, psp22_addrr: AccountId, add: AccountId) -> (r: AccountId)
        ensures
            r == add,
            final(self).azero_pairs@ == old(self).azero_pairs@.insert(psp22_addrr, add),
            final(self).psp22_pairs@ == old(self).psp22_pairs@,
            final(self).zero_address == old(self).zero_address,
    {
        self.azero_pairs.insert(psp22_addrr, add);
        add
    }

    /// The instantiation of a PSP22 pair of the two tokens, which must not exist yet;
    /// `record_psp22_trading_pair` records the pair once it is deployed.
    pub fn create_psp22_trading_pair(
        &self,
        psp22_trading_pair_hash: [u8; 32],
        version: u32,
        psp22_token1_addrr: AccountId,
        psp22_token2_addrr: AccountId,
        fee: u128,
        panx_contract: AccountId,
        vault_address: AccountId,
    ) -> (r: PairInstantiation)
        requires
            !self.psp22_pair_recorded(psp22_token1_addrr, psp22_token2_addrr),
        ensures
            r == (PairInstantiation {
                code_hash: psp22_trading_pair_hash,
                salt: version,
                endowment: 0,
                psp22_token1: psp22_token1_addrr,
                psp22_token2: Some(psp22_token2_addrr),
                fee,
                panx_contract,
                vault: vault_address,
            }),
    {
        PairInstantiation {
            code_hash: psp22_trading_pair_hash,
            salt: version,
            endowment: 0,
            psp22_token1: psp22_token1_addrr,
            psp22_token2: Some(psp22_token2_addrr),
            fee,
            panx_contract,
            vault: vault_address,
        }
    }

    /// Records the PSP22 pair of the two tokens deployed at `add`, in both orders;
    /// returns `add`.
    pub fn record_psp22_trading_pair(&mut self, psp22_token1_addrr: AccountId, psp22_token2_addrr: AccountId, add: AccountId) -> (r:
        AccountId)
        ensures
            r == add,
            final(self).psp22_pairs@ == old(self).psp22_pairs@.insert((psp22_token1_addrr, psp22_token2_addrr), add).insert(
                (psp22_token2_addrr, psp22_token1_addrr),
                add,
            ),
            final(self).azero_pairs@ == old(self).azero_pairs@,
            final(self).zero_address == old(self).zero_address,
    {
        self.psp22_pairs.insert((psp22_token1_addrr, psp22_token2_addrr), add);
        self.psp22_pairs.insert((psp22_token2_addrr, psp22_token1_addrr), add);
        add
    }
}

/// Once a PSP22 pair is recorded at a nonzero address, it exists in both orders of
/// its tokens, so that neither order can be created again.
pub proof fn lemma_psp22_pair_recorded_both_ways(
    before: PairCreator,
    after: PairCreator,
    a: AccountId,
    b: AccountId,
    add: AccountId,
)
    requires
        add != zero_account(),
        after.psp22_pairs@ == before.psp22_pairs@.insert((a, b), add).insert((b, a), add),
        after.zero_address == before.zero_address,
    ensures
        after.psp22_pair_recorded(a, b),
        after.psp22_pair_recorded(b, a),
{
}

} // verus!
