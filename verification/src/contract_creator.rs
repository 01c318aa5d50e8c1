//! The pair factory that deploys AZERO trading pairs from their code hash.
use crate::account::AccountId;
use crate::env::CallEnv;
use vstd::prelude::*;

verus! {

/// The errors of the factory.
#[derive(Debug, Clone, Copy, PartialEq, Eq)]
pub enum PairCreatorErrors {
    InstantiatingFailed,
}

/// Emitted for a new AZERO trading pair.
#[derive(Debug, Clone, Copy, PartialEq, Eq)]
pub struct NewTPA {
    pub caller: AccountId,
    pub psp22_address: AccountId,
    pub lp_fee: u128,
}

/// Emitted for a new PSP22 trading pair.
#[derive(Debug, Clone, Copy, PartialEq, Eq)]
pub struct NewTPP {
    pub caller: AccountId,
    pub psp22_1_address: AccountId,
    pub psp22_2_address: AccountId,
    pub lp_fee: u128,
}

/// An AZERO trading pair to instantiate: the code, the salt, the coins sent with it
/// and the arguments of its constructor.
#[derive(Debug, Clone, Copy, PartialEq, Eq)]
pub struct AzeroPairInstantiation {
    pub code_hash: [u8; 32],
    pub salt: [u8; 4],
    pub endowment: u128,
    pub psp22_contract: AccountId,
    pub fee: u128,
    pub panx_contract: AccountId,
    pub vault: AccountId,
    pub lp_lock_timestamp: u64,
    pub deployer: AccountId,
}

/// The bytes of `v`, least significant first.
pub open spec fn le_bytes(v: u32) -> Seq<u8> {
    seq![
        (v % 0x100) as u8,
        ((v / 0x100) % 0x100) as u8,
        ((v / 0x1_0000) % 0x100) as u8,
        ((v / 0x100_0000) % 0x100) as u8,
    ]
}

/// The bytes of `v`, least significant first, as `u32::to_le_bytes` gives them.
fn u32_to_le_bytes(v: u32) -> (r: [u8; 4])
    ensures
        r@ == le_bytes(v),
{
    let r = [
        (v % 0x100) as u8,
        ((v / 0x100) % 0x100) as u8,
        ((v / 0x1_0000) % 0x100) as u8,
        ((v / 0x100_0000) % 0x100) as u8,
    ];
    assert(r@ =~= le_bytes(v));
    r
}

/// The storage of the factory: none.
pub struct PairCreator {}

impl PairCreator {
    /// A new factory.
    pub fn new() -> (r: Self) {
        PairCreator {  }
    }

    /// The instantiation of a new AZERO trading pair for `psp22_addrr`, deployed by
    /// the caller, with the code `azero_trading_pair_hash` and the little-endian bytes
    /// of `version` as salt, sent no coins.  The factory answers with the new pair's
    /// address, or `InstantiatingFailed`.
    pub fn create_azero_trading_pair(
        &self,
        env: &CallEnv,
        azero_trading_pair_hash: [u8; 32],
        version: u32,
        psp22_addrr: AccountId,
        fee: u128,
        panx_contract: AccountId,
        vault_address: AccountId,
        lp_lock_timestamp: u64,
    ) -> (r: AzeroPairInstantiation)
        ensures
            r.code_hash == azero_trading_pair_hash,
            r.salt@ == le_bytes(version),
            r.endowment == 0,
            r.psp22_contract == psp22_addrr,
            r.fee == fee,
            r.panx_contract == panx_contract,
            r.vault == vault_address,
            r.lp_lock_timestamp == lp_lock_timestamp,
            r.deployer == env.caller,
    {
        let salt = u32_to_le_bytes(version);
        AzeroPairInstantiation {
            code_hash: azero_trading_pair_hash,
            salt,
            endowment: 0,
            psp22_contract: psp22_addrr,
            fee,
            panx_contract,
            vault: vault_address,
            lp_lock_timestamp,
            deployer: env.caller,
        }
    }
}

} // verus!
