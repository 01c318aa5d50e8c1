use crate::account::AccountId;
use vstd::prelude::*;

verus! {

/// What the chain tells a contract about the message it is executing.
#[derive(Clone, Copy, Debug)]
pub struct CallEnv {
    /// The account that called the message.
    pub caller: AccountId,
    /// The contract's own address.
    pub account_id: AccountId,
    /// The block timestamp, in milliseconds.
    pub block_timestamp: u64,
    /// The native coins sent along with the call.
    pub transferred_value: u128,
}

impl CallEnv {
    /// The block timestamp in seconds.
    pub open spec fn now(&self) -> u64 {
        (self.block_timestamp / 1000) as u64
    }

    /// The block timestamp in seconds.
    pub fn current_timestamp(&self) -> (r: u64)
        ensures
            r == self.now(),
    {
        self.block_timestamp / 1000
    }
}

/// A call into another contract, or a native transfer, that a message asks for.
#[derive(Clone, Copy, Debug, PartialEq, Eq)]
pub enum ChainCall {
    /// PSP22 `transfer` of `amount` tokens of `token`, from the contract to `to`.
    Psp22Transfer { token: AccountId, to: AccountId, amount: u128 },
    /// PSP22 `transfer_from` of `amount` tokens of `token`, from `from` to `to`,
    /// with reentry allowed.
    Psp22TransferFrom { token: AccountId, from: AccountId, to: AccountId, amount: u128 },
    /// PSP22 `approve` of `amount` tokens of `token` for `spender`; its result is ignored.
    Psp22Approve { token: AccountId, spender: AccountId, amount: u128 },
    /// A native transfer of `amount` coins from the contract to `to`.
    NativeTransfer { to: AccountId, amount: u128 },
}

/// A call to make, and the error that the message ends with where it fails.
#[derive(Clone, Copy, Debug)]
pub struct Planned<E> {
    pub call: ChainCall,
    pub on_failure: E,
}

/// The planned call `call`, failing with `on_failure`.
pub open spec fn planned<E>(call: ChainCall, on_failure: E) -> Planned<E> {
    Planned { call, on_failure }
}

} // verus!
