//! A multi-signature wallet: participants deposit PSP22 tokens, propose transfers
//! out of the wallet, and a transfer is sent, less a fee for the vault, once it has
//! the number of approvals that its creator asked for.
use crate::account::{AccountId, Mapping};
use crate::env::{CallEnv, ChainCall, Planned};
use vstd::prelude::*;

verus! {

/// The possible errors of the wallet.
#[derive(Debug, Clone, Copy, PartialEq, Eq)]
pub enum MultiSigErrors {
    CallerNotDeployer,
    CallerNotParticipant,
    NotEnoughAllowance,
    PSP22TransferFromFailed,
    PSP22TransferFailed,
    TransactionDoesntExists,
    TokenDoesntExistsInWallet,
    NoEnoughTokenBalance,
    TransactionNotActive,
    ParticipantAlreadyExists,
    ParticipantAlreadyApproved,
    ParticipantAlreadyRejected,
    Overflow,
    CallerInsufficientPSP22Balance,
}

/// Emitted when the deployer adds a participant.
#[derive(Debug, Clone, Copy, PartialEq, Eq)]
pub struct ParticipantAdded {
    pub caller: AccountId,
    pub participant: AccountId,
}

/// Emitted when a participant deposits tokens.
#[derive(Debug, Clone, Copy, PartialEq, Eq)]
pub struct TokenAdded {
    pub caller: AccountId,
    pub psp22_token_address: AccountId,
    pub psp22_amount_added: u128,
}

/// Emitted when a transaction is proposed.
#[derive(Debug)]
pub struct NewTransaction {
    pub creator: AccountId,
    pub approvers: Vec<AccountId>,
    pub number_of_approvals_needed: u64,
    pub psp22_token_to_transfer: AccountId,
    pub psp22_amount_to_transfer: u128,
    pub recipient: AccountId,
    pub transaction_number: u64,
    pub date: u128,
}

/// Emitted when a participant approves a transaction.
#[derive(Debug, Clone, Copy, PartialEq, Eq)]
pub struct TransactionApproved {
    pub creator: AccountId,
    pub transaction_number: u64,
    pub number_of_approvals: u64,
    pub date: u128,
}

/// Emitted when a participant rejects a transaction.
#[derive(Debug, Clone, Copy, PartialEq, Eq)]
pub struct TransactionRejected {
    pub creator: AccountId,
    pub transaction_number: u64,
    pub number_of_rejects: u64,
    pub date: u128,
}

/// A proposed transfer out of the wallet.
#[derive(Debug, Clone)]
pub struct WalletTransaction {
    pub creator: AccountId,
    pub approvers: Vec<AccountId>,
    pub approved: Vec<AccountId>,
    pub rejected: Vec<AccountId>,
    pub number_of_approvals: u64,
    pub number_of_approvals_needed: u64,
    pub psp22_token_to_transfer: AccountId,
    pub psp22_amount_to_transfer: u128,
    pub recipient: AccountId,
    pub transaction_number: u64,
    pub completed_transaction: bool,
    pub date: u128,
}

/// A transaction as a value: its account lists as sequences.
pub ghost struct TransactionView {
    pub creator: AccountId,
    pub approvers: Seq<AccountId>,
    pub approved: Seq<AccountId>,
    pub rejected: Seq<AccountId>,
    pub number_of_approvals: u64,
    pub number_of_approvals_needed: u64,
    pub psp22_token_to_transfer: AccountId,
    pub psp22_amount_to_transfer: u128,
    pub recipient: AccountId,
    pub transaction_number: u64,
    pub completed_transaction: bool,
    pub date: u128,
}

impl View for WalletTransaction {
    type V = TransactionView;

    open spec fn view(&self) -> TransactionView {
        TransactionView {
            creator: self.creator,
            approvers: self.approvers@,
            approved: self.approved@,
            rejected: self.rejected@,
            number_of_approvals: self.number_of_approvals,
            number_of_approvals_needed: self.number_of_approvals_needed,
            psp22_token_to_transfer: self.psp22_token_to_transfer,
            psp22_amount_to_transfer: self.psp22_amount_to_transfer,
            recipient: self.recipient,
            transaction_number: self.transaction_number,
            completed_transaction: self.completed_transaction,
            date: self.date,
        }
    }
}

/// A copy of a list of accounts.
fn copy_accounts(v: &Vec<AccountId>) -> (r: Vec<AccountId>)
    ensures
        r@ == v@,
{
    let mut r: Vec<AccountId> = Vec::new();
    let mut i: usize = 0;
    while i < v.len()
        invariant
            i <= v@.len(),
            r@ == v@.subrange(0, i as int),
        decreases v@.len() - i,
    {
        r.push(v[i]);
        i = i + 1;
    }
    assert(r@ =~= v@);
    r
}

/// Whether `a` occurs in `v`.
fn contains_account(v: &Vec<AccountId>, a: AccountId) -> (b: bool)
    ensures
        b == v@.contains(a),
{
    let mut i: usize = 0;
    while i < v.len()
        invariant
            i <= v@.len(),
            forall|j: int| 0 <= j < i ==> v@[j] != a,
        decreases v@.len() - i,
    {
        if v[i] == a {
            assert(v@[i as int] == a);
            return true;
        }
        i = i + 1;
    }
    false
}

impl WalletTransaction {
    /// A copy of the transaction.
    pub fn duplicate(&self) -> (r: WalletTransaction)
        ensures
            r@ == self@,
    {
        WalletTransaction {
            creator: self.creator,
            approvers: copy_accounts(&self.approvers),
            approved: copy_accounts(&self.approved),
            rejected: copy_accounts(&self.rejected),
            number_of_approvals: self.number_of_approvals,
            number_of_approvals_needed: self.number_of_approvals_needed,
            psp22_token_to_transfer: self.psp22_token_to_transfer,
            psp22_amount_to_transfer: self.psp22_amount_to_transfer,
            recipient: self.recipient,
            transaction_number: self.transaction_number,
            completed_transaction: self.completed_transaction,
            date: self.date,
        }
    }
}

/// The storage of the wallet.  Transaction number `n` is kept at position `n - 1`.
#[derive(Debug, Clone)]
pub struct MultiSig {
    pub deployer: AccountId,
    pub wallet_participants: Vec<AccountId>,
    pub number_of_participants: u64,
    pub number_of_transactions: u64,
    pub wallet_tokens: Mapping<AccountId, u128>,
    pub wallet_transactions: Vec<WalletTransaction>,
    pub traders_fee: u128,
    pub vault: AccountId,
}

/// No account occurs twice in `s`.
pub open spec fn no_duplicates(s: Seq<AccountId>) -> bool {
    forall|i: int, j: int| 0 <= i < s.len() && 0 <= j < s.len() && i != j ==> s[i] != s[j]
}

/// A deposit that has passed its checks: the tokens still have to be moved in.
#[derive(Debug, Clone, Copy)]
pub struct DepositPlan {
    caller: AccountId,
    psp22_token_address: AccountId,
    psp22_amount_to_add: u128,
    caller_balance_before_transfer: u128,
    transfer_from: Planned<MultiSigErrors>,
}

impl DepositPlan {
    /// The participant that deposits.
    pub closed spec fn spec_caller(&self) -> AccountId {
        self.caller
    }

    /// The participant that deposits.
    #[verifier::when_used_as_spec(spec_caller)]
    pub fn caller(&self) -> (r: AccountId)
        ensures
            r == self.spec_caller(),
    {
        self.caller
    }

    /// The token deposited.
    pub closed spec fn spec_psp22_token_address(&self) -> AccountId {
        self.psp22_token_address
    }

    /// The token deposited.
    #[verifier::when_used_as_spec(spec_psp22_token_address)]
    pub fn psp22_token_address(&self) -> (r: AccountId)
        ensures
            r == self.spec_psp22_token_address(),
    {
        self.psp22_token_address
    }

    /// The amount deposited.
    pub closed spec fn spec_psp22_amount_to_add(&self) -> u128 {
        self.psp22_amount_to_add
    }

    /// The amount deposited.
    #[verifier::when_used_as_spec(spec_psp22_amount_to_add)]
    pub fn psp22_amount_to_add(&self) -> (r: u128)
        ensures
            r == self.spec_psp22_amount_to_add(),
    {
        self.psp22_amount_to_add
    }

    /// The participant's balance of the token before the deposit.
    pub closed spec fn spec_caller_balance_before_transfer(&self) -> u128 {
        self.caller_balance_before_transfer
    }

    /// The participant's balance of the token before the deposit.
    #[verifier::when_used_as_spec(spec_caller_balance_before_transfer)]
    pub fn caller_balance_before_transfer(&self) -> (r: u128)
        ensures
            r == self.spec_caller_balance_before_transfer(),
    {
        self.caller_balance_before_transfer
    }

    /// The `transfer_from` that moves the participant's tokens in.
    pub closed spec fn spec_transfer_from(&self) -> Planned<MultiSigErrors> {
        self.transfer_from
    }

    /// The `transfer_from` that moves the participant's tokens in.
    #[verifier::when_used_as_spec(spec_transfer_from)]
    pub fn transfer_from(&self) -> (r: Planned<MultiSigErrors>)
        ensures
            r == self.spec_transfer_from(),
    {
        self.transfer_from
    }
}

/// What an approval asks of the chain: the transfers to make, in order, and how the
/// message ends once they all went through.
#[derive(Debug)]
pub struct ApprovalPlan {
    pub calls: Vec<Planned<MultiSigErrors>>,
    pub outcome: Result<TransactionApproved, MultiSigErrors>,
}

/// The fee for the vault on a transfer of `amount` at `fee` per thousand.
pub open spec fn vault_share(amount: u128, fee: u128) -> int {
    amount * fee / 1000
}

impl MultiSig {
    /// The well-formedness of the storage: the participants are distinct and counted,
    /// and the transactions are numbered 1, 2, ... in the order they were proposed.
    pub open spec fn wf(&self) -> bool {
        &&& no_duplicates(self.wallet_participants@)
        &&& self.number_of_participants == self.wallet_participants@.len()
        &&& self.number_of_transactions == self.wallet_transactions@.len()
        &&& forall|i: int|
            0 <= i < self.wallet_transactions@.len() ==> #[trigger] self.wallet_transactions@[i].transaction_number
                == i + 1
    }

    /// The transaction stored under number `n`, if any.
    pub open spec fn transaction_at(&self, n: u64) -> Option<TransactionView> {
        if 1 <= n <= self.wallet_transactions@.len() {
            Some(self.wallet_transactions@[n - 1]@)
        } else {
            None
        }
    }

    /// The transactions in the order of their numbers.
    pub open spec fn transactions(&self) -> Seq<TransactionView> {
        Seq::new(self.wallet_transactions@.len(), |i: int| self.wallet_transactions@[i]@)
    }

    /// Whether `a` is a participant of the wallet.
    pub open spec fn is_participant(&self, a: AccountId) -> bool {
        self.wallet_participants@.contains(a)
    }

    /// A new wallet whose only participant is the caller, with `vault` receiving a
    /// fee of 25 per thousand on every transfer out.
    pub fn new(env: &CallEnv, vault: AccountId) -> (r: Self)
        ensures
            r.wf(),
            r.deployer == env.caller,
            r.wallet_participants@ == seq![env.caller],
            r.number_of_participants == 1,
            r.number_of_transactions == 0,
            r.wallet_tokens@ == Map::<AccountId, u128>::empty(),
            r.wallet_transactions@.len() == 0,
            r.traders_fee == 25,
            r.vault == vault,
    {
        let mut wallet_participants: Vec<AccountId> = Vec::new();
        wallet_participants.push(env.caller);
        MultiSig {
            deployer: env.caller,
            wallet_participants,
            number_of_participants: 1,
            number_of_transactions: 0,
            wallet_tokens: Mapping::new(),
            wallet_transactions: Vec::new(),
            traders_fee: 25,
            vault,
        }
    }

    /// Whether `caller` is a participant of the wallet.
    fn caller_is_participant(&self, caller: AccountId) -> (b: bool)
        ensures
            b == self.is_participant(caller),
    {
        contains_account(&self.wallet_participants, caller)
    }

    /// The deployer adds `participant_to_add`, who must not be a participant yet.
    pub fn add_participants_to_wallet(&mut self, env: &CallEnv, participant_to_add: AccountId) -> (r: Result<
        ParticipantAdded,
        MultiSigErrors,
    >)
        requires
            old(self).number_of_participants < u64::MAX,
        ensures
            env.caller != old(self).deployer ==> r == Err::<ParticipantAdded, MultiSigErrors>(
                MultiSigErrors::CallerNotDeployer,
            ),
            env.caller == old(self).deployer && old(self).is_participant(participant_to_add) ==> r == Err::<
                ParticipantAdded,
                MultiSigErrors,
            >(MultiSigErrors::ParticipantAlreadyExists),
            r is Err ==> *final(self) == *old(self),
            env.caller == old(self).deployer && !old(self).is_participant(participant_to_add) ==> {
                &&& r == Ok::<ParticipantAdded, MultiSigErrors>(
                    ParticipantAdded { caller: env.caller, participant: participant_to_add },
                )
                &&& final(self).wallet_participants@ == old(self).wallet_participants@.push(participant_to_add)
                &&& final(self).number_of_participants == old(self).number_of_participants + 1
                &&& final(self).deployer == old(self).deployer
                &&& final(self).number_of_transactions == old(self).number_of_transactions
                &&& final(self).wallet_tokens == old(self).wallet_tokens
                &&& final(self).wallet_transactions == old(self).wallet_transactions
                &&& final(self).traders_fee == old(self).traders_fee
                &&& final(self).vault == old(self).vault
            },
            old(self).wf() ==> final(self).wf(),
    {
        let caller = env.caller;
        if caller != self.deployer {
            return Err(MultiSigErrors::CallerNotDeployer);
        }
        if contains_account(&self.wallet_participants, participant_to_add) {
            return Err(MultiSigErrors::ParticipantAlreadyExists);
        }
        let ghost before = self.wallet_participants@;
        self.wallet_participants.push(participant_to_add);
        self.number_of_participants = self.number_of_participants + 1;
        proof {
            let after = self.wallet_participants@;
            if no_duplicates(before) {
                assert forall|i: int, j: int| 0 <= i < after.len() && 0 <= j < after.len() && i != j implies after[i]
                    != after[j] by {
                    if i == before.len() {
                        assert(before.contains(before[j]));
                    } else if j == before.len() {
                        assert(before.contains(before[i]));
                    }
                }
            }
        }
        Ok(ParticipantAdded { caller, participant: participant_to_add })
    }

    /// Checks a deposit of `psp22_amount_to_add` tokens by the caller, who allowed the
    /// wallet `contract_allowance` and holds `caller_balance_before_transfer`.  On
    /// success the tokens still have to be moved in; `settle_add_token_to_wallet`
    /// finishes.
    pub fn add_token_to_wallet(
        &self,
        env: &CallEnv,
        psp22_token_address: AccountId,
        psp22_amount_to_add: u128,
        contract_allowance: u128,
        caller_balance_before_transfer: u128,
    ) -> (r: Result<DepositPlan, MultiSigErrors>)
        ensures
            !self.is_participant(env.caller) ==> r == Err::<DepositPlan, MultiSigErrors>(
                MultiSigErrors::CallerNotParticipant,
            ),
            self.is_participant(env.caller) && contract_allowance < psp22_amount_to_add ==> r == Err::<
                DepositPlan,
                MultiSigErrors,
            >(MultiSigErrors::NotEnoughAllowance),
            self.is_participant(env.caller) && contract_allowance >= psp22_amount_to_add ==> {
                &&& r matches Ok(plan)
                &&& plan.caller() == env.caller
                &&& plan.psp22_token_address() == psp22_token_address
                &&& plan.psp22_amount_to_add() == psp22_amount_to_add
                &&& plan.caller_balance_before_transfer() == caller_balance_before_transfer
                &&& plan.transfer_from() == Planned {
                    call: ChainCall::Psp22TransferFrom {
                        token: psp22_token_address,
                        from: env.caller,
                        to: env.account_id,
                        amount: psp22_amount_to_add,
                    },
                    on_failure: MultiSigErrors::PSP22TransferFromFailed,
                }
            },
    {
        if !self.caller_is_participant(env.caller) {
            return Err(MultiSigErrors::CallerNotParticipant);
        }
        if contract_allowance < psp22_amount_to_add {
            return Err(MultiSigErrors::NotEnoughAllowance);
        }
        Ok(DepositPlan {
            caller: env.caller,
            psp22_token_address,
            psp22_amount_to_add,
            caller_balance_before_transfer,
            transfer_from: Planned {
                call: ChainCall::Psp22TransferFrom {
                    token: psp22_token_address,
                    from: env.caller,
                    to: env.account_id,
                    amount: psp22_amount_to_add,
                },
                on_failure: MultiSigErrors::PSP22TransferFromFailed,
            },
        })
    }

    /// Finishes a deposit once the `transfer_from` of `plan` went through and the
    /// caller's balance reads `caller_balance_after_transfer`: the deposited amount is
    /// added to the wallet's record of the token.
    pub fn settle_add_token_to_wallet(&mut self, plan: &DepositPlan, caller_balance_after_transfer: u128) -> (r:
        Result<TokenAdded, MultiSigErrors>)
        ensures
            ({
                let held = old(self).wallet_tokens.get_or(plan.psp22_token_address(), 0);
                if plan.caller_balance_before_transfer() == caller_balance_after_transfer {
                    r == Err::<TokenAdded, MultiSigErrors>(MultiSigErrors::CallerInsufficientPSP22Balance)
                        && *final(self) == *old(self)
                } else if held + plan.psp22_amount_to_add() > u128::MAX {
                    r == Err::<TokenAdded, MultiSigErrors>(MultiSigErrors::Overflow) && *final(self) == *old(self)
                } else {
                    &&& r == Ok::<TokenAdded, MultiSigErrors>(
                        TokenAdded {
                            caller: plan.caller(),
                            psp22_token_address: plan.psp22_token_address(),
                            psp22_amount_added: plan.psp22_amount_to_add(),
                        },
                    )
                    &&& final(self).wallet_tokens@ == old(self).wallet_tokens@.insert(
                        plan.psp22_token_address(),
                        (held + plan.psp22_amount_to_add()) as u128,
                    )
                    &&& final(self).deployer == old(self).deployer
                    &&& final(self).wallet_participants == old(self).wallet_participants
                    &&& final(self).number_of_participants == old(self).number_of_participants
                    &&& final(self).number_of_transactions == old(self).number_of_transactions
                    &&& final(self).wallet_transactions == old(self).wallet_transactions
                    &&& final(self).traders_fee == old(self).traders_fee
                    &&& final(self).vault == old(self).vault
                }
            }),
            old(self).wf() ==> final(self).wf(),
    {
        if plan.caller_balance_before_transfer() == caller_balance_after_transfer {
            return Err(MultiSigErrors::CallerInsufficientPSP22Balance);
        }
        let held: u128 = self.wallet_tokens.get_or_default(&plan.psp22_token_address(), 0);
        let new_held: u128 = match held.checked_add(plan.psp22_amount_to_add()) {
            Some(v) => v,
            None => return Err(MultiSigErrors::Overflow),
        };
        self.wallet_tokens.insert(plan.psp22_token_address(), new_held);
        Ok(
            TokenAdded {
                caller: plan.caller(),
                psp22_token_address: plan.psp22_token_address(),
                psp22_amount_added: plan.psp22_amount_to_add(),
            },
        )
    }

    /// The transaction that `create_new_transaction` stores.
    pub open spec fn proposed(
        &self,
        caller: AccountId,
        number_of_approvals: u64,
        token: AccountId,
        amount: u128,
        recipient: AccountId,
        date: u128,
    ) -> TransactionView {
        TransactionView {
            creator: caller,
            approvers: self.wallet_participants@,
            approved: Seq::empty(),
            rejected: Seq::empty(),
            number_of_approvals: 0,
            number_of_approvals_needed: number_of_approvals,
            psp22_token_to_transfer: token,
            psp22_amount_to_transfer: amount,
            recipient,
            transaction_number: (self.number_of_transactions + 1) as u64,
            completed_transaction: false,
            date,
        }
    }

    /// The error with which `create_new_transaction` refuses a proposal, if any.
    pub open spec fn proposal_error(&self, caller: AccountId, token: AccountId, amount: u128) -> Option<
        MultiSigErrors,
    > {
        let held = self.wallet_tokens.get_or(token, 0);
        if held == 0 {
            Some(MultiSigErrors::TokenDoesntExistsInWallet)
        } else if held < amount {
            Some(MultiSigErrors::NoEnoughTokenBalance)
        } else if !self.is_participant(caller) {
            Some(MultiSigErrors::CallerNotParticipant)
        } else {
            None
        }
    }

    /// A participant proposes to send `amount_of_psp22_to_transfer` of the wallet's
    /// `psp22_token_address_to_transfer` tokens to `recipient_address` once
    /// `number_of_approvals` approvals are in.  Every participant may approve it.
    pub fn create_new_transaction(
        &mut self,
        env: &CallEnv,
        number_of_approvals: u64,
        psp22_token_address_to_transfer: AccountId,
        amount_of_psp22_to_transfer: u128,
        recipient_address: AccountId,
    ) -> (r: Result<NewTransaction, MultiSigErrors>)
        requires
            old(self).number_of_transactions < u64::MAX,
        ensures
            ({
                let err = old(self).proposal_error(env.caller, psp22_token_address_to_transfer, amount_of_psp22_to_transfer);
                let t = old(self).proposed(
                    env.caller,
                    number_of_approvals,
                    psp22_token_address_to_transfer,
                    amount_of_psp22_to_transfer,
                    recipient_address,
                    env.now() as u128,
                );
                match err {
                    Some(e) => r == Err::<NewTransaction, MultiSigErrors>(e) && *final(self) == *old(self),
                    None => {
                        &&& r matches Ok(event)
                        &&& event.creator == env.caller
                        &&& event.approvers@ == old(self).wallet_participants@
                        &&& event.number_of_approvals_needed == number_of_approvals
                        &&& event.psp22_token_to_transfer == psp22_token_address_to_transfer
                        &&& event.psp22_amount_to_transfer == amount_of_psp22_to_transfer
                        &&& event.recipient == recipient_address
                        &&& event.transaction_number == old(self).number_of_transactions + 1
                        &&& event.date == env.now()
                        &&& final(self).transactions() == old(self).transactions().push(t)
                        &&& final(self).number_of_transactions == old(self).number_of_transactions + 1
                        &&& final(self).deployer == old(self).deployer
                        &&& final(self).wallet_participants == old(self).wallet_participants
                        &&& final(self).number_of_participants == old(self).number_of_participants
                        &&& final(self).wallet_tokens == old(self).wallet_tokens
                        &&& final(self).traders_fee == old(self).traders_fee
                        &&& final(self).vault == old(self).vault
                    },
                }
            }),
            old(self).wf() ==> final(self).wf(),
    {
        let caller = env.caller;
        let current_date = self.get_current_timestamp(env);
        let held: u128 = self.wallet_tokens.get_or_default(&psp22_token_address_to_transfer, 0);
        if held == 0 {
            return Err(MultiSigErrors::TokenDoesntExistsInWallet);
        }
        if held < amount_of_psp22_to_transfer {
            return Err(MultiSigErrors::NoEnoughTokenBalance);
        }
        if !self.caller_is_participant(caller) {
            return Err(MultiSigErrors::CallerNotParticipant);
        }
        let new_transaction_number = self.number_of_transactions + 1;
        let transaction = WalletTransaction {
            creator: caller,
            approvers: copy_accounts(&self.wallet_participants),
            approved: Vec::new(),
            rejected: Vec::new(),
            number_of_approvals: 0,
            number_of_approvals_needed: number_of_approvals,
            psp22_token_to_transfer: psp22_token_address_to_transfer,
            psp22_amount_to_transfer: amount_of_psp22_to_transfer,
            recipient: recipient_address,
            transaction_number: new_transaction_number,
            completed_transaction: false,
            date: current_date,
        };
        let ghost t = transaction@;
        let ghost before = self.transactions();
        self.number_of_transactions = new_transaction_number;
        self.wallet_transactions.push(transaction);
        proof {
            assert(t.approved =~= Seq::<AccountId>::empty());
            assert(t.rejected =~= Seq::<AccountId>::empty());
            assert(self.transactions() =~= before.push(t));
        }
        Ok(
            NewTransaction {
                creator: caller,
                approvers: copy_accounts(&self.wallet_participants),
                number_of_approvals_needed: number_of_approvals,
                psp22_token_to_transfer: psp22_token_address_to_transfer,
                psp22_amount_to_transfer: amount_of_psp22_to_transfer,
                recipient: recipient_address,
                transaction_number: new_transaction_number,
                date: current_date,
            },
        )
    }

    /// The error with which a vote of `caller` on transaction `n` is refused before
    /// its own list is looked at: the caller must be a participant of the wallet and
    /// of the transaction, which must exist and not be sent yet.
    pub open spec fn vote_error(&self, caller: AccountId, n: u64) -> Option<MultiSigErrors> {
        if !self.is_participant(caller) {
            Some(MultiSigErrors::CallerNotParticipant)
        } else {
            match self.transaction_at(n) {
                None => Some(MultiSigErrors::TransactionDoesntExists),
                Some(t) => if t.completed_transaction {
                    Some(MultiSigErrors::TransactionNotActive)
                } else if !t.approvers.contains(caller) {
                    Some(MultiSigErrors::CallerNotParticipant)
                } else {
                    None
                },
            }
        }
    }

    /// The error with which an approval of `caller` on transaction `n` is refused.
    pub open spec fn approval_error(&self, caller: AccountId, n: u64) -> Option<MultiSigErrors> {
        match self.vote_error(caller, n) {
            Some(e) => Some(e),
            None => if self.transaction_at(n).unwrap().approved.contains(caller) {
                Some(MultiSigErrors::ParticipantAlreadyApproved)
            } else {
                None
            },
        }
    }

    /// Transaction `t` after an approval by `caller`: the caller is appended to the
    /// accounts that approved it and its count of approvals goes up by one.
    pub open spec fn approved_by(t: TransactionView, caller: AccountId, completed: bool) -> TransactionView {
        TransactionView {
            approved: t.approved.push(caller),
            number_of_approvals: (t.number_of_approvals + 1) as u64,
            completed_transaction: completed,
            ..t
        }
    }

    /// The error with which a rejection of `caller` on transaction `n` is refused.
    pub open spec fn rejection_error(&self, caller: AccountId, n: u64) -> Option<MultiSigErrors> {
        match self.vote_error(caller, n) {
            Some(e) => Some(e),
            None => if self.transaction_at(n).unwrap().rejected.contains(caller) {
                Some(MultiSigErrors::ParticipantAlreadyRejected)
            } else {
                None
            },
        }
    }

    /// `self` and `other` agree on everything but the transactions and the tokens.
    pub open spec fn same_members(&self, other: &Self) -> bool {
        &&& self.deployer == other.deployer
        &&& self.wallet_participants == other.wallet_participants
        &&& self.number_of_participants == other.number_of_participants
        &&& self.number_of_transactions == other.number_of_transactions
        &&& self.wallet_transactions@.len() == other.wallet_transactions@.len()
        &&& self.traders_fee == other.traders_fee
        &&& self.vault == other.vault
    }

    /// The position of transaction `n`, which must exist.
    fn position_of(&self, n: u64) -> (r: Option<usize>)
        ensures
            match r {
                Some(i) => 1 <= n <= self.wallet_transactions@.len() && i == n - 1,
                None => self.transaction_at(n) is None,
            },
    {
        let len: usize = self.wallet_transactions.len();
        if n == 0 || n as u128 > len as u128 {
            return None;
        }
        Some((n - 1) as usize)
    }

    /// The caller approves transaction `number_of_transaction`.  The approval that
    /// brings the count to the number needed sends the transaction: the vault gets
    /// `traders_fee` per thousand of the amount and the recipient the rest, and the
    /// wallet's record of the token goes down by the whole amount.  On success the
    /// plan lists the transfers to make, in order, and how the message ends.
    pub fn approve_transaction(&mut self, env: &CallEnv, number_of_transaction: u64) -> (r: Result<
        ApprovalPlan,
        MultiSigErrors,
    >)
        requires
            old(self).transaction_at(number_of_transaction) matches Some(t) ==> {
                &&& t.number_of_approvals < u64::MAX
                &&& t.number_of_approvals_needed == t.number_of_approvals + 1 ==> t.psp22_amount_to_transfer
                    * old(self).traders_fee <= u128::MAX
            },
        ensures
            match old(self).approval_error(env.caller, number_of_transaction) {
                Some(e) => r == Err::<ApprovalPlan, MultiSigErrors>(e) && *final(self) == *old(self),
                None => {
                    let n = number_of_transaction;
                    let t = old(self).transaction_at(n).unwrap();
                    let approvals = t.number_of_approvals + 1;
                    let event = TransactionApproved {
                        creator: env.caller,
                        transaction_number: t.transaction_number,
                        number_of_approvals: approvals as u64,
                        date: env.now() as u128,
                    };
                    let amount = t.psp22_amount_to_transfer;
                    let token = t.psp22_token_to_transfer;
                    let fee = vault_share(amount, old(self).traders_fee);
                    let held = old(self).wallet_tokens.get_or(token, 0);
                    let vault_call = Planned {
                        call: ChainCall::Psp22Transfer { token, to: old(self).vault, amount: fee as u128 },
                        on_failure: MultiSigErrors::PSP22TransferFailed,
                    };
                    let recipient_call = Planned {
                        call: ChainCall::Psp22Transfer { token, to: t.recipient, amount: (amount - fee) as u128 },
                        on_failure: MultiSigErrors::PSP22TransferFailed,
                    };
                    &&& r matches Ok(plan)
                    &&& if t.number_of_approvals_needed != approvals {
                        &&& plan.calls@ == Seq::<Planned<MultiSigErrors>>::empty()
                        &&& plan.outcome == Ok::<TransactionApproved, MultiSigErrors>(event)
                        &&& final(self).transactions() == old(self).transactions().update(
                            n - 1,
                            Self::approved_by(t, env.caller, false),
                        )
                        &&& final(self).wallet_tokens == old(self).wallet_tokens
                        &&& final(self).same_members(old(self))
                    } else if fee > amount {
                        &&& plan.calls@ == seq![vault_call]
                        &&& plan.outcome == Err::<TransactionApproved, MultiSigErrors>(MultiSigErrors::Overflow)
                        &&& *final(self) == *old(self)
                    } else if held < amount {
                        &&& plan.calls@ == seq![vault_call, recipient_call]
                        &&& plan.outcome == Err::<TransactionApproved, MultiSigErrors>(MultiSigErrors::Overflow)
                        &&& *final(self) == *old(self)
                    } else {
                        &&& plan.calls@ == seq![vault_call, recipient_call]
                        &&& plan.outcome == Ok::<TransactionApproved, MultiSigErrors>(event)
                        &&& final(self).transactions() == old(self).transactions().update(
                            n - 1,
                            Self::approved_by(t, env.caller, true),
                        )
                        &&& final(self).wallet_tokens@ == old(self).wallet_tokens@.insert(token, (held - amount) as u128)
                        &&& final(self).same_members(old(self))
                    }
                },
            },
            old(self).wf() ==> final(self).wf(),
    {
        let caller = env.caller;
        let current_time = self.get_current_timestamp(env);
        if !self.caller_is_participant(caller) {
            return Err(MultiSigErrors::CallerNotParticipant);
        }
        let idx: usize = match self.position_of(number_of_transaction) {
            Some(i) => i,
            None => return Err(MultiSigErrors::TransactionDoesntExists),
        };
        let t = &self.wallet_transactions[idx];
        if t.completed_transaction {
            return Err(MultiSigErrors::TransactionNotActive);
        }
        if !contains_account(&t.approvers, caller) {
            return Err(MultiSigErrors::CallerNotParticipant);
        }
        if contains_account(&t.approved, caller) {
            return Err(MultiSigErrors::ParticipantAlreadyApproved);
        }
        let ghost tv = t@;
        let new_number_of_approvals = t.number_of_approvals + 1;
        let event = TransactionApproved {
            creator: caller,
            transaction_number: t.transaction_number,
            number_of_approvals: new_number_of_approvals,
            date: current_time,
        };
        let sending = t.number_of_approvals_needed == new_number_of_approvals;
        let amount = t.psp22_amount_to_transfer;
        let token = t.psp22_token_to_transfer;
        let recipient = t.recipient;
        let mut approved = copy_accounts(&t.approved);
        approved.push(caller);
        let updated = WalletTransaction {
            creator: t.creator,
            approvers: copy_accounts(&t.approvers),
            approved,
            rejected: copy_accounts(&t.rejected),
            number_of_approvals: new_number_of_approvals,
            number_of_approvals_needed: t.number_of_approvals_needed,
            psp22_token_to_transfer: token,
            psp22_amount_to_transfer: amount,
            recipient,
            transaction_number: t.transaction_number,
            completed_transaction: sending,
            date: t.date,
        };
        assert(updated@ == Self::approved_by(tv, caller, sending));
        let ghost before = self.transactions();
        if !sending {
            self.wallet_transactions.set(idx, updated);
            proof {
                assert(self.transactions() =~= before.update(idx as int, Self::approved_by(tv, caller, false)));
            }
            return Ok(ApprovalPlan { calls: Vec::new(), outcome: Ok(event) });
        }
        let (calls, sent) = self.send_transaction(token, amount, recipient);
        let held_after: u128 = match sent {
            Err(e) => return Ok(ApprovalPlan { calls, outcome: Err(e) }),
            Ok(h) => h,
        };
        self.wallet_transactions.set(idx, updated);
        self.wallet_tokens.insert(token, held_after);
        proof {
            assert(self.transactions() =~= before.update(idx as int, Self::approved_by(tv, caller, true)));
        }
        Ok(ApprovalPlan { calls, outcome: Ok(event) })
    }

    /// The transfers that send `amount` of the wallet's `token` tokens to
    /// `recipient`: the vault's fee, then the rest; and the wallet's new record of
    /// the token, or `Overflow` where the amounts do not add up.
    fn send_transaction(&self, token: AccountId, amount: u128, recipient: AccountId) -> (r: (
        Vec<Planned<MultiSigErrors>>,
        Result<u128, MultiSigErrors>,
    ))
        requires
            amount * self.traders_fee <= u128::MAX,
        ensures
            ({
                let fee = vault_share(amount, self.traders_fee);
                let held = self.wallet_tokens.get_or(token, 0);
                let vault_call = Planned {
                    call: ChainCall::Psp22Transfer { token, to: self.vault, amount: fee as u128 },
                    on_failure: MultiSigErrors::PSP22TransferFailed,
                };
                let recipient_call = Planned {
                    call: ChainCall::Psp22Transfer { token, to: recipient, amount: (amount - fee) as u128 },
                    on_failure: MultiSigErrors::PSP22TransferFailed,
                };
                if fee > amount {
                    r.0@ == seq![vault_call] && r.1 == Err::<u128, MultiSigErrors>(MultiSigErrors::Overflow)
                } else if held < amount {
                    r.0@ == seq![vault_call, recipient_call] && r.1 == Err::<u128, MultiSigErrors>(
                        MultiSigErrors::Overflow,
                    )
                } else {
                    r.0@ == seq![vault_call, recipient_call] && r.1 == Ok::<u128, MultiSigErrors>((held - amount) as u128)
                }
            }),
    {
        let fee: u128 = amount * self.traders_fee / 1000;
        let mut calls: Vec<Planned<MultiSigErrors>> = Vec::new();
        calls.push(
            Planned {
                call: ChainCall::Psp22Transfer { token, to: self.vault, amount: fee },
                on_failure: MultiSigErrors::PSP22TransferFailed,
            },
        );
        if fee > amount {
            return (calls, Err(MultiSigErrors::Overflow));
        }
        calls.push(
            Planned {
                call: ChainCall::Psp22Transfer { token, to: recipient, amount: amount - fee },
                on_failure: MultiSigErrors::PSP22TransferFailed,
            },
        );
        let held: u128 = self.wallet_tokens.get_or_default(&token, 0);
        if held < amount {
            return (calls, Err(MultiSigErrors::Overflow));
        }
        (calls, Ok(held - amount))
    }

    /// Transaction `t` after a rejection by `caller`: the caller is appended to the
    /// accounts that rejected it.
    pub open spec fn rejected_by(t: TransactionView, caller: AccountId) -> TransactionView {
        TransactionView { rejected: t.rejected.push(caller), ..t }
    }

    /// The caller rejects transaction `number_of_transaction`: the rejection is
    /// recorded on the transaction and announced with the number of rejections.
    pub fn reject_transaction(&mut self, env: &CallEnv, number_of_transaction: u64) -> (r: Result<
        TransactionRejected,
        MultiSigErrors,
    >)
        requires
            old(self).transaction_at(number_of_transaction) matches Some(t) ==> t.rejected.len() < u64::MAX,
        ensures
            match old(self).rejection_error(env.caller, number_of_transaction) {
                Some(e) => r == Err::<TransactionRejected, MultiSigErrors>(e) && *final(self) == *old(self),
                None => {
                    let n = number_of_transaction;
                    let t = old(self).transaction_at(n).unwrap();
                    &&& r == Ok::<TransactionRejected, MultiSigErrors>(
                        TransactionRejected {
                            creator: env.caller,
                            transaction_number: t.transaction_number,
                            number_of_rejects: (t.rejected.len() + 1) as u64,
                            date: env.now() as u128,
                        },
                    )
                    &&& final(self).transactions() == old(self).transactions().update(
                        n - 1,
                        Self::rejected_by(t, env.caller),
                    )
                    &&& final(self).wallet_tokens == old(self).wallet_tokens
                    &&& final(self).same_members(old(self))
                },
            },
            old(self).wf() ==> final(self).wf(),
    {
        let caller = env.caller;
        let current_time = self.get_current_timestamp(env);
        if !self.caller_is_participant(caller) {
            return Err(MultiSigErrors::CallerNotParticipant);
        }
        let idx: usize = match self.position_of(number_of_transaction) {
            Some(i) => i,
            None => return Err(MultiSigErrors::TransactionDoesntExists),
        };
        let t = &self.wallet_transactions[idx];
        if t.completed_transaction {
            return Err(MultiSigErrors::TransactionNotActive);
        }
        if !contains_account(&t.approvers, caller) {
            return Err(MultiSigErrors::CallerNotParticipant);
        }
        if contains_account(&t.rejected, caller) {
            return Err(MultiSigErrors::ParticipantAlreadyRejected);
        }
        let ghost tv = t@;
        let number_of_rejects: u64 = t.rejected.len() as u64 + 1;
        let event = TransactionRejected {
            creator: caller,
            transaction_number: t.transaction_number,
            number_of_rejects,
            date: current_time,
        };
        let mut rejected = copy_accounts(&t.rejected);
        rejected.push(caller);
        let updated = WalletTransaction {
            creator: t.creator,
            approvers: copy_accounts(&t.approvers),
            approved: copy_accounts(&t.approved),
            rejected,
            number_of_approvals: t.number_of_approvals,
            number_of_approvals_needed: t.number_of_approvals_needed,
            psp22_token_to_transfer: t.psp22_token_to_transfer,
            psp22_amount_to_transfer: t.psp22_amount_to_transfer,
            recipient: t.recipient,
            transaction_number: t.transaction_number,
            completed_transaction: t.completed_transaction,
            date: t.date,
        };
        assert(updated@ == Self::rejected_by(tv, caller));
        let ghost before = self.transactions();
        self.wallet_transactions.set(idx, updated);
        proof {
            assert(self.transactions() =~= before.update(idx as int, Self::rejected_by(tv, caller)));
        }
        Ok(event)
    }

    /// The participants, in the order they were added.
    pub fn get_wallet_participants(&self) -> (r: Vec<AccountId>)
        ensures
            r@ == self.wallet_participants@,
    {
        copy_accounts(&self.wallet_participants)
    }

    /// The account that deployed the wallet.
    pub fn get_wallet_deployer(&self) -> (r: AccountId)
        ensures
            r == self.deployer,
    {
        self.deployer
    }

    /// How many transactions were proposed.
    pub fn get_number_of_transactions(&self) -> (r: u64)
        ensures
            r == self.number_of_transactions,
    {
        self.number_of_transactions
    }

    /// The wallet's own address.
    pub fn get_account_id(&self, env: &CallEnv) -> (r: AccountId)
        ensures
            r == env.account_id,
    {
        env.account_id
    }

    /// Transaction `number_of_transaction`, if it was proposed.
    pub fn get_wallet_transaction(&self, number_of_transaction: u64) -> (r: Result<
        WalletTransaction,
        MultiSigErrors,
    >)
        ensures
            match self.transaction_at(number_of_transaction) {
                Some(t) => r matches Ok(x) && x@ == t,
                None => r matches Err(e) && e == MultiSigErrors::TransactionDoesntExists,
            },
    {
        match self.position_of(number_of_transaction) {
            Some(i) => Ok(self.wallet_transactions[i].duplicate()),
            None => Err(MultiSigErrors::TransactionDoesntExists),
        }
    }

    /// The block timestamp in seconds.
    fn get_current_timestamp(&self, env: &CallEnv) -> (r: u128)
        ensures
            r == env.now(),
    {
        let bts = env.block_timestamp / 1000;
        bts as u128
    }
}

/// A transaction that was sent is closed: a participant's approval or rejection of
/// it is refused with `TransactionNotActive`.
pub proof fn lemma_sent_transaction_closed(wallet: MultiSig, caller: AccountId, n: u64)
    requires
        wallet.is_participant(caller),
        wallet.transaction_at(n) matches Some(t) && t.completed_transaction,
    ensures
        wallet.approval_error(caller, n) == Some(MultiSigErrors::TransactionNotActive),
        wallet.rejection_error(caller, n) == Some(MultiSigErrors::TransactionNotActive),
{
}

/// The approval that sends a transaction closes it: afterwards the transaction is
/// marked sent, so any further vote on it is refused.
pub proof fn lemma_sending_approval_closes(before: MultiSig, after: MultiSig, caller: AccountId, n: u64)
    requires
        before.transaction_at(n) matches Some(t) && t.number_of_approvals_needed == t.number_of_approvals + 1,
        after.transactions() == before.transactions().update(
            n - 1,
            MultiSig::approved_by(before.transaction_at(n).unwrap(), caller, true),
        ),
        after.wallet_participants == before.wallet_participants,
    ensures
        after.transaction_at(n) matches Some(t) && t.completed_transaction,
        after.approval_error(caller, n) == Some(MultiSigErrors::TransactionNotActive) || !after.is_participant(caller),
{
    let i = n - 1;
    assert(before.transactions().len() == before.wallet_transactions@.len());
    assert(after.transactions().len() == after.wallet_transactions@.len());
    assert(after.transactions()[i] == after.wallet_transactions@[i]@);
}

/// A participant approves a transaction once: after its approval left the
/// transaction open, a second approval by it is refused with
/// `ParticipantAlreadyApproved`.
pub proof fn lemma_approval_recorded(before: MultiSig, after: MultiSig, caller: AccountId, n: u64)
    requires
        before.vote_error(caller, n) is None,
        after.transactions() == before.transactions().update(
            n - 1,
            MultiSig::approved_by(before.transaction_at(n).unwrap(), caller, false),
        ),
        after.wallet_participants == before.wallet_participants,
    ensures
        after.approval_error(caller, n) == Some(MultiSigErrors::ParticipantAlreadyApproved),
{
    let i = n - 1;
    assert(before.transactions().len() == before.wallet_transactions@.len());
    assert(after.transactions().len() == after.wallet_transactions@.len());
    assert(after.transactions()[i] == after.wallet_transactions@[i]@);
    assert(after.transaction_at(n).unwrap().approved.last() == caller);
}

/// A participant rejects a transaction once: after its rejection, a second
/// rejection by it is refused with `ParticipantAlreadyRejected`.
pub proof fn lemma_rejection_recorded(before: MultiSig, after: MultiSig, caller: AccountId, n: u64)
    requires
        before.vote_error(caller, n) is None,
        after.transactions() == before.transactions().update(
            n - 1,
            MultiSig::rejected_by(before.transaction_at(n).unwrap(), caller),
        ),
        after.wallet_participants == before.wallet_participants,
    ensures
        after.rejection_error(caller, n) == Some(MultiSigErrors::ParticipantAlreadyRejected),
{
    let i = n - 1;
    assert(before.transactions().len() == before.wallet_transactions@.len());
    assert(after.transactions().len() == after.wallet_transactions@.len());
    assert(after.transactions()[i] == after.wallet_transactions@[i]@);
    assert(after.transaction_at(n).unwrap().rejected.last() == caller);
}

} // verus!
