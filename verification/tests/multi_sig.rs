use panorama_swap::env::{CallEnv, ChainCall};
use panorama_swap::multi_sig::{MultiSig, MultiSigErrors, ParticipantAdded, TokenAdded, TransactionApproved};
use panorama_swap::AccountId;

fn acc(n: u64) -> AccountId {
    AccountId::new(n, 0, 0, 0)
}

fn env(caller: u64, ms: u64) -> CallEnv {
    CallEnv { caller: acc(caller), account_id: acc(400), block_timestamp: ms, transferred_value: 0 }
}

/// A wallet of accounts 1 (the deployer), 2 and 3 holding 10000 of token 50.
fn wallet() -> MultiSig {
    let mut w = MultiSig::new(&env(1, 0), acc(99));
    w.add_participants_to_wallet(&env(1, 0), acc(2)).unwrap();
    w.add_participants_to_wallet(&env(1, 0), acc(3)).unwrap();
    let plan = w.add_token_to_wallet(&env(2, 0), acc(50), 10_000, 10_000, 20_000).unwrap();
    w.settle_add_token_to_wallet(&plan, 10_000).unwrap();
    w
}

#[test]
fn new_wallet_has_its_deployer() {
    let w = MultiSig::new(&env(1, 0), acc(99));
    assert_eq!(w.get_wallet_participants(), vec![acc(1)]);
    assert_eq!(w.get_wallet_deployer(), acc(1));
    assert_eq!(w.get_number_of_transactions(), 0);
    assert_eq!(w.get_account_id(&env(1, 0)), acc(400));
    assert_eq!(w.traders_fee, 25);
}

#[test]
fn participants_are_added_once_by_the_deployer() {
    let mut w = MultiSig::new(&env(1, 0), acc(99));
    assert_eq!(w.add_participants_to_wallet(&env(2, 0), acc(3)), Err(MultiSigErrors::CallerNotDeployer));
    assert_eq!(
        w.add_participants_to_wallet(&env(1, 0), acc(2)),
        Ok(ParticipantAdded { caller: acc(1), participant: acc(2) })
    );
    assert_eq!(w.add_participants_to_wallet(&env(1, 0), acc(2)), Err(MultiSigErrors::ParticipantAlreadyExists));
    assert_eq!(w.add_participants_to_wallet(&env(1, 0), acc(1)), Err(MultiSigErrors::ParticipantAlreadyExists));
    assert_eq!(w.get_wallet_participants(), vec![acc(1), acc(2)]);
    assert_eq!(w.number_of_participants, 2);
}

#[test]
fn deposits_need_participants_allowance_and_a_move() {
    let mut w = MultiSig::new(&env(1, 0), acc(99));
    assert_eq!(w.add_token_to_wallet(&env(5, 0), acc(50), 10, 10, 10).err(), Some(MultiSigErrors::CallerNotParticipant));
    assert_eq!(w.add_token_to_wallet(&env(1, 0), acc(50), 10, 9, 10).err(), Some(MultiSigErrors::NotEnoughAllowance));
    let plan = w.add_token_to_wallet(&env(1, 0), acc(50), 10, 10, 10).unwrap();
    assert_eq!(plan.transfer_from().call, ChainCall::Psp22TransferFrom { token: acc(50), from: acc(1), to: acc(400), amount: 10 });
    assert_eq!(w.settle_add_token_to_wallet(&plan, 10), Err(MultiSigErrors::CallerInsufficientPSP22Balance));
    assert_eq!(
        w.settle_add_token_to_wallet(&plan, 0),
        Ok(TokenAdded { caller: acc(1), psp22_token_address: acc(50), psp22_amount_added: 10 })
    );
    // A second deposit adds to the record.
    let plan = w.add_token_to_wallet(&env(1, 0), acc(50), 4, 10, 10).unwrap();
    w.settle_add_token_to_wallet(&plan, 6).unwrap();
    assert_eq!(w.create_new_transaction(&env(1, 0), 1, acc(50), 15, acc(8)).err(), Some(MultiSigErrors::NoEnoughTokenBalance));
    assert!(w.create_new_transaction(&env(1, 0), 1, acc(50), 14, acc(8)).is_ok());
}

#[test]
fn proposals_are_checked_and_numbered() {
    let mut w = wallet();
    assert_eq!(w.create_new_transaction(&env(1, 0), 2, acc(51), 10, acc(8)).err(), Some(MultiSigErrors::TokenDoesntExistsInWallet));
    assert_eq!(w.create_new_transaction(&env(1, 0), 2, acc(50), 10_001, acc(8)).err(), Some(MultiSigErrors::NoEnoughTokenBalance));
    assert_eq!(w.create_new_transaction(&env(7, 0), 2, acc(50), 10, acc(8)).err(), Some(MultiSigErrors::CallerNotParticipant));
    let ev = w.create_new_transaction(&env(2, 5_000), 2, acc(50), 1000, acc(8)).unwrap();
    assert_eq!(ev.transaction_number, 1);
    assert_eq!(ev.approvers, vec![acc(1), acc(2), acc(3)]);
    assert_eq!(ev.date, 5);
    let ev = w.create_new_transaction(&env(3, 0), 3, acc(50), 10, acc(8)).unwrap();
    assert_eq!(ev.transaction_number, 2);
    assert_eq!(w.get_number_of_transactions(), 2);
    let t = w.get_wallet_transaction(1).unwrap();
    assert_eq!(t.creator, acc(2));
    assert_eq!(t.psp22_amount_to_transfer, 1000);
    assert_eq!(t.number_of_approvals, 0);
    assert!(!t.completed_transaction);
    assert_eq!(w.get_wallet_transaction(3).err(), Some(MultiSigErrors::TransactionDoesntExists));
    assert_eq!(w.get_wallet_transaction(0).err(), Some(MultiSigErrors::TransactionDoesntExists));
}

#[test]
fn enough_approvals_send_the_transaction() {
    let mut w = wallet();
    w.create_new_transaction(&env(1, 0), 2, acc(50), 1000, acc(8)).unwrap();
    let first = w.approve_transaction(&env(1, 1000), 1).unwrap();
    assert!(first.calls.is_empty());
    assert_eq!(
        first.outcome,
        Ok(TransactionApproved { creator: acc(1), transaction_number: 1, number_of_approvals: 1, date: 1 })
    );
    let second = w.approve_transaction(&env(2, 2000), 1).unwrap();
    assert_eq!(second.calls.len(), 2);
    // 25 per thousand to the vault, the rest to the recipient.
    assert_eq!(second.calls[0].call, ChainCall::Psp22Transfer { token: acc(50), to: acc(99), amount: 25 });
    assert_eq!(second.calls[1].call, ChainCall::Psp22Transfer { token: acc(50), to: acc(8), amount: 975 });
    assert_eq!(second.calls[1].on_failure, MultiSigErrors::PSP22TransferFailed);
    assert_eq!(second.outcome, Ok(TransactionApproved { creator: acc(2), transaction_number: 1, number_of_approvals: 2, date: 2 }));
    let t = w.get_wallet_transaction(1).unwrap();
    assert!(t.completed_transaction);
    assert_eq!(t.number_of_approvals, 2);
    assert_eq!(t.approvers.len(), 3);
    assert_eq!(t.approved, vec![acc(1), acc(2)]);
    assert_eq!(w.approve_transaction(&env(3, 0), 1).err(), Some(MultiSigErrors::TransactionNotActive));
    assert_eq!(w.reject_transaction(&env(3, 0), 1).err(), Some(MultiSigErrors::TransactionNotActive));
    // The wallet's record of the token went down by the whole amount.
    assert_eq!(w.create_new_transaction(&env(1, 0), 1, acc(50), 9001, acc(8)).err(), Some(MultiSigErrors::NoEnoughTokenBalance));
    assert!(w.create_new_transaction(&env(1, 0), 1, acc(50), 9000, acc(8)).is_ok());
}

#[test]
fn approvals_are_checked() {
    let mut w = wallet();
    w.create_new_transaction(&env(1, 0), 2, acc(50), 1000, acc(8)).unwrap();
    assert_eq!(w.approve_transaction(&env(7, 0), 1).err(), Some(MultiSigErrors::CallerNotParticipant));
    assert_eq!(w.approve_transaction(&env(1, 0), 2).err(), Some(MultiSigErrors::TransactionDoesntExists));
    assert!(w.approve_transaction(&env(1, 0), 1).unwrap().outcome.is_ok());
    assert_eq!(w.approve_transaction(&env(1, 0), 1).err(), Some(MultiSigErrors::ParticipantAlreadyApproved));
    assert_eq!(w.get_wallet_transaction(1).unwrap().number_of_approvals, 1);
    // A participant added after the proposal may not vote on it.
    w.add_participants_to_wallet(&env(1, 0), acc(4)).unwrap();
    assert_eq!(w.approve_transaction(&env(4, 0), 1).err(), Some(MultiSigErrors::CallerNotParticipant));
}

#[test]
fn sending_more_than_the_record_fails() {
    let mut w = wallet();
    w.create_new_transaction(&env(1, 0), 1, acc(50), 8000, acc(8)).unwrap();
    w.create_new_transaction(&env(1, 0), 1, acc(50), 8000, acc(8)).unwrap();
    assert!(w.approve_transaction(&env(1, 0), 1).unwrap().outcome.is_ok());
    let plan = w.approve_transaction(&env(1, 0), 2).unwrap();
    assert_eq!(plan.calls.len(), 2);
    assert_eq!(plan.outcome, Err(MultiSigErrors::Overflow));
    assert!(!w.get_wallet_transaction(2).unwrap().completed_transaction);
}

#[test]
fn rejections_are_recorded() {
    let mut w = wallet();
    w.create_new_transaction(&env(1, 0), 2, acc(50), 1000, acc(8)).unwrap();
    let ev = w.reject_transaction(&env(3, 9000), 1).unwrap();
    assert_eq!(ev.number_of_rejects, 1);
    assert_eq!(ev.transaction_number, 1);
    assert_eq!(ev.date, 9);
    assert_eq!(w.reject_transaction(&env(3, 9000), 1).err(), Some(MultiSigErrors::ParticipantAlreadyRejected));
    assert_eq!(w.get_wallet_transaction(1).unwrap().rejected, vec![acc(3)]);
    assert_eq!(w.reject_transaction(&env(2, 9000), 1).unwrap().number_of_rejects, 2);
    assert_eq!(w.reject_transaction(&env(7, 0), 1).err(), Some(MultiSigErrors::CallerNotParticipant));
}
