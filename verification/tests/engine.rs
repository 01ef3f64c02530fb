use payment_multisig::{
    Multisig, MultisigError, PartyId, Transaction, TransactionStatus, add_owner,
    approve_transaction, cancel_transaction, create_multisig, create_transaction,
    execute_transaction, reject_transaction,
};

fn parties(ids: &[u64]) -> Vec<PartyId> {
    ids.iter().map(|&id| PartyId(id)).collect()
}

fn registry(owner_ids: &[u64], threshold: u8) -> Multisig {
    create_multisig(PartyId(9), parties(owner_ids), threshold).unwrap()
}

fn proposal(m: &mut Multisig) -> Transaction {
    create_transaction(m, PartyId(1), PartyId(7), 100, String::new(), 5).unwrap()
}

#[test]
fn proposing_creates_a_pending_transaction_with_the_proposer_approval() {
    let mut m = registry(&[1, 2, 3], 2);
    let t = create_transaction(&mut m, PartyId(1), PartyId(7), 100, String::from("rent"), 5)
        .unwrap();
    assert_eq!(t.multisig, PartyId(9));
    assert_eq!(t.transaction_id, 0);
    assert_eq!(t.proposer, PartyId(1));
    assert_eq!(t.recipient, PartyId(7));
    assert_eq!(t.amount, 100);
    assert_eq!(t.memo, "rent");
    assert_eq!(t.approvals, parties(&[1]));
    assert_eq!(t.rejections, parties(&[]));
    assert_eq!(t.status, TransactionStatus::Pending);
    assert_eq!(t.created_at, 5);
    assert_eq!(t.executed_at, None);
    assert_eq!(m.transaction_count, 1);
}

#[test]
fn transaction_identifiers_count_up_per_registry() {
    let mut m = registry(&[1, 2, 3], 2);
    let first = proposal(&mut m);
    let second = proposal(&mut m);
    assert_eq!(first.transaction_id, 0);
    assert_eq!(second.transaction_id, 1);
    assert_eq!(m.transaction_count, 2);
}

#[test]
fn proposing_rejects_a_stranger() {
    let mut m = registry(&[1, 2, 3], 2);
    let r = create_transaction(&mut m, PartyId(5), PartyId(7), 100, String::new(), 5);
    assert_eq!(r.unwrap_err(), MultisigError::NotAnOwner);
    assert_eq!(m.transaction_count, 0);
}

#[test]
fn proposing_rejects_a_zero_amount() {
    let mut m = registry(&[1, 2, 3], 2);
    let r = create_transaction(&mut m, PartyId(1), PartyId(7), 0, String::new(), 5);
    assert_eq!(r.unwrap_err(), MultisigError::InvalidAmount);
}

#[test]
fn proposing_rejects_an_oversized_memo() {
    let mut m = registry(&[1, 2, 3], 2);
    let r = create_transaction(&mut m, PartyId(1), PartyId(7), 100, "x".repeat(257), 5);
    assert_eq!(r.unwrap_err(), MultisigError::MemoTooLong);
    assert_eq!(m.transaction_count, 0);
}

#[test]
fn proposing_accepts_a_memo_at_the_bound() {
    let mut m = registry(&[1, 2, 3], 2);
    let t = create_transaction(&mut m, PartyId(1), PartyId(7), 100, "x".repeat(256), 5).unwrap();
    assert_eq!(t.memo.len(), 256);
}

#[test]
fn approving_below_threshold_stays_pending() {
    let mut m = registry(&[1, 2, 3, 4], 3);
    let mut t = proposal(&mut m);
    approve_transaction(&mut t, &m, PartyId(2)).unwrap();
    assert_eq!(t.approvals, parties(&[1, 2]));
    assert_eq!(t.status, TransactionStatus::Pending);
}

#[test]
fn approving_at_threshold_approves() {
    let mut m = registry(&[1, 2, 3], 2);
    let mut t = proposal(&mut m);
    approve_transaction(&mut t, &m, PartyId(3)).unwrap();
    assert_eq!(t.approvals, parties(&[1, 3]));
    assert_eq!(t.status, TransactionStatus::Approved);
}

#[test]
fn approving_twice_fails_and_leaves_approvals_unchanged() {
    let mut m = registry(&[1, 2, 3, 4], 3);
    let mut t = proposal(&mut m);
    approve_transaction(&mut t, &m, PartyId(2)).unwrap();
    let r = approve_transaction(&mut t, &m, PartyId(2));
    assert_eq!(r.unwrap_err(), MultisigError::AlreadyApproved);
    assert_eq!(t.approvals, parties(&[1, 2]));
    assert_eq!(t.status, TransactionStatus::Pending);
}

#[test]
fn approving_by_a_stranger_fails() {
    let mut m = registry(&[1, 2, 3], 2);
    let mut t = proposal(&mut m);
    let r = approve_transaction(&mut t, &m, PartyId(5));
    assert_eq!(r.unwrap_err(), MultisigError::NotAnOwner);
    assert_eq!(t.approvals, parties(&[1]));
}

#[test]
fn approving_after_a_rejection_by_the_same_owner_fails() {
    let mut m = registry(&[1, 2, 3, 4], 2);
    let mut t = proposal(&mut m);
    reject_transaction(&mut t, &m, PartyId(2)).unwrap();
    let r = approve_transaction(&mut t, &m, PartyId(2));
    assert_eq!(r.unwrap_err(), MultisigError::AlreadyRejected);
    assert_eq!(t.rejections, parties(&[2]));
}

#[test]
fn approving_an_already_approved_transaction_fails() {
    let mut m = registry(&[1, 2, 3], 2);
    let mut t = proposal(&mut m);
    approve_transaction(&mut t, &m, PartyId(2)).unwrap();
    assert_eq!(t.status, TransactionStatus::Approved);
    let r = approve_transaction(&mut t, &m, PartyId(3));
    assert_eq!(r.unwrap_err(), MultisigError::InvalidTransactionStatus);
    assert_eq!(t.approvals, parties(&[1, 2]));
}

#[test]
fn a_newly_added_owner_can_vote_on_an_open_transaction() {
    let mut m = registry(&[1, 2], 2);
    let mut t = proposal(&mut m);
    add_owner(&mut m, PartyId(3)).unwrap();
    approve_transaction(&mut t, &m, PartyId(3)).unwrap();
    assert_eq!(t.approvals, parties(&[1, 3]));
    assert_eq!(t.status, TransactionStatus::Approved);
}

#[test]
fn rejecting_overrides_the_same_owners_prior_approval() {
    let mut m = registry(&[1, 2, 3, 4], 2);
    let mut t = proposal(&mut m);
    approve_transaction(&mut t, &m, PartyId(2)).unwrap();
    assert_eq!(t.status, TransactionStatus::Approved);
    reject_transaction(&mut t, &m, PartyId(2)).unwrap();
    assert_eq!(t.approvals, parties(&[1]));
    assert_eq!(t.rejections, parties(&[2]));
    // 4 owners - 1 rejection = 3 possible approvals, still enough for 2,
    // but only 1 approval stands: the transaction regresses to pending
    assert_eq!(t.status, TransactionStatus::Pending);
}

#[test]
fn rejecting_never_touches_other_owners_approvals() {
    let mut m = registry(&[1, 2, 3, 4, 5], 3);
    let mut t = proposal(&mut m);
    approve_transaction(&mut t, &m, PartyId(2)).unwrap();
    reject_transaction(&mut t, &m, PartyId(3)).unwrap();
    assert_eq!(t.approvals, parties(&[1, 2]));
    assert_eq!(t.rejections, parties(&[3]));
    assert_eq!(t.status, TransactionStatus::Pending);
}

#[test]
fn rejecting_twice_fails() {
    let mut m = registry(&[1, 2, 3, 4], 2);
    let mut t = proposal(&mut m);
    reject_transaction(&mut t, &m, PartyId(2)).unwrap();
    let r = reject_transaction(&mut t, &m, PartyId(2));
    assert_eq!(r.unwrap_err(), MultisigError::AlreadyRejected);
    assert_eq!(t.rejections, parties(&[2]));
}

#[test]
fn rejecting_until_the_quorum_is_unreachable_rejects_the_transaction() {
    let mut m = registry(&[1, 2, 3], 3);
    let mut t = proposal(&mut m);
    reject_transaction(&mut t, &m, PartyId(2)).unwrap();
    // 3 owners - 1 rejection = 2 possible approvals < threshold 3
    assert_eq!(t.status, TransactionStatus::Rejected);
}

#[test]
fn rejecting_a_terminal_transaction_fails() {
    let mut m = registry(&[1, 2, 3], 3);
    let mut t = proposal(&mut m);
    reject_transaction(&mut t, &m, PartyId(2)).unwrap();
    assert_eq!(t.status, TransactionStatus::Rejected);
    let r = reject_transaction(&mut t, &m, PartyId(3));
    assert_eq!(r.unwrap_err(), MultisigError::InvalidTransactionStatus);
    assert_eq!(t.rejections, parties(&[2]));
}

#[test]
fn executing_moves_the_amount_and_stamps_the_time() {
    let mut m = registry(&[1, 2, 3], 2);
    let mut t = proposal(&mut m);
    approve_transaction(&mut t, &m, PartyId(2)).unwrap();
    let instruction = execute_transaction(&mut t, &m, PartyId(3), 150, 42).unwrap();
    assert_eq!(instruction.source, PartyId(9));
    assert_eq!(instruction.recipient, PartyId(7));
    assert_eq!(instruction.amount, 100);
    assert_eq!(t.status, TransactionStatus::Executed);
    assert_eq!(t.executed_at, Some(42));
}

#[test]
fn executing_a_pending_transaction_fails() {
    let mut m = registry(&[1, 2, 3], 2);
    let mut t = proposal(&mut m);
    let r = execute_transaction(&mut t, &m, PartyId(2), 150, 42);
    assert_eq!(r.unwrap_err(), MultisigError::NotApproved);
    assert_eq!(t.status, TransactionStatus::Pending);
}

#[test]
fn executing_by_a_stranger_fails() {
    let mut m = registry(&[1, 2, 3], 2);
    let mut t = proposal(&mut m);
    approve_transaction(&mut t, &m, PartyId(2)).unwrap();
    let r = execute_transaction(&mut t, &m, PartyId(5), 150, 42);
    assert_eq!(r.unwrap_err(), MultisigError::NotAnOwner);
    assert_eq!(t.status, TransactionStatus::Approved);
}

#[test]
fn executing_without_funds_fails_and_the_approval_survives_for_a_retry() {
    let mut m = registry(&[1, 2, 3], 2);
    let mut t = proposal(&mut m);
    approve_transaction(&mut t, &m, PartyId(2)).unwrap();
    let r = execute_transaction(&mut t, &m, PartyId(3), 99, 42);
    assert_eq!(r.unwrap_err(), MultisigError::InsufficientFunds);
    assert_eq!(t.status, TransactionStatus::Approved);
    assert_eq!(t.executed_at, None);
    // once funded, the same transaction executes
    let instruction = execute_transaction(&mut t, &m, PartyId(3), 100, 43).unwrap();
    assert_eq!(instruction.amount, 100);
    assert_eq!(t.status, TransactionStatus::Executed);
}

#[test]
fn executing_twice_fails() {
    let mut m = registry(&[1, 2, 3], 2);
    let mut t = proposal(&mut m);
    approve_transaction(&mut t, &m, PartyId(2)).unwrap();
    execute_transaction(&mut t, &m, PartyId(3), 150, 42).unwrap();
    let r = execute_transaction(&mut t, &m, PartyId(3), 150, 43);
    assert_eq!(r.unwrap_err(), MultisigError::NotApproved);
    assert_eq!(t.executed_at, Some(42));
}

#[test]
fn cancelling_is_for_the_proposer_alone() {
    let mut m = registry(&[1, 2, 3], 2);
    let mut t = proposal(&mut m);
    let r = cancel_transaction(&mut t, PartyId(2));
    assert_eq!(r.unwrap_err(), MultisigError::NotProposer);
    assert_eq!(t.status, TransactionStatus::Pending);
    cancel_transaction(&mut t, PartyId(1)).unwrap();
    assert_eq!(t.status, TransactionStatus::Cancelled);
}

#[test]
fn cancelling_an_approved_transaction_works() {
    let mut m = registry(&[1, 2, 3], 2);
    let mut t = proposal(&mut m);
    approve_transaction(&mut t, &m, PartyId(2)).unwrap();
    cancel_transaction(&mut t, PartyId(1)).unwrap();
    assert_eq!(t.status, TransactionStatus::Cancelled);
    assert_eq!(t.approvals, parties(&[1, 2]));
}

#[test]
fn cancelling_an_executed_transaction_fails() {
    let mut m = registry(&[1, 2, 3], 2);
    let mut t = proposal(&mut m);
    approve_transaction(&mut t, &m, PartyId(2)).unwrap();
    execute_transaction(&mut t, &m, PartyId(3), 150, 42).unwrap();
    let r = cancel_transaction(&mut t, PartyId(1));
    assert_eq!(r.unwrap_err(), MultisigError::InvalidTransactionStatus);
    assert_eq!(t.status, TransactionStatus::Executed);
}
