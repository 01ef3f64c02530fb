use vstd::prelude::*;
use vstd::string::StrSliceExecFns;

use crate::errors::MultisigError;
use crate::multisig::Multisig;
use crate::party::{PartyId, contains_party, no_duplicates, push_party, remove_party, removed_one};

verus! {

broadcast use vstd::seq_lib::lemma_seq_contains_after_push;

/// The longest memo a transaction may carry, in characters.
pub const MAX_MEMO_LEN: usize = 256;

/// The lifecycle of a transaction. `Executed`, `Rejected` and `Cancelled` are
/// terminal; `Approved` is not: later rejections can pull an approved
/// transaction back to `Pending` or down to `Rejected`, but a transaction
/// never returns to `Pending` by any other route.
#[derive(Clone, Copy, PartialEq, Eq, Structural, Debug)]
pub enum TransactionStatus {
    Pending,
    Approved,
    Rejected,
    Executed,
    Cancelled,
}

/// A fund-movement instruction emitted on execution, to be carried out
/// atomically against the external ledger: move `amount` out of the shared
/// account `source` and credit it to `recipient`.
#[derive(Clone, Copy, PartialEq, Eq, Structural, Debug)]
pub struct Transfer {
    pub source: PartyId,
    pub recipient: PartyId,
    pub amount: u64,
}

/// One transfer proposal against a registry. It records who proposed it, what
/// it moves, every vote cast on it, and where it stands in its lifecycle. A
/// transaction references its registry by key but is not owned by it: it
/// remains inspectable however the registry's membership later changes.
#[derive(Debug)]
pub struct Transaction {
    /// Key of the registry this transaction was proposed against.
    pub multisig: PartyId,
    /// Identifier drawn from the registry's transaction counter at creation;
    /// unique within that registry, never reused.
    pub transaction_id: u64,
    pub proposer: PartyId,
    pub recipient: PartyId,
    pub amount: u64,
    pub memo: String,
    /// Identifiers of the parties who voted yes.
    pub approvals: Vec<PartyId>,
    /// Identifiers of the parties who voted no.
    pub rejections: Vec<PartyId>,
    pub status: TransactionStatus,
    pub created_at: i64,
    pub executed_at: Option<i64>,
}

impl Transaction {
    /// The transaction invariant: a positive amount, a bounded memo, vote
    /// sets without duplicates in which no party appears on both sides, and
    /// an execution stamp exactly when the transaction was executed. It holds
    /// from creation and after every vote, execution or cancellation.
    pub open spec fn wf(self) -> bool {
        &&& self.amount > 0
        &&& self.memo@.len() <= MAX_MEMO_LEN
        &&& no_duplicates(self.approvals@)
        &&& no_duplicates(self.rejections@)
        &&& forall|p: PartyId| #[trigger]
            self.approvals@.contains(p) ==> !self.rejections@.contains(p)
        &&& self.status == TransactionStatus::Executed <==> self.executed_at is Some
    }
}

/// Those fields of a transaction that no operation after creation may touch:
/// everything but the vote sets, the status and the execution stamp.
pub open spec fn same_identity(a: Transaction, b: Transaction) -> bool {
    &&& b.multisig == a.multisig
    &&& b.transaction_id == a.transaction_id
    &&& b.proposer == a.proposer
    &&& b.recipient == a.recipient
    &&& b.amount == a.amount
    &&& b.memo@ == a.memo@
    &&& b.created_at == a.created_at
}

/// The validation outcome of `create_transaction` on the given inputs.
pub open spec fn create_transaction_check(
    m: Multisig,
    proposer: PartyId,
    amount: u64,
    memo: Seq<char>,
) -> Result<(), MultisigError> {
    if !m.owners@.contains(proposer) {
        Err(MultisigError::NotAnOwner)
    } else if amount == 0 {
        Err(MultisigError::InvalidAmount)
    } else if memo.len() > MAX_MEMO_LEN {
        Err(MultisigError::MemoTooLong)
    } else {
        Ok(())
    }
}

/// Creates a `Pending` transaction proposing to move `amount` to `recipient`,
/// with the proposer's own approval already counted. Draws the transaction
/// identifier from the registry's counter and advances the counter; `now` is
/// the caller-supplied current time. On failure the registry is unchanged.
pub fn create_transaction(
    multisig: &mut Multisig,
    proposer: PartyId,
    recipient: PartyId,
    amount: u64,
    memo: String,
    now: i64,
) -> (created: Result<Transaction, MultisigError>)
    requires
        old(multisig).wf(),
        old(multisig).transaction_count < u64::MAX,
    ensures
        final(multisig).wf(),
        match created {
            Ok(t) => {
                &&& create_transaction_check(*old(multisig), proposer, amount, memo@) == Ok::<
                    (),
                    MultisigError,
                >(())
                &&& final(multisig).transaction_count == old(multisig).transaction_count + 1
                &&& final(multisig).owners@ == old(multisig).owners@
                &&& final(multisig).threshold == old(multisig).threshold
                &&& final(multisig).key == old(multisig).key
                &&& t.multisig == old(multisig).key
                &&& t.transaction_id == old(multisig).transaction_count
                &&& t.proposer == proposer
                &&& t.recipient == recipient
                &&& t.amount == amount
                &&& t.memo@ == memo@
                &&& t.approvals@ == seq![proposer]
                &&& t.rejections@ == Seq::<PartyId>::empty()
                &&& t.status == TransactionStatus::Pending
                &&& t.created_at == now
                &&& t.executed_at is None
                &&& t.wf()
            },
            Err(e) => {
                &&& *final(multisig) == *old(multisig)
                &&& create_transaction_check(*old(multisig), proposer, amount, memo@) == Err::<
                    (),
                    MultisigError,
                >(e)
            },
        },
{
    if !contains_party(&multisig.owners, proposer) {
        return Err(MultisigError::NotAnOwner);
    }
    if amount == 0 {
        return Err(MultisigError::InvalidAmount);
    }
    if memo.as_str().unicode_len() > MAX_MEMO_LEN {
        return Err(MultisigError::MemoTooLong);
    }
    let mut approvals: Vec<PartyId> = Vec::new();
    approvals.push(proposer);
    proof {
        assert(approvals@ =~= seq![proposer]);
    }
    let rejections: Vec<PartyId> = Vec::new();
    let transaction = Transaction {
        multisig: multisig.key,
        transaction_id: multisig.transaction_count,
        proposer,
        recipient,
        amount,
        memo,
        approvals,
        rejections,
        status: TransactionStatus::Pending,
        created_at: now,
        executed_at: None,
    };
    multisig.transaction_count = multisig.transaction_count + 1;
    Ok(transaction)
}

/// The validation outcome of `approve_transaction` on the given state.
pub open spec fn approve_transaction_check(
    t: Transaction,
    m: Multisig,
    owner: PartyId,
) -> Result<(), MultisigError> {
    if !m.owners@.contains(owner) {
        Err(MultisigError::NotAnOwner)
    } else if t.status != TransactionStatus::Pending {
        Err(MultisigError::InvalidTransactionStatus)
    } else if t.approvals@.contains(owner) {
        Err(MultisigError::AlreadyApproved)
    } else if t.rejections@.contains(owner) {
        Err(MultisigError::AlreadyRejected)
    } else {
        Ok(())
    }
}

/// Records a yes vote from `owner`, who must be a current owner of the
/// registry — membership is evaluated now, not at the transaction's creation.
/// When the approvals reach the registry's threshold the transaction becomes
/// `Approved`. On failure the transaction is unchanged.
pub fn approve_transaction(
    transaction: &mut Transaction,
    multisig: &Multisig,
    owner: PartyId,
) -> (result: Result<(), MultisigError>)
    requires
        old(transaction).wf(),
        multisig.wf(),
        old(transaction).multisig == multisig.key,
    ensures
        final(transaction).wf(),
        same_identity(*old(transaction), *final(transaction)),
        match result {
            Ok(()) => {
                &&& approve_transaction_check(*old(transaction), *multisig, owner) == Ok::<
                    (),
                    MultisigError,
                >(())
                &&& final(transaction).approvals@ == old(transaction).approvals@.push(owner)
                &&& final(transaction).rejections@ == old(transaction).rejections@
                &&& final(transaction).status == (if old(transaction).approvals@.len() + 1
                    >= multisig.threshold as int {
                    TransactionStatus::Approved
                } else {
                    TransactionStatus::Pending
                })
                &&& final(transaction).executed_at == old(transaction).executed_at
            },
            Err(e) => {
                &&& *final(transaction) == *old(transaction)
                &&& approve_transaction_check(*old(transaction), *multisig, owner) == Err::<
                    (),
                    MultisigError,
                >(e)
            },
        },
{
    if !contains_party(&multisig.owners, owner) {
        return Err(MultisigError::NotAnOwner);
    }
    if !matches!(transaction.status, TransactionStatus::Pending) {
        return Err(MultisigError::InvalidTransactionStatus);
    }
    if contains_party(&transaction.approvals, owner) {
        return Err(MultisigError::AlreadyApproved);
    }
    if contains_party(&transaction.rejections, owner) {
        return Err(MultisigError::AlreadyRejected);
    }
    push_party(&mut transaction.approvals, owner);
    if transaction.approvals.len() >= multisig.threshold as usize {
        transaction.status = TransactionStatus::Approved;
    }
    Ok(())
}

/// The validation outcome of `reject_transaction` on the given state.
pub open spec fn reject_transaction_check(
    t: Transaction,
    m: Multisig,
    owner: PartyId,
) -> Result<(), MultisigError> {
    if !m.owners@.contains(owner) {
        Err(MultisigError::NotAnOwner)
    } else if t.status != TransactionStatus::Pending && t.status != TransactionStatus::Approved {
        Err(MultisigError::InvalidTransactionStatus)
    } else if t.rejections@.contains(owner) {
        Err(MultisigError::AlreadyRejected)
    } else {
        Ok(())
    }
}

/// The status a transaction lands in after a rejection is recorded:
/// `Rejected` once so many owners have voted no that the remaining owners
/// cannot reach the threshold even if they all approve; otherwise `Pending`
/// while the approvals are short of the threshold — this is how an approved
/// transaction regresses when its approver switches sides — and otherwise
/// whatever the status was before.
pub open spec fn status_after_rejection(
    status_before: TransactionStatus,
    approvals: Seq<PartyId>,
    rejections: Seq<PartyId>,
    m: Multisig,
) -> TransactionStatus {
    if m.owners@.len() - rejections.len() < m.threshold as int {
        TransactionStatus::Rejected
    } else if approvals.len() < m.threshold as int {
        TransactionStatus::Pending
    } else {
        status_before
    }
}

/// Records a no vote from `owner`, a current owner of the registry. A prior
/// yes vote by the same owner is withdrawn: a rejection overrides it. Other
/// owners' approvals are never touched. The transaction then lands in the
/// status `status_after_rejection` describes. On failure the transaction is
/// unchanged.
pub fn reject_transaction(
    transaction: &mut Transaction,
    multisig: &Multisig,
    owner: PartyId,
) -> (result: Result<(), MultisigError>)
    requires
        old(transaction).wf(),
        multisig.wf(),
        old(transaction).multisig == multisig.key,
    ensures
        final(transaction).wf(),
        same_identity(*old(transaction), *final(transaction)),
        match result {
            Ok(()) => {
                &&& reject_transaction_check(*old(transaction), *multisig, owner) == Ok::<
                    (),
                    MultisigError,
                >(())
                &&& !final(transaction).approvals@.contains(owner)
                &&& forall|p: PartyId|
                    p != owner ==> final(transaction).approvals@.contains(p) == old(
                        transaction
                    ).approvals@.contains(p)
                &&& (old(transaction).approvals@.contains(owner) ==> removed_one(
                    old(transaction).approvals@,
                    final(transaction).approvals@,
                    owner,
                ))
                &&& (!old(transaction).approvals@.contains(owner) ==> final(transaction).approvals@
                    == old(transaction).approvals@)
                &&& final(transaction).rejections@ == old(transaction).rejections@.push(owner)
                &&& final(transaction).status == status_after_rejection(
                    old(transaction).status,
                    final(transaction).approvals@,
                    final(transaction).rejections@,
                    *multisig,
                )
                &&& final(transaction).executed_at == old(transaction).executed_at
            },
            Err(e) => {
                &&& *final(transaction) == *old(transaction)
                &&& reject_transaction_check(*old(transaction), *multisig, owner) == Err::<
                    (),
                    MultisigError,
                >(e)
            },
        },
{
    if !contains_party(&multisig.owners, owner) {
        return Err(MultisigError::NotAnOwner);
    }
    let pending = matches!(transaction.status, TransactionStatus::Pending);
    let approved = matches!(transaction.status, TransactionStatus::Approved);
    if !pending && !approved {
        return Err(MultisigError::InvalidTransactionStatus);
    }
    if contains_party(&transaction.rejections, owner) {
        return Err(MultisigError::AlreadyRejected);
    }
    remove_party(&mut transaction.approvals, owner);
    push_party(&mut transaction.rejections, owner);
    let rejection_count = transaction.rejections.len();
    let max_possible_approvals = if multisig.owners.len() >= rejection_count {
        multisig.owners.len() - rejection_count
    } else {
        0
    };
    if max_possible_approvals < multisig.threshold as usize {
        transaction.status = TransactionStatus::Rejected;
    } else if transaction.approvals.len() < multisig.threshold as usize {
        transaction.status = TransactionStatus::Pending;
    }
    Ok(())
}

/// The validation outcome of `execute_transaction` on the given state. The
/// quorum is re-validated here: an `Approved` marking is not trusted on its
/// own, the approvals must still reach the threshold at execution time.
pub open spec fn execute_transaction_check(
    t: Transaction,
    m: Multisig,
    executor: PartyId,
    available_balance: u64,
) -> Result<(), MultisigError> {
    if !m.owners@.contains(executor) {
        Err(MultisigError::NotAnOwner)
    } else if t.status != TransactionStatus::Approved {
        Err(MultisigError::NotApproved)
    } else if t.approvals@.len() < m.threshold as int {
        Err(MultisigError::NotApproved)
    } else if available_balance < t.amount {
        Err(MultisigError::InsufficientFunds)
    } else {
        Ok(())
    }
}

/// Executes an approved transaction: marks it `Executed`, stamps the
/// caller-supplied time `now`, and emits the fund-movement instruction for
/// the external ledger to carry out atomically. The approval tally is a
/// logical authorization, not a funds reservation, so the shared account's
/// balance at execution time is re-checked here against the amount; on
/// `InsufficientFunds` the transaction stays `Approved`, so a retry is
/// possible once funded. Whether every approver is still an owner is not
/// re-evaluated. On any failure the transaction is unchanged.
pub fn execute_transaction(
    transaction: &mut Transaction,
    multisig: &Multisig,
    executor: PartyId,
    available_balance: u64,
    now: i64,
) -> (result: Result<Transfer, MultisigError>)
    requires
        old(transaction).wf(),
        multisig.wf(),
        old(transaction).multisig == multisig.key,
    ensures
        final(transaction).wf(),
        same_identity(*old(transaction), *final(transaction)),
        old(transaction).status != TransactionStatus::Executed && final(transaction).status
            == TransactionStatus::Executed ==> old(transaction).approvals@.len()
            >= multisig.threshold as int,
        match result {
            Ok(instruction) => {
                &&& execute_transaction_check(
                    *old(transaction),
                    *multisig,
                    executor,
                    available_balance,
                ) == Ok::<(), MultisigError>(())
                &&& instruction.source == old(transaction).multisig
                &&& instruction.recipient == old(transaction).recipient
                &&& instruction.amount == old(transaction).amount
                &&& final(transaction).status == TransactionStatus::Executed
                &&& final(transaction).executed_at == Some(now)
                &&& final(transaction).approvals@ == old(transaction).approvals@
                &&& final(transaction).rejections@ == old(transaction).rejections@
            },
            Err(e) => {
                &&& *final(transaction) == *old(transaction)
                &&& execute_transaction_check(
                    *old(transaction),
                    *multisig,
                    executor,
                    available_balance,
                ) == Err::<(), MultisigError>(e)
            },
        },
{
    if !contains_party(&multisig.owners, executor) {
        return Err(MultisigError::NotAnOwner);
    }
    if !matches!(transaction.status, TransactionStatus::Approved) {
        return Err(MultisigError::NotApproved);
    }
    if transaction.approvals.len() < multisig.threshold as usize {
        return Err(MultisigError::NotApproved);
    }
    if available_balance < transaction.amount {
        return Err(MultisigError::InsufficientFunds);
    }
    transaction.status = TransactionStatus::Executed;
    transaction.executed_at = Some(now);
    Ok(Transfer {
        source: transaction.multisig,
        recipient: transaction.recipient,
        amount: transaction.amount,
    })
}

/// The validation outcome of `cancel_transaction` on the given state.
pub open spec fn cancel_transaction_check(t: Transaction, caller: PartyId) -> Result<
    (),
    MultisigError,
> {
    if caller != t.proposer {
        Err(MultisigError::NotProposer)
    } else if t.status != TransactionStatus::Pending && t.status != TransactionStatus::Approved {
        Err(MultisigError::InvalidTransactionStatus)
    } else {
        Ok(())
    }
}

/// Cancels a transaction that has not yet reached a terminal status. Only the
/// proposer may cancel, and the vote record is kept as it stood. On failure
/// the transaction is unchanged.
pub fn cancel_transaction(transaction: &mut Transaction, caller: PartyId) -> (result: Result<
    (),
    MultisigError,
>)
    requires
        old(transaction).wf(),
    ensures
        final(transaction).wf(),
        same_identity(*old(transaction), *final(transaction)),
        match result {
            Ok(()) => {
                &&& cancel_transaction_check(*old(transaction), caller) == Ok::<
                    (),
                    MultisigError,
                >(())
                &&& final(transaction).status == TransactionStatus::Cancelled
                &&& final(transaction).approvals@ == old(transaction).approvals@
                &&& final(transaction).rejections@ == old(transaction).rejections@
                &&& final(transaction).executed_at == old(transaction).executed_at
            },
            Err(e) => {
                &&& *final(transaction) == *old(transaction)
                &&& cancel_transaction_check(*old(transaction), caller) == Err::<
                    (),
                    MultisigError,
                >(e)
            },
        },
{
    if caller != transaction.proposer {
        return Err(MultisigError::NotProposer);
    }
    let pending = matches!(transaction.status, TransactionStatus::Pending);
    let approved = matches!(transaction.status, TransactionStatus::Approved);
    if !pending && !approved {
        return Err(MultisigError::InvalidTransactionStatus);
    }
    transaction.status = TransactionStatus::Cancelled;
    Ok(())
}

} // verus!
