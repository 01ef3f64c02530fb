//! A quorum-gated authorization engine for value transfers: a registry of
//! owners jointly controls a shared account, and moving funds out of it
//! requires a configurable minimum number of owners to approve a specific
//! proposed transaction before it can execute.

mod errors;
mod laws;
mod multisig;
mod party;
mod transaction;

pub use errors::MultisigError;
pub use laws::{
    lemma_no_double_vote, lemma_removal_never_raises_threshold,
    lemma_threshold_within_owner_count, lemma_votes_survive_owner_removal,
};
pub use multisig::{
    MAX_OWNERS, Multisig, MultisigInfo, add_owner, add_owner_check, change_threshold,
    change_threshold_check, create_multisig, create_multisig_check, get_multisig_info,
    owner_removal, remove_owner, remove_owner_check,
};
pub use party::{
    PartyId, contains_party, copy_parties, has_duplicate, no_duplicates, push_party, remove_party,
    removed_one,
};
pub use transaction::{
    MAX_MEMO_LEN, Transaction, TransactionStatus, Transfer, approve_transaction,
    approve_transaction_check, cancel_transaction, cancel_transaction_check, create_transaction,
    create_transaction_check, execute_transaction, execute_transaction_check, reject_transaction,
    reject_transaction_check, same_identity, status_after_rejection,
};
