use vstd::prelude::*;

use crate::multisig::{Multisig, owner_removal};
use crate::party::PartyId;
use crate::transaction::Transaction;

verus! {

/// For every well-formed registry — so after creation and after every
/// registry operation, each of which ensures `wf` — the threshold lies
/// between one and the number of owners. In particular `remove_owner` clamps
/// the threshold down when the owner set shrinks below it.
pub proof fn lemma_threshold_within_owner_count(m: Multisig)
    requires
        m.wf(),
    ensures
        1 <= m.threshold as int <= m.owners@.len(),
{
}

/// No party identifier ever appears in both the approvals and the rejections
/// of a well-formed transaction — and every engine operation ensures `wf`: a
/// rejection by a party who had approved first withdraws that approval.
pub proof fn lemma_no_double_vote(t: Transaction, p: PartyId)
    requires
        t.wf(),
    ensures
        !(t.approvals@.contains(p) && t.rejections@.contains(p)),
{
}

/// Removing an owner clamps the threshold down when the smaller owner set
/// requires it, and never raises it.
pub proof fn lemma_removal_never_raises_threshold(before: Multisig, after: Multisig, id: PartyId)
    requires
        before.wf(),
        owner_removal(before, after, id),
    ensures
        after.threshold <= before.threshold,
{
}

/// Votes are durable once cast: removing an owner mutates only the registry,
/// so a vote that party already cast on a transaction stays recorded and
/// counted there — only the party's future eligibility to vote is gone. And
/// since removal never raises the threshold, a tally that had reached the
/// quorum before the removal still reaches it afterwards.
pub proof fn lemma_votes_survive_owner_removal(
    before: Multisig,
    after: Multisig,
    id: PartyId,
    t: Transaction,
)
    requires
        before.wf(),
        owner_removal(before, after, id),
        t.approvals@.contains(id),
    ensures
        t.approvals@.contains(id),
        !after.owners@.contains(id),
        t.approvals@.len() >= before.threshold as int ==> t.approvals@.len()
            >= after.threshold as int,
{
    lemma_removal_never_raises_threshold(before, after, id);
}

} // verus!
