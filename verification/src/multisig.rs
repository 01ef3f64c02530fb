use vstd::prelude::*;

use crate::errors::MultisigError;
use crate::party::{
    PartyId, contains_party, copy_parties, has_duplicate, no_duplicates, push_party, remove_party,
    removed_one,
};

verus! {

/// The most owners a registry may hold.
pub const MAX_OWNERS: usize = 10;

/// The owner registry for one shared account: the current owner set, the
/// approval threshold, and a monotonic counter from which transaction
/// identifiers are derived.
///
/// Governance of the mutating operations below (who may add or remove owners
/// or change the threshold) is delegated to an external policy; the registry
/// itself only maintains its structural invariant.
#[derive(Debug)]
pub struct Multisig {
    /// Ledger address of the shared account this registry controls;
    /// transactions name it as their owning registry.
    pub key: PartyId,
    pub owners: Vec<PartyId>,
    pub threshold: u8,
    pub transaction_count: u64,
}

impl Multisig {
    /// The registry invariant: a non-empty, duplicate-free owner set of at
    /// most `MAX_OWNERS` members, and a threshold between one and the owner
    /// count. It holds after creation and after every registry operation.
    pub open spec fn wf(self) -> bool {
        &&& 1 <= self.owners@.len() <= MAX_OWNERS
        &&& 1 <= self.threshold
        &&& self.threshold as int <= self.owners@.len()
        &&& no_duplicates(self.owners@)
    }
}

/// The validation outcome of `create_multisig` on the given inputs.
pub open spec fn create_multisig_check(owners: Seq<PartyId>, threshold: u8) -> Result<
    (),
    MultisigError,
> {
    if owners.len() == 0 || owners.len() > MAX_OWNERS {
        Err(MultisigError::InvalidOwnerCount)
    } else if threshold == 0 {
        Err(MultisigError::InvalidThreshold)
    } else if threshold as int > owners.len() {
        Err(MultisigError::ThresholdTooHigh)
    } else if !no_duplicates(owners) {
        Err(MultisigError::DuplicateOwner)
    } else {
        Ok(())
    }
}

/// Creates the registry for the shared account at `key`, with the given owner
/// set and threshold, after validating both. The key is assigned by the
/// external ledger; the registry only records it.
pub fn create_multisig(key: PartyId, owners: Vec<PartyId>, threshold: u8) -> (created: Result<
    Multisig,
    MultisigError,
>)
    ensures
        match created {
            Ok(m) => {
                &&& create_multisig_check(owners@, threshold) == Ok::<(), MultisigError>(())
                &&& m.key == key
                &&& m.owners@ == owners@
                &&& m.threshold == threshold
                &&& m.transaction_count == 0
                &&& m.wf()
            },
            Err(e) => create_multisig_check(owners@, threshold) == Err::<(), MultisigError>(e),
        },
{
    if owners.len() == 0 || owners.len() > MAX_OWNERS {
        return Err(MultisigError::InvalidOwnerCount);
    }
    if threshold == 0 {
        return Err(MultisigError::InvalidThreshold);
    }
    if threshold as usize > owners.len() {
        return Err(MultisigError::ThresholdTooHigh);
    }
    if has_duplicate(&owners) {
        return Err(MultisigError::DuplicateOwner);
    }
    Ok(Multisig { key, owners, threshold, transaction_count: 0 })
}

/// The validation outcome of `add_owner` on the given registry and candidate.
pub open spec fn add_owner_check(m: Multisig, new_owner: PartyId) -> Result<(), MultisigError> {
    if m.owners@.len() >= MAX_OWNERS {
        Err(MultisigError::TooManyOwners)
    } else if m.owners@.contains(new_owner) {
        Err(MultisigError::AlreadyOwner)
    } else {
        Ok(())
    }
}

/// Adds `new_owner` to the registry. The threshold is untouched: it does not
/// grow with the owner set. On failure the registry is unchanged.
pub fn add_owner(multisig: &mut Multisig, new_owner: PartyId) -> (result: Result<
    (),
    MultisigError,
>)
    requires
        old(multisig).wf(),
    ensures
        final(multisig).wf(),
        match result {
            Ok(()) => {
                &&& add_owner_check(*old(multisig), new_owner) == Ok::<(), MultisigError>(())
                &&& final(multisig).owners@ == old(multisig).owners@.push(new_owner)
                &&& final(multisig).threshold == old(multisig).threshold
                &&& final(multisig).key == old(multisig).key
                &&& final(multisig).transaction_count == old(multisig).transaction_count
            },
            Err(e) => {
                &&& *final(multisig) == *old(multisig)
                &&& add_owner_check(*old(multisig), new_owner) == Err::<(), MultisigError>(e)
            },
        },
{
    if multisig.owners.len() >= MAX_OWNERS {
        return Err(MultisigError::TooManyOwners);
    }
    if contains_party(&multisig.owners, new_owner) {
        return Err(MultisigError::AlreadyOwner);
    }
    push_party(&mut multisig.owners, new_owner);
    Ok(())
}

/// How a registry after a successful `remove_owner` of `id` relates to the
/// registry before: the owner set has lost exactly the one occurrence of `id`
/// and nothing else, the threshold is kept unless it would exceed the smaller
/// owner set, in which case it is clamped down to the new owner count, and
/// everything else is unchanged.
pub open spec fn owner_removal(before: Multisig, after: Multisig, id: PartyId) -> bool {
    &&& removed_one(before.owners@, after.owners@, id)
    &&& after.owners@.len() == before.owners@.len() - 1
    &&& !after.owners@.contains(id)
    &&& forall|p: PartyId| p != id ==> after.owners@.contains(p) == before.owners@.contains(p)
    &&& after.threshold == (if before.threshold as int <= after.owners@.len() {
        before.threshold
    } else {
        after.owners@.len() as u8
    })
    &&& after.key == before.key
    &&& after.transaction_count == before.transaction_count
}

/// The validation outcome of `remove_owner` on the given registry and owner.
pub open spec fn remove_owner_check(m: Multisig, id: PartyId) -> Result<(), MultisigError> {
    if !m.owners@.contains(id) {
        Err(MultisigError::NotAnOwner)
    } else if m.owners@.len() == 1 {
        Err(MultisigError::CannotRemoveLastOwner)
    } else {
        Ok(())
    }
}

/// Removes `id` from the registry; the last owner can never be removed. If
/// the smaller owner set drops below the current threshold, the threshold is
/// clamped down to the new owner count, so the registry invariant keeps
/// holding. On failure the registry is unchanged.
///
/// Removal only shrinks the owner set: votes the removed owner already cast
/// on a transaction are recorded on that transaction and stay counted there.
pub fn remove_owner(multisig: &mut Multisig, id: PartyId) -> (result: Result<(), MultisigError>)
    requires
        old(multisig).wf(),
    ensures
        final(multisig).wf(),
        match result {
            Ok(()) => {
                &&& remove_owner_check(*old(multisig), id) == Ok::<(), MultisigError>(())
                &&& owner_removal(*old(multisig), *final(multisig), id)
            },
            Err(e) => {
                &&& *final(multisig) == *old(multisig)
                &&& remove_owner_check(*old(multisig), id) == Err::<(), MultisigError>(e)
            },
        },
{
    if !contains_party(&multisig.owners, id) {
        return Err(MultisigError::NotAnOwner);
    }
    if multisig.owners.len() == 1 {
        return Err(MultisigError::CannotRemoveLastOwner);
    }
    remove_party(&mut multisig.owners, id);
    if multisig.threshold as usize > multisig.owners.len() {
        multisig.threshold = multisig.owners.len() as u8;
    }
    Ok(())
}

/// The validation outcome of `change_threshold` on the given registry and
/// requested threshold.
pub open spec fn change_threshold_check(m: Multisig, new_threshold: u8) -> Result<
    (),
    MultisigError,
> {
    if new_threshold == 0 {
        Err(MultisigError::InvalidThreshold)
    } else if new_threshold as int > m.owners@.len() {
        Err(MultisigError::ThresholdTooHigh)
    } else {
        Ok(())
    }
}

/// Sets the approval threshold, which must stay between one and the owner
/// count. On failure the registry is unchanged.
pub fn change_threshold(multisig: &mut Multisig, new_threshold: u8) -> (result: Result<
    (),
    MultisigError,
>)
    requires
        old(multisig).wf(),
    ensures
        final(multisig).wf(),
        match result {
            Ok(()) => {
                &&& change_threshold_check(*old(multisig), new_threshold) == Ok::<
                    (),
                    MultisigError,
                >(())
                &&& final(multisig).threshold == new_threshold
                &&& final(multisig).owners@ == old(multisig).owners@
                &&& final(multisig).key == old(multisig).key
                &&& final(multisig).transaction_count == old(multisig).transaction_count
            },
            Err(e) => {
                &&& *final(multisig) == *old(multisig)
                &&& change_threshold_check(*old(multisig), new_threshold) == Err::<
                    (),
                    MultisigError,
                >(e)
            },
        },
{
    if new_threshold == 0 {
        return Err(MultisigError::InvalidThreshold);
    }
    if new_threshold as usize > multisig.owners.len() {
        return Err(MultisigError::ThresholdTooHigh);
    }
    multisig.threshold = new_threshold;
    Ok(())
}

/// A point-in-time copy of what a registry reports about itself.
#[derive(Debug)]
pub struct MultisigInfo {
    pub owners: Vec<PartyId>,
    pub threshold: u8,
    pub transaction_count: u64,
}

/// Reports the current owner set, threshold and transaction count.
pub fn get_multisig_info(multisig: &Multisig) -> (info: MultisigInfo)
    ensures
        info.owners@ == multisig.owners@,
        info.threshold == multisig.threshold,
        info.transaction_count == multisig.transaction_count,
{
    MultisigInfo {
        owners: copy_parties(&multisig.owners),
        threshold: multisig.threshold,
        transaction_count: multisig.transaction_count,
    }
}

} // verus!
