//! What holds of the registry whatever calls are made.

use crate::claim::BlockNumber;
use crate::dog::DogView;
use crate::error::Error;
use crate::event::EventView;
use crate::model::{apply, create_claim, keyed_by_id, revoke_claim, run, transfer_claim, Call, Proofs};
use vstd::prelude::*;

verus! {

/// A call that fails leaves the store as it was.
pub proof fn lemma_failed_call_changes_nothing(proofs: Proofs, call: Call)
    requires
        apply(proofs, call).result is Err,
    ensures
        apply(proofs, call).proofs == proofs,
{
}

/// A call leaves every identifier but its own as it was: claimed or not, and
/// with the same entry.
pub proof fn lemma_call_touches_one_id(proofs: Proofs, call: Call, other: Seq<u8>)
    requires
        other != call.dog_id(),
    ensures
        apply(proofs, call).proofs.contains_key(other) == proofs.contains_key(other),
        proofs.contains_key(other) ==> apply(proofs, call).proofs[other] == proofs[other],
{
}

/// A call keeps every entry under the identifier of its own record.
pub proof fn lemma_call_keeps_keyed_by_id(proofs: Proofs, call: Call)
    requires
        keyed_by_id(proofs),
    ensures
        keyed_by_id(apply(proofs, call).proofs),
{
}

/// A call keeps the store finite.
pub proof fn lemma_call_keeps_finite(proofs: Proofs, call: Call)
    requires
        proofs.dom().finite(),
    ensures
        apply(proofs, call).proofs.dom().finite(),
{
}

/// After any calls whatever on a registry that started empty, the store is
/// finite and holds, under each identifier that is claimed, the one entry
/// whose record bears that identifier.
pub proof fn lemma_run_keeps_store_sound(calls: Seq<Call>)
    ensures
        run(Map::empty(), calls).dom().finite(),
        keyed_by_id(run(Map::empty(), calls)),
    decreases calls.len(),
{
    if calls.len() > 0 {
        lemma_run_keeps_store_sound(calls.drop_last());
        let before = run(Map::empty(), calls.drop_last());
        lemma_call_keeps_finite(before, calls.last());
        lemma_call_keeps_keyed_by_id(before, calls.last());
    }
}

/// A `create_claim` goes through exactly where the identifier is unclaimed.
/// The store then holds, under the identifier, the record as given, owned by
/// the caller and stamped with the call's block.
pub proof fn lemma_create_is_for_the_unclaimed(
    proofs: Proofs,
    who: Seq<u8>,
    name: Seq<u8>,
    color: Seq<u8>,
    age: u32,
    dog_id: Seq<u8>,
    now: BlockNumber,
)
    ensures
        create_claim(proofs, who, name, color, age, dog_id, now).result is Ok
            <==> !proofs.contains_key(dog_id),
        !proofs.contains_key(dog_id) ==> {
            let after = create_claim(proofs, who, name, color, age, dog_id, now).proofs;
            &&& after.contains_key(dog_id)
            &&& after[dog_id].owner == who
            &&& after[dog_id].registered_at == now
            &&& after[dog_id].dog == (DogView { dog_id, name, age, color })
        },
{
}

/// Of two `create_claim` calls for one identifier the second fails with
/// `ProofAlreadyClaimed` and changes nothing, whoever makes the calls and
/// whatever they register.
pub proof fn lemma_create_twice_fails(
    proofs: Proofs,
    dog_id: Seq<u8>,
    who: Seq<u8>,
    name: Seq<u8>,
    color: Seq<u8>,
    age: u32,
    now: BlockNumber,
    who_again: Seq<u8>,
    name_again: Seq<u8>,
    color_again: Seq<u8>,
    age_again: u32,
    now_again: BlockNumber,
)
    ensures
        ({
            let first = create_claim(proofs, who, name, color, age, dog_id, now);
            let second = create_claim(
                first.proofs,
                who_again,
                name_again,
                color_again,
                age_again,
                dog_id,
                now_again,
            );
            &&& second.result == Err::<EventView, Error>(Error::ProofAlreadyClaimed)
            &&& second.proofs == first.proofs
        }),
{
}

/// A `revoke_claim` by any account but the one that holds the claim fails
/// with `NotProofOwner` and changes nothing.
pub proof fn lemma_revoke_by_other_fails(proofs: Proofs, who: Seq<u8>, dog_id: Seq<u8>)
    requires
        proofs.contains_key(dog_id),
        proofs[dog_id].owner != who,
    ensures
        revoke_claim(proofs, who, dog_id).result == Err::<EventView, Error>(Error::NotProofOwner),
        revoke_claim(proofs, who, dog_id).proofs == proofs,
{
}

/// A `revoke_claim` goes through exactly where the caller holds the claim.
pub proof fn lemma_revoke_is_for_the_owner(proofs: Proofs, who: Seq<u8>, dog_id: Seq<u8>)
    ensures
        revoke_claim(proofs, who, dog_id).result is Ok <==> proofs.contains_key(dog_id)
            && proofs[dog_id].owner == who,
{
}

/// A `revoke_claim` that goes through leaves the identifier unclaimed, and a
/// `create_claim` for it then goes through, whoever makes it.
pub proof fn lemma_revoke_frees_id(
    proofs: Proofs,
    who: Seq<u8>,
    dog_id: Seq<u8>,
    who_next: Seq<u8>,
    name: Seq<u8>,
    color: Seq<u8>,
    age: u32,
    now: BlockNumber,
)
    requires
        revoke_claim(proofs, who, dog_id).result is Ok,
    ensures
        !revoke_claim(proofs, who, dog_id).proofs.contains_key(dog_id),
        create_claim(
            revoke_claim(proofs, who, dog_id).proofs,
            who_next,
            name,
            color,
            age,
            dog_id,
            now,
        ).result is Ok,
{
}

/// A `transfer_claim` to the caller's own account, for an identifier that
/// is held, fails with `NotTransferToItself` and changes nothing, whoever
/// holds the claim.
pub proof fn lemma_transfer_to_self_fails(
    proofs: Proofs,
    who: Seq<u8>,
    dog_id: Seq<u8>,
    now: BlockNumber,
)
    requires
        proofs.contains_key(dog_id),
    ensures
        transfer_claim(proofs, who, dog_id, who, now).result == Err::<EventView, Error>(
            Error::NotTransferToItself,
        ),
        transfer_claim(proofs, who, dog_id, who, now).proofs == proofs,
{
}

/// A `transfer_claim` to the caller's own account never goes through and
/// never changes anything, whether the identifier is held or not.
pub proof fn lemma_transfer_to_self_changes_nothing(
    proofs: Proofs,
    who: Seq<u8>,
    dog_id: Seq<u8>,
    now: BlockNumber,
)
    ensures
        transfer_claim(proofs, who, dog_id, who, now).result is Err,
        transfer_claim(proofs, who, dog_id, who, now).proofs == proofs,
{
}

/// A `transfer_claim` that goes through keeps the identifier claimed and its
/// record as it was; the owner is the receiver and the stamp is the call's.
pub proof fn lemma_transfer_keeps_record(
    proofs: Proofs,
    who: Seq<u8>,
    dog_id: Seq<u8>,
    address_to: Seq<u8>,
    now: BlockNumber,
)
    requires
        transfer_claim(proofs, who, dog_id, address_to, now).result is Ok,
    ensures
        proofs.contains_key(dog_id),
        transfer_claim(proofs, who, dog_id, address_to, now).proofs.contains_key(dog_id),
        transfer_claim(proofs, who, dog_id, address_to, now).proofs[dog_id].dog
            == proofs[dog_id].dog,
        transfer_claim(proofs, who, dog_id, address_to, now).proofs[dog_id].owner == address_to,
        transfer_claim(proofs, who, dog_id, address_to, now).proofs[dog_id].registered_at == now,
{
}

/// A `transfer_claim` goes through exactly where the identifier is held and
/// the receiver is not the caller: it does not ask who holds the claim.
pub proof fn lemma_transfer_is_open_to_all(
    proofs: Proofs,
    who: Seq<u8>,
    dog_id: Seq<u8>,
    address_to: Seq<u8>,
    now: BlockNumber,
)
    ensures
        transfer_claim(proofs, who, dog_id, address_to, now).result is Ok <==> proofs.contains_key(
            dog_id,
        ) && who != address_to,
{
}

} // verus!
