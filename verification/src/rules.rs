//! The three calls, decided on the one entry that each of them touches.
//!
//! A call reads and writes nothing but the slot of its own identifier. These
//! functions take what is held there and say what the call comes to, so that a
//! host with a store of its own can look the slot up, ask, and write the
//! answer back.

use crate::bytes::{copy_bytes, same_bytes};
use crate::claim::{AccountId, BlockNumber, Claim, ClaimView};
use crate::dog::Dog;
use crate::error::Error;
use crate::event::{Event, EventView};
use vstd::prelude::*;

verus! {

/// Decides a `create_claim`, given what is `held` under `dog_id`. Where the
/// slot is empty, returns the entry to store there and the event.
pub fn create(
    held: Option<&Claim>,
    who: AccountId,
    name: Vec<u8>,
    color: Vec<u8>,
    age: u32,
    dog_id: Vec<u8>,
    now: BlockNumber,
) -> (decision: Result<(Claim, Event), Error>)
    ensures
        match decision {
            Ok((claim, event)) => {
                &&& held is None
                &&& claim@ == ClaimView::created(who@, name@, color@, age, dog_id@, now)
                &&& event@ == EventView::ClaimCreated(who@, claim@.dog)
            },
            Err(error) => held is Some && error == Error::ProofAlreadyClaimed,
        },
{
    if held.is_some() {
        return Err(Error::ProofAlreadyClaimed);
    }
    let dog = Dog { dog_id, name, age, color };
    let event = Event::ClaimCreated(copy_bytes(&who), dog.duplicate());
    Ok((Claim { owner: who, registered_at: now, dog }, event))
}

/// Decides a `revoke_claim`, given what is `held` under its identifier. Where
/// `who` holds the entry, the slot is to be emptied, and the event carries the
/// record that was in it.
pub fn revoke(held: Option<&Claim>, who: &AccountId) -> (decision: Result<Event, Error>)
    ensures
        match decision {
            Ok(event) => {
                &&& held matches Some(claim)
                &&& claim@.owner == who@
                &&& event@ == EventView::ClaimRevoked(who@, claim@.dog)
            },
            Err(Error::NoSuchProof) => held is None,
            Err(Error::NotProofOwner) => held matches Some(claim) && claim@.owner != who@,
            Err(_) => false,
        },
{
    match held {
        None => Err(Error::NoSuchProof),
        Some(claim) => {
            if same_bytes(&claim.owner, who) {
                Ok(Event::ClaimRevoked(copy_bytes(who), claim.dog.duplicate()))
            } else {
                Err(Error::NotProofOwner)
            }
        },
    }
}

/// Decides a `transfer_claim`, given what is `held` under its identifier.
/// Where there is an entry and `who` is not the receiver, returns the entry
/// that replaces it and the event. Whether `who` holds the entry is not asked.
pub fn transfer(
    held: Option<&Claim>,
    who: &AccountId,
    address_to: AccountId,
    now: BlockNumber,
) -> (decision: Result<(Claim, Event), Error>)
    ensures
        match decision {
            Ok((claim, event)) => {
                &&& held matches Some(before)
                &&& who@ != address_to@
                &&& claim@ == before@.transferred(address_to@, now)
                &&& event@ == EventView::ClaimTransferred(address_to@, claim@.dog)
            },
            Err(Error::NoSuchProof) => held is None,
            Err(Error::NotTransferToItself) => held is Some && who@ == address_to@,
            Err(_) => false,
        },
{
    match held {
        None => Err(Error::NoSuchProof),
        Some(before) => {
            if same_bytes(who, &address_to) {
                Err(Error::NotTransferToItself)
            } else {
                let event = Event::ClaimTransferred(copy_bytes(&address_to), before.dog.duplicate());
                Ok((Claim { owner: address_to, registered_at: now, dog: before.dog.duplicate() }, event))
            }
        },
    }
}

} // verus!
