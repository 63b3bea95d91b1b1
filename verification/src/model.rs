//! The registry as a mathematical state machine: a map from identifiers to
//! entries, and the three calls as functions from one map to the next.

use crate::claim::{BlockNumber, ClaimView};
use crate::error::Error;
use crate::event::EventView;
use vstd::prelude::*;

verus! {

/// The store: what is held under each identifier. An identifier that is not a
/// key is unclaimed.
pub type Proofs = Map<Seq<u8>, ClaimView>;

/// A call's effect: the store after it, and what the caller gets back.
pub struct Step {
    pub proofs: Proofs,
    pub result: Result<EventView, Error>,
}

/// Every entry sits under the identifier of its own record.
pub open spec fn keyed_by_id(proofs: Proofs) -> bool {
    forall|id: Seq<u8>| #[trigger] proofs.contains_key(id) ==> proofs[id].dog.dog_id == id
}

/// Registers a record under `dog_id` for `who`, unless the identifier is held.
pub open spec fn create_claim(
    proofs: Proofs,
    who: Seq<u8>,
    name: Seq<u8>,
    color: Seq<u8>,
    age: u32,
    dog_id: Seq<u8>,
    now: BlockNumber,
) -> Step {
    if proofs.contains_key(dog_id) {
        Step { proofs, result: Err(Error::ProofAlreadyClaimed) }
    } else {
        let claim = ClaimView::created(who, name, color, age, dog_id, now);
        Step {
            proofs: proofs.insert(dog_id, claim),
            result: Ok(EventView::ClaimCreated(who, claim.dog)),
        }
    }
}

/// Removes the entry under `dog_id`, if `who` holds it.
pub open spec fn revoke_claim(proofs: Proofs, who: Seq<u8>, dog_id: Seq<u8>) -> Step {
    if !proofs.contains_key(dog_id) {
        Step { proofs, result: Err(Error::NoSuchProof) }
    } else if proofs[dog_id].owner != who {
        Step { proofs, result: Err(Error::NotProofOwner) }
    } else {
        Step {
            proofs: proofs.remove(dog_id),
            result: Ok(EventView::ClaimRevoked(who, proofs[dog_id].dog)),
        }
    }
}

/// Hands the entry under `dog_id` to `address_to`. The caller need not hold
/// it: any account but the receiver may make the call. The entry is replaced
/// in one step, so the identifier is never seen unclaimed.
pub open spec fn transfer_claim(
    proofs: Proofs,
    who: Seq<u8>,
    dog_id: Seq<u8>,
    address_to: Seq<u8>,
    now: BlockNumber,
) -> Step {
    if !proofs.contains_key(dog_id) {
        Step { proofs, result: Err(Error::NoSuchProof) }
    } else if who == address_to {
        Step { proofs, result: Err(Error::NotTransferToItself) }
    } else {
        let claim = proofs[dog_id].transferred(address_to, now);
        Step {
            proofs: proofs.insert(dog_id, claim),
            result: Ok(EventView::ClaimTransferred(address_to, claim.dog)),
        }
    }
}

/// One call with its arguments.
pub enum Call {
    CreateClaim {
        who: Seq<u8>,
        name: Seq<u8>,
        color: Seq<u8>,
        age: u32,
        dog_id: Seq<u8>,
        now: BlockNumber,
    },
    RevokeClaim { who: Seq<u8>, dog_id: Seq<u8> },
    TransferClaim { who: Seq<u8>, dog_id: Seq<u8>, address_to: Seq<u8>, now: BlockNumber },
}

impl Call {
    /// The identifier that the call is about.
    pub open spec fn dog_id(self) -> Seq<u8> {
        match self {
            Call::CreateClaim { dog_id, .. } => dog_id,
            Call::RevokeClaim { dog_id, .. } => dog_id,
            Call::TransferClaim { dog_id, .. } => dog_id,
        }
    }
}

/// The effect of `call` on `proofs`.
pub open spec fn apply(proofs: Proofs, call: Call) -> Step {
    match call {
        Call::CreateClaim { who, name, color, age, dog_id, now } => create_claim(
            proofs,
            who,
            name,
            color,
            age,
            dog_id,
            now,
        ),
        Call::RevokeClaim { who, dog_id } => revoke_claim(proofs, who, dog_id),
        Call::TransferClaim { who, dog_id, address_to, now } => transfer_claim(
            proofs,
            who,
            dog_id,
            address_to,
            now,
        ),
    }
}

/// The store after `calls` were made in order, each on what the one before
/// left, whether it went through or not.
pub open spec fn run(proofs: Proofs, calls: Seq<Call>) -> Proofs
    decreases calls.len(),
{
    if calls.len() == 0 {
        proofs
    } else {
        apply(run(proofs, calls.drop_last()), calls.last()).proofs
    }
}

} // verus!
