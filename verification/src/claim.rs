//! What the registry stores under an identifier.

use crate::bytes::copy_bytes;
use crate::dog::{Dog, DogView};
use vstd::prelude::*;

verus! {

/// An account, named by its bytes. The registry only ever compares accounts.
pub type AccountId = Vec<u8>;

/// The counter that stamps a claim when it is created or handed over.
pub type BlockNumber = u64;

/// The entry stored under an identifier: who holds it, since when, and the
/// record itself.
#[derive(Clone, Debug, PartialEq, Eq, Default)]
pub struct Claim {
    pub owner: AccountId,
    pub registered_at: BlockNumber,
    pub dog: Dog<u8>,
}

/// What a [`Claim`] holds, as mathematical values.
pub struct ClaimView {
    pub owner: Seq<u8>,
    pub registered_at: BlockNumber,
    pub dog: DogView<u8>,
}

impl ClaimView {
    /// The entry that a new claim starts with.
    pub open spec fn created(
        who: Seq<u8>,
        name: Seq<u8>,
        color: Seq<u8>,
        age: u32,
        dog_id: Seq<u8>,
        now: BlockNumber,
    ) -> ClaimView {
        ClaimView { owner: who, registered_at: now, dog: DogView { dog_id, name, age, color } }
    }

    /// The entry after it was handed to `address_to`: the record is kept, the
    /// owner and the stamp are new.
    pub open spec fn transferred(self, address_to: Seq<u8>, now: BlockNumber) -> ClaimView {
        ClaimView { owner: address_to, registered_at: now, dog: self.dog }
    }
}

impl View for Claim {
    type V = ClaimView;

    open spec fn view(&self) -> ClaimView {
        ClaimView { owner: self.owner@, registered_at: self.registered_at, dog: self.dog@ }
    }
}

impl Claim {
    /// A fresh copy of the entry.
    pub fn duplicate(&self) -> (copy: Claim)
        ensures
            copy@ == self@,
    {
        Claim {
            owner: copy_bytes(&self.owner),
            registered_at: self.registered_at,
            dog: self.dog.duplicate(),
        }
    }
}

} // verus!
