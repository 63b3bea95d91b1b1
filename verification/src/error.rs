//! Why the registry turns a call down.

use vstd::prelude::*;

verus! {

/// The reasons for which a call fails. A failed call changes nothing.
#[derive(Clone, Copy, Debug, PartialEq, Eq)]
pub enum Error {
    /// `create_claim` on an identifier that is already held.
    ProofAlreadyClaimed,
    /// `revoke_claim` or `transfer_claim` on an identifier that nobody holds.
    NoSuchProof,
    /// `revoke_claim` by an account that does not hold the claim.
    NotProofOwner,
    /// `transfer_claim` where the caller and the receiver are the same account.
    NotTransferToItself,
}

} // verus!
