//! What the registry reports of a call that went through.

use crate::claim::AccountId;
use crate::dog::{Dog, DogView};
use crate::error::Error;
use vstd::prelude::*;

verus! {

/// The report of a successful call: what happened, to whose benefit, and the
/// record concerned.
#[derive(Clone, Debug, PartialEq, Eq)]
pub enum Event {
    /// The account registered the record.
    ClaimCreated(AccountId, Dog<u8>),
    /// The account gave up the record.
    ClaimRevoked(AccountId, Dog<u8>),
    /// The record now belongs to the account.
    ClaimTransferred(AccountId, Dog<u8>),
}

/// What an [`Event`] holds, as mathematical values.
pub enum EventView {
    ClaimCreated(Seq<u8>, DogView<u8>),
    ClaimRevoked(Seq<u8>, DogView<u8>),
    ClaimTransferred(Seq<u8>, DogView<u8>),
}

impl View for Event {
    type V = EventView;

    open spec fn view(&self) -> EventView {
        match *self {
            Event::ClaimCreated(who, dog) => EventView::ClaimCreated(who@, dog@),
            Event::ClaimRevoked(who, dog) => EventView::ClaimRevoked(who@, dog@),
            Event::ClaimTransferred(who, dog) => EventView::ClaimTransferred(who@, dog@),
        }
    }
}

/// The outcome of a call with its event taken by its view.
pub open spec fn outcome(result: Result<Event, Error>) -> Result<EventView, Error> {
    match result {
        Ok(event) => Ok(event@),
        Err(error) => Err(error),
    }
}

} // verus!
