//! A registry of claims: each identifier is held by at most one owner at a time.
//!
//! Whoever first registers an identifier holds the record that goes with it,
//! until they revoke the claim or it is handed to another account.
//!
//! - [`model`] states the three calls on a mathematical map, and [`laws`]
//!   proves what holds of them.
//! - [`rules`] decides each call from the one entry that it touches.
//! - [`Pallet`] is the registry with a store of its own; its calls are proved
//!   to do what [`model`] says.

pub mod bytes;
pub mod claim;
pub mod dog;
pub mod entries;
pub mod error;
pub mod event;
pub mod laws;
pub mod model;
pub mod pallet;
pub mod rules;

pub use crate::claim::{AccountId, BlockNumber, Claim};
pub use crate::dog::Dog;
pub use crate::error::Error;
pub use crate::event::Event;
pub use crate::pallet::Pallet;
