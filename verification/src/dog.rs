//! The record that a claim registers.

use crate::bytes::copy_bytes;
use vstd::prelude::*;

verus! {

/// A registered record. The registry keys it by `dog_id`; the other fields are
/// payload that it carries and never reads.
#[derive(Clone, Debug, PartialEq, Eq, Default)]
pub struct Dog<T> {
    pub dog_id: Vec<T>,
    pub name: Vec<T>,
    pub age: u32,
    pub color: Vec<T>,
}

/// What a [`Dog`] holds, as mathematical sequences.
pub struct DogView<T> {
    pub dog_id: Seq<T>,
    pub name: Seq<T>,
    pub age: u32,
    pub color: Seq<T>,
}

impl<T> View for Dog<T> {
    type V = DogView<T>;

    open spec fn view(&self) -> DogView<T> {
        DogView { dog_id: self.dog_id@, name: self.name@, age: self.age, color: self.color@ }
    }
}

impl Dog<u8> {
    /// A fresh copy of the record.
    pub fn duplicate(&self) -> (copy: Dog<u8>)
        ensures
            copy@ == self@,
    {
        Dog {
            dog_id: copy_bytes(&self.dog_id),
            name: copy_bytes(&self.name),
            age: self.age,
            color: copy_bytes(&self.color),
        }
    }
}

} // verus!
