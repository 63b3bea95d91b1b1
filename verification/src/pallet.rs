//! The registry with a store of its own.

use crate::bytes::same_bytes;
use crate::claim::{AccountId, BlockNumber, Claim, ClaimView};
use crate::entries::{
    is_entry_of, lemma_entry_is_held, lemma_one_key_per_entry, lemma_position_is_unique,
    lemma_push_inserts, lemma_remove_removes, lemma_update_overwrites, one_entry_per_id,
    position_of, proofs_of, unclaimed,
};
use crate::error::Error;
use crate::event::{outcome, Event};
use crate::model;
use crate::model::Proofs;
use crate::rules;
use vstd::prelude::*;

verus! {

/// The entries that `claims` stand for.
spec fn entry_views(claims: Seq<Claim>) -> Seq<ClaimView> {
    claims.map_values(|claim: Claim| claim@)
}

/// The registry: the claims that stand, and the three calls that change them.
///
/// It keeps one entry for each identifier that is held. A call either goes
/// through, and returns its event, or fails and leaves the store as it was.
#[derive(Debug)]
pub struct Pallet {
    claims: Vec<Claim>,
}

impl View for Pallet {
    type V = Proofs;

    /// The store: what is held under each identifier.
    open spec fn view(&self) -> Proofs {
        proofs_of(self.entries())
    }
}

impl Pallet {
    /// The entries that the registry keeps, in the order in which it keeps
    /// them.
    pub closed spec fn entries(&self) -> Seq<ClaimView> {
        entry_views(self.claims@)
    }

    #[verifier::type_invariant]
    spec fn keeps_one_entry_per_id(&self) -> bool {
        one_entry_per_id(self.entries())
    }

    /// A registry in which nothing is claimed.
    pub fn new() -> (pallet: Pallet)
        ensures
            pallet@ == Map::<Seq<u8>, ClaimView>::empty(),
            pallet.entries() == Seq::<ClaimView>::empty(),
    {
        let pallet = Pallet { claims: Vec::new() };
        assert(pallet.entries() =~= Seq::<ClaimView>::empty());
        assert(pallet@ =~= Map::<Seq<u8>, ClaimView>::empty());
        pallet
    }

    /// Where the entry for `dog_id` is kept, if there is one.
    fn position(&self, dog_id: &Vec<u8>) -> (at: Option<usize>)
        ensures
            match at {
                Some(i) => is_entry_of(self.entries(), i as int, dog_id@),
                None => unclaimed(self.entries(), dog_id@),
            },
    {
        let mut i: usize = 0;
        while i < self.claims.len()
            invariant
                i <= self.claims.len(),
                forall|k: int| 0 <= k < i ==> (#[trigger] self.entries()[k]).dog.dog_id != dog_id@,
            decreases self.claims.len() - i,
        {
            if same_bytes(&self.claims[i].dog.dog_id, dog_id) {
                return Some(i);
            }
            i += 1;
        }
        None
    }

    /// The entry kept at position `at`, where there is one.
    fn entry_at(&self, at: Option<usize>) -> (held: Option<&Claim>)
        requires
            at matches Some(i) ==> i < self.entries().len(),
        ensures
            match at {
                Some(i) => held matches Some(claim) && claim@ == self.entries()[i as int],
                None => held is None,
            },
    {
        match at {
            Some(i) => Some(&self.claims[i]),
            None => None,
        }
    }

    /// What `position` found for `id` is what the store holds under it.
    proof fn lemma_found_is_held(&self, at: Option<usize>, id: Seq<u8>)
        requires
            one_entry_per_id(self.entries()),
            match at {
                Some(i) => is_entry_of(self.entries(), i as int, id),
                None => unclaimed(self.entries(), id),
            },
        ensures
            match at {
                Some(i) => {
                    &&& self@.contains_key(id)
                    &&& self@[id] == self.entries()[i as int]
                    &&& position_of(self.entries(), id) == i
                },
                None => !self@.contains_key(id),
            },
    {
        if let Some(i) = at {
            lemma_entry_is_held(self.entries(), i as int);
            lemma_position_is_unique(self.entries(), i as int, id);
        }
    }

    /// The entry held under `dog_id`, if the identifier is claimed. It is the
    /// entry of the record that bears this identifier.
    pub fn get(&self, dog_id: &Vec<u8>) -> (held: Option<&Claim>)
        ensures
            match held {
                Some(claim) => {
                    &&& self@.contains_key(dog_id@)
                    &&& claim@ == self@[dog_id@]
                    &&& claim@.dog.dog_id == dog_id@
                },
                None => !self@.contains_key(dog_id@),
            },
    {
        proof {
            use_type_invariant(self);
        }
        let at = self.position(dog_id);
        proof {
            self.lemma_found_is_held(at, dog_id@);
        }
        self.entry_at(at)
    }

    /// How many identifiers are claimed.
    pub fn len(&self) -> (len: usize)
        ensures
            len == self.entries().len(),
            len == self@.dom().len(),
            self@.dom().finite(),
    {
        proof {
            use_type_invariant(self);
            lemma_one_key_per_entry(self.entries());
        }
        self.claims.len()
    }

    /// Copies of all entries, in the order in which the registry keeps them.
    pub fn claims(&self) -> (claims: Vec<Claim>)
        ensures
            one_entry_per_id(self.entries()),
            claims@.len() == self.entries().len(),
            forall|i: int| 0 <= i < claims@.len() ==> (#[trigger] claims@[i])@ == self.entries()[i],
    {
        proof {
            use_type_invariant(self);
        }
        let mut claims: Vec<Claim> = Vec::new();
        let mut i: usize = 0;
        while i < self.claims.len()
            invariant
                i <= self.claims.len(),
                claims@.len() == i,
                forall|k: int| 0 <= k < i ==> (#[trigger] claims@[k])@ == self.entries()[k],
            decreases self.claims.len() - i,
        {
            claims.push(self.claims[i].duplicate());
            i += 1;
        }
        claims
    }

    /// Whether `dog_id` is claimed.
    pub fn contains_key(&self, dog_id: &Vec<u8>) -> (claimed: bool)
        ensures
            claimed == self@.contains_key(dog_id@),
    {
        self.get(dog_id).is_some()
    }

    /// Keeps `claim` as one more entry.
    fn keep(&mut self, claim: Claim)
        requires
            unclaimed(old(self).entries(), claim@.dog.dog_id),
        ensures
            final(self).entries() == old(self).entries().push(claim@),
            final(self)@ == old(self)@.insert(claim@.dog.dog_id, claim@),
    {
        proof {
            use_type_invariant(&*self);
            lemma_push_inserts(self.entries(), claim@);
        }
        let mut claims = Vec::new();
        std::mem::swap(&mut claims, &mut self.claims);
        claims.push(claim);
        assert(entry_views(claims@) =~= old(self).entries().push(claim@));
        self.claims = claims;
    }

    /// Drops the entry at position `at`.
    fn drop_at(&mut self, at: usize)
        requires
            at < old(self).entries().len(),
        ensures
            final(self).entries() == old(self).entries().remove(at as int),
            final(self)@ == old(self)@.remove(old(self).entries()[at as int].dog.dog_id),
    {
        proof {
            use_type_invariant(&*self);
            lemma_remove_removes(self.entries(), at as int);
        }
        let mut claims = Vec::new();
        std::mem::swap(&mut claims, &mut self.claims);
        claims.remove(at);
        assert(entry_views(claims@) =~= old(self).entries().remove(at as int));
        self.claims = claims;
    }

    /// Puts `claim` in the place of the entry at position `at`, which is for
    /// the same identifier.
    fn replace_at(&mut self, at: usize, claim: Claim)
        requires
            is_entry_of(old(self).entries(), at as int, claim@.dog.dog_id),
        ensures
            final(self).entries() == old(self).entries().update(at as int, claim@),
            final(self)@ == old(self)@.insert(claim@.dog.dog_id, claim@),
    {
        proof {
            use_type_invariant(&*self);
            lemma_update_overwrites(self.entries(), at as int, claim@);
        }
        let mut claims = Vec::new();
        std::mem::swap(&mut claims, &mut self.claims);
        claims.set(at, claim);
        assert(entry_views(claims@) =~= old(self).entries().update(at as int, claim@));
        self.claims = claims;
    }

    /// Registers the record `name`, `color`, `age` under `dog_id` for `who`,
    /// stamped with `now`. Fails where the identifier is already held.
    pub fn create_claim(
        &mut self,
        who: AccountId,
        name: Vec<u8>,
        color: Vec<u8>,
        age: u32,
        dog_id: Vec<u8>,
        now: BlockNumber,
    ) -> (result: Result<Event, Error>)
        ensures
            one_entry_per_id(final(self).entries()),
            final(self)@ == model::create_claim(
                old(self)@,
                who@,
                name@,
                color@,
                age,
                dog_id@,
                now,
            ).proofs,
            outcome(result) == model::create_claim(
                old(self)@,
                who@,
                name@,
                color@,
                age,
                dog_id@,
                now,
            ).result,
            final(self).entries() == match result {
                Ok(_) => old(self).entries().push(
                    ClaimView::created(who@, name@, color@, age, dog_id@, now),
                ),
                Err(_) => old(self).entries(),
            },
    {
        proof {
            use_type_invariant(&*self);
        }
        let at = self.position(&dog_id);
        proof {
            self.lemma_found_is_held(at, dog_id@);
        }
        match rules::create(self.entry_at(at), who, name, color, age, dog_id, now) {
            Ok((claim, event)) => {
                self.keep(claim);
                Ok(event)
            },
            Err(error) => Err(error),
        }
    }

    /// Takes the claim under `dog_id` off the registry. Fails where the
    /// identifier is not held, or is held by another account than `who`.
    pub fn revoke_claim(&mut self, who: AccountId, dog_id: Vec<u8>) -> (result: Result<
        Event,
        Error,
    >)
        ensures
            one_entry_per_id(final(self).entries()),
            final(self)@ == model::revoke_claim(old(self)@, who@, dog_id@).proofs,
            outcome(result) == model::revoke_claim(old(self)@, who@, dog_id@).result,
            final(self).entries() == match result {
                Ok(_) => old(self).entries().remove(position_of(old(self).entries(), dog_id@)),
                Err(_) => old(self).entries(),
            },
    {
        proof {
            use_type_invariant(&*self);
        }
        let at = self.position(&dog_id);
        proof {
            self.lemma_found_is_held(at, dog_id@);
        }
        match rules::revoke(self.entry_at(at), &who) {
            Ok(event) => {
                self.drop_at(at.unwrap());
                Ok(event)
            },
            Err(error) => Err(error),
        }
    }

    /// Hands the claim under `dog_id` to `address_to`, stamped with `now`; the
    /// record stays as it is. Fails where the identifier is not held, or where
    /// `who` is `address_to`. The call is open to every other account, not
    /// only to the one that holds the claim.
    pub fn transfer_claim(
        &mut self,
        who: AccountId,
        dog_id: Vec<u8>,
        address_to: AccountId,
        now: BlockNumber,
    ) -> (result: Result<Event, Error>)
        ensures
            one_entry_per_id(final(self).entries()),
            final(self)@ == model::transfer_claim(
                old(self)@,
                who@,
                dog_id@,
                address_to@,
                now,
            ).proofs,
            outcome(result) == model::transfer_claim(
                old(self)@,
                who@,
                dog_id@,
                address_to@,
                now,
            ).result,
            final(self).entries() == match result {
                Ok(_) => old(self).entries().update(
                    position_of(old(self).entries(), dog_id@),
                    old(self)@[dog_id@].transferred(address_to@, now),
                ),
                Err(_) => old(self).entries(),
            },
    {
        proof {
            use_type_invariant(&*self);
        }
        let at = self.position(&dog_id);
        proof {
            self.lemma_found_is_held(at, dog_id@);
        }
        match rules::transfer(self.entry_at(at), &who, address_to, now) {
            Ok((claim, event)) => {
                self.replace_at(at.unwrap(), claim);
                Ok(event)
            },
            Err(error) => Err(error),
        }
    }
}

} // verus!
