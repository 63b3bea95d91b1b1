use poe::rules;
use poe::{Claim, Dog, Error, Event, Pallet};

/// The account with the given number, named by its eight bytes.
fn account(n: u64) -> Vec<u8> {
    n.to_le_bytes().to_vec()
}

/// The block at which the calls of a test are made.
const NOW: u64 = 1;

fn rex() -> Dog<u8> {
    Dog::<u8> { name: vec![1], color: vec![1], dog_id: vec![1], age: 2 }
}

#[test]
fn create_claim_works() {
    let mut poe = Pallet::new();
    let dog = Dog::<u8> { name: vec![1], color: vec![1], dog_id: vec![1], age: 2 };
    assert!(poe.create_claim(account(1), vec![1], vec![1], 2, vec![1], NOW).is_ok());
    assert_eq!(
        poe.get(&vec![1]),
        Some(&Claim { owner: account(1), registered_at: NOW, dog })
    );
}

#[test]
fn create_claim_error() {
    let mut poe = Pallet::new();
    assert!(poe.create_claim(account(1), vec![1], vec![1], 2, vec![1], NOW).is_ok());
    let before = poe.claims();
    assert_eq!(
        poe.create_claim(account(1), vec![1], vec![1], 2, vec![1], NOW),
        Err(Error::ProofAlreadyClaimed)
    );
    assert_eq!(poe.claims(), before);
}

#[test]
fn new_registry_is_empty() {
    let poe = Pallet::new();
    assert_eq!(poe.len(), 0);
    assert_eq!(poe.claims(), Vec::<Claim>::new());
    assert!(!poe.contains_key(&vec![1]));
    assert_eq!(poe.get(&vec![1]), None);
}

#[test]
fn create_claim_reports_the_record() {
    let mut poe = Pallet::new();
    assert_eq!(
        poe.create_claim(account(1), vec![1], vec![1], 2, vec![1], NOW),
        Ok(Event::ClaimCreated(account(1), rex()))
    );
    assert_eq!(poe.len(), 1);
    assert!(poe.contains_key(&vec![1]));
    assert_eq!(
        poe.claims(),
        vec![Claim { owner: account(1), registered_at: NOW, dog: rex() }]
    );
}

#[test]
fn create_claim_keeps_each_field_apart() {
    let mut poe = Pallet::new();
    let dog = Dog::<u8> { name: vec![10, 11], color: vec![20], dog_id: vec![30, 31, 32], age: 4 };
    assert_eq!(
        poe.create_claim(account(7), vec![10, 11], vec![20], 4, vec![30, 31, 32], 99),
        Ok(Event::ClaimCreated(account(7), dog.clone()))
    );
    assert_eq!(
        poe.get(&vec![30, 31, 32]),
        Some(&Claim { owner: account(7), registered_at: 99, dog })
    );
    assert_eq!(poe.get(&vec![10, 11]), None);
    assert_eq!(poe.get(&vec![20]), None);
}

#[test]
fn create_claim_twice_fails_whatever_is_registered() {
    let mut poe = Pallet::new();
    assert!(poe.create_claim(account(1), vec![1], vec![1], 2, vec![1], NOW).is_ok());
    let before = poe.claims();
    assert_eq!(
        poe.create_claim(account(2), vec![8], vec![9], 5, vec![1], NOW + 3),
        Err(Error::ProofAlreadyClaimed)
    );
    assert_eq!(poe.claims(), before);
    assert_eq!(poe.len(), 1);
}

#[test]
fn create_claim_accepts_an_empty_identifier() {
    let mut poe = Pallet::new();
    assert!(poe.create_claim(account(1), vec![], vec![], 0, vec![], 0).is_ok());
    assert!(poe.contains_key(&vec![]));
    assert_eq!(
        poe.create_claim(account(2), vec![1], vec![1], 1, vec![], 0),
        Err(Error::ProofAlreadyClaimed)
    );
}

#[test]
fn identifiers_are_claimed_apart() {
    let mut poe = Pallet::new();
    assert!(poe.create_claim(account(1), vec![1], vec![1], 2, vec![1], NOW).is_ok());
    assert!(poe.create_claim(account(2), vec![1], vec![1], 2, vec![1, 0], NOW).is_ok());
    assert!(poe.create_claim(account(1), vec![3], vec![3], 3, vec![2], NOW).is_ok());
    assert_eq!(poe.len(), 3);
    assert_eq!(poe.get(&vec![1]).map(|claim| claim.owner.clone()), Some(account(1)));
    assert_eq!(poe.get(&vec![1, 0]).map(|claim| claim.owner.clone()), Some(account(2)));
    assert_eq!(poe.get(&vec![2]).map(|claim| claim.owner.clone()), Some(account(1)));
}

#[test]
fn revoke_claim_by_another_account_fails() {
    let mut poe = Pallet::new();
    assert!(poe.create_claim(account(1), vec![1], vec![1], 2, vec![1], NOW).is_ok());
    let before = poe.claims();
    assert_eq!(poe.revoke_claim(account(2), vec![1]), Err(Error::NotProofOwner));
    assert_eq!(poe.claims(), before);
    assert_eq!(
        poe.get(&vec![1]),
        Some(&Claim { owner: account(1), registered_at: NOW, dog: rex() })
    );
}

#[test]
fn revoke_claim_by_the_owner_removes_the_entry() {
    let mut poe = Pallet::new();
    assert!(poe.create_claim(account(1), vec![1], vec![1], 2, vec![1], NOW).is_ok());
    assert_eq!(
        poe.revoke_claim(account(1), vec![1]),
        Ok(Event::ClaimRevoked(account(1), rex()))
    );
    assert!(!poe.contains_key(&vec![1]));
    assert_eq!(poe.get(&vec![1]), None);
    assert_eq!(poe.len(), 0);
}

#[test]
fn revoke_claim_of_an_unclaimed_identifier_fails() {
    let mut poe = Pallet::new();
    assert_eq!(poe.revoke_claim(account(1), vec![1]), Err(Error::NoSuchProof));
    assert!(poe.create_claim(account(1), vec![1], vec![1], 2, vec![1], NOW).is_ok());
    let before = poe.claims();
    assert_eq!(poe.revoke_claim(account(1), vec![2]), Err(Error::NoSuchProof));
    assert_eq!(poe.claims(), before);
}

#[test]
fn revoke_claim_twice_fails_the_second_time() {
    let mut poe = Pallet::new();
    assert!(poe.create_claim(account(1), vec![1], vec![1], 2, vec![1], NOW).is_ok());
    assert!(poe.revoke_claim(account(1), vec![1]).is_ok());
    assert_eq!(poe.revoke_claim(account(1), vec![1]), Err(Error::NoSuchProof));
}

#[test]
fn revoke_claim_leaves_the_other_entries() {
    let mut poe = Pallet::new();
    assert!(poe.create_claim(account(1), vec![1], vec![1], 1, vec![1], NOW).is_ok());
    assert!(poe.create_claim(account(2), vec![2], vec![2], 2, vec![2], NOW).is_ok());
    assert!(poe.create_claim(account(3), vec![3], vec![3], 3, vec![3], NOW).is_ok());
    assert!(poe.revoke_claim(account(2), vec![2]).is_ok());
    assert_eq!(poe.len(), 2);
    assert_eq!(
        poe.get(&vec![1]),
        Some(&Claim {
            owner: account(1),
            registered_at: NOW,
            dog: Dog { dog_id: vec![1], name: vec![1], age: 1, color: vec![1] },
        })
    );
    assert_eq!(poe.get(&vec![2]), None);
    assert_eq!(
        poe.get(&vec![3]),
        Some(&Claim {
            owner: account(3),
            registered_at: NOW,
            dog: Dog { dog_id: vec![3], name: vec![3], age: 3, color: vec![3] },
        })
    );
}

#[test]
fn revoked_identifier_can_be_claimed_again() {
    let mut poe = Pallet::new();
    assert!(poe.create_claim(account(1), vec![1], vec![1], 2, vec![1], NOW).is_ok());
    assert!(poe.revoke_claim(account(1), vec![1]).is_ok());
    let dog = Dog::<u8> { name: vec![5], color: vec![6], dog_id: vec![1], age: 7 };
    assert_eq!(
        poe.create_claim(account(2), vec![5], vec![6], 7, vec![1], NOW + 1),
        Ok(Event::ClaimCreated(account(2), dog.clone()))
    );
    assert_eq!(
        poe.get(&vec![1]),
        Some(&Claim { owner: account(2), registered_at: NOW + 1, dog })
    );
}

#[test]
fn transfer_claim_to_oneself_fails() {
    let mut poe = Pallet::new();
    assert!(poe.create_claim(account(1), vec![4], vec![5], 6, vec![2], NOW).is_ok());
    let before = poe.claims();
    assert_eq!(
        poe.transfer_claim(account(1), vec![2], account(1), NOW + 1),
        Err(Error::NotTransferToItself)
    );
    assert_eq!(poe.claims(), before);
}

#[test]
fn transfer_claim_to_oneself_fails_for_an_account_that_holds_nothing() {
    let mut poe = Pallet::new();
    assert!(poe.create_claim(account(1), vec![4], vec![5], 6, vec![2], NOW).is_ok());
    let before = poe.claims();
    assert_eq!(
        poe.transfer_claim(account(9), vec![2], account(9), NOW + 1),
        Err(Error::NotTransferToItself)
    );
    assert_eq!(poe.claims(), before);
}

#[test]
fn transfer_claim_of_an_unclaimed_identifier_fails() {
    let mut poe = Pallet::new();
    assert_eq!(
        poe.transfer_claim(account(1), vec![2], account(2), NOW),
        Err(Error::NoSuchProof)
    );
    assert_eq!(poe.len(), 0);
}

#[test]
fn transfer_claim_of_an_unclaimed_identifier_to_oneself_finds_no_claim() {
    let mut poe = Pallet::new();
    assert_eq!(
        poe.transfer_claim(account(1), vec![2], account(1), NOW),
        Err(Error::NoSuchProof)
    );
    assert_eq!(poe.len(), 0);
}

#[test]
fn transfer_claim_by_the_owner_keeps_the_record() {
    let mut poe = Pallet::new();
    let dog = Dog::<u8> { name: vec![4], color: vec![5], dog_id: vec![3], age: 6 };
    assert!(poe.create_claim(account(1), vec![4], vec![5], 6, vec![3], NOW).is_ok());
    assert_eq!(
        poe.transfer_claim(account(1), vec![3], account(2), NOW + 5),
        Ok(Event::ClaimTransferred(account(2), dog.clone()))
    );
    assert_eq!(
        poe.get(&vec![3]),
        Some(&Claim { owner: account(2), registered_at: NOW + 5, dog })
    );
    assert_eq!(poe.len(), 1);
}

/// As things stand, `transfer_claim` does not ask whether the caller holds
/// the claim: an account that holds nothing can hand it to a third.
#[test]
fn transfer_claim_by_an_account_that_does_not_hold_it_goes_through() {
    let mut poe = Pallet::new();
    let dog = Dog::<u8> { name: vec![4], color: vec![5], dog_id: vec![3], age: 6 };
    assert!(poe.create_claim(account(1), vec![4], vec![5], 6, vec![3], NOW).is_ok());
    assert_eq!(
        poe.transfer_claim(account(2), vec![3], account(3), NOW + 1),
        Ok(Event::ClaimTransferred(account(3), dog.clone()))
    );
    assert_eq!(
        poe.get(&vec![3]),
        Some(&Claim { owner: account(3), registered_at: NOW + 1, dog })
    );
}

#[test]
fn transfer_claim_passes_the_right_to_revoke() {
    let mut poe = Pallet::new();
    assert!(poe.create_claim(account(1), vec![1], vec![1], 2, vec![1], NOW).is_ok());
    assert!(poe.transfer_claim(account(1), vec![1], account(2), NOW).is_ok());
    assert_eq!(poe.revoke_claim(account(1), vec![1]), Err(Error::NotProofOwner));
    assert_eq!(
        poe.revoke_claim(account(2), vec![1]),
        Ok(Event::ClaimRevoked(account(2), rex()))
    );
}

#[test]
fn transfer_claim_leaves_the_other_entries() {
    let mut poe = Pallet::new();
    assert!(poe.create_claim(account(1), vec![1], vec![1], 1, vec![1], NOW).is_ok());
    assert!(poe.create_claim(account(1), vec![2], vec![2], 2, vec![2], NOW).is_ok());
    assert!(poe.transfer_claim(account(1), vec![1], account(2), NOW + 1).is_ok());
    assert_eq!(
        poe.get(&vec![2]),
        Some(&Claim {
            owner: account(1),
            registered_at: NOW,
            dog: Dog { dog_id: vec![2], name: vec![2], age: 2, color: vec![2] },
        })
    );
    assert_eq!(poe.len(), 2);
}

#[test]
fn entries_keep_their_order() {
    let mut poe = Pallet::new();
    let entry = |owner: u64, id: u8, at: u64| Claim {
        owner: account(owner),
        registered_at: at,
        dog: Dog { dog_id: vec![id], name: vec![id], age: 1, color: vec![id] },
    };
    for id in 1..=4u8 {
        assert!(poe.create_claim(account(1), vec![id], vec![id], 1, vec![id], NOW).is_ok());
    }
    assert_eq!(
        poe.claims(),
        vec![entry(1, 1, NOW), entry(1, 2, NOW), entry(1, 3, NOW), entry(1, 4, NOW)]
    );
    assert!(poe.revoke_claim(account(1), vec![2]).is_ok());
    assert_eq!(poe.claims(), vec![entry(1, 1, NOW), entry(1, 3, NOW), entry(1, 4, NOW)]);
    assert!(poe.transfer_claim(account(1), vec![3], account(2), NOW + 1).is_ok());
    assert_eq!(poe.claims(), vec![entry(1, 1, NOW), entry(2, 3, NOW + 1), entry(1, 4, NOW)]);
    assert!(poe.create_claim(account(3), vec![2], vec![2], 1, vec![2], NOW + 2).is_ok());
    assert_eq!(
        poe.claims(),
        vec![entry(1, 1, NOW), entry(2, 3, NOW + 1), entry(1, 4, NOW), entry(3, 2, NOW + 2)]
    );
}

#[test]
fn no_identifier_is_ever_kept_twice() {
    let mut poe = Pallet::new();
    for round in 0..3u64 {
        for id in 0..4u8 {
            let _ = poe.create_claim(account(1), vec![id], vec![id], 1, vec![id], round);
            let _ = poe.create_claim(account(2), vec![id], vec![id], 2, vec![id], round);
            let _ = poe.transfer_claim(account(1), vec![id], account(2), round);
            if id % 2 == 0 {
                let _ = poe.revoke_claim(account(2), vec![id]);
            }
        }
        let claims = poe.claims();
        assert_eq!(claims.len(), poe.len());
        for (i, claim) in claims.iter().enumerate() {
            for other in claims.iter().skip(i + 1) {
                assert_ne!(claim.dog.dog_id, other.dog.dog_id);
            }
            assert_eq!(poe.get(&claim.dog.dog_id), Some(claim));
        }
    }
    assert_eq!(poe.len(), 2);
}

#[test]
fn rules_create_on_an_empty_slot() {
    let decision = rules::create(None, account(1), vec![1], vec![1], 2, vec![1], NOW);
    assert_eq!(
        decision,
        Ok((
            Claim { owner: account(1), registered_at: NOW, dog: rex() },
            Event::ClaimCreated(account(1), rex()),
        ))
    );
}

#[test]
fn rules_create_on_a_held_slot() {
    let held = Claim { owner: account(1), registered_at: NOW, dog: rex() };
    assert_eq!(
        rules::create(Some(&held), account(2), vec![3], vec![4], 5, vec![1], NOW),
        Err(Error::ProofAlreadyClaimed)
    );
}

#[test]
fn rules_revoke() {
    let held = Claim { owner: account(1), registered_at: NOW, dog: rex() };
    assert_eq!(rules::revoke(None, &account(1)), Err(Error::NoSuchProof));
    assert_eq!(rules::revoke(Some(&held), &account(2)), Err(Error::NotProofOwner));
    assert_eq!(
        rules::revoke(Some(&held), &account(1)),
        Ok(Event::ClaimRevoked(account(1), rex()))
    );
}

#[test]
fn rules_transfer() {
    let held = Claim { owner: account(1), registered_at: NOW, dog: rex() };
    assert_eq!(rules::transfer(None, &account(1), account(2), 8), Err(Error::NoSuchProof));
    assert_eq!(rules::transfer(None, &account(1), account(1), 8), Err(Error::NoSuchProof));
    assert_eq!(
        rules::transfer(Some(&held), &account(1), account(1), 8),
        Err(Error::NotTransferToItself)
    );
    assert_eq!(
        rules::transfer(Some(&held), &account(3), account(2), 8),
        Ok((
            Claim { owner: account(2), registered_at: 8, dog: rex() },
            Event::ClaimTransferred(account(2), rex()),
        ))
    );
}

#[test]
fn byte_strings_compare_by_content() {
    assert!(poe::bytes::same_bytes(&vec![], &vec![]));
    assert!(poe::bytes::same_bytes(&vec![1, 2, 3], &vec![1, 2, 3]));
    assert!(!poe::bytes::same_bytes(&vec![1, 2, 3], &vec![1, 2]));
    assert!(!poe::bytes::same_bytes(&vec![1, 2, 3], &vec![1, 2, 4]));
    assert!(!poe::bytes::same_bytes(&vec![0], &vec![]));
}

#[test]
fn copies_hold_the_same_values() {
    assert_eq!(poe::bytes::copy_bytes(&vec![9, 8, 7]), vec![9, 8, 7]);
    assert_eq!(poe::bytes::copy_bytes(&vec![]), Vec::<u8>::new());
    let dog = Dog::<u8> { name: vec![1, 2], color: vec![3], dog_id: vec![4, 5], age: 6 };
    assert_eq!(dog.duplicate(), dog);
    let claim = Claim { owner: account(1), registered_at: 3, dog };
    assert_eq!(claim.duplicate(), claim);
}
