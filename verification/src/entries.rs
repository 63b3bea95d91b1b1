//! How a list of entries, one for each identifier, makes up the store.

use crate::claim::ClaimView;
use crate::model::{keyed_by_id, Proofs};
use vstd::prelude::*;

verus! {

/// No two of `entries` are for the same identifier.
pub open spec fn one_entry_per_id(entries: Seq<ClaimView>) -> bool {
    forall|i: int, j: int|
        0 <= i < j < entries.len() ==> (#[trigger] entries[i]).dog.dog_id != (
        #[trigger] entries[j]).dog.dog_id
}

/// Whether the entry at position `i` is the one for `id`.
pub open spec fn is_entry_of(entries: Seq<ClaimView>, i: int, id: Seq<u8>) -> bool {
    0 <= i < entries.len() && entries[i].dog.dog_id == id
}

/// Whether none of `entries` is for `id`.
pub open spec fn unclaimed(entries: Seq<ClaimView>, id: Seq<u8>) -> bool {
    forall|i: int| 0 <= i < entries.len() ==> (#[trigger] entries[i]).dog.dog_id != id
}

/// The position of the entry for `id`, where there is one.
pub open spec fn position_of(entries: Seq<ClaimView>, id: Seq<u8>) -> int {
    choose|i: int| is_entry_of(entries, i, id)
}

/// The store that `entries` make up: each entry under the identifier of its
/// record.
pub open spec fn proofs_of(entries: Seq<ClaimView>) -> Proofs {
    Map::new(
        |id: Seq<u8>| exists|i: int| is_entry_of(entries, i, id),
        |id: Seq<u8>| entries[position_of(entries, id)],
    )
}

/// Where no identifier occurs twice, the entry for an identifier has one
/// position only.
pub proof fn lemma_position_is_unique(entries: Seq<ClaimView>, i: int, id: Seq<u8>)
    requires
        one_entry_per_id(entries),
        is_entry_of(entries, i, id),
    ensures
        position_of(entries, id) == i,
{
}

/// Where no identifier occurs twice, each entry is what the store holds under
/// its identifier.
pub proof fn lemma_entry_is_held(entries: Seq<ClaimView>, i: int)
    requires
        one_entry_per_id(entries),
        0 <= i < entries.len(),
    ensures
        proofs_of(entries).contains_key(entries[i].dog.dog_id),
        proofs_of(entries)[entries[i].dog.dog_id] == entries[i],
{
    let id = entries[i].dog.dog_id;
    assert(is_entry_of(entries, i, id));
    lemma_position_is_unique(entries, i, id);
}

/// Whatever the entries, the store that they make up holds each of its
/// entries under the identifier of the entry's own record.
pub proof fn lemma_proofs_keyed_by_id(entries: Seq<ClaimView>)
    ensures
        keyed_by_id(proofs_of(entries)),
{
}

/// An entry for a new identifier, put at the end, is an insertion into the
/// store.
pub proof fn lemma_push_inserts(entries: Seq<ClaimView>, claim: ClaimView)
    requires
        one_entry_per_id(entries),
        unclaimed(entries, claim.dog.dog_id),
    ensures
        one_entry_per_id(entries.push(claim)),
        proofs_of(entries.push(claim)) == proofs_of(entries).insert(claim.dog.dog_id, claim),
{
    let longer = entries.push(claim);
    let last = entries.len() as int;
    assert(one_entry_per_id(longer));
    assert forall|id: Seq<u8>|
        proofs_of(longer).contains_key(id) == proofs_of(entries).insert(
            claim.dog.dog_id,
            claim,
        ).contains_key(id) by {
        if id == claim.dog.dog_id {
            assert(is_entry_of(longer, last, id));
        } else if proofs_of(entries).contains_key(id) {
            let i = choose|i: int| is_entry_of(entries, i, id);
            assert(is_entry_of(longer, i, id));
        } else if proofs_of(longer).contains_key(id) {
            let i = choose|i: int| is_entry_of(longer, i, id);
            assert(is_entry_of(entries, i, id));
        }
    }
    assert forall|id: Seq<u8>| #[trigger] proofs_of(longer).contains_key(id) implies proofs_of(
        longer,
    )[id] == proofs_of(entries).insert(claim.dog.dog_id, claim)[id] by {
        let i = position_of(longer, id);
        lemma_entry_is_held(longer, i);
        if i < last {
            lemma_entry_is_held(entries, i);
        }
    }
    assert(proofs_of(longer) =~= proofs_of(entries).insert(claim.dog.dog_id, claim));
}

/// Taking an entry out takes its identifier out of the store.
pub proof fn lemma_remove_removes(entries: Seq<ClaimView>, at: int)
    requires
        one_entry_per_id(entries),
        0 <= at < entries.len(),
    ensures
        one_entry_per_id(entries.remove(at)),
        proofs_of(entries.remove(at)) == proofs_of(entries).remove(entries[at].dog.dog_id),
{
    let shorter = entries.remove(at);
    let gone = entries[at].dog.dog_id;
    assert forall|i: int, j: int| 0 <= i < j < shorter.len() implies (#[trigger] shorter[i]).dog.dog_id
        != (#[trigger] shorter[j]).dog.dog_id by {
        let i0 = if i < at { i } else { i + 1 };
        let j0 = if j < at { j } else { j + 1 };
        assert(shorter[i] == entries[i0]);
        assert(shorter[j] == entries[j0]);
    }
    assert forall|id: Seq<u8>|
        proofs_of(shorter).contains_key(id) == proofs_of(entries).remove(gone).contains_key(
            id,
        ) by {
        if proofs_of(shorter).contains_key(id) {
            let i = choose|i: int| is_entry_of(shorter, i, id);
            let i0 = if i < at { i } else { i + 1 };
            assert(shorter[i] == entries[i0]);
            assert(is_entry_of(entries, i0, id));
            assert(entries[i0].dog.dog_id != entries[at].dog.dog_id);
        }
        if proofs_of(entries).remove(gone).contains_key(id) {
            let i0 = choose|i: int| is_entry_of(entries, i, id);
            let i = if i0 < at { i0 } else { i0 - 1 };
            assert(shorter[i] == entries[i0]);
            assert(is_entry_of(shorter, i, id));
        }
    }
    assert forall|id: Seq<u8>| #[trigger] proofs_of(shorter).contains_key(id) implies proofs_of(
        shorter,
    )[id] == proofs_of(entries).remove(gone)[id] by {
        let i = position_of(shorter, id);
        let i0 = if i < at { i } else { i + 1 };
        assert(shorter[i] == entries[i0]);
        lemma_entry_is_held(shorter, i);
        lemma_entry_is_held(entries, i0);
    }
    assert(proofs_of(shorter) =~= proofs_of(entries).remove(gone));
}

/// Replacing an entry by one for the same identifier overwrites what the
/// store holds under it.
pub proof fn lemma_update_overwrites(entries: Seq<ClaimView>, at: int, claim: ClaimView)
    requires
        one_entry_per_id(entries),
        0 <= at < entries.len(),
        claim.dog.dog_id == entries[at].dog.dog_id,
    ensures
        one_entry_per_id(entries.update(at, claim)),
        proofs_of(entries.update(at, claim)) == proofs_of(entries).insert(
            claim.dog.dog_id,
            claim,
        ),
{
    let changed = entries.update(at, claim);
    let id_at = claim.dog.dog_id;
    assert forall|i: int, j: int| 0 <= i < j < changed.len() implies (#[trigger] changed[i]).dog.dog_id
        != (#[trigger] changed[j]).dog.dog_id by {
        assert(changed[i].dog.dog_id == entries[i].dog.dog_id);
        assert(changed[j].dog.dog_id == entries[j].dog.dog_id);
    }
    assert forall|id: Seq<u8>|
        proofs_of(changed).contains_key(id) == proofs_of(entries).insert(id_at, claim).contains_key(
            id,
        ) by {
        if proofs_of(changed).contains_key(id) {
            let i = choose|i: int| is_entry_of(changed, i, id);
            assert(is_entry_of(entries, i, id));
        }
        if proofs_of(entries).contains_key(id) {
            let i = choose|i: int| is_entry_of(entries, i, id);
            assert(is_entry_of(changed, i, id));
        }
        if id == id_at {
            assert(is_entry_of(changed, at, id));
        }
    }
    assert forall|id: Seq<u8>| #[trigger] proofs_of(changed).contains_key(id) implies proofs_of(
        changed,
    )[id] == proofs_of(entries).insert(id_at, claim)[id] by {
        let i = position_of(changed, id);
        lemma_entry_is_held(changed, i);
        if i != at {
            lemma_entry_is_held(entries, i);
        }
    }
    assert(proofs_of(changed) =~= proofs_of(entries).insert(id_at, claim));
}

/// Where no identifier occurs twice, the store has as many keys as there are
/// entries.
pub proof fn lemma_one_key_per_entry(entries: Seq<ClaimView>)
    requires
        one_entry_per_id(entries),
    ensures
        proofs_of(entries).dom().finite(),
        proofs_of(entries).dom().len() == entries.len(),
    decreases entries.len(),
{
    if entries.len() == 0 {
        assert(proofs_of(entries).dom() =~= Set::<Seq<u8>>::empty());
    } else {
        let front = entries.drop_last();
        let last = entries.last();
        assert(one_entry_per_id(front)) by {
            assert forall|i: int, j: int| 0 <= i < j < front.len() implies (#[trigger] front[i]).dog.dog_id
                != (#[trigger] front[j]).dog.dog_id by {
                assert(front[i] == entries[i]);
                assert(front[j] == entries[j]);
            }
        }
        assert(unclaimed(front, last.dog.dog_id)) by {
            assert forall|i: int| 0 <= i < front.len() implies (#[trigger] front[i]).dog.dog_id
                != last.dog.dog_id by {
                assert(front[i] == entries[i]);
                assert(last == entries[entries.len() - 1]);
            }
        }
        lemma_one_key_per_entry(front);
        lemma_push_inserts(front, last);
        assert(front.push(last) =~= entries);
        assert(proofs_of(entries).dom() =~= proofs_of(front).dom().insert(last.dog.dog_id));
    }
}

} // verus!
