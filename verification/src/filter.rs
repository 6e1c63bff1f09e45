//! Telling deleted accounts from the rest of a follow list.

use crate::model::{Relation, RelationView, Snapshot, relation_views};
use vstd::prelude::*;

verus! {

/// The display name that the server gives to every deleted account.
pub const DELETED_UNAME: &'static str = "账号已注销";

/// The characters of `DELETED_UNAME`.
pub open spec fn deleted_uname() -> Seq<char> {
    seq!['账', '号', '已', '注', '销']
}

/// The constant `DELETED_UNAME` holds the characters of `deleted_uname`.
pub proof fn lemma_deleted_uname()
    ensures
        DELETED_UNAME@ == deleted_uname(),
{
    reveal_strlit("账号已注销");
    assert(DELETED_UNAME@ =~= deleted_uname());
}

/// An account counts as deleted when its display name is exactly the name
/// that the server gives to deleted accounts.
pub open spec fn deleted(relation: RelationView) -> bool {
    relation.uname == deleted_uname()
}

/// The deleted accounts of a list, in the order of the list.
pub open spec fn deleted_of(list: Seq<RelationView>) -> Seq<RelationView> {
    list.filter(|r: RelationView| deleted(r))
}

/// Tells whether an account is a deleted one.
pub fn is_deleted(relation: &Relation) -> (yes: bool)
    ensures
        yes == deleted(relation@),
{
    proof {
        lemma_deleted_uname();
    }
    let name = DELETED_UNAME.to_owned();
    relation.uname == name
}

/// Picks the deleted accounts out of a snapshot, in the order in which the
/// snapshot lists them.
pub fn filter_deleted(snapshot: &Snapshot) -> (found: Vec<Relation>)
    ensures
        relation_views(found@) == deleted_of(snapshot@.list),
{
    let mut found: Vec<Relation> = Vec::new();
    let mut i: usize = 0;
    proof {
        reveal(Seq::filter);
        assert(relation_views(snapshot.list@.take(0)) =~= relation_views(found@));
    }
    while i < snapshot.list.len()
        invariant
            i <= snapshot.list.len(),
            relation_views(found@) == deleted_of(relation_views(snapshot.list@.take(i as int))),
        decreases snapshot.list.len() - i,
    {
        let relation = &snapshot.list[i];
        proof {
            let seen = snapshot.list@.take(i as int);
            assert(snapshot.list@.take(i + 1) =~= seen.push(*relation));
            assert(relation_views(seen.push(*relation)) =~= relation_views(seen).push(relation@));
            relation_views(seen).lemma_filter_push(relation@, |r: RelationView| deleted(r));
        }
        if is_deleted(relation) {
            let ghost before = found@;
            found.push(relation.clone());
            assert(relation_views(found@) =~= relation_views(before).push(relation@));
        }
        i += 1;
    }
    assert(snapshot.list@.take(i as int) =~= snapshot.list@);
    found
}

/// `positions` picks `picked` out of `list`: it names one place of `list` for
/// each entry of `picked`, the entry is the one that `list` has there, and the
/// places rise from each entry to the next.
pub open spec fn picks_in_order(
    positions: Seq<int>,
    list: Seq<RelationView>,
    picked: Seq<RelationView>,
) -> bool {
    &&& positions.len() == picked.len()
    &&& forall|k: int|
        0 <= k < positions.len() ==> 0 <= #[trigger] positions[k] < list.len() && picked[k]
            == list[positions[k]]
    &&& forall|j: int, k: int|
        0 <= j < k < positions.len() ==> #[trigger] positions[j] < #[trigger] positions[k]
}

/// The deleted accounts of a list are a part of the list in the list's own
/// order: they are the entries at the returned places, which rise. Every
/// entry of the list with the deleted name is among them, and no entry with
/// another name is.
pub proof fn lemma_filter_keeps_order(list: Seq<RelationView>) -> (positions: Seq<int>)
    ensures
        picks_in_order(positions, list, deleted_of(list)),
        forall|i: int| 0 <= i < list.len() ==> (deleted(#[trigger] list[i]) <==> positions.contains(i)),
        forall|i: int| 0 <= i < list.len() && deleted(#[trigger] list[i]) ==> deleted_of(list).contains(list[i]),
        forall|k: int| 0 <= k < deleted_of(list).len() ==> deleted(#[trigger] deleted_of(list)[k]),
    decreases list.len(),
{
    reveal(Seq::filter);
    if list.len() == 0 {
        Seq::<int>::empty()
    } else {
        let front = list.drop_last();
        let last = list.len() - 1;
        let before = lemma_filter_keeps_order(front);
        let positions = if deleted(list.last()) {
            before.push(last)
        } else {
            before
        };
        let picked = deleted_of(list);
        assert forall|i: int| 0 <= i < list.len() implies (deleted(#[trigger] list[i])
            <==> positions.contains(i)) by {
            if i < last {
                assert(list[i] == front[i]);
                if before.contains(i) {
                    let k = choose|k: int| 0 <= k < before.len() && before[k] == i;
                    assert(positions[k] == i);
                }
            } else if deleted(list[i]) {
                assert(positions[before.len() as int] == i);
            }
        }
        assert forall|i: int| 0 <= i < list.len() && deleted(#[trigger] list[i]) implies picked.contains(
            list[i],
        ) by {
            let k = choose|k: int| 0 <= k < positions.len() && positions[k] == i;
            assert(picked[k] == list[i]);
        }
        positions
    }
}

} // verus!
