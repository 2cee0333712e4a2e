//! The directory loader: one asset per file, at any depth below a root
//! directory, gathered into a collection keyed by identifier.

use vstd::prelude::*;
use vstd::std_specs::hash::group_hash_axioms;
use std::collections::HashMap;
use crate::assets::asset::{keyed_by_uuid, Asset};

verus! {

broadcast use group_hash_axioms;

/// The collection that results when the assets are stored one after the
/// other over `base`, each under its own identifier. Where two assets share
/// an identifier the later one stays.
pub open spec fn merged<T: Asset>(base: Map<u128, T>, assets: Seq<T>) -> Map<u128, T>
    decreases assets.len(),
{
    if assets.len() == 0 {
        base
    } else {
        merged(base, assets.drop_last()).insert(assets.last().uuid(), assets.last())
    }
}

/// No two of the assets share an identifier.
pub open spec fn distinct_uuids<T: Asset>(assets: Seq<T>) -> bool {
    forall|i: int, j: int|
        0 <= i < j < assets.len() ==> (#[trigger] assets[i]).uuid() != (#[trigger] assets[j]).uuid()
}

/// The given values in the opposite order.
pub fn reversed<T>(values: Vec<T>) -> (result: Vec<T>)
    ensures
        result@ == values@.reverse(),
{
    let mut source: Vec<T> = values;
    let mut result: Vec<T> = Vec::new();
    while source.len() > 0
        invariant
            source@.len() + result@.len() == values@.len(),
            source@ == values@.take(source@.len() as int),
            forall|i: int|
                0 <= i < result@.len() ==> #[trigger] result@[i] == values@[values@.len() - 1 - i],
        decreases source@.len(),
    {
        let value: T = source.pop().unwrap();
        result.push(value);
    }
    assert(result@ =~= values@.reverse());
    result
}

/// Stores every asset of `found` in `map` under its own identifier, in
/// order, replacing what was stored under that identifier before.
pub fn merge_assets<T: Asset>(map: &mut HashMap<u128, T>, found: Vec<T>)
    ensures
        final(map)@ == merged(old(map)@, found@),
{
    let mut stack: Vec<T> = reversed(found);
    let ghost mut done: int = 0;
    while stack.len() > 0
        invariant
            0 <= done <= found@.len(),
            stack@.len() == found@.len() - done,
            stack@ == found@.reverse().take(found@.len() - done),
            map@ == merged(old(map)@, found@.take(done)),
        decreases stack@.len(),
    {
        let asset: T = stack.pop().unwrap();
        let id: u128 = asset.get_uuid();
        proof {
            assert(asset == found@[done]);
            assert(found@.take(done + 1).drop_last() =~= found@.take(done));
            assert(found@.take(done + 1).last() == found@[done]);
        }
        map.insert(id, asset);
        proof {
            done = done + 1;
        }
    }
    assert(found@.take(found@.len() as int) =~= found@);
}

/// The collection that holds the given assets, each under its own
/// identifier.
pub fn collect_assets<T: Asset>(found: Vec<T>) -> (map: HashMap<u128, T>)
    ensures
        map@ == merged(Map::<u128, T>::empty(), found@),
{
    let mut map: HashMap<u128, T> = HashMap::new();
    merge_assets(&mut map, found);
    map
}

/// Merging keeps every identifier that was stored and stores every asset
/// under its own identifier.
pub proof fn lemma_merged_keyed<T: Asset>(base: Map<u128, T>, assets: Seq<T>)
    requires
        keyed_by_uuid(base),
    ensures
        keyed_by_uuid(merged(base, assets)),
        forall|id: u128| #[trigger] base.contains_key(id) ==> merged(base, assets).contains_key(id),
        forall|i: int|
            0 <= i < assets.len() ==> merged(base, assets).contains_key(
                (#[trigger] assets[i]).uuid(),
            ),
        forall|id: u128| #[trigger]
            merged(base, assets).contains_key(id) ==> base.contains_key(id) || exists|i: int|
                0 <= i < assets.len() && (#[trigger] assets[i]).uuid() == id,
        merged(base, assets).dom().finite() <== base.dom().finite(),
    decreases assets.len(),
{
    if assets.len() > 0 {
        let front = assets.drop_last();
        lemma_merged_keyed(base, front);
        assert forall|i: int| 0 <= i < assets.len() implies merged(base, assets).contains_key(
            (#[trigger] assets[i]).uuid(),
        ) by {
            if i < assets.len() - 1 {
                assert(front[i] == assets[i]);
            }
        }
        assert forall|id: u128| #[trigger]
            merged(base, assets).contains_key(id) implies base.contains_key(id) || exists|i: int|
            0 <= i < assets.len() && (#[trigger] assets[i]).uuid() == id by {
            if id == assets.last().uuid() {
                assert(assets[assets.len() - 1].uuid() == id);
            } else {
                assert(merged(base, front).contains_key(id));
                if !base.contains_key(id) {
                    let i = choose|i: int| 0 <= i < front.len() && (#[trigger] front[i]).uuid() == id;
                    assert(assets[i].uuid() == id);
                }
            }
        }
    }
}

/// Where no two assets share an identifier and none of them is stored yet,
/// merging adds exactly one entry for each asset, and each asset is found
/// under its own identifier.
pub proof fn lemma_merged_distinct<T: Asset>(base: Map<u128, T>, assets: Seq<T>)
    requires
        base.dom().finite(),
        distinct_uuids(assets),
        forall|i: int| 0 <= i < assets.len() ==> !base.contains_key((#[trigger] assets[i]).uuid()),
    ensures
        merged(base, assets).dom().finite(),
        merged(base, assets).len() == base.len() + assets.len(),
        forall|i: int|
            0 <= i < assets.len() ==> merged(base, assets).contains_key(
                (#[trigger] assets[i]).uuid(),
            ) && merged(base, assets)[assets[i].uuid()] == assets[i],
        forall|id: u128| #[trigger]
            base.contains_key(id) ==> merged(base, assets).contains_key(id) && merged(
                base,
                assets,
            )[id] == base[id],
        forall|id: u128| #[trigger]
            merged(base, assets).contains_key(id) ==> base.contains_key(id) || exists|i: int|
                0 <= i < assets.len() && (#[trigger] assets[i]).uuid() == id,
    decreases assets.len(),
{
    if assets.len() > 0 {
        let front = assets.drop_last();
        let last = assets.last();
        assert forall|i: int, j: int| 0 <= i < j < front.len() implies (#[trigger] front[i]).uuid()
            != (#[trigger] front[j]).uuid() by {
            assert(front[i] == assets[i]);
            assert(front[j] == assets[j]);
        }
        assert forall|i: int| 0 <= i < front.len() implies !base.contains_key(
            (#[trigger] front[i]).uuid(),
        ) by {
            assert(front[i] == assets[i]);
        }
        lemma_merged_distinct(base, front);
        let before = merged(base, front);
        assert(!before.contains_key(last.uuid())) by {
            if before.contains_key(last.uuid()) {
                assert(assets[assets.len() - 1] == last);
                if !base.contains_key(last.uuid()) {
                    let i = choose|i: int|
                        0 <= i < front.len() && (#[trigger] front[i]).uuid() == last.uuid();
                    assert(front[i] == assets[i]);
                    assert(assets[i].uuid() != assets[assets.len() - 1].uuid());
                }
            }
        }
        assert forall|i: int| 0 <= i < assets.len() implies merged(base, assets).contains_key(
            (#[trigger] assets[i]).uuid(),
        ) && merged(base, assets)[assets[i].uuid()] == assets[i] by {
            if i < assets.len() - 1 {
                assert(front[i] == assets[i]);
                assert(assets[i].uuid() != assets[assets.len() - 1].uuid());
            }
        }
        assert forall|id: u128| #[trigger]
            merged(base, assets).contains_key(id) implies base.contains_key(id) || exists|i: int|
            0 <= i < assets.len() && (#[trigger] assets[i]).uuid() == id by {
            if id == last.uuid() {
                assert(assets[assets.len() - 1].uuid() == id);
            } else if !base.contains_key(id) {
                let i = choose|i: int| 0 <= i < front.len() && (#[trigger] front[i]).uuid() == id;
                assert(assets[i].uuid() == id);
            }
        }
        assert forall|id: u128| #[trigger] base.contains_key(id) implies merged(
            base,
            assets,
        ).contains_key(id) && merged(base, assets)[id] == base[id] by {
            assert(assets[assets.len() - 1] == last);
        }
    }
}

/// `after` is `before` with `asset` added under an identifier that was
/// free.
pub open spec fn stored<T: Asset>(before: Map<u128, T>, asset: T, after: Map<u128, T>) -> bool {
    &&& !before.contains_key(asset.uuid())
    &&& after == before.insert(asset.uuid(), asset)
}

/// An asset that was stored is found under its own identifier, and what was
/// stored before it is found as it was.
pub proof fn lemma_stored_is_found<T: Asset>(before: Map<u128, T>, asset: T, after: Map<u128, T>)
    requires
        stored(before, asset, after),
    ensures
        after.contains_key(asset.uuid()),
        after[asset.uuid()] == asset,
        forall|id: u128| #[trigger]
            before.contains_key(id) ==> after.contains_key(id) && after[id] == before[id],
        keyed_by_uuid(before) ==> keyed_by_uuid(after),
        before.dom().finite() ==> after.len() == before.len() + 1,
{
}

/// An asset that is stored while another is held never takes the
/// identifier of the one that is held.
pub proof fn lemma_stored_under_another_identifier<T: Asset>(
    held: T,
    before: Map<u128, T>,
    asset: T,
    after: Map<u128, T>,
)
    requires
        before.contains_key(held.uuid()),
        stored(before, asset, after),
    ensures
        asset.uuid() != held.uuid(),
        after.contains_key(held.uuid()),
        after[held.uuid()] == before[held.uuid()],
{
}

/// Two collections hold values under the same identifiers, and the values
/// under each identifier are alike in the sense of `same`.
pub open spec fn alike<T>(
    left: Map<u128, T>,
    right: Map<u128, T>,
    same: spec_fn(T, T) -> bool,
) -> bool {
    &&& left.dom() == right.dom()
    &&& forall|id: u128| #[trigger] left.contains_key(id) ==> same(left[id], right[id])
}

/// Merging the same assets into collections that are alike leaves them
/// alike.
pub proof fn lemma_merged_alike<T: Asset>(
    left: Map<u128, T>,
    right: Map<u128, T>,
    assets: Seq<T>,
    same: spec_fn(T, T) -> bool,
)
    requires
        alike(left, right, same),
        forall|asset: T| #[trigger] same(asset, asset),
    ensures
        alike(merged(left, assets), merged(right, assets), same),
    decreases assets.len(),
{
    if assets.len() > 0 {
        lemma_merged_alike(left, right, assets.drop_last(), same);
        let l = merged(left, assets.drop_last());
        let r = merged(right, assets.drop_last());
        assert(merged(left, assets).dom() =~= merged(right, assets).dom());
        assert(same(assets.last(), assets.last()));
    }
}

/// Every asset of `left` is one of `right`.
pub open spec fn among<T>(left: Seq<T>, right: Seq<T>) -> bool {
    forall|i: int|
        0 <= i < left.len() ==> exists|j: int|
            0 <= j < right.len() && right[j] == #[trigger] left[i]
}

/// The order of the walk does not matter where no two assets share an
/// identifier: the same assets in another order give the same collection.
pub proof fn lemma_order_is_immaterial<T: Asset>(first: Seq<T>, second: Seq<T>)
    requires
        distinct_uuids(first),
        distinct_uuids(second),
        among(first, second),
        among(second, first),
    ensures
        merged(Map::<u128, T>::empty(), first) == merged(Map::<u128, T>::empty(), second),
{
    let empty = Map::<u128, T>::empty();
    lemma_merged_distinct(empty, first);
    lemma_merged_distinct(empty, second);
    let left = merged(empty, first);
    let right = merged(empty, second);
    assert forall|id: u128| left.contains_key(id) implies right.contains_key(id) && right[id]
        == left[id] by {
        let i = choose|i: int| 0 <= i < first.len() && (#[trigger] first[i]).uuid() == id;
        let j = choose|j: int| 0 <= j < second.len() && second[j] == first[i];
        assert(right.contains_key(second[j].uuid()));
    }
    assert forall|id: u128| right.contains_key(id) implies left.contains_key(id) by {
        let j = choose|j: int| 0 <= j < second.len() && (#[trigger] second[j]).uuid() == id;
        let i = choose|i: int| 0 <= i < first.len() && first[i] == second[j];
        assert(left.contains_key(first[i].uuid()));
    }
    assert(left =~= right);
}

} // verus!
