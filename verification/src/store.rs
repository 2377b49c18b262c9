use vstd::prelude::*;
use std::collections::HashMap;
use crate::types::Item;

verus! {

broadcast use vstd::std_specs::hash::group_hash_axioms;

/// The map a list of items collects into: each item keyed by its id, a
/// later occurrence of an id replacing an earlier one.
pub open spec fn store_of(items: Seq<Item>) -> Map<u32, Item>
    decreases items.len(),
{
    if items.len() == 0 {
        Map::empty()
    } else {
        store_of(items.drop_last()).insert(items.last().id, items.last())
    }
}

/// The store's keys are exactly the ids occurring in the list.
pub proof fn lemma_store_of_domain(items: Seq<Item>)
    ensures
        forall|k: u32| #[trigger] store_of(items).contains_key(k) <==> exists|i: int|
            0 <= i < items.len() && items[i].id == k,
    decreases items.len(),
{
    if items.len() > 0 {
        lemma_store_of_domain(items.drop_last());
        let pre = items.drop_last();
        assert forall|k: u32| #[trigger] store_of(items).contains_key(k) implies exists|i: int|
            0 <= i < items.len() && items[i].id == k by {
            if k == items.last().id {
                assert(items[items.len() - 1].id == k);
            } else {
                assert(store_of(pre).contains_key(k));
                let i = choose|i: int| 0 <= i < pre.len() && pre[i].id == k;
                assert(items[i].id == k);
            }
        }
        assert forall|k: u32| (exists|i: int| 0 <= i < items.len() && items[i].id == k)
            implies #[trigger] store_of(items).contains_key(k) by {
            let i = choose|i: int| 0 <= i < items.len() && items[i].id == k;
            if i < items.len() - 1 {
                assert(pre[i].id == k);
                assert(exists|j: int| 0 <= j < pre.len() && pre[j].id == k);
                assert(store_of(pre).contains_key(k));
            }
        }
    }
}

/// Collects resolved items into a store keyed by item id, for constant-time
/// lookup while rendering.
pub fn make_item_store(items: Vec<Item>) -> (r: HashMap<u32, Item>)
    ensures
        r@ == store_of(items@),
{
    let mut rest = items;
    let ghost all = rest@;
    let mut store: HashMap<u32, Item> = HashMap::new();
    let ghost mut done: int = 0;
    proof {
        assert(all.take(0) =~= Seq::<Item>::empty());
        assert(all.skip(0) =~= all);
    }
    while rest.len() > 0
        invariant
            0 <= done <= all.len(),
            rest@ == all.skip(done),
            store@ == store_of(all.take(done)),
        decreases rest@.len(),
    {
        let item = rest.remove(0);
        proof {
            assert(all.skip(done)[0] == all[done]);
            assert(all.skip(done).remove(0) =~= all.skip(done + 1));
        }
        store.insert(item.id, item);
        proof {
            assert(all.take(done + 1).drop_last() =~= all.take(done));
            assert(all.take(done + 1).last() == all[done]);
            done = done + 1;
        }
    }
    proof {
        assert(all.take(done) =~= all);
    }
    store
}

} // verus!
