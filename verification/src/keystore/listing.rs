//! The order of a key listing.

use vstd::prelude::*;

use super::client::meta_views;
use super::{KeyFacts, KeyMeta};
use crate::text::{no_later, not_after, order_is_total, order_is_transitive};

verus! {

/// A key put into a listing: behind every key whose label comes no later.
pub open spec fn placed(keys: Seq<KeyFacts>, key: KeyFacts) -> Seq<KeyFacts>
    decreases keys.len(),
{
    if keys.len() == 0 || no_later(keys.last().label, key.label) {
        keys.push(key)
    } else {
        placed(keys.drop_last(), key).push(keys.last())
    }
}

/// Keys in the order of their labels; keys with one label stay in the order they came in.
pub open spec fn by_label(keys: Seq<KeyFacts>) -> Seq<KeyFacts>
    decreases keys.len(),
{
    if keys.len() == 0 {
        keys
    } else {
        placed(by_label(keys.drop_last()), keys.last())
    }
}

/// Whether every key's label comes no later than those after it.
pub open spec fn in_order(keys: Seq<KeyFacts>) -> bool {
    forall|i: int, j: int|
        0 <= i <= j < keys.len() ==> no_later(#[trigger] keys[i].label, #[trigger] keys[j].label)
}

proof fn placed_at(keys: Seq<KeyFacts>, key: KeyFacts, at: int)
    requires
        0 <= at <= keys.len(),
        at > 0 ==> no_later(keys[at - 1].label, key.label),
        forall|j: int| at <= j < keys.len() ==> !no_later(#[trigger] keys[j].label, key.label),
    ensures
        placed(keys, key) == keys.insert(at, key),
    decreases keys.len(),
{
    if at < keys.len() {
        placed_at(keys.drop_last(), key, at);
        assert(keys.drop_last().insert(at, key).push(keys.last()) =~= keys.insert(at, key));
    } else {
        assert(keys.push(key) =~= keys.insert(at, key));
    }
}

/// Put keys in the order of their labels.
pub fn sort_by_label(keys: Vec<KeyMeta>) -> (out: Vec<KeyMeta>)
    ensures
        meta_views(out@) == by_label(meta_views(keys@)),
{
    let mut rest = keys;
    let mut ordered: Vec<KeyMeta> = Vec::new();
    let ghost all = meta_views(keys@);
    assert(meta_views(ordered@) =~= by_label(all.take(0)));
    assert(meta_views(rest@) =~= all.skip(0));
    while rest.len() > 0
        invariant
            rest@.len() <= all.len(),
            meta_views(rest@) == all.skip(all.len() - rest@.len()),
            meta_views(ordered@) == by_label(all.take(all.len() - rest@.len())),
        decreases rest@.len(),
    {
        let ghost before = rest@;
        let ghost done: int = all.len() - rest@.len();
        let key = rest.remove(0);
        proof {
            assert(meta_views(before)[0] == key@);
            assert(all.skip(done)[0] == all[done]);
            assert(meta_views(rest@) =~= meta_views(before).skip(1));
            assert(all.skip(done).skip(1) =~= all.skip(done + 1));
            assert(all.take(done + 1).drop_last() =~= all.take(done));
            assert(all.take(done + 1).last() == key@);
        }
        let mut at: usize = ordered.len();
        while at > 0 && !not_after(&ordered[at - 1].label, &key.label)
            invariant
                at <= ordered@.len(),
                forall|j: int|
                    at <= j < ordered@.len() ==> !no_later(
                        #[trigger] ordered@[j].label@,
                        key.label@,
                    ),
            decreases at,
        {
            at = at - 1;
        }
        proof {
            let seen = meta_views(ordered@);
            assert forall|j: int| at <= j < seen.len() implies !no_later(
                #[trigger] seen[j].label,
                key@.label,
            ) by {
                assert(seen[j].label == ordered@[j].label@);
            }
            placed_at(seen, key@, at as int);
            assert(meta_views(ordered@.insert(at as int, key)) =~= seen.insert(at as int, key@));
        }
        ordered.insert(at, key);
    }
    assert(all.take(all.len() as int) =~= all);
    ordered
}

/// A listing holds exactly the keys it was made from, and their labels are in order.
pub proof fn a_listing_is_ordered_and_complete(keys: Seq<KeyFacts>)
    ensures
        in_order(by_label(keys)),
        by_label(keys).to_multiset() == keys.to_multiset(),
    decreases keys.len(),
{
    if keys.len() > 0 {
        a_listing_is_ordered_and_complete(keys.drop_last());
        placing_keeps_order(by_label(keys.drop_last()), keys.last());
        assert(keys =~= keys.drop_last().push(keys.last()));
        keys.drop_last().to_multiset_ensures();
    }
}

proof fn placing_keeps_order(keys: Seq<KeyFacts>, key: KeyFacts)
    requires
        in_order(keys),
    ensures
        in_order(placed(keys, key)),
        placed(keys, key).to_multiset() == keys.to_multiset().insert(key),
        forall|i: int|
            0 <= i < placed(keys, key).len() ==> #[trigger] placed(keys, key)[i] == key
                || keys.contains(placed(keys, key)[i]),
    decreases keys.len(),
{
    keys.to_multiset_ensures();
    if keys.len() == 0 {
        order_is_total(key.label, key.label);
    } else if no_later(keys.last().label, key.label) {
        let out = keys.push(key);
        assert forall|i: int, j: int| 0 <= i <= j < out.len() implies no_later(
            #[trigger] out[i].label,
            #[trigger] out[j].label,
        ) by {
            if j == keys.len() {
                if i == j {
                    order_is_total(key.label, key.label);
                } else {
                    order_is_transitive(keys[i].label, keys.last().label, key.label);
                }
            }
        }
    } else {
        let front = keys.drop_last();
        let last = keys.last();
        placing_keeps_order(front, key);
        let head = placed(front, key);
        let out = head.push(last);
        order_is_total(keys.last().label, key.label);
        assert forall|i: int| 0 <= i < head.len() implies no_later(
            #[trigger] head[i].label,
            last.label,
        ) by {
            if head[i] != key {
                let k = choose|k: int| 0 <= k < front.len() && front[k] == head[i];
                assert(keys[k] == head[i]);
                assert(keys[keys.len() - 1] == last);
            }
        }
        assert forall|i: int, j: int| 0 <= i <= j < out.len() implies no_later(
            #[trigger] out[i].label,
            #[trigger] out[j].label,
        ) by {
            if j == head.len() {
                if i == j {
                    order_is_total(last.label, last.label);
                } else {
                    assert(out[i] == head[i]);
                }
            } else {
                assert(out[i] == head[i] && out[j] == head[j]);
            }
        }
        assert forall|i: int| 0 <= i < out.len() implies #[trigger] out[i] == key
            || keys.contains(out[i]) by {
            if i < head.len() {
                if out[i] != key {
                    assert(front.contains(head[i]));
                    let k = choose|k: int| 0 <= k < front.len() && front[k] == head[i];
                    assert(keys[k] == out[i]);
                }
            } else {
                assert(keys[keys.len() - 1] == out[i]);
            }
        }
        head.to_multiset_ensures();
        front.to_multiset_ensures();
        assert(keys =~= front.push(last));
        assert(out.to_multiset() =~= keys.to_multiset().insert(key));
    }
}

} // verus!
