//! Maps: what is bound is found, and the last binding counts.

use vstd::prelude::*;

use crate::assoc;
use crate::assoc::{AssocMap, MapKey};

verus! {

/// The last pair with the key stands at place `i`.
pub open spec fn last_at<A, B>(pairs: Seq<(A, B)>, key: A, i: int) -> bool {
    &&& 0 <= i < pairs.len()
    &&& pairs[i].0 == key
    &&& forall|j: int| i < j < pairs.len() ==> (#[trigger] pairs[j]).0 != key
}

/// The last pair with a key binds it.
proof fn last_pair_binds<A, B>(pairs: Seq<(A, B)>, key: A, i: int)
    requires
        last_at(pairs, key, i),
    ensures
        assoc::map_of(pairs).contains_key(key),
        assoc::map_of(pairs)[key] == pairs[i].1,
    decreases pairs.len(),
{
    if i < pairs.len() - 1 {
        let rest = pairs.drop_last();
        assert(pairs[pairs.len() - 1].0 != key);
        assert forall|j: int| i < j < rest.len() implies (#[trigger] rest[j]).0 != key by {
            assert(pairs[j].0 != key);
        }
        last_pair_binds(rest, key, i);
    }
}

/// A map that is made of pairs has the keys of the pairs and no others, each bound by its last
/// pair.
pub proof fn last_pair_counts<K: MapKey, V: DeepView>(
    list: Vec<(K, V)>,
    map: AssocMap<K, V>,
    key: K::V,
    i: int,
)
    requires
        call_ensures(AssocMap::<K, V>::from_pairs, (list,), map),
    ensures
        map@.contains_key(key) <==> exists|j: int|
            0 <= j < list.deep_view().len() && (#[trigger] list.deep_view()[j]).0 == key,
        last_at(list.deep_view(), key, i) ==> map@[key] == list.deep_view()[i].1,
{
    assoc::map_of_keys(list.deep_view(), key);
    if last_at(list.deep_view(), key, i) {
        last_pair_binds(list.deep_view(), key, i);
    }
}

/// A key is bound to what it was bound to last, and every other key as it was before.
pub proof fn last_binding_counts<K: MapKey, V: DeepView>(
    map: &mut AssocMap<K, V>,
    key: K,
    value: V,
    other: K::V,
)
    requires
        call_ensures(AssocMap::<K, V>::insert, (map, key, value), ()),
    ensures
        final(map)@.contains_key(key.deep_view()),
        final(map)@[key.deep_view()] == value.deep_view(),
        other != key.deep_view() ==> final(map)@.contains_key(other) == old(map)@.contains_key(
            other,
        ) && (old(map)@.contains_key(other) ==> final(map)@[other] == old(map)@[other]),
{
}

/// What a key is bound to is found under it, and nothing under a key that is not bound; and a map
/// without bindings has no keys.
pub proof fn bound_is_found<K: MapKey, V: DeepView>(
    map: &AssocMap<K, V>,
    key: &K,
    value: Option<&V>,
    bound: bool,
    empty: bool,
)
    requires
        call_ensures(AssocMap::<K, V>::get, (map, key), value),
        call_ensures(AssocMap::<K, V>::contains_key, (map, key), bound),
        call_ensures(AssocMap::<K, V>::is_empty, (map,), empty),
    ensures
        value is Some <==> map@.contains_key(key.deep_view()),
        bound <==> value is Some,
        value matches Some(v) ==> v.deep_view() == map@[key.deep_view()],
        bound ==> !empty,
{
}

} // verus!
