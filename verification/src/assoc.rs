//! A finite map kept as a list of pairs in which no key occurs twice.

use vstd::prelude::*;

verus! {

/// A key that can be told apart from another by what it stands for.
pub trait MapKey: DeepView + Sized {
    fn same_key(&self, other: &Self) -> (same: bool)
        ensures
            same == (self.deep_view() == other.deep_view()),
    ;
}

impl MapKey for String {
    fn same_key(&self, other: &Self) -> (same: bool) {
        *self == *other
    }
}

impl MapKey for (String, String) {
    fn same_key(&self, other: &Self) -> (same: bool) {
        self.0 == other.0 && self.1 == other.1
    }
}

/// The map that a list of pairs describes; a later pair overrides an earlier one.
pub open spec fn map_of<A, B>(pairs: Seq<(A, B)>) -> Map<A, B>
    decreases pairs.len(),
{
    if pairs.len() == 0 {
        Map::empty()
    } else {
        map_of(pairs.drop_last()).insert(pairs.last().0, pairs.last().1)
    }
}

/// No key occurs twice in the list.
pub open spec fn distinct_keys<A, B>(pairs: Seq<(A, B)>) -> bool {
    forall|i: int, j: int|
        0 <= i < j < pairs.len() ==> (#[trigger] pairs[i]).0 != (#[trigger] pairs[j]).0
}

/// One more pair adds one more binding.
pub proof fn map_of_next<A, B>(pairs: Seq<(A, B)>, i: int)
    requires
        0 <= i < pairs.len(),
    ensures
        map_of(pairs.take(i + 1)) == map_of(pairs.take(i)).insert(pairs[i].0, pairs[i].1),
{
    assert(pairs.take(i + 1).drop_last() == pairs.take(i));
    assert(pairs.take(i + 1).last() == pairs[i]);
}

/// The keys of the map are the first components of the pairs.
pub proof fn map_of_keys<A, B>(pairs: Seq<(A, B)>, key: A)
    ensures
        map_of(pairs).contains_key(key) <==> exists|i: int|
            0 <= i < pairs.len() && (#[trigger] pairs[i]).0 == key,
    decreases pairs.len(),
{
    if pairs.len() > 0 {
        let rest = pairs.drop_last();
        map_of_keys(rest, key);
        if map_of(rest).contains_key(key) {
            let i = choose|i: int| 0 <= i < rest.len() && (#[trigger] rest[i]).0 == key;
            assert(pairs[i].0 == key);
        }
        if exists|i: int| 0 <= i < pairs.len() && (#[trigger] pairs[i]).0 == key {
            let i = choose|i: int| 0 <= i < pairs.len() && (#[trigger] pairs[i]).0 == key;
            if i < rest.len() {
                assert(rest[i].0 == key);
            }
        }
        if pairs.last().0 == key {
            assert(pairs[pairs.len() - 1].0 == key);
        }
    }
}

/// Where no key occurs twice, each key is bound to the value beside it.
pub proof fn map_of_value<A, B>(pairs: Seq<(A, B)>, i: int)
    requires
        distinct_keys(pairs),
        0 <= i < pairs.len(),
    ensures
        map_of(pairs).contains_key(pairs[i].0),
        map_of(pairs)[pairs[i].0] == pairs[i].1,
    decreases pairs.len(),
{
    let rest = pairs.drop_last();
    if i < rest.len() {
        assert(distinct_keys(rest)) by {
            assert forall|a: int, b: int| 0 <= a < b < rest.len() implies (#[trigger] rest[a]).0
                != (#[trigger] rest[b]).0 by {
                assert(pairs[a].0 != pairs[b].0);
            }
        }
        map_of_value(rest, i);
        assert(rest[i] == pairs[i]);
        assert(pairs[i].0 != pairs[pairs.len() - 1].0);
    }
}

/// Where no key occurs twice, the key of a pair is not among the keys before it.
pub proof fn map_of_fresh<A, B>(pairs: Seq<(A, B)>, i: int)
    requires
        distinct_keys(pairs),
        0 <= i < pairs.len(),
    ensures
        !map_of(pairs.take(i)).contains_key(pairs[i].0),
{
    map_of_keys(pairs.take(i), pairs[i].0);
    if map_of(pairs.take(i)).contains_key(pairs[i].0) {
        let j = choose|j: int| 0 <= j < i && (#[trigger] pairs.take(i)[j]).0 == pairs[i].0;
        assert(pairs[j].0 == pairs[i].0);
    }
}

/// Where no key occurs twice, there are as many bindings as pairs.
pub proof fn map_of_len<A, B>(pairs: Seq<(A, B)>)
    requires
        distinct_keys(pairs),
    ensures
        map_of(pairs).dom().finite(),
        map_of(pairs).len() == pairs.len(),
    decreases pairs.len(),
{
    if pairs.len() > 0 {
        let rest = pairs.drop_last();
        assert(distinct_keys(rest)) by {
            assert forall|a: int, b: int| 0 <= a < b < rest.len() implies (#[trigger] rest[a]).0
                != (#[trigger] rest[b]).0 by {
                assert(pairs[a].0 != pairs[b].0);
            }
        }
        map_of_len(rest);
        map_of_fresh(pairs, pairs.len() - 1);
        assert(rest == pairs.take(pairs.len() - 1));
    }
}

/// A finite map. What it stands for is `@`, a `Map` of what its keys and values stand for.
pub struct AssocMap<K: MapKey, V: DeepView> {
    items: Vec<(K, V)>,
}

impl<K: MapKey, V: DeepView> View for AssocMap<K, V> {
    type V = Map<K::V, V::V>;

    open spec fn view(&self) -> Map<K::V, V::V> {
        map_of(self.pairs())
    }
}

impl<K: MapKey, V: DeepView> DeepView for AssocMap<K, V> {
    type V = Map<K::V, V::V>;

    open spec fn deep_view(&self) -> Map<K::V, V::V> {
        map_of(self.pairs())
    }
}

impl<K: MapKey, V: DeepView> AssocMap<K, V> {
    /// The bindings in the order in which they are walked.
    pub closed spec fn pairs(self) -> Seq<(K::V, V::V)> {
        self.items.deep_view()
    }

    #[verifier::type_invariant]
    spec fn keys_are_distinct(self) -> bool {
        distinct_keys(self.pairs())
    }

    /// The map without bindings.
    pub fn new() -> (map: Self)
        ensures
            map@ == Map::<K::V, V::V>::empty(),
            map.pairs() == Seq::<(K::V, V::V)>::empty(),
    {
        let map = AssocMap { items: Vec::new() };
        assert(map.pairs() == Seq::<(K::V, V::V)>::empty());
        map
    }

    /// The map that binds each key of the list to the last value given for it.
    pub fn from_pairs(list: Vec<(K, V)>) -> (map: Self)
        ensures
            map@ == map_of(list.deep_view()),
    {
        let ghost whole = list.deep_view();
        let mut rest = list;
        let mut turned: Vec<(K, V)> = Vec::new();
        while rest.len() > 0
            invariant
                whole == rest.deep_view() + turned.deep_view().reverse(),
            decreases rest.len(),
        {
            let ghost before = rest.deep_view();
            let ghost after = turned.deep_view();
            match rest.pop() {
                Some(pair) => {
                    turned.push(pair);
                    proof {
                        assert(rest.deep_view() == before.drop_last());
                        assert(turned.deep_view() == after.push(before.last()));
                        assert(whole == rest.deep_view() + turned.deep_view().reverse());
                    }
                },
                None => {},
            }
        }
        assert(whole == turned.deep_view().reverse());
        let mut map = AssocMap::new();
        let ghost mut done: int = 0;
        assert(whole.take(0) == Seq::<(K::V, V::V)>::empty());
        while turned.len() > 0
            invariant
                0 <= done <= whole.len(),
                turned@.len() == whole.len() - done,
                forall|j: int|
                    0 <= j < turned@.len() ==> #[trigger] turned.deep_view()[j] == whole[whole.len()
                        - 1 - j],
                map@ == map_of(whole.take(done)),
            decreases turned.len(),
        {
            let ghost left = turned.deep_view();
            match turned.pop() {
                Some(pair) => {
                    proof {
                        assert(pair.deep_view() == left.last());
                        assert(left.last() == whole[done]);
                        map_of_next(whole, done);
                        done = done + 1;
                        assert forall|j: int| 0 <= j < turned@.len() implies
                            #[trigger] turned.deep_view()[j] == whole[whole.len() - 1 - j] by {
                            assert(turned.deep_view()[j] == left[j]);
                        }
                    }
                    map.insert(pair.0, pair.1);
                },
                None => {},
            }
        }
        assert(whole.take(done) == whole);
        map
    }

    /// How many bindings there are. No key is walked twice.
    pub fn len(&self) -> (n: usize)
        ensures
            n == self@.len(),
            n == self.pairs().len(),
            distinct_keys(self.pairs()),
    {
        proof {
            use_type_invariant(self);
            map_of_len(self.pairs());
        }
        self.items.len()
    }

    /// Whether there is no binding.
    pub fn is_empty(&self) -> (empty: bool)
        ensures
            empty == (self@ == Map::<K::V, V::V>::empty()),
            empty == (self@.len() == 0),
    {
        proof {
            use_type_invariant(self);
            map_of_len(self.pairs());
            if self.pairs().len() > 0 {
                map_of_value(self.pairs(), 0);
            }
        }
        self.items.len() == 0
    }

    /// The binding that is walked at place `i`.
    pub fn entry(&self, i: usize) -> (pair: (&K, &V))
        requires
            i < self.pairs().len(),
        ensures
            pair.0.deep_view() == self.pairs()[i as int].0,
            pair.1.deep_view() == self.pairs()[i as int].1,
            self@.contains_key(pair.0.deep_view()),
            self@[pair.0.deep_view()] == pair.1.deep_view(),
    {
        proof {
            use_type_invariant(self);
            map_of_value(self.pairs(), i as int);
        }
        let pair = &self.items[i];
        (&pair.0, &pair.1)
    }

    fn position(&self, key: &K) -> (found: Option<usize>)
        ensures
            match found {
                Some(i) => i < self.pairs().len() && self.pairs()[i as int].0 == key.deep_view(),
                None => !self@.contains_key(key.deep_view()),
            },
    {
        proof {
            map_of_keys(self.pairs(), key.deep_view());
        }
        for i in 0..self.items.len()
            invariant
                forall|j: int| 0 <= j < i ==> (#[trigger] self.pairs()[j]).0 != key.deep_view(),
        {
            if self.items[i].0.same_key(key) {
                return Some(i);
            }
            assert(self.pairs()[i as int].0 == self.items@[i as int].0.deep_view());
        }
        None
    }

    /// The value bound to `key`.
    pub fn get(&self, key: &K) -> (value: Option<&V>)
        ensures
            match value {
                Some(v) => self@.contains_key(key.deep_view()) && v.deep_view()
                    == self@[key.deep_view()],
                None => !self@.contains_key(key.deep_view()),
            },
    {
        match self.position(key) {
            Some(i) => {
                let pair = self.entry(i);
                Some(pair.1)
            },
            None => None,
        }
    }

    /// Whether `key` is bound.
    pub fn contains_key(&self, key: &K) -> (bound: bool)
        ensures
            bound == self@.contains_key(key.deep_view()),
    {
        self.get(key).is_some()
    }

    /// Binds `key` to `value`, in place of what it was bound to before.
    pub fn insert(&mut self, key: K, value: V)
        ensures
            final(self)@ == old(self)@.insert(key.deep_view(), value.deep_view()),
    {
        let ghost before = self.pairs();
        let ghost k = key.deep_view();
        let ghost v = value.deep_view();
        let found = self.position(&key);
        proof {
            use_type_invariant(&*self);
        }
        let mut items: Vec<(K, V)> = Vec::new();
        std::mem::swap(&mut items, &mut self.items);
        match found {
            Some(i) => {
                items.set(i, (key, value));
                proof {
                    let after = items.deep_view();
                    assert(after == before.update(i as int, (k, v)));
                    assert(distinct_keys(after)) by {
                        assert forall|a: int, b: int| 0 <= a < b < after.len() implies (
                        #[trigger] after[a]).0 != (#[trigger] after[b]).0 by {
                            assert(before[a].0 != before[b].0);
                        }
                    }
                    map_of_update(before, i as int, v);
                }
            },
            None => {
                items.push((key, value));
                proof {
                    let after = items.deep_view();
                    assert(after == before.push((k, v)));
                    map_of_keys(before, k);
                    assert(distinct_keys(after)) by {
                        assert forall|a: int, b: int| 0 <= a < b < after.len() implies (
                        #[trigger] after[a]).0 != (#[trigger] after[b]).0 by {
                            assert(before[a].0 == after[a].0);
                            if b < before.len() {
                                assert(before[b].0 == after[b].0);
                            }
                        }
                    }
                    assert(after.drop_last() == before);
                }
            },
        }
        self.items = items;
    }
}

/// Changing the value beside a key rebinds that key and no other.
proof fn map_of_update<A, B>(pairs: Seq<(A, B)>, i: int, v: B)
    requires
        distinct_keys(pairs),
        0 <= i < pairs.len(),
    ensures
        map_of(pairs.update(i, (pairs[i].0, v))) == map_of(pairs).insert(pairs[i].0, v),
{
    let after = pairs.update(i, (pairs[i].0, v));
    assert(distinct_keys(after)) by {
        assert forall|a: int, b: int| 0 <= a < b < after.len() implies (#[trigger] after[a]).0 != (
        #[trigger] after[b]).0 by {
            assert(pairs[a].0 != pairs[b].0);
        }
    }
    let left = map_of(after);
    let right = map_of(pairs).insert(pairs[i].0, v);
    assert forall|k: A| left.contains_key(k) == right.contains_key(k) by {
        map_of_keys(pairs, k);
        map_of_keys(after, k);
        if left.contains_key(k) {
            let j = choose|j: int| 0 <= j < after.len() && (#[trigger] after[j]).0 == k;
            assert(pairs[j].0 == k);
        }
        if right.contains_key(k) {
            if k == pairs[i].0 {
                assert(after[i].0 == k);
            } else {
                let j = choose|j: int| 0 <= j < pairs.len() && (#[trigger] pairs[j]).0 == k;
                assert(after[j].0 == k);
            }
        }
    }
    assert forall|k: A| #[trigger] left.contains_key(k) implies left[k] == right[k] by {
        map_of_keys(after, k);
        let j = choose|j: int| 0 <= j < after.len() && (#[trigger] after[j]).0 == k;
        map_of_value(after, j);
        map_of_value(pairs, j);
        if j != i {
            assert(after[j] == pairs[j]);
            assert(pairs[j].0 != pairs[i].0) by {
                if j < i {
                    assert(pairs[j].0 != pairs[i].0);
                } else {
                    assert(pairs[i].0 != pairs[j].0);
                }
            }
        }
    }
    assert(left =~= right);
}

} // verus!
