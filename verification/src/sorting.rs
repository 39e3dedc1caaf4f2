//! Lists in the order of their labels.

use vstd::prelude::*;

use crate::text;
use crate::text::not_after;

verus! {

/// Something that is listed under a label.
pub trait Labelled: DeepView + Sized {
    /// The label of what a value stands for.
    spec fn label_of(v: Self::V) -> Seq<char>;

    /// The label.
    fn label(&self) -> (label: &str)
        ensures
            label@ == Self::label_of(self.deep_view()),
    ;
}

/// No label comes before the label in front of it.
pub open spec fn in_label_order<T: Labelled>(list: Seq<T::V>) -> bool {
    forall|i: int, j: int|
        0 <= i < j < list.len() ==> text::text_le(
            T::label_of(#[trigger] list[i]),
            T::label_of(#[trigger] list[j]),
        )
}

/// No label occurs twice.
pub open spec fn distinct_labels<T: Labelled>(list: Seq<T::V>) -> bool {
    forall|i: int, j: int|
        0 <= i < j < list.len() ==> T::label_of(#[trigger] list[i]) != T::label_of(
            #[trigger] list[j],
        )
}

/// The same elements in another order: what occurs in the one list occurs in the other.
pub proof fn reordered_contains<A>(before: Seq<A>, after: Seq<A>, x: A)
    requires
        before.to_multiset() == after.to_multiset(),
    ensures
        before.contains(x) == after.contains(x),
{
    vstd::seq_lib::to_multiset_contains(before, x);
    vstd::seq_lib::to_multiset_contains(after, x);
}

/// The same elements in another order: labels that were distinct stay so.
pub proof fn reordered_distinct_labels<T: Labelled>(before: Seq<T::V>, after: Seq<T::V>)
    requires
        before.to_multiset() == after.to_multiset(),
        distinct_labels::<T>(before),
    ensures
        distinct_labels::<T>(after),
{
    assert(before.no_duplicates());
    before.lemma_multiset_has_no_duplicates();
    assert forall|x: T::V| after.to_multiset().contains(x) implies after.to_multiset().count(x)
        == 1 by {
        assert(before.to_multiset().contains(x));
    }
    after.lemma_multiset_has_no_duplicates_conv();
    assert forall|i: int, j: int| 0 <= i < j < after.len() implies T::label_of(
        #[trigger] after[i],
    ) != T::label_of(#[trigger] after[j]) by {
        reordered_contains(before, after, after[i]);
        reordered_contains(before, after, after[j]);
        let a = choose|a: int| 0 <= a < before.len() && before[a] == after[i];
        let b = choose|b: int| 0 <= b < before.len() && before[b] == after[j];
        assert(after[i] != after[j]);
        assert(a != b);
        if a < b {
            assert(T::label_of(before[a]) != T::label_of(before[b]));
        } else {
            assert(T::label_of(before[b]) != T::label_of(before[a]));
        }
    }
}

/// There is only one way to put elements with distinct labels in order.
pub proof fn order_is_unique<T: Labelled>(a: Seq<T::V>, b: Seq<T::V>)
    requires
        in_label_order::<T>(a),
        in_label_order::<T>(b),
        distinct_labels::<T>(a),
        distinct_labels::<T>(b),
        forall|x: T::V| #[trigger] a.contains(x) <==> b.contains(x),
    ensures
        a == b,
    decreases a.len(),
{
    if a.len() == 0 {
        if b.len() > 0 {
            assert(b.contains(b[0]));
            assert(a.contains(b[0]));
        }
        assert(a =~= b);
    } else {
        let x = a.last();
        assert(a[a.len() - 1] == x);
        assert(a.contains(x));
        assert(b.contains(x));
        let y = b.last();
        assert(b[b.len() - 1] == y);
        assert(b.contains(y));
        assert(a.contains(y));
        let i = choose|i: int| 0 <= i < b.len() && b[i] == x;
        let j = choose|j: int| 0 <= j < a.len() && a[j] == y;
        text::text_le_reflexive(T::label_of(x));
        text::text_le_reflexive(T::label_of(y));
        if i < b.len() - 1 && j < a.len() - 1 {
            assert(text::text_le(T::label_of(b[i]), T::label_of(b[b.len() - 1])));
            assert(text::text_le(T::label_of(a[j]), T::label_of(a[a.len() - 1])));
            text::text_le_antisymmetric(T::label_of(x), T::label_of(y));
            assert(T::label_of(b[i]) != T::label_of(b[b.len() - 1]));
        }
        assert(x == y);
        let c = a.drop_last();
        let d = b.drop_last();
        assert forall|z: T::V| #[trigger] c.contains(z) <==> d.contains(z) by {
            if c.contains(z) {
                let k = choose|k: int| 0 <= k < c.len() && c[k] == z;
                assert(a[k] == z);
                assert(T::label_of(a[k]) != T::label_of(a[a.len() - 1]));
                assert(a.contains(z));
                let m = choose|m: int| 0 <= m < b.len() && b[m] == z;
                assert(d[m] == z);
            }
            if d.contains(z) {
                let k = choose|k: int| 0 <= k < d.len() && d[k] == z;
                assert(b[k] == z);
                assert(T::label_of(b[k]) != T::label_of(b[b.len() - 1]));
                assert(b.contains(z));
                assert(a.contains(z));
                let m = choose|m: int| 0 <= m < a.len() && a[m] == z;
                assert(c[m] == z);
            }
        }
        assert forall|k: int, m: int| 0 <= k < m < c.len() implies {
            &&& text::text_le(T::label_of(#[trigger] c[k]), T::label_of(#[trigger] c[m]))
            &&& T::label_of(c[k]) != T::label_of(c[m])
        } by {
            assert(a[k] == c[k] && a[m] == c[m]);
        }
        assert forall|k: int, m: int| 0 <= k < m < d.len() implies {
            &&& text::text_le(T::label_of(#[trigger] d[k]), T::label_of(#[trigger] d[m]))
            &&& T::label_of(d[k]) != T::label_of(d[m])
        } by {
            assert(b[k] == d[k] && b[m] == d[m]);
        }
        order_is_unique::<T>(c, d);
        assert(a =~= c.push(x));
        assert(b =~= d.push(y));
    }
}

/// Puts `x` where it belongs in a list that is in order.
fn insert_in_order<T: Labelled>(list: &mut Vec<T>, x: T)
    requires
        in_label_order::<T>(old(list).deep_view()),
    ensures
        in_label_order::<T>(final(list).deep_view()),
        final(list).deep_view().to_multiset() == old(list).deep_view().to_multiset().insert(
            x.deep_view(),
        ),
{
    let ghost before = list.deep_view();
    let ghost v = x.deep_view();
    let mut at: usize = 0;
    while at < list.len() && not_after(list[at].label(), x.label())
        invariant
            at <= list@.len(),
            before == list.deep_view(),
            v == x.deep_view(),
            forall|i: int|
                0 <= i < at ==> text::text_le(
                    T::label_of(#[trigger] before[i]),
                    T::label_of(v),
                ),
        decreases list@.len() - at,
    {
        at = at + 1;
    }
    proof {
        if at < list@.len() {
            text::text_le_total(T::label_of(before[at as int]), T::label_of(v));
        }
    }
    list.insert(at, x);
    proof {
        let after = list.deep_view();
        assert(after =~= before.insert(at as int, v));
        vstd::seq_lib::to_multiset_insert(before, at as int, v);
        assert forall|i: int, j: int| 0 <= i < j < after.len() implies text::text_le(
            T::label_of(#[trigger] after[i]),
            T::label_of(#[trigger] after[j]),
        ) by {
            if i < at {
                assert(after[i] == before[i]);
                if j > at {
                    assert(after[j] == before[j - 1]);
                } else if j < at {
                    assert(after[j] == before[j]);
                }
            } else {
                assert(after[j] == before[j - 1]);
                if i > at {
                    assert(after[i] == before[i - 1]);
                } else if j - 1 > at {
                    text::text_le_transitive(
                        T::label_of(v),
                        T::label_of(before[at as int]),
                        T::label_of(before[j - 1]),
                    );
                }
            }
        }
    }
}

/// The same elements in the order of their labels.
pub fn sort_by_label<T: Labelled>(list: Vec<T>) -> (sorted: Vec<T>)
    ensures
        in_label_order::<T>(sorted.deep_view()),
        sorted.deep_view().to_multiset() == list.deep_view().to_multiset(),
{
    broadcast use vstd::seq_lib::group_to_multiset_ensures;

    let ghost whole = list.deep_view().to_multiset();
    let mut rest = list;
    let mut sorted: Vec<T> = Vec::new();
    proof {
        assert(sorted.deep_view().to_multiset().len() == 0);
        assert(rest.deep_view().to_multiset().add(sorted.deep_view().to_multiset()) =~= whole);
    }
    while rest.len() > 0
        invariant
            in_label_order::<T>(sorted.deep_view()),
            rest.deep_view().to_multiset().add(sorted.deep_view().to_multiset()) == whole,
        decreases rest.len(),
    {
        let ghost before = rest.deep_view();
        let ghost held = sorted.deep_view().to_multiset();
        match rest.pop() {
            Some(x) => {
                proof {
                    assert(rest.deep_view() =~= before.drop_last());
                    assert(before =~= rest.deep_view().push(x.deep_view()));
                    vstd::seq_lib::to_multiset_build(rest.deep_view(), x.deep_view());
                    assert(before.to_multiset() == rest.deep_view().to_multiset().insert(
                        x.deep_view(),
                    ));
                }
                let ghost v = x.deep_view();
                insert_in_order(&mut sorted, x);
                assert(sorted.deep_view().to_multiset() == held.insert(v));
                assert(rest.deep_view().to_multiset().add(sorted.deep_view().to_multiset())
                    =~= whole);
            },
            None => {},
        }
    }
    assert(rest.deep_view().to_multiset().len() == 0);
    assert(sorted.deep_view().to_multiset() =~= whole);
    sorted
}

} // verus!
