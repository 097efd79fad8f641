//! Stable sorting of delivered-payload records by bid value.
//!
//! The sort is specified exactly: `sort_by_value_spec` pins the output
//! sequence, and the lemmas below state the three facts a caller cares
//! about — the result is ordered by value, records with equal values keep
//! their original relative order, and the result is a permutation of the
//! input.

use vstd::prelude::*;
use crate::models::DeliveredPayload;

verus! {

/// `a` may stand before `b` in a sequence sorted in the given direction.
pub open spec fn in_order(a: DeliveredPayload, b: DeliveredPayload, descending: bool) -> bool {
    if descending {
        a.value >= b.value
    } else {
        a.value <= b.value
    }
}

/// Every pair of positions is in order for the given direction.
pub open spec fn sorted_by_value(s: Seq<DeliveredPayload>, descending: bool) -> bool {
    forall|i: int, j: int|
        0 <= i < j < s.len() ==> in_order(#[trigger] s[i], #[trigger] s[j], descending)
}

/// The predicate selecting records with bid value `v`.
pub open spec fn value_is(v: u128) -> spec_fn(DeliveredPayload) -> bool {
    |p: DeliveredPayload| p.value == v
}

/// `x` placed into `s` after every element that may stand before it:
/// scanning from the right, `x` passes exactly the elements that are not in
/// order before it.  Inserting into a sorted sequence this way is the
/// stable insertion step.
pub open spec fn insert_by_value(
    s: Seq<DeliveredPayload>,
    x: DeliveredPayload,
    descending: bool,
) -> Seq<DeliveredPayload>
    decreases s.len(),
{
    if s.len() == 0 {
        seq![x]
    } else if in_order(s.last(), x, descending) {
        s.push(x)
    } else {
        insert_by_value(s.drop_last(), x, descending).push(s.last())
    }
}

/// The stable sort of `s` by bid value in the given direction, defined as
/// insertion sort.
pub open spec fn sort_by_value_spec(s: Seq<DeliveredPayload>, descending: bool) -> Seq<
    DeliveredPayload,
>
    decreases s.len(),
{
    if s.len() == 0 {
        Seq::empty()
    } else {
        insert_by_value(sort_by_value_spec(s.drop_last(), descending), s.last(), descending)
    }
}

/// The insertion step is an `insert` at the position bounded by the scanned
/// elements: everything at or after `j` is not in order before `x`, and the
/// element just before `j`, if any, is.
proof fn lemma_insert_by_value_at(
    s: Seq<DeliveredPayload>,
    x: DeliveredPayload,
    j: int,
    descending: bool,
)
    requires
        0 <= j <= s.len(),
        forall|k: int| j <= k < s.len() ==> !in_order(#[trigger] s[k], x, descending),
        j > 0 ==> in_order(s[j - 1], x, descending),
    ensures
        insert_by_value(s, x, descending) == s.insert(j, x),
    decreases s.len(),
{
    if s.len() == 0 {
        assert(insert_by_value(s, x, descending) =~= s.insert(0, x));
    } else if j == s.len() {
        assert(in_order(s.last(), x, descending));
        assert(insert_by_value(s, x, descending) =~= s.insert(j, x));
    } else {
        assert(!in_order(s.last(), x, descending));
        lemma_insert_by_value_at(s.drop_last(), x, j, descending);
        assert(insert_by_value(s.drop_last(), x, descending).push(s.last()) =~= s.insert(j, x));
    }
}

/// Inserting into a sequence sorted in a direction keeps it sorted in that
/// direction.
proof fn lemma_insert_by_value_sorted(
    s: Seq<DeliveredPayload>,
    x: DeliveredPayload,
    descending: bool,
)
    requires
        sorted_by_value(s, descending),
    ensures
        sorted_by_value(insert_by_value(s, x, descending), descending),
    decreases s.len(),
{
    let r = insert_by_value(s, x, descending);
    if s.len() == 0 {
    } else if in_order(s.last(), x, descending) {
        assert forall|i: int, j: int| 0 <= i < j < r.len() implies in_order(
            r[i],
            r[j],
            descending,
        ) by {
            if j == r.len() - 1 {
                assert(in_order(s[i], s[s.len() - 1], descending) || i == s.len() - 1);
            }
        }
    } else {
        lemma_insert_by_value_sorted(s.drop_last(), x, descending);
        let inner = insert_by_value(s.drop_last(), x, descending);
        lemma_insert_by_value_multiset(s.drop_last(), x, descending);
        assert forall|i: int, j: int| 0 <= i < j < r.len() implies in_order(
            r[i],
            r[j],
            descending,
        ) by {
            if j == r.len() - 1 {
                // every element of `inner` is an element of `s.drop_last()`
                // or `x`, and each of those is in order before `s.last()`
                broadcast use vstd::seq_lib::group_to_multiset_ensures;

                assert(r[i] == inner[i]);
                assert(inner.contains(r[i]));
                assert(inner.to_multiset().count(r[i]) > 0);
                if s.drop_last().to_multiset().count(r[i]) > 0 {
                    assert(s.drop_last().contains(r[i]));
                    let t = choose|t: int| 0 <= t < s.drop_last().len() && s.drop_last()[t] == r[i];
                    assert(in_order(s[t], s[s.len() - 1], descending));
                } else {
                    assert(s.drop_last().to_multiset().insert(x).count(r[i]) > 0);
                    assert(r[i] == x);
                }
            } else {
                assert(in_order(inner[i], inner[j], descending));
            }
        }
    }
}

/// Inserting adds exactly one occurrence of the inserted record.
proof fn lemma_insert_by_value_multiset(
    s: Seq<DeliveredPayload>,
    x: DeliveredPayload,
    descending: bool,
)
    ensures
        insert_by_value(s, x, descending).to_multiset() == s.to_multiset().insert(x),
    decreases s.len(),
{
    broadcast use vstd::seq_lib::group_to_multiset_ensures;

    if s.len() == 0 {
        assert(insert_by_value(s, x, descending) =~= Seq::empty().push(x));
        assert(Seq::<DeliveredPayload>::empty().push(x).to_multiset() =~= s.to_multiset().insert(
            x,
        ));
    } else if in_order(s.last(), x, descending) {
        assert(s.push(x).to_multiset() =~= s.to_multiset().insert(x));
    } else {
        lemma_insert_by_value_multiset(s.drop_last(), x, descending);
        assert(s =~= s.drop_last().push(s.last()));
        assert(insert_by_value(s, x, descending).to_multiset() =~= insert_by_value(
            s.drop_last(),
            x,
            descending,
        ).to_multiset().insert(s.last()));
        assert(s.to_multiset() =~= s.drop_last().to_multiset().insert(s.last()));
        assert(insert_by_value(s, x, descending).to_multiset() =~= s.to_multiset().insert(x));
    }
}

/// Inserting appends to the selection of records sharing the inserted
/// value, and leaves every other selection unchanged.
proof fn lemma_insert_by_value_filter(
    s: Seq<DeliveredPayload>,
    x: DeliveredPayload,
    descending: bool,
    v: u128,
)
    ensures
        insert_by_value(s, x, descending).filter(value_is(v)) == if x.value == v {
            s.filter(value_is(v)).push(x)
        } else {
            s.filter(value_is(v))
        },
    decreases s.len(),
{
    broadcast use vstd::seq_lib::group_filter_ensures;

    let r = insert_by_value(s, x, descending);
    let pred = value_is(v);
    if s.len() == 0 {
        reveal_with_fuel(Seq::filter, 2);
        assert(r =~= Seq::empty().push(x));
        if x.value == v {
            assert(r.filter(pred) =~= s.filter(pred).push(x));
        } else {
            assert(r.filter(pred) =~= s.filter(pred));
        }
    } else if in_order(s.last(), x, descending) {
        reveal_with_fuel(Seq::filter, 2);
        assert(r =~= s.push(x));
        assert(s.push(x).drop_last() =~= s);
        if x.value == v {
            assert(r.filter(pred) =~= s.filter(pred).push(x));
        } else {
            assert(r.filter(pred) =~= s.filter(pred));
        }
    } else {
        lemma_insert_by_value_filter(s.drop_last(), x, descending, v);
        let inner = insert_by_value(s.drop_last(), x, descending);
        reveal_with_fuel(Seq::filter, 2);
        assert(r =~= inner.push(s.last()));
        assert(inner.push(s.last()).drop_last() =~= inner);
        assert(s =~= s.drop_last().push(s.last()));
        assert(s.drop_last().push(s.last()).drop_last() =~= s.drop_last());
        if s.last().value == v {
            assert(r.filter(pred) =~= inner.filter(pred).push(s.last()));
            assert(s.filter(pred) =~= s.drop_last().filter(pred).push(s.last()));
        } else {
            assert(r.filter(pred) =~= inner.filter(pred));
            assert(s.filter(pred) =~= s.drop_last().filter(pred));
        }
        if x.value == v {
            if s.last().value == v {
                // `x` passed an element with the same value: impossible,
                // since an equal value is always in order before `x`
                assert(in_order(s.last(), x, descending));
            }
            assert(r.filter(pred) =~= s.filter(pred).push(x));
        } else {
            assert(r.filter(pred) =~= s.filter(pred));
        }
    }
}

/// The sorted sequence is ordered by value: descending, every later record
/// has a value no greater; ascending, no smaller.
pub proof fn lemma_sort_by_value_sorted(s: Seq<DeliveredPayload>, descending: bool)
    ensures
        sorted_by_value(sort_by_value_spec(s, descending), descending),
    decreases s.len(),
{
    if s.len() > 0 {
        lemma_sort_by_value_sorted(s.drop_last(), descending);
        lemma_insert_by_value_sorted(sort_by_value_spec(s.drop_last(), descending), s.last(), descending);
    }
}

/// Stability: for every value, the records carrying it appear in the sorted
/// sequence in the same order as in the input.
pub proof fn lemma_sort_by_value_stable(s: Seq<DeliveredPayload>, descending: bool, v: u128)
    ensures
        sort_by_value_spec(s, descending).filter(value_is(v)) == s.filter(value_is(v)),
    decreases s.len(),
{
    broadcast use vstd::seq_lib::group_filter_ensures;

    let pred = value_is(v);
    if s.len() == 0 {
        reveal_with_fuel(Seq::filter, 1);
        assert(sort_by_value_spec(s, descending).filter(pred) =~= s.filter(pred));
    } else {
        lemma_sort_by_value_stable(s.drop_last(), descending, v);
        lemma_insert_by_value_filter(
            sort_by_value_spec(s.drop_last(), descending),
            s.last(),
            descending,
            v,
        );
        reveal_with_fuel(Seq::filter, 2);
        assert(s =~= s.drop_last().push(s.last()));
        assert(s.drop_last().push(s.last()).drop_last() =~= s.drop_last());
        if s.last().value == v {
            assert(s.filter(pred) =~= s.drop_last().filter(pred).push(s.last()));
        } else {
            assert(s.filter(pred) =~= s.drop_last().filter(pred));
        }
    }
}

/// The sorted sequence is a permutation of the input.
pub proof fn lemma_sort_by_value_permutes(s: Seq<DeliveredPayload>, descending: bool)
    ensures
        sort_by_value_spec(s, descending).to_multiset() == s.to_multiset(),
    decreases s.len(),
{
    broadcast use vstd::seq_lib::group_to_multiset_ensures;

    if s.len() == 0 {
        assert(sort_by_value_spec(s, descending).to_multiset() =~= s.to_multiset());
    } else {
        lemma_sort_by_value_permutes(s.drop_last(), descending);
        lemma_insert_by_value_multiset(
            sort_by_value_spec(s.drop_last(), descending),
            s.last(),
            descending,
        );
        assert(s =~= s.drop_last().push(s.last()));
        assert(s.to_multiset() =~= s.drop_last().to_multiset().insert(s.last()));
    }
}

/// Whether `a` may stand before `b` for the given direction.
fn cmp_in_order(a: &DeliveredPayload, b: &DeliveredPayload, descending: bool) -> (r: bool)
    ensures
        r == in_order(*a, *b, descending),
{
    if descending {
        a.value >= b.value
    } else {
        a.value <= b.value
    }
}

/// Stable sort of the payload list by bid value, descending or ascending.
/// The output is pinned exactly by `sort_by_value_spec`.
pub fn sort_payloads_by_value(payloads: &Vec<DeliveredPayload>, descending: bool) -> (r: Vec<
    DeliveredPayload,
>)
    ensures
        r@ == sort_by_value_spec(payloads@, descending),
{
    let mut out: Vec<DeliveredPayload> = Vec::new();
    let mut i: usize = 0;
    while i < payloads.len()
        invariant
            i <= payloads.len(),
            out@ == sort_by_value_spec(payloads@.take(i as int), descending),
        decreases payloads.len() - i,
    {
        let x = payloads[i];
        let ghost prev = out@;
        let mut j: usize = out.len();
        while j > 0 && !cmp_in_order(&out[j - 1], &x, descending)
            invariant
                j <= out.len(),
                out@ == prev,
                forall|k: int| j <= k < out@.len() ==> !in_order(#[trigger] out@[k], x, descending),
            decreases j,
        {
            j = j - 1;
        }
        out.insert(j, x);
        proof {
            lemma_insert_by_value_at(prev, x, j as int, descending);
            assert(payloads@.take(i + 1).drop_last() =~= payloads@.take(i as int));
            assert(payloads@.take(i + 1).last() == payloads@[i as int]);
        }
        i = i + 1;
    }
    proof {
        assert(payloads@.take(payloads@.len() as int) =~= payloads@);
    }
    out
}

} // verus!
