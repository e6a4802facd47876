use vstd::prelude::*;

verus! {

/// Values with a fixed place in a listing.
pub trait InOrder: Sized {
    /// Whether the value may stand before the other.
    spec fn not_after(self, other: Self) -> bool;

    fn is_not_after(&self, other: &Self) -> (r: bool)
        ensures
            r == self.not_after(*other),
    ;
}

/// The listing with one more value, behind everything that may stand before it.
pub open spec fn placed<T: InOrder>(listing: Seq<T>, value: T) -> Seq<T>
    decreases listing.len(),
{
    if listing.len() == 0 || listing.last().not_after(value) {
        listing.push(value)
    } else {
        placed(listing.drop_last(), value).push(listing.last())
    }
}

/// The values in order; values that may stand either way keep the order in which they came.
pub open spec fn sorted<T: InOrder>(values: Seq<T>) -> Seq<T>
    decreases values.len(),
{
    if values.len() == 0 {
        Seq::empty()
    } else {
        placed(sorted(values.drop_last()), values.last())
    }
}

/// Every value may stand before all that follow it.
pub open spec fn ascending<T: InOrder>(values: Seq<T>) -> bool {
    forall|i: int, j: int|
        0 <= i < j < values.len() ==> (#[trigger] values[i]).not_after(#[trigger] values[j])
}

/// The relation is a total preorder.
pub open spec fn orderly<T: InOrder>() -> bool {
    &&& forall|a: T, b: T| #[trigger] a.not_after(b) || b.not_after(a)
    &&& forall|a: T, b: T, c: T|
        #[trigger] a.not_after(b) && #[trigger] b.not_after(c) ==> a.not_after(c)
}

proof fn placed_is_insert<T: InOrder>(listing: Seq<T>, value: T, pos: int)
    requires
        0 <= pos <= listing.len(),
        forall|j: int| pos <= j < listing.len() ==> !(#[trigger] listing[j]).not_after(value),
        pos > 0 ==> listing[pos - 1].not_after(value),
    ensures
        placed(listing, value) == listing.insert(pos, value),
    decreases listing.len(),
{
    if pos == listing.len() {
        assert(listing.insert(pos, value) =~= listing.push(value));
    } else {
        placed_is_insert(listing.drop_last(), value, pos);
        assert(listing.drop_last().insert(pos, value).push(listing.last()) =~= listing.insert(
            pos,
            value,
        ));
    }
}

/// Puts values in order. The sort is stable.
pub fn stable_sort<T: InOrder>(values: Vec<T>) -> (r: Vec<T>)
    ensures
        r@ == sorted(values@),
{
    let ghost all = values@;
    let mut rest: Vec<T> = values;
    let mut out: Vec<T> = Vec::new();
    let ghost mut taken: int = 0;
    assert(all.take(0) =~= Seq::empty());
    assert(all.skip(0) =~= all);
    while rest.len() > 0
        invariant
            0 <= taken <= all.len(),
            rest@ == all.skip(taken),
            out@ == sorted(all.take(taken)),
        decreases rest@.len(),
    {
        let value = rest.remove(0);
        assert(value == all[taken]);
        assert(rest@ =~= all.skip(taken + 1));
        let mut pos: usize = out.len();
        while pos > 0 && !out[pos - 1].is_not_after(&value)
            invariant
                pos <= out@.len(),
                forall|j: int| pos <= j < out@.len() ==> !(#[trigger] out@[j]).not_after(value),
            decreases pos,
        {
            pos -= 1;
        }
        proof {
            placed_is_insert(out@, value, pos as int);
            assert(all.take(taken + 1).drop_last() =~= all.take(taken));
            assert(all.take(taken + 1).last() == value);
        }
        out.insert(pos, value);
        proof {
            taken = taken + 1;
        }
    }
    assert(all.take(taken) =~= all);
    out
}

proof fn placed_keeps<T: InOrder>(listing: Seq<T>, value: T)
    requires
        orderly::<T>(),
        ascending(listing),
    ensures
        ascending(placed(listing, value)),
        placed(listing, value).to_multiset() == listing.to_multiset().insert(value),
        placed(listing, value).len() == listing.len() + 1,
    decreases listing.len(),
{
    broadcast use vstd::seq_lib::group_to_multiset_ensures;

    if listing.len() == 0 || listing.last().not_after(value) {
        let out = listing.push(value);
        assert forall|i: int, j: int| 0 <= i < j < out.len() implies (#[trigger] out[i]).not_after(
            #[trigger] out[j],
        ) by {
            if j == listing.len() {
                if i < listing.len() - 1 {
                    assert(listing[i].not_after(listing.last()));
                }
            } else {
                assert(listing[i].not_after(listing[j]));
            }
        }
    } else {
        let front = listing.drop_last();
        let last = listing.last();
        let inner = placed(front, value);
        let out = inner.push(last);
        assert(ascending(front)) by {
            assert forall|i: int, j: int| 0 <= i < j < front.len() implies (
            #[trigger] front[i]).not_after(#[trigger] front[j]) by {
                assert(listing[i].not_after(listing[j]));
            }
        }
        placed_keeps(front, value);
        assert(value.not_after(last));
        assert(front.push(last) =~= listing);
        assert(listing.to_multiset() =~= front.to_multiset().insert(last));
        assert(out.to_multiset() =~= listing.to_multiset().insert(value));
        assert forall|i: int, j: int| 0 <= i < j < out.len() implies (#[trigger] out[i]).not_after(
            #[trigger] out[j],
        ) by {
            if j == inner.len() {
                assert(inner.contains(inner[i]));
                assert(inner.to_multiset().count(inner[i]) > 0);
                if inner[i] != value {
                    assert(front.to_multiset().count(inner[i]) > 0);
                    assert(front.contains(inner[i]));
                    let k = choose|k: int| 0 <= k < front.len() && front[k] == inner[i];
                    assert(listing[k].not_after(listing[listing.len() - 1]));
                }
            } else {
                assert(inner[i].not_after(inner[j]));
            }
        }
    }
}

/// Sorting loses nothing, adds nothing, and leaves every value before all that follow it.
pub proof fn sorted_is_an_ascending_rearrangement<T: InOrder>(values: Seq<T>)
    requires
        orderly::<T>(),
    ensures
        ascending(sorted(values)),
        sorted(values).to_multiset() == values.to_multiset(),
        sorted(values).len() == values.len(),
    decreases values.len(),
{
    broadcast use vstd::seq_lib::group_to_multiset_ensures;

    if values.len() == 0 {
        assert(values =~= Seq::empty());
    } else {
        let front = values.drop_last();
        sorted_is_an_ascending_rearrangement(front);
        placed_keeps(sorted(front), values.last());
        assert(front.push(values.last()) =~= values);
        assert(values.to_multiset() =~= front.to_multiset().insert(values.last()));
    }
}

proof fn twice_is_two<T>(values: Seq<T>, i: int, j: int)
    requires
        0 <= i < j < values.len(),
        values[i] == values[j],
    ensures
        values.to_multiset().count(values[i]) >= 2,
{
    broadcast use vstd::seq_lib::group_to_multiset_ensures;

    let rest = values.remove(j);
    assert(rest[i] == values[i]);
    assert(rest.contains(values[i]));
    assert(rest.to_multiset().count(values[i]) > 0);
    assert(values.to_multiset() =~= rest.to_multiset().insert(values[j])) by {
        assert(rest.insert(j, values[j]) =~= values);
    }
}

/// Sorting keeps the very values, and values that are all different stay so.
pub proof fn sorted_holds_the_values<T: InOrder>(values: Seq<T>)
    requires
        orderly::<T>(),
    ensures
        forall|value: T| #[trigger] sorted(values).contains(value) <==> values.contains(value),
        values.no_duplicates() ==> sorted(values).no_duplicates(),
{
    broadcast use vstd::seq_lib::group_to_multiset_ensures;

    let out = sorted(values);
    sorted_is_an_ascending_rearrangement(values);
    assert forall|value: T| #[trigger] out.contains(value) <==> values.contains(value) by {
        assert(out.contains(value) <==> out.to_multiset().count(value) > 0);
        assert(values.contains(value) <==> values.to_multiset().count(value) > 0);
    }
    if values.no_duplicates() {
        values.lemma_multiset_has_no_duplicates();
        assert forall|i: int, j: int|
            0 <= i < out.len() && 0 <= j < out.len() && i != j implies out[i] != out[j] by {
            if out[i] == out[j] {
                if i < j {
                    twice_is_two(out, i, j);
                } else {
                    twice_is_two(out, j, i);
                }
                assert(values.to_multiset().contains(out[i]));
                assert(values.to_multiset().count(out[i]) == 1);
            }
        }
    }
}

/// Pairs of values whose members are in the same order as one another.
pub open spec fn ordered_alike<A: InOrder, B: InOrder>(related: spec_fn(A, B) -> bool) -> bool {
    forall|a: A, b: B, c: A, d: B|
        #[trigger] related(a, b) && #[trigger] related(c, d) ==> a.not_after(c) == b.not_after(d)
}

proof fn placed_together<A: InOrder, B: InOrder>(
    left: Seq<A>,
    right: Seq<B>,
    a: A,
    b: B,
    related: spec_fn(A, B) -> bool,
)
    requires
        ordered_alike(related),
        left.len() == right.len(),
        forall|i: int| 0 <= i < left.len() ==> related(#[trigger] left[i], right[i]),
        related(a, b),
    ensures
        placed(left, a).len() == left.len() + 1,
        placed(right, b).len() == left.len() + 1,
        forall|i: int| 0 <= i <= left.len() ==> related(
            #[trigger] placed(left, a)[i],
            placed(right, b)[i],
        ),
    decreases left.len(),
{
    if left.len() > 0 {
        assert(related(left[left.len() - 1], right[right.len() - 1]));
        assert(left.last().not_after(a) == right.last().not_after(b));
        if !left.last().not_after(a) {
            assert forall|i: int| 0 <= i < left.drop_last().len() implies related(
                #[trigger] left.drop_last()[i],
                right.drop_last()[i],
            ) by {
                assert(related(left[i], right[i]));
            }
            placed_together(left.drop_last(), right.drop_last(), a, b, related);
        }
    }
}

/// Two sequences that go together, value by value, still do once both are sorted.
pub proof fn sorted_together<A: InOrder, B: InOrder>(
    left: Seq<A>,
    right: Seq<B>,
    related: spec_fn(A, B) -> bool,
)
    requires
        ordered_alike(related),
        left.len() == right.len(),
        forall|i: int| 0 <= i < left.len() ==> related(#[trigger] left[i], right[i]),
    ensures
        sorted(left).len() == left.len(),
        sorted(right).len() == left.len(),
        forall|i: int| 0 <= i < left.len() ==> related(
            #[trigger] sorted(left)[i],
            sorted(right)[i],
        ),
    decreases left.len(),
{
    if left.len() > 0 {
        assert forall|i: int| 0 <= i < left.drop_last().len() implies related(
            #[trigger] left.drop_last()[i],
            right.drop_last()[i],
        ) by {
            assert(related(left[i], right[i]));
        }
        sorted_together(left.drop_last(), right.drop_last(), related);
        assert(related(left[left.len() - 1], right[right.len() - 1]));
        placed_together(
            sorted(left.drop_last()),
            sorted(right.drop_last()),
            left.last(),
            right.last(),
            related,
        );
    }
}

proof fn places_reach_up(places: spec_fn(int) -> int, n: int, k: int)
    requires
        0 <= k < n,
        forall|i: int| 0 <= i < n ==> 0 <= #[trigger] places(i) < n,
        forall|i: int, j: int| 0 <= i < j < n ==> #[trigger] places(i) < #[trigger] places(j),
    ensures
        places(k) >= k,
    decreases k,
{
    if k > 0 {
        places_reach_up(places, n, k - 1);
        assert(places(k - 1) < places(k));
    }
}

proof fn places_reach_down(places: spec_fn(int) -> int, n: int, k: int)
    requires
        0 <= k < n,
        forall|i: int| 0 <= i < n ==> 0 <= #[trigger] places(i) < n,
        forall|i: int, j: int| 0 <= i < j < n ==> #[trigger] places(i) < #[trigger] places(j),
    ensures
        places(k) <= k,
    decreases n - k,
{
    if k + 1 < n {
        places_reach_down(places, n, k + 1);
        assert(places(k) < places(k + 1));
    } else {
        assert(places(k) < n);
    }
}

/// As many ascending places as there are places are all of them, each in its own place.
pub proof fn ascending_places_are_in_place(places: spec_fn(int) -> int, n: int, k: int)
    requires
        0 <= k < n,
        forall|i: int| 0 <= i < n ==> 0 <= #[trigger] places(i) < n,
        forall|i: int, j: int| 0 <= i < j < n ==> #[trigger] places(i) < #[trigger] places(j),
    ensures
        places(k) == k,
{
    places_reach_up(places, n, k);
    places_reach_down(places, n, k);
}

} // verus!
