//! Sorting of keyed indices.

use vstd::prelude::*;

verus! {

/// A sort key with the index that it belongs to.
pub type Keyed = (u64, usize);

/// The lexicographic order of keyed indices.
pub open spec fn keyed_le(left: Keyed, right: Keyed) -> bool {
    left.0 < right.0 || (left.0 == right.0 && left.1 <= right.1)
}

/// The strict lexicographic order of keyed indices.
pub open spec fn keyed_lt(left: Keyed, right: Keyed) -> bool {
    left.0 < right.0 || (left.0 == right.0 && left.1 < right.1)
}

/// Whether a sequence is in lexicographic order.
pub open spec fn keyed_sorted(entries: Seq<Keyed>) -> bool {
    forall|i: int, j: int|
        0 <= i < j < entries.len() ==> keyed_le(#[trigger] entries[i], #[trigger] entries[j])
}

/// Whether a sequence is in strict lexicographic order, and so holds nothing twice.
pub open spec fn keyed_increasing(entries: Seq<Keyed>) -> bool {
    forall|i: int, j: int|
        0 <= i < j < entries.len() ==> keyed_lt(#[trigger] entries[i], #[trigger] entries[j])
}

/// Whether a sequence of indices is strictly increasing.
pub open spec fn increasing(indices: Seq<usize>) -> bool {
    forall|i: int, j: int| 0 <= i < j < indices.len() ==> #[trigger] indices[i] < #[trigger] indices[j]
}

fn merge(left: &Vec<Keyed>, right: &Vec<Keyed>) -> (result: Vec<Keyed>)
    requires
        keyed_sorted(left@),
        keyed_sorted(right@),
        left@.len() + right@.len() <= usize::MAX,
    ensures
        keyed_sorted(result@),
        result@.to_multiset() == left@.to_multiset().add(right@.to_multiset()),
        result@.len() == left@.len() + right@.len(),
{
    broadcast use vstd::seq_lib::group_to_multiset_ensures;

    let mut result: Vec<Keyed> = Vec::with_capacity(left.len() + right.len());
    let mut i: usize = 0;
    let mut j: usize = 0;
    assert(left@.take(0) =~= Seq::<Keyed>::empty());
    assert(right@.take(0) =~= Seq::<Keyed>::empty());
    assert(result@.to_multiset() =~= left@.take(0).to_multiset().add(right@.take(0).to_multiset()));
    while i < left.len() || j < right.len()
        invariant
            i <= left@.len(),
            j <= right@.len(),
            keyed_sorted(left@),
            keyed_sorted(right@),
            result@.len() == i + j,
            keyed_sorted(result@),
            forall|k: int, a: int|
                0 <= k < result@.len() && i <= a < left@.len() ==> keyed_le(
                    #[trigger] result@[k],
                    #[trigger] left@[a],
                ),
            forall|k: int, b: int|
                0 <= k < result@.len() && j <= b < right@.len() ==> keyed_le(
                    #[trigger] result@[k],
                    #[trigger] right@[b],
                ),
            result@.to_multiset() == left@.take(i as int).to_multiset().add(
                right@.take(j as int).to_multiset(),
            ),
        decreases left@.len() - i + right@.len() - j,
    {
        broadcast use vstd::seq_lib::group_to_multiset_ensures;

        let take_left: bool = if i == left.len() {
            false
        } else if j == right.len() {
            true
        } else {
            left[i].0 < right[j].0 || (left[i].0 == right[j].0 && left[i].1 <= right[j].1)
        };
        if take_left {
            proof {
                assert(left@.take(i as int).push(left@[i as int]) =~= left@.take(i + 1));
                assert(result@.push(left@[i as int]).to_multiset() =~= left@.take(
                    i + 1,
                ).to_multiset().add(right@.take(j as int).to_multiset()));
            }
            result.push(left[i]);
            i = i + 1;
        } else {
            proof {
                assert(right@.take(j as int).push(right@[j as int]) =~= right@.take(j + 1));
                assert(result@.push(right@[j as int]).to_multiset() =~= left@.take(
                    i as int,
                ).to_multiset().add(right@.take(j + 1).to_multiset()));
            }
            result.push(right[j]);
            j = j + 1;
        }
    }
    assert(left@.take(left@.len() as int) =~= left@);
    assert(right@.take(right@.len() as int) =~= right@);
    result
}

/// Sort keyed indices into lexicographic order.
pub fn sort_keyed(entries: Vec<Keyed>) -> (result: Vec<Keyed>)
    ensures
        keyed_sorted(result@),
        result@.to_multiset() == entries@.to_multiset(),
        result@.len() == entries@.len(),
    decreases entries@.len(),
{
    if entries.len() < 2 {
        return entries;
    }
    let middle: usize = entries.len() / 2;
    let mut left: Vec<Keyed> = Vec::with_capacity(middle);
    let mut right: Vec<Keyed> = Vec::with_capacity(entries.len() - middle);
    let mut index: usize = 0;
    while index < entries.len()
        invariant
            index <= entries@.len(),
            middle <= entries@.len(),
            left@ == entries@.take(if index < middle {
                index as int
            } else {
                middle as int
            }),
            right@ == entries@.subrange(
                middle as int,
                if index < middle {
                    middle as int
                } else {
                    index as int
                },
            ),
        decreases entries@.len() - index,
    {
        if index < middle {
            left.push(entries[index]);
        } else {
            right.push(entries[index]);
        }
        index = index + 1;
    }
    proof {
        assert(left@ + right@ =~= entries@);
        vstd::seq_lib::lemma_multiset_commutative(left@, right@);
    }
    let sorted_left: Vec<Keyed> = sort_keyed(left);
    let sorted_right: Vec<Keyed> = sort_keyed(right);
    merge(&sorted_left, &sorted_right)
}

/// Sort keyed indices and drop repetitions.
pub fn sort_dedup_keyed(entries: Vec<Keyed>) -> (result: Vec<Keyed>)
    ensures
        keyed_increasing(result@),
        forall|entry: Keyed| result@.contains(entry) <==> entries@.contains(entry),
{
    let sorted: Vec<Keyed> = sort_keyed(entries);
    proof {
        lemma_same_elements(sorted@, entries@);
    }
    let mut result: Vec<Keyed> = Vec::with_capacity(sorted.len());
    let mut index: usize = 0;
    while index < sorted.len()
        invariant
            index <= sorted@.len(),
            keyed_sorted(sorted@),
            keyed_increasing(result@),
            index == 0 ==> result@.len() == 0,
            index > 0 ==> result@.len() > 0 && result@.last() == sorted@[index - 1],
            forall|k: int| 0 <= k < index ==> result@.contains(#[trigger] sorted@[k]),
            forall|k: int| 0 <= k < result@.len() ==> sorted@.contains(#[trigger] result@[k]),
        decreases sorted@.len() - index,
    {
        let entry: Keyed = sorted[index];
        let fresh: bool = index == 0 || sorted[index - 1].0 != entry.0 || sorted[index - 1].1
            != entry.1;
        let ghost before = result@;
        if fresh {
            result.push(entry);
            proof {
                assert(result@.last() == entry);
                assert forall|k: int| 0 <= k < index implies result@.contains(
                    #[trigger] sorted@[k],
                ) by {
                    let at = choose|at: int| 0 <= at < before.len() && before[at] == sorted@[k];
                    assert(result@[at] == sorted@[k]);
                }
                assert(result@[result@.len() - 1] == sorted@[index as int]);
                if index > 0 {
                    let last = before.len() - 1;
                    assert(before[last] == sorted@[index - 1]);
                    assert(keyed_le(sorted@[index - 1], sorted@[index as int]));
                    assert forall|i: int, j: int| 0 <= i < j < result@.len() implies keyed_lt(
                        #[trigger] result@[i],
                        #[trigger] result@[j],
                    ) by {
                        if j == last + 1 {
                            if i < last {
                                assert(keyed_lt(before[i], before[last]));
                            }
                        } else {
                            assert(keyed_lt(before[i], before[j]));
                        }
                    }
                }
            }
        } else {
            assert(sorted@[index as int] == sorted@[index - 1]);
        }
        index = index + 1;
    }
    proof {
        assert forall|entry: Keyed| sorted@.contains(entry) implies result@.contains(entry) by {
            let k = choose|k: int| 0 <= k < sorted@.len() && sorted@[k] == entry;
            assert(result@.contains(sorted@[k]));
        }
        assert forall|entry: Keyed| result@.contains(entry) implies sorted@.contains(entry) by {
            let k = choose|k: int| 0 <= k < result@.len() && result@[k] == entry;
            assert(sorted@.contains(result@[k]));
        }
    }
    result
}

/// Sort indices and drop repetitions.
pub fn sort_dedup(indices: &Vec<usize>) -> (result: Vec<usize>)
    ensures
        increasing(result@),
        forall|index: usize| result@.contains(index) <==> indices@.contains(index),
{
    let mut entries: Vec<Keyed> = Vec::with_capacity(indices.len());
    let mut at: usize = 0;
    while at < indices.len()
        invariant
            at <= indices@.len(),
            entries@.len() == at,
            forall|k: int| 0 <= k < at ==> #[trigger] entries@[k] == (0u64, indices@[k]),
        decreases indices@.len() - at,
    {
        entries.push((0, indices[at]));
        at = at + 1;
    }
    let ghost source = entries@;
    let sorted: Vec<Keyed> = sort_dedup_keyed(entries);
    let mut result: Vec<usize> = Vec::with_capacity(sorted.len());
    let mut at: usize = 0;
    while at < sorted.len()
        invariant
            at <= sorted@.len(),
            result@.len() == at,
            forall|k: int| 0 <= k < at ==> #[trigger] result@[k] == sorted@[k].1,
        decreases sorted@.len() - at,
    {
        result.push(sorted[at].1);
        at = at + 1;
    }
    proof {
        assert forall|k: int| 0 <= k < sorted@.len() implies (#[trigger] sorted@[k]).0 == 0 by {
            assert(sorted@.contains(sorted@[k]));
            let m = choose|m: int| 0 <= m < source.len() && source[m] == sorted@[k];
        }
        assert forall|index: usize| result@.contains(index) <==> indices@.contains(index) by {
            if result@.contains(index) {
                let k = choose|k: int| 0 <= k < result@.len() && result@[k] == index;
                assert(sorted@.contains(sorted@[k]));
                let m = choose|m: int| 0 <= m < source.len() && source[m] == sorted@[k];
                assert(indices@[m] == index);
            }
            if indices@.contains(index) {
                let m = choose|m: int| 0 <= m < indices@.len() && indices@[m] == index;
                assert(source[m] == (0u64, index));
                assert(sorted@.contains((0u64, index)));
                let k = choose|k: int| 0 <= k < sorted@.len() && sorted@[k] == (0u64, index);
                assert(result@[k] == index);
            }
        }
        assert forall|i: int, j: int| 0 <= i < j < result@.len() implies #[trigger] result@[i]
            < #[trigger] result@[j] by {
            assert(keyed_lt(sorted@[i], sorted@[j]));
        }
    }
    result
}

/// Two sequences with the same multiset hold the same elements.
pub proof fn lemma_same_elements(left: Seq<Keyed>, right: Seq<Keyed>)
    requires
        left.to_multiset() == right.to_multiset(),
    ensures
        forall|entry: Keyed| left.contains(entry) <==> right.contains(entry),
{
    broadcast use vstd::seq_lib::group_to_multiset_ensures;

    assert forall|entry: Keyed| left.contains(entry) <==> right.contains(entry) by {
        assert(left.contains(entry) <==> left.to_multiset().count(entry) > 0);
        assert(right.contains(entry) <==> right.to_multiset().count(entry) > 0);
    }
}

/// An increasing list of indices is determined by its elements: two searches that find the
/// same particles, in whatever order, report the same list.
pub proof fn law_increasing_lists_are_determined(left: Seq<usize>, right: Seq<usize>)
    requires
        increasing(left),
        increasing(right),
        forall|index: usize| left.contains(index) <==> right.contains(index),
    ensures
        left == right,
    decreases left.len(),
{
    if left.len() == 0 {
        if right.len() > 0 {
            assert(right.contains(right[0]));
        }
        assert(left =~= right);
    } else {
        assert(left.contains(left.last()));
        assert(right.len() > 0);
        assert(right.contains(right.last()));
        let a = choose|a: int| 0 <= a < left.len() && left[a] == right.last();
        let b = choose|b: int| 0 <= b < right.len() && right[b] == left.last();
        assert(left.last() == right.last());
        let l = left.drop_last();
        let r = right.drop_last();
        assert forall|index: usize| l.contains(index) <==> r.contains(index) by {
            if l.contains(index) {
                let k = choose|k: int| 0 <= k < l.len() && l[k] == index;
                assert(left[k] == index);
                assert(left.contains(index));
                let m = choose|m: int| 0 <= m < right.len() && right[m] == index;
                assert(m < right.len() - 1);
                assert(r[m] == index);
            }
            if r.contains(index) {
                let k = choose|k: int| 0 <= k < r.len() && r[k] == index;
                assert(right[k] == index);
                assert(right.contains(index));
                let m = choose|m: int| 0 <= m < left.len() && left[m] == index;
                assert(m < left.len() - 1);
                assert(l[m] == index);
            }
        }
        law_increasing_lists_are_determined(l, r);
        assert(left =~= l.push(left.last()));
        assert(right =~= r.push(right.last()));
    }
}

/// Entries are ordered by their keys, and by their indices where the keys are equal: any two
/// compare, and only equal ones both ways.
pub proof fn law_entries_are_ordered(a: Keyed, b: Keyed, c: Keyed)
    ensures
        a.0 < b.0 ==> keyed_lt(a, b) && keyed_le(a, b) && !keyed_le(b, a),
        a.0 == b.0 && a.1 < b.1 ==> keyed_lt(a, b) && keyed_le(a, b) && !keyed_le(b, a),
        keyed_le(a, b) || keyed_le(b, a),
        keyed_le(a, b) && keyed_le(b, a) ==> a == b,
        keyed_le(a, b) && keyed_le(b, c) ==> keyed_le(a, c),
        keyed_lt(a, b) <==> keyed_le(a, b) && a != b,
{
}

/// Sorted entries start with the least and end with the greatest, and increasing ones are
/// sorted without repetition.
pub proof fn law_sorted_entries(entries: Seq<Keyed>, i: int)
    requires
        0 <= i < entries.len(),
    ensures
        keyed_sorted(entries) ==> entries[0].0 <= entries[i].0 && entries[i].0
            <= entries.last().0,
        keyed_increasing(entries) ==> keyed_sorted(entries),
        keyed_increasing(entries) && i > 0 ==> entries[i - 1] != entries[i] && entries[i - 1].0
            <= entries[i].0,
        keyed_sorted(entries) && i > 0 ==> entries[i - 1].0 <= entries[i].0 && (entries[i - 1].0
            == entries[i].0 ==> entries[i - 1].1 <= entries[i].1),
{
    if keyed_sorted(entries) {
        assert(i > 0 ==> keyed_le(entries[0], entries[i]));
        assert(i < entries.len() - 1 ==> keyed_le(entries[i], entries[entries.len() - 1]));
        assert(i > 0 ==> keyed_le(entries[i - 1], entries[i]));
    }
    if keyed_increasing(entries) && i > 0 {
        assert(keyed_lt(entries[i - 1], entries[i]));
    }
}

/// Increasing indices grow strictly from each to the next.
pub proof fn law_increasing_indices_grow(indices: Seq<usize>, i: int)
    requires
        increasing(indices),
        0 < i < indices.len(),
    ensures
        indices[i - 1] < indices[i],
        indices[0] < indices[i],
{
}

} // verus!
