//! Unordered interaction pairs and how their contributions reach the particles.

use vstd::prelude::*;

use crate::binary64::Binary64;
use crate::order::{sort_dedup_keyed, Keyed};

verus! {

use crate::order::{increasing, keyed_lt};

/// Whether a distance is positive and inside a support radius.
pub open spec fn linked(distance: Binary64, support: Binary64) -> bool {
    (Binary64 { bits: 0 }).lt(distance) && distance.lt(support)
}

/// The supported ones among the first `count` candidates, in their order.
pub open spec fn supported(
    source: usize,
    candidates: Seq<usize>,
    distances: Seq<Binary64>,
    support: Binary64,
    count: int,
) -> Seq<usize>
    decreases count,
{
    if count <= 0 {
        Seq::empty()
    } else {
        let earlier = supported(source, candidates, distances, support, count - 1);
        if candidates[count - 1] != source && linked(distances[count - 1], support) {
            earlier.push(candidates[count - 1])
        } else {
            earlier
        }
    }
}

/// Keep the candidates other than `source` whose distance is positive and inside the support.
pub fn supported_neighbors(
    source: usize,
    candidates: &[usize],
    distances: &[Binary64],
    support: Binary64,
) -> (result: Vec<usize>)
    requires
        candidates@.len() == distances@.len(),
    ensures
        result@ == supported(
            source,
            candidates@,
            distances@,
            support,
            candidates@.len() as int,
        ),
        increasing(candidates@) ==> increasing(result@),
        forall|index: usize|
            #[trigger] result@.contains(index) <==> index != source && exists|k: int|
                0 <= k < candidates@.len() && #[trigger] candidates@[k] == index && linked(
                    distances@[k],
                    support,
                ),
{
    let zero: Binary64 = Binary64 { bits: 0 };
    let mut result: Vec<usize> = Vec::new();
    let mut k: usize = 0;
    while k < candidates.len()
        invariant
            k <= candidates@.len(),
            candidates@.len() == distances@.len(),
            zero == (Binary64 { bits: 0 }),
            result@ == supported(source, candidates@, distances@, support, k as int),
            increasing(candidates@) ==> increasing(result@),
            increasing(candidates@) ==> forall|a: int, b: int|
                0 <= a < result@.len() && k <= b < candidates@.len() ==> #[trigger] result@[a]
                    < #[trigger] candidates@[b],
            forall|index: usize|
                #[trigger] result@.contains(index) <==> index != source && exists|at: int|
                    0 <= at < k && #[trigger] candidates@[at] == index && linked(
                        distances@[at],
                        support,
                    ),
        decreases candidates@.len() - k,
    {
        let ghost before = result@;
        let candidate: usize = candidates[k];
        if candidate != source && zero.less(distances[k]) && distances[k].less(support) {
            result.push(candidate);
            assert(result@ =~= before.push(candidate));
        }
        proof {
            assert forall|index: usize| #[trigger] result@.contains(index) <==> index != source
                && exists|at: int|
                    0 <= at < k + 1 && #[trigger] candidates@[at] == index && linked(
                        distances@[at],
                        support,
                    ) by {
                if result@.contains(index) {
                    let at = choose|at: int| 0 <= at < result@.len() && result@[at] == index;
                    if at < before.len() {
                        assert(before[at] == index);
                        assert(before.contains(index));
                    } else {
                        assert(candidates@[k as int] == index);
                    }
                }
                if index != source && exists|at: int|
                    0 <= at < k + 1 && #[trigger] candidates@[at] == index && linked(
                        distances@[at],
                        support,
                    ) {
                    let at = choose|at: int|
                        0 <= at < k + 1 && #[trigger] candidates@[at] == index && linked(
                            distances@[at],
                            support,
                        );
                    if at < k {
                        assert(before.contains(index));
                        let m = choose|m: int| 0 <= m < before.len() && before[m] == index;
                        assert(result@[m] == index);
                    } else {
                        assert(result@[before.len() as int] == index);
                    }
                }
            }
        }
        k = k + 1;
    }
    result
}

/// Whether pairs are in strict lexicographic order.
pub open spec fn pairs_increasing(pairs: Seq<(usize, usize)>) -> bool {
    forall|a: int, b: int|
        0 <= a < b < pairs.len() ==> (#[trigger] pairs[a]).0 < (#[trigger] pairs[b]).0 || (
        pairs[a].0 == pairs[b].0 && pairs[a].1 < pairs[b].1)
}

/// Whether neighbor lists name particles of the same set, and none itself.
pub open spec fn valid_links(links: Seq<Vec<usize>>) -> bool {
    forall|i: int, k: int|
        0 <= i < links.len() && 0 <= k < links[i]@.len() ==> (#[trigger] links[i]@[k])
            < links.len() && links[i]@[k] != i
}

/// Whether one of two particles lists the other.
pub open spec fn mutually_linked(links: Seq<Vec<usize>>, i: usize, j: usize) -> bool {
    links[i as int]@.contains(j) || links[j as int]@.contains(i)
}

/// The unordered pairs in which at least one particle lists the other, sorted and without
/// repetition.
pub fn union_pairs(links: &Vec<Vec<usize>>) -> (result: Vec<(usize, usize)>)
    requires
        valid_links(links@),
    ensures
        pairs_increasing(result@),
        forall|i: usize, j: usize|
            #[trigger] result@.contains((i, j)) <==> i < j && j < links@.len() && mutually_linked(
                links@,
                i,
                j,
            ),
{
    let mut entries: Vec<Keyed> = Vec::new();
    let mut source: usize = 0;
    while source < links.len()
        invariant
            source <= links@.len(),
            valid_links(links@),
            forall|entry: Keyed|
                #[trigger] entries@.contains(entry) <==> canonical_from(
                    links@,
                    source as int,
                    entry,
                ),
        decreases links@.len() - source,
    {
        let mut k: usize = 0;
        let neighbors: &Vec<usize> = &links[source];
        while k < neighbors.len()
            invariant
                source < links@.len(),
                neighbors@ == links@[source as int]@,
                k <= neighbors@.len(),
                valid_links(links@),
                forall|entry: Keyed|
                    #[trigger] entries@.contains(entry) <==> (canonical_from(
                        links@,
                        source as int,
                        entry,
                    ) || exists|at: int|
                        0 <= at < k && entry == canonical(source, #[trigger] neighbors@[at])),
            decreases neighbors@.len() - k,
        {
            let neighbor: usize = neighbors[k];
            let ghost before = entries@;
            assert(links@[source as int]@[k as int] != source);
            let entry: Keyed = if source < neighbor {
                (source as u64, neighbor)
            } else {
                (neighbor as u64, source)
            };
            entries.push(entry);
            proof {
                assert(entry == canonical(source, neighbors@[k as int]));
                assert forall|other: Keyed| #[trigger] entries@.contains(other) <==> (
                canonical_from(links@, source as int, other) || exists|at: int|
                    0 <= at < k + 1 && other == canonical(source, #[trigger] neighbors@[at])) by {
                    assert(entries@ =~= before.push(entry));
                    if entries@.contains(other) {
                        let m = choose|m: int| 0 <= m < entries@.len() && entries@[m] == other;
                        if m < before.len() {
                            assert(before[m] == other);
                            assert(before.contains(other));
                        }
                    }
                    if before.contains(other) {
                        let m = choose|m: int| 0 <= m < before.len() && before[m] == other;
                        assert(entries@[m] == other);
                    }
                    if other == entry {
                        assert(entries@[before.len() as int] == other);
                    }
                }
            }
            k = k + 1;
        }
        proof {
            assert forall|entry: Keyed| #[trigger] entries@.contains(entry) <==> canonical_from(
                links@,
                source + 1,
                entry,
            ) by {
                if canonical_from(links@, source + 1, entry) {
                    let (i, at) = choose|i: int, at: int|
                        0 <= i < source + 1 && 0 <= at < links@[i]@.len() && entry == canonical(
                            i as usize,
                            #[trigger] links@[i]@[at],
                        );
                    if i == source {
                        assert(neighbors@[at] == links@[i]@[at]);
                    } else {
                        assert(canonical_from(links@, source as int, entry));
                    }
                }
                if canonical_from(links@, source as int, entry) {
                    let (i, at) = choose|i: int, at: int|
                        0 <= i < source && 0 <= at < links@[i]@.len() && entry == canonical(
                            i as usize,
                            #[trigger] links@[i]@[at],
                        );
                    assert(canonical_from(links@, source + 1, entry));
                }
                if exists|at: int|
                    0 <= at < neighbors@.len() && entry == canonical(
                        source,
                        #[trigger] neighbors@[at],
                    ) {
                    let at = choose|at: int|
                        0 <= at < neighbors@.len() && entry == canonical(
                            source,
                            #[trigger] neighbors@[at],
                        );
                    assert(links@[source as int]@[at] == neighbors@[at]);
                    assert(canonical_from(links@, source + 1, entry));
                }
            }
        }
        source = source + 1;
    }
    let ghost collected = entries@;
    let sorted: Vec<Keyed> = sort_dedup_keyed(entries);
    let mut result: Vec<(usize, usize)> = Vec::with_capacity(sorted.len());
    let mut at: usize = 0;
    proof {
        assert forall|k: int| 0 <= k < sorted@.len() implies (#[trigger] sorted@[k]).0
            < links@.len() by {
            assert(sorted@.contains(sorted@[k]));
            assert(collected.contains(sorted@[k]));
            lemma_canonical_bounds(links@, sorted@[k]);
        }
    }
    while at < sorted.len()
        invariant
            at <= sorted@.len(),
            links@.len() <= usize::MAX,
            forall|k: int| 0 <= k < sorted@.len() ==> (#[trigger] sorted@[k]).0 < links@.len(),
            result@.len() == at,
            forall|k: int|
                0 <= k < at ==> (#[trigger] result@[k]).0 == sorted@[k].0 && result@[k].1
                    == sorted@[k].1,
        decreases sorted@.len() - at,
    {
        assert(sorted@[at as int].0 < links@.len());
        result.push((sorted[at].0 as usize, sorted[at].1));
        at = at + 1;
    }
    proof {
        assert forall|a: int, b: int| 0 <= a < b < result@.len() implies (#[trigger] result@[a]).0
            < (#[trigger] result@[b]).0 || (result@[a].0 == result@[b].0 && result@[a].1
            < result@[b].1) by {
            assert(keyed_lt(sorted@[a], sorted@[b]));
        }
        assert forall|i: usize, j: usize| #[trigger] result@.contains((i, j)) <==> i < j && j
            < links@.len() && mutually_linked(links@, i, j) by {
            let entry: Keyed = (i as u64, j);
            lemma_canonical_pair(links@, i, j);
            if result@.contains((i, j)) {
                let k = choose|k: int| 0 <= k < result@.len() && result@[k] == (i, j);
                assert(sorted@[k] == entry);
                assert(sorted@.contains(entry));
                assert(collected.contains(entry));
            }
            if i < j && j < links@.len() && mutually_linked(links@, i, j) {
                assert(collected.contains(entry));
                assert(sorted@.contains(entry));
                let k = choose|k: int| 0 <= k < sorted@.len() && sorted@[k] == entry;
                assert(result@[k] == (i, j));
            }
        }
    }
    result
}

spec fn canonical(source: usize, neighbor: usize) -> Keyed {
    if source < neighbor {
        (source as u64, neighbor)
    } else {
        (neighbor as u64, source)
    }
}

spec fn canonical_from(links: Seq<Vec<usize>>, count: int, entry: Keyed) -> bool {
    exists|i: int, at: int|
        0 <= i < count && 0 <= at < links[i]@.len() && entry == canonical(
            i as usize,
            #[trigger] links[i]@[at],
        )
}

proof fn lemma_canonical_bounds(links: Seq<Vec<usize>>, entry: Keyed)
    requires
        valid_links(links),
        links.len() <= usize::MAX,
        canonical_from(links, links.len() as int, entry),
    ensures
        entry.0 < entry.1 < links.len(),
{
    let (i, at) = choose|i: int, at: int|
        0 <= i < links.len() && 0 <= at < links[i]@.len() && entry == canonical(
            i as usize,
            #[trigger] links[i]@[at],
        );
    assert(links[i]@[at] < links.len() && links[i]@[at] != i);
}

proof fn lemma_canonical_pair(links: Seq<Vec<usize>>, i: usize, j: usize)
    requires
        valid_links(links),
        links.len() <= usize::MAX,
    ensures
        canonical_from(links, links.len() as int, (i as u64, j)) <==> i < j && j < links.len()
            && mutually_linked(links, i, j),
{
    let entry: Keyed = (i as u64, j);
    if canonical_from(links, links.len() as int, entry) {
        lemma_canonical_bounds(links, entry);
        let (s, at) = choose|s: int, at: int|
            0 <= s < links.len() && 0 <= at < links[s]@.len() && entry == canonical(
                s as usize,
                #[trigger] links[s]@[at],
            );
        assert(links[s]@[at] < links.len() && links[s]@[at] != s);
        assert(links[s]@.contains(links[s]@[at]));
    }
    if i < j && j < links.len() && mutually_linked(links, i, j) {
        if links[i as int]@.contains(j) {
            let at = choose|at: int| 0 <= at < links[i as int]@.len() && links[i as int]@[at] == j;
            assert(entry == canonical(i, links[i as int]@[at]));
        } else {
            let at = choose|at: int| 0 <= at < links[j as int]@.len() && links[j as int]@[at] == i;
            assert(entry == canonical(j, links[j as int]@[at]));
        }
    }
}

/// Two particles are linked exactly where they are apart and closer than the support; a
/// longer support keeps every link.
pub proof fn law_links(distance: Binary64, support: Binary64, longer: Binary64)
    requires
        !distance.nan(),
        !support.nan(),
    ensures
        linked(distance, support) <==> !distance.le(Binary64 { bits: 0 }) && !support.le(distance),
        linked(distance, support) && support.le(longer) ==> linked(distance, longer),
        !linked(Binary64 { bits: 0 }, support),
        !linked(support, support),
{
}

/// Two particles are linked mutually wherever one of them lists the other, whichever it is.
pub proof fn law_mutual_links(links: Seq<Vec<usize>>, i: usize, j: usize)
    ensures
        mutually_linked(links, i, j) <==> mutually_linked(links, j, i),
        links[i as int]@.contains(j) ==> mutually_linked(links, i, j),
        links[j as int]@.contains(i) ==> mutually_linked(links, i, j),
        mutually_linked(links, i, j) ==> links[i as int]@.contains(j)
            || links[j as int]@.contains(i),
{
}

/// A list of pairs in order holds no pair twice, and is determined by the pairs in it.
pub proof fn law_ordered_pairs_are_determined(
    left: Seq<(usize, usize)>,
    right: Seq<(usize, usize)>,
)
    requires
        pairs_increasing(left),
        pairs_increasing(right),
        forall|pair: (usize, usize)| left.contains(pair) <==> right.contains(pair),
    ensures
        left == right,
        forall|a: int, b: int| 0 <= a < b < left.len() ==> #[trigger] left[a] != #[trigger] left[b],
    decreases left.len(),
{
    if left.len() == 0 {
        if right.len() > 0 {
            assert(right.contains(right[0]));
        }
        assert(left =~= right);
    } else {
        assert(left.contains(left.last()));
        assert(right.contains(left.last()));
        assert(right.len() > 0);
        assert(right.contains(right.last()));
        assert(left.contains(right.last()));
        let a = choose|a: int| 0 <= a < left.len() && left[a] == right.last();
        let b = choose|b: int| 0 <= b < right.len() && right[b] == left.last();
        assert(left.last() == right.last()) by {
            if a < left.len() - 1 && b < right.len() - 1 {
                assert(left[a].0 < left[left.len() - 1].0 || left[a].1 < left[left.len() - 1].1);
                assert(right[b].0 < right[right.len() - 1].0 || right[b].1
                    < right[right.len() - 1].1);
            }
        }
        let l = left.drop_last();
        let r = right.drop_last();
        assert forall|pair: (usize, usize)| l.contains(pair) <==> r.contains(pair) by {
            if l.contains(pair) {
                let k = choose|k: int| 0 <= k < l.len() && l[k] == pair;
                assert(left[k] == pair);
                assert(left.contains(pair));
                let m = choose|m: int| 0 <= m < right.len() && right[m] == pair;
                if m == right.len() - 1 {
                    assert(left[k] == left[left.len() - 1]);
                }
                assert(r[m] == pair);
            }
            if r.contains(pair) {
                let k = choose|k: int| 0 <= k < r.len() && r[k] == pair;
                assert(right[k] == pair);
                assert(right.contains(pair));
                let m = choose|m: int| 0 <= m < left.len() && left[m] == pair;
                if m == left.len() - 1 {
                    assert(right[k] == right[right.len() - 1]);
                }
                assert(l[m] == pair);
            }
        }
        law_ordered_pairs_are_determined(l, r);
        assert(left =~= l.push(left.last()));
        assert(right =~= r.push(right.last()));
    }
}

/// Supported neighbors are a part of the candidates in their order: each is a candidate that
/// is linked and not the source, and later ones come from later candidates.
pub proof fn law_supported_neighbors_keep_the_order(
    source: usize,
    candidates: Seq<usize>,
    distances: Seq<Binary64>,
    support: Binary64,
    count: int,
    k: int,
)
    requires
        0 <= k < count <= candidates.len(),
        distances.len() == candidates.len(),
    ensures
        ({
            let all = supported(source, candidates, distances, support, count);
            let start = supported(source, candidates, distances, support, k).len() as int;
            let next = supported(source, candidates, distances, support, k + 1).len() as int;
            &&& next <= all.len()
            &&& candidates[k] != source && linked(distances[k], support) ==> next == start + 1
                && all[start] == candidates[k]
            &&& candidates[k] == source || !linked(distances[k], support) ==> next == start
        }),
        supported(source, candidates, distances, support, 0).len() == 0,
    decreases count,
{
    if k < count - 1 {
        law_supported_neighbors_keep_the_order(
            source,
            candidates,
            distances,
            support,
            count - 1,
            k,
        );
    }
}

/// Links are valid exactly where every particle lists only others of the set.
pub proof fn law_valid_links(links: Seq<Vec<usize>>, i: int, j: usize)
    requires
        valid_links(links),
        0 <= i < links.len(),
        links[i]@.contains(j),
    ensures
        j < links.len(),
        j != i,
{
    let k = choose|k: int| 0 <= k < links[i]@.len() && links[i]@[k] == j;
    assert(links[i]@[k] == j);
}

} // verus!
