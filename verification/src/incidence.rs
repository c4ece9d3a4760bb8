//! Distribution of pair contributions to particles.
//!
//! A pair is evaluated once. Its contribution enters the first particle with a positive
//! sign and the second with a negative sign, in pair order, so that what one particle
//! gains the other loses.

use vstd::prelude::*;

verus! {

/// One signed pair contribution to a particle.
#[derive(Clone, Copy, Debug, PartialEq, Eq, Structural)]
pub struct PairTerm {
    /// The position of the pair in the pair list.
    pub pair: usize,
    /// Whether the contribution is added rather than subtracted.
    pub added: bool,
}

/// Whether pairs join two different particles of a set.
pub open spec fn valid_pairs(pairs: Seq<(usize, usize)>, count: int) -> bool {
    forall|k: int|
        0 <= k < pairs.len() ==> (#[trigger] pairs[k]).0 < count && pairs[k].1 < count && pairs[k].0
            != pairs[k].1
}

/// The contributions to a particle in pair order.
pub open spec fn incidence_of(pairs: Seq<(usize, usize)>, particle: int) -> Seq<PairTerm>
    decreases pairs.len(),
{
    if pairs.len() == 0 {
        Seq::empty()
    } else {
        let rest = incidence_of(pairs.drop_last(), particle);
        let pair = (pairs.len() - 1) as usize;
        if pairs.last().0 == particle {
            rest.push(PairTerm { pair, added: true })
        } else if pairs.last().1 == particle {
            rest.push(PairTerm { pair, added: false })
        } else {
            rest
        }
    }
}

/// List the contributions to every particle in pair order.
pub fn pair_incidence(pairs: &[(usize, usize)], count: usize) -> (result: Vec<Vec<PairTerm>>)
    requires
        valid_pairs(pairs@, count as int),
    ensures
        result@.len() == count,
        forall|p: int| 0 <= p < count ==> (#[trigger] result@[p])@ == incidence_of(pairs@, p),
{
    let mut result: Vec<Vec<PairTerm>> = Vec::with_capacity(count);
    let mut particle: usize = 0;
    while particle < count
        invariant
            particle <= count,
            result@.len() == particle,
            forall|p: int|
                0 <= p < particle ==> (#[trigger] result@[p])@ == Seq::<PairTerm>::empty(),
        decreases count - particle,
    {
        result.push(Vec::new());
        particle = particle + 1;
    }
    let mut pair: usize = 0;
    assert(pairs@.take(0) =~= Seq::<(usize, usize)>::empty());
    while pair < pairs.len()
        invariant
            pair <= pairs@.len(),
            result@.len() == count,
            valid_pairs(pairs@, count as int),
            forall|p: int|
                0 <= p < count ==> (#[trigger] result@[p])@ == incidence_of(
                    pairs@.take(pair as int),
                    p,
                ),
        decreases pairs@.len() - pair,
    {
        let (i, j) = pairs[pair];
        assert(pairs@[pair as int] == (i, j));
        assert(pairs@.take(pair + 1).drop_last() =~= pairs@.take(pair as int));
        assert(pairs@.take(pair + 1).last() == (i, j));
        let ghost before = result@;
        result[i].push(PairTerm { pair, added: true });
        result[j].push(PairTerm { pair, added: false });
        assert forall|p: int| 0 <= p < count implies (#[trigger] result@[p])@ == incidence_of(
            pairs@.take(pair + 1),
            p,
        ) by {
            assert(before[p]@ == incidence_of(pairs@.take(pair as int), p));
        }
        pair = pair + 1;
    }
    assert(pairs@.take(pairs@.len() as int) =~= pairs@);
    result
}

/// What a particle gathers when pair `k` contributes `contributions[k]`.
pub open spec fn gathered(terms: Seq<PairTerm>, contributions: Seq<int>) -> int
    decreases terms.len(),
{
    if terms.len() == 0 {
        0
    } else {
        let contribution = contributions[terms.last().pair as int];
        gathered(terms.drop_last(), contributions) + if terms.last().added {
            contribution
        } else {
            -contribution
        }
    }
}

/// What the first `count` particles gather together.
pub open spec fn gathered_total(
    pairs: Seq<(usize, usize)>,
    count: int,
    contributions: Seq<int>,
) -> int
    decreases count,
{
    if count <= 0 {
        0
    } else {
        gathered_total(pairs, count - 1, contributions) + gathered(
            incidence_of(pairs, count - 1),
            contributions,
        )
    }
}

/// Conservation: whatever the pairs contribute, the particles gather nothing in total.
pub proof fn law_contributions_cancel(
    pairs: Seq<(usize, usize)>,
    count: int,
    contributions: Seq<int>,
)
    requires
        valid_pairs(pairs, count),
        pairs.len() <= usize::MAX,
        0 <= count,
    ensures
        gathered_total(pairs, count, contributions) == 0,
    decreases pairs.len(),
{
    if pairs.len() == 0 {
        lemma_total_without_pairs(pairs, count, contributions);
    } else {
        assert forall|k: int| 0 <= k < pairs.drop_last().len() implies (
        #[trigger] pairs.drop_last()[k]).0 < count && pairs.drop_last()[k].1 < count
            && pairs.drop_last()[k].0 != pairs.drop_last()[k].1 by {
            assert(pairs.drop_last()[k] == pairs[k]);
        }
        law_contributions_cancel(pairs.drop_last(), count, contributions);
        lemma_total_of_last_pair(pairs, count, contributions);
        assert(pairs[pairs.len() - 1] == pairs.last());
    }
}

proof fn lemma_total_without_pairs(
    pairs: Seq<(usize, usize)>,
    count: int,
    contributions: Seq<int>,
)
    requires
        pairs.len() == 0,
    ensures
        gathered_total(pairs, count, contributions) == 0,
    decreases count,
{
    if count > 0 {
        lemma_total_without_pairs(pairs, count - 1, contributions);
    }
}

proof fn lemma_total_of_last_pair(
    pairs: Seq<(usize, usize)>,
    count: int,
    contributions: Seq<int>,
)
    requires
        0 < pairs.len() <= usize::MAX,
        pairs.last().0 != pairs.last().1,
    ensures
        gathered_total(pairs, count, contributions) == gathered_total(
            pairs.drop_last(),
            count,
            contributions,
        ) + (if pairs.last().0 < count {
            contributions[pairs.len() - 1]
        } else {
            0
        }) - (if pairs.last().1 < count {
            contributions[pairs.len() - 1]
        } else {
            0
        }),
    decreases count,
{
    if count > 0 {
        lemma_total_of_last_pair(pairs, count - 1, contributions);
        let particle = count - 1;
        let rest = incidence_of(pairs.drop_last(), particle);
        let all = incidence_of(pairs, particle);
        if pairs.last().0 == particle || pairs.last().1 == particle {
            assert(all.drop_last() =~= rest);
        }
    }
}

/// The neighbors of a particle in pair order.
pub open spec fn adjacent(pairs: Seq<(usize, usize)>, particle: int) -> Seq<usize>
    decreases pairs.len(),
{
    if pairs.len() == 0 {
        Seq::empty()
    } else {
        let rest = adjacent(pairs.drop_last(), particle);
        if pairs.last().0 == particle {
            rest.push(pairs.last().1)
        } else if pairs.last().1 == particle {
            rest.push(pairs.last().0)
        } else {
            rest
        }
    }
}

/// List the neighbors of every particle in pair order.
pub fn pair_adjacency(pairs: &[(usize, usize)], count: usize) -> (result: Vec<Vec<usize>>)
    requires
        valid_pairs(pairs@, count as int),
    ensures
        result@.len() == count,
        forall|p: int| 0 <= p < count ==> (#[trigger] result@[p])@ == adjacent(pairs@, p),
{
    let mut result: Vec<Vec<usize>> = Vec::with_capacity(count);
    let mut particle: usize = 0;
    while particle < count
        invariant
            particle <= count,
            result@.len() == particle,
            forall|p: int| 0 <= p < particle ==> (#[trigger] result@[p])@ == Seq::<usize>::empty(),
        decreases count - particle,
    {
        result.push(Vec::new());
        particle = particle + 1;
    }
    let mut pair: usize = 0;
    assert(pairs@.take(0) =~= Seq::<(usize, usize)>::empty());
    while pair < pairs.len()
        invariant
            pair <= pairs@.len(),
            result@.len() == count,
            valid_pairs(pairs@, count as int),
            forall|p: int|
                0 <= p < count ==> (#[trigger] result@[p])@ == adjacent(
                    pairs@.take(pair as int),
                    p,
                ),
        decreases pairs@.len() - pair,
    {
        let (i, j) = pairs[pair];
        assert(pairs@[pair as int] == (i, j));
        assert(pairs@.take(pair + 1).drop_last() =~= pairs@.take(pair as int));
        assert(pairs@.take(pair + 1).last() == (i, j));
        let ghost before = result@;
        result[i].push(j);
        result[j].push(i);
        assert forall|p: int| 0 <= p < count implies (#[trigger] result@[p])@ == adjacent(
            pairs@.take(pair + 1),
            p,
        ) by {
            assert(before[p]@ == adjacent(pairs@.take(pair as int), p));
        }
        pair = pair + 1;
    }
    assert(pairs@.take(pairs@.len() as int) =~= pairs@);
    result
}

/// Adjacency is symmetric: a particle lists exactly those that list it.
pub proof fn law_adjacency_is_symmetric(pairs: Seq<(usize, usize)>, i: usize, j: usize)
    ensures
        adjacent(pairs, i as int).contains(j) <==> adjacent(pairs, j as int).contains(i),
{
    lemma_adjacent(pairs, i, j);
    lemma_adjacent(pairs, j, i);
}

/// A particle lists another exactly where a pair joins them.
pub proof fn lemma_adjacent(pairs: Seq<(usize, usize)>, i: usize, j: usize)
    ensures
        adjacent(pairs, i as int).contains(j) <==> pairs.contains((i, j)) || pairs.contains((j, i)),
    decreases pairs.len(),
{
    if pairs.len() > 0 {
        let shorter = pairs.drop_last();
        lemma_adjacent(shorter, i, j);
        let rest = adjacent(shorter, i as int);
        let all = adjacent(pairs, i as int);
        let last = pairs.last();
        assert(pairs =~= shorter.push(last));
        assert(pairs[pairs.len() - 1] == last);
        assert forall|pair: (usize, usize)| pairs.contains(pair) <==> shorter.contains(pair) || pair
            == last by {
            if pairs.contains(pair) {
                let k = choose|k: int| 0 <= k < pairs.len() && pairs[k] == pair;
                if k < shorter.len() {
                    assert(shorter[k] == pair);
                }
            }
            if shorter.contains(pair) {
                let k = choose|k: int| 0 <= k < shorter.len() && shorter[k] == pair;
                assert(pairs[k] == pair);
            }
        }
        if all.len() > rest.len() {
            let added = all.last();
            assert(all =~= rest.push(added));
            assert(all[rest.len() as int] == added);
            assert(all.contains(j) <==> rest.contains(j) || j == added) by {
                if all.contains(j) {
                    let k = choose|k: int| 0 <= k < all.len() && all[k] == j;
                    if k < rest.len() {
                        assert(rest[k] == j);
                    }
                }
                if rest.contains(j) {
                    let k = choose|k: int| 0 <= k < rest.len() && rest[k] == j;
                    assert(all[k] == j);
                }
            }
        }
    }
}

/// The directed evaluations that a set of active particles asks for, in order: every
/// pair from its first particle, then from its second.
pub open spec fn directed(pairs: Seq<(usize, usize)>, active: Seq<bool>) -> Seq<(usize, usize)>
    decreases pairs.len(),
{
    if pairs.len() == 0 {
        Seq::empty()
    } else {
        let (i, j) = pairs.last();
        let rest = directed(pairs.drop_last(), active);
        let forward = if active[i as int] {
            rest.push((i, j))
        } else {
            rest
        };
        if active[j as int] {
            forward.push((j, i))
        } else {
            forward
        }
    }
}

/// The directed evaluations of one target: each neighbor with the ordinal of its evaluation.
pub open spec fn directed_of(evaluations: Seq<(usize, usize)>, target: int) -> Seq<(usize, usize)>
    decreases evaluations.len(),
{
    if evaluations.len() == 0 {
        Seq::empty()
    } else {
        let rest = directed_of(evaluations.drop_last(), target);
        if evaluations.last().0 == target {
            rest.push((evaluations.last().1, (evaluations.len() - 1) as usize))
        } else {
            rest
        }
    }
}

proof fn lemma_directed_len(pairs: Seq<(usize, usize)>, active: Seq<bool>)
    ensures
        directed(pairs, active).len() <= 2 * pairs.len(),
        (forall|k: int|
            0 <= k < pairs.len() ==> active[(#[trigger] pairs[k]).0 as int]
                && active[pairs[k].1 as int]) ==> directed(pairs, active).len() == 2 * pairs.len(),
    decreases pairs.len(),
{
    if pairs.len() > 0 {
        lemma_directed_len(pairs.drop_last(), active);
        assert(pairs[pairs.len() - 1] == pairs.last());
        assert forall|k: int|
            0 <= k < pairs.drop_last().len() implies #[trigger] pairs.drop_last()[k]
            == pairs[k] by {}
    }
}

/// Where every particle is active, each pair is evaluated once from either side.
pub proof fn law_all_active_evaluates_each_pair_twice(
    pairs: Seq<(usize, usize)>,
    active: Seq<bool>,
)
    requires
        valid_pairs(pairs, active.len() as int),
        forall|i: int| 0 <= i < active.len() ==> #[trigger] active[i],
    ensures
        directed(pairs, active).len() == 2 * pairs.len(),
{
    lemma_directed_len(pairs, active);
}

/// List the directed evaluations of every active target.
pub fn directed_neighbors(pairs: &[(usize, usize)], active: &[bool]) -> (result: Vec<
    Vec<(usize, usize)>,
>)
    requires
        valid_pairs(pairs@, active@.len() as int),
        2 * pairs@.len() <= usize::MAX,
    ensures
        result@.len() == active@.len(),
        forall|t: int|
            0 <= t < active@.len() ==> (#[trigger] result@[t])@ == directed_of(
                directed(pairs@, active@),
                t,
            ),
{
    let mut result: Vec<Vec<(usize, usize)>> = Vec::with_capacity(active.len());
    let mut particle: usize = 0;
    while particle < active.len()
        invariant
            particle <= active@.len(),
            result@.len() == particle,
            forall|p: int|
                0 <= p < particle ==> (#[trigger] result@[p])@ == Seq::<(usize, usize)>::empty(),
        decreases active@.len() - particle,
    {
        result.push(Vec::new());
        particle = particle + 1;
    }
    let mut ordinal: usize = 0;
    let mut pair: usize = 0;
    assert(pairs@.take(0) =~= Seq::<(usize, usize)>::empty());
    while pair < pairs.len()
        invariant
            pair <= pairs@.len(),
            result@.len() == active@.len(),
            valid_pairs(pairs@, active@.len() as int),
            2 * pairs@.len() <= usize::MAX,
            ordinal == directed(pairs@.take(pair as int), active@).len(),
            forall|t: int|
                0 <= t < active@.len() ==> (#[trigger] result@[t])@ == directed_of(
                    directed(pairs@.take(pair as int), active@),
                    t,
                ),
        decreases pairs@.len() - pair,
    {
        let (i, j) = pairs[pair];
        let ghost shorter = pairs@.take(pair as int);
        let ghost longer = pairs@.take(pair + 1);
        let ghost rest = directed(shorter, active@);
        let ghost forward = if active@[i as int] {
            rest.push((i, j))
        } else {
            rest
        };
        proof {
            assert(pairs@[pair as int] == (i, j));
            assert(longer.drop_last() =~= shorter);
            assert(longer.last() == (i, j));
            lemma_directed_len(shorter, active@);
        }
        if active[i] {
            let ghost before = result@;
            result[i].push((j, ordinal));
            ordinal = ordinal + 1;
            proof {
                assert(forward.drop_last() =~= rest);
            }
        }
        assert forall|t: int| 0 <= t < active@.len() implies (#[trigger] result@[t])@
            == directed_of(forward, t) by {}
        if active[j] {
            let ghost before = result@;
            result[j].push((i, ordinal));
            ordinal = ordinal + 1;
            proof {
                assert(forward.push((j, i)).drop_last() =~= forward);
                assert forall|t: int| 0 <= t < active@.len() implies (#[trigger] result@[t])@
                    == directed_of(forward.push((j, i)), t) by {
                    assert(before[t]@ == directed_of(forward, t));
                }
            }
        }
        pair = pair + 1;
    }
    assert(pairs@.take(pairs@.len() as int) =~= pairs@);
    result
}

/// Which particles an active set needs: its members and everything paired with one.
pub fn required_active_neighbors(active: &[bool], pairs: &[(usize, usize)]) -> (result: Vec<bool>)
    requires
        valid_pairs(pairs@, active@.len() as int),
    ensures
        result@.len() == active@.len(),
        forall|i: int|
            0 <= i < active@.len() ==> (#[trigger] result@[i] <==> active@[i] || exists|k: int|
                0 <= k < pairs@.len() && joins_active(#[trigger] pairs@[k], active@, i)),
{
    let mut required: Vec<bool> = Vec::with_capacity(active.len());
    let mut index: usize = 0;
    while index < active.len()
        invariant
            index <= active@.len(),
            required@ == active@.take(index as int),
        decreases active@.len() - index,
    {
        required.push(active[index]);
        index = index + 1;
    }
    let mut pair: usize = 0;
    while pair < pairs.len()
        invariant
            pair <= pairs@.len(),
            valid_pairs(pairs@, active@.len() as int),
            required@.len() == active@.len(),
            forall|i: int|
                0 <= i < active@.len() ==> (#[trigger] required@[i] <==> active@[i]
                    || exists|k: int|
                    0 <= k < pair && joins_active(#[trigger] pairs@[k], active@, i)),
        decreases pairs@.len() - pair,
    {
        let (i, j) = pairs[pair];
        let ghost before = required@;
        assert(pairs@[pair as int] == (i, j));
        if active[i] {
            required.set(j, true);
        }
        if active[j] {
            required.set(i, true);
        }
        assert forall|p: int| 0 <= p < active@.len() implies (#[trigger] required@[p]
            <==> active@[p] || exists|k: int|
            0 <= k < pair + 1 && joins_active(#[trigger] pairs@[k], active@, p)) by {
            assert(before[p] <==> active@[p] || exists|k: int|
                0 <= k < pair && joins_active(#[trigger] pairs@[k], active@, p));
            if joins_active(pairs@[pair as int], active@, p) {
                assert(required@[p]);
            }
            if exists|k: int| 0 <= k < pair && joins_active(#[trigger] pairs@[k], active@, p) {
                assert(required@[p]);
            }
        }
        pair = pair + 1;
    }
    required
}

/// Whether a pair joins particle `i` to an active particle.
pub open spec fn joins_active(pair: (usize, usize), active: Seq<bool>, i: int) -> bool {
    (pair.1 == i && active[pair.0 as int]) || (pair.0 == i && active[pair.1 as int])
}

/// The contributions to a particle come in pair order, each from a pair with that particle:
/// added where it is the first of the pair, subtracted where it is the second. No such pair
/// is left out.
pub proof fn law_contributions_are_those_of_the_pairs(pairs: Seq<(usize, usize)>, particle: int)
    requires
        pairs.len() <= usize::MAX,
    ensures
        forall|a: int, b: int|
            0 <= a < b < incidence_of(pairs, particle).len() ==> (#[trigger] incidence_of(
                pairs,
                particle,
            )[a]).pair < (#[trigger] incidence_of(pairs, particle)[b]).pair,
        forall|a: int|
            0 <= a < incidence_of(pairs, particle).len() ==> {
                let term = #[trigger] incidence_of(pairs, particle)[a];
                &&& term.pair < pairs.len()
                &&& term.added ==> pairs[term.pair as int].0 == particle
                &&& !term.added ==> pairs[term.pair as int].1 == particle
                    && pairs[term.pair as int].0 != particle
            },
        forall|k: int|
            0 <= k < pairs.len() && ((#[trigger] pairs[k]).0 == particle || pairs[k].1 == particle)
                ==> exists|a: int|
                0 <= a < incidence_of(pairs, particle).len() && (#[trigger] incidence_of(
                    pairs,
                    particle,
                )[a]).pair == k,
    decreases pairs.len(),
{
    if pairs.len() > 0 {
        let shorter = pairs.drop_last();
        law_contributions_are_those_of_the_pairs(shorter, particle);
        let before = incidence_of(shorter, particle);
        let all = incidence_of(pairs, particle);
        assert forall|a: int| 0 <= a < all.len() implies {
            let term = #[trigger] all[a];
            &&& term.pair < pairs.len()
            &&& term.added ==> pairs[term.pair as int].0 == particle
            &&& !term.added ==> pairs[term.pair as int].1 == particle && pairs[term.pair as int].0
                != particle
        } by {
            if a < before.len() {
                assert(all[a] == before[a]);
                assert(shorter[before[a].pair as int] == pairs[before[a].pair as int]);
            }
        }
        assert forall|k: int|
            0 <= k < pairs.len() && ((#[trigger] pairs[k]).0 == particle || pairs[k].1
                == particle) implies exists|a: int|
            0 <= a < all.len() && (#[trigger] all[a]).pair == k by {
            if k < pairs.len() - 1 {
                assert(shorter[k] == pairs[k]);
                let a = choose|a: int| 0 <= a < before.len() && (#[trigger] before[a]).pair == k;
                assert(all[a] == before[a]);
            } else {
                assert(all[all.len() - 1].pair == k);
            }
        }
    }
}

/// The neighbors of a particle are the other particles of its pairs, in pair order.
pub proof fn law_neighbors_are_those_of_the_pairs(pairs: Seq<(usize, usize)>, particle: int)
    requires
        pairs.len() <= usize::MAX,
    ensures
        adjacent(pairs, particle).len() == incidence_of(pairs, particle).len(),
        forall|a: int|
            0 <= a < adjacent(pairs, particle).len() ==> {
                let term = incidence_of(pairs, particle)[a];
                let pair = pairs[term.pair as int];
                #[trigger] adjacent(pairs, particle)[a] == if term.added {
                    pair.1
                } else {
                    pair.0
                }
            },
    decreases pairs.len(),
{
    if pairs.len() > 0 {
        let shorter = pairs.drop_last();
        law_neighbors_are_those_of_the_pairs(shorter, particle);
        law_contributions_are_those_of_the_pairs(shorter, particle);
        let before = incidence_of(shorter, particle);
        let all = incidence_of(pairs, particle);
        assert forall|a: int| 0 <= a < adjacent(pairs, particle).len() implies {
            let term = all[a];
            let pair = pairs[term.pair as int];
            #[trigger] adjacent(pairs, particle)[a] == if term.added {
                pair.1
            } else {
                pair.0
            }
        } by {
            if a < before.len() {
                assert(all[a] == before[a]);
                assert(adjacent(pairs, particle)[a] == adjacent(shorter, particle)[a]);
                assert(shorter[before[a].pair as int] == pairs[before[a].pair as int]);
            }
        }
    }
}

/// Every pair is evaluated in turn, first for its first particle and then for its second,
/// and only for those that are active.
pub proof fn law_evaluations_follow_the_pairs(
    pairs: Seq<(usize, usize)>,
    active: Seq<bool>,
    k: int,
)
    requires
        0 <= k < pairs.len(),
    ensures
        ({
            let (i, j) = pairs[k];
            let start = directed(pairs.take(k), active).len() as int;
            let next = directed(pairs.take(k + 1), active).len() as int;
            let all = directed(pairs, active);
            &&& next <= all.len()
            &&& next == start + (if active[i as int] {
                1int
            } else {
                0
            }) + (if active[j as int] {
                1int
            } else {
                0
            })
            &&& active[i as int] ==> all[start] == (i, j)
            &&& active[j as int] ==> all[next - 1] == (j, i)
        }),
        directed(pairs.take(0), active).len() == 0,
        pairs.take(pairs.len() as int) == pairs,
    decreases pairs.len(),
{
    assert(pairs.take(pairs.len() as int) =~= pairs);
    assert(pairs.take(k + 1).drop_last() =~= pairs.take(k));
    assert(pairs.take(k + 1).last() == pairs[k]);
    if k < pairs.len() - 1 {
        let shorter = pairs.drop_last();
        law_evaluations_follow_the_pairs(shorter, active, k);
        assert(shorter.take(k) =~= pairs.take(k));
        assert(shorter.take(k + 1) =~= pairs.take(k + 1));
        assert(shorter[k] == pairs[k]);
    } else {
        assert(pairs.take(k + 1) =~= pairs);
    }
}

/// The evaluations of a target come in order, each with its neighbor and its place in the
/// list, and none is left out.
pub proof fn law_target_evaluations(evaluations: Seq<(usize, usize)>, target: int)
    requires
        evaluations.len() <= usize::MAX,
    ensures
        forall|a: int, b: int|
            0 <= a < b < directed_of(evaluations, target).len() ==> (#[trigger] directed_of(
                evaluations,
                target,
            )[a]).1 < (#[trigger] directed_of(evaluations, target)[b]).1,
        forall|a: int|
            0 <= a < directed_of(evaluations, target).len() ==> {
                let (neighbor, ordinal) = #[trigger] directed_of(evaluations, target)[a];
                &&& ordinal < evaluations.len()
                &&& evaluations[ordinal as int].0 == target
                &&& evaluations[ordinal as int].1 == neighbor
            },
        forall|k: int|
            0 <= k < evaluations.len() && (#[trigger] evaluations[k]).0 == target ==> exists|a: int|
                0 <= a < directed_of(evaluations, target).len() && (#[trigger] directed_of(
                    evaluations,
                    target,
                )[a]).1 == k,
    decreases evaluations.len(),
{
    if evaluations.len() > 0 {
        let shorter = evaluations.drop_last();
        law_target_evaluations(shorter, target);
        let before = directed_of(shorter, target);
        let all = directed_of(evaluations, target);
        assert forall|a: int| 0 <= a < all.len() implies {
            let (neighbor, ordinal) = #[trigger] all[a];
            &&& ordinal < evaluations.len()
            &&& evaluations[ordinal as int].0 == target
            &&& evaluations[ordinal as int].1 == neighbor
        } by {
            if a < before.len() {
                assert(all[a] == before[a]);
                assert(shorter[before[a].1 as int] == evaluations[before[a].1 as int]);
            }
        }
        assert forall|k: int|
            0 <= k < evaluations.len() && (#[trigger] evaluations[k]).0 == target implies exists|
            a: int,
        |
            0 <= a < all.len() && (#[trigger] all[a]).1 == k by {
            if k < evaluations.len() - 1 {
                assert(shorter[k] == evaluations[k]);
                let a = choose|a: int| 0 <= a < before.len() && (#[trigger] before[a]).1 == k;
                assert(all[a] == before[a]);
            } else {
                assert(all[all.len() - 1].1 == k);
            }
        }
    }
}

/// A pair joins a particle to an active one exactly where it holds the particle and the other
/// one is active.
pub proof fn law_joining_pairs(i: usize, j: usize, active: Seq<bool>)
    requires
        i != j,
    ensures
        joins_active((i, j), active, i as int) <==> active[j as int],
        joins_active((i, j), active, j as int) <==> active[i as int],
        forall|other: int|
            other != i && other != j ==> !#[trigger] joins_active((i, j), active, other),
{
}

/// Pairs are valid exactly where each joins two different particles of the set.
pub proof fn law_valid_pairs(pairs: Seq<(usize, usize)>, count: int)
    ensures
        valid_pairs(pairs, count) <==> !exists|k: int|
            0 <= k < pairs.len() && ((#[trigger] pairs[k]).0 >= count || pairs[k].1 >= count
                || pairs[k].0 == pairs[k].1),
{
}

} // verus!
