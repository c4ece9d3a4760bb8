//! Extremes over the neighbors of a particle, and the slope limiters built on them.

use vstd::prelude::*;

use crate::binary64::Binary64;
use crate::hydro_error::HydroError;

verus! {

use crate::binary64::{nearest, HALF_BITS, ONE_BITS};
use vstd::arithmetic::power2::{lemma2_to64, lemma2_to64_rest};
use crate::fault::outcome;
use crate::incidence::valid_pairs;

/// The condition number above which a slope is limited over a longer distance.
pub const LIMITER_CONDITION_BITS: u64 = 0x4059_0000_0000_0000;

/// The fraction of the support over which a slope is limited.
pub const LIMITER_FRACTION_BITS: u64 = 0x3fd0_0000_0000_0000;

/// The least of the first `count` values and zero.
pub open spec fn least(values: Seq<Binary64>, count: int) -> Binary64
    decreases count,
{
    if count <= 0 {
        Binary64 { bits: 0 }
    } else {
        least(values, count - 1).lesser(values[count - 1])
    }
}

/// The greatest of the first `count` values and zero.
pub open spec fn greatest(values: Seq<Binary64>, count: int) -> Binary64
    decreases count,
{
    if count <= 0 {
        Binary64 { bits: 0 }
    } else {
        greatest(values, count - 1).greater(values[count - 1])
    }
}

/// What a particle sees among its neighbors.
#[derive(Clone, Copy, Debug, PartialEq, Eq, Structural)]
pub struct NeighborExtremes {
    pub minimum_delta: Binary64,
    pub maximum_delta: Binary64,
    pub max_distance: Binary64,
}

/// The extremes of the differences to the neighbors of a particle and of their distances.
/// The particle itself counts as a neighbor without difference or distance.
pub fn neighbor_extremes(deltas: &[Binary64], distances: &[Binary64]) -> (result: NeighborExtremes)
    requires
        distances@.len() == deltas@.len(),
    ensures
        result.minimum_delta == least(deltas@, deltas@.len() as int),
        result.maximum_delta == greatest(deltas@, deltas@.len() as int),
        result.max_distance == greatest(distances@, distances@.len() as int),
{
    let mut minimum_delta: Binary64 = Binary64 { bits: 0 };
    let mut maximum_delta: Binary64 = Binary64 { bits: 0 };
    let mut max_distance: Binary64 = Binary64 { bits: 0 };
    let mut index: usize = 0;
    while index < deltas.len()
        invariant
            index <= deltas@.len(),
            distances@.len() == deltas@.len(),
            minimum_delta == least(deltas@, index as int),
            maximum_delta == greatest(deltas@, index as int),
            max_distance == greatest(distances@, index as int),
        decreases deltas@.len() - index,
    {
        minimum_delta = minimum_delta.min(deltas[index]);
        maximum_delta = maximum_delta.max(deltas[index]);
        max_distance = max_distance.max(distances[index]);
        index = index + 1;
    }
    NeighborExtremes { minimum_delta, maximum_delta, max_distance }
}

/// The extremes bracket zero and every difference that is a number.
pub proof fn law_extremes_bracket(values: Seq<Binary64>, count: int, i: int)
    requires
        0 <= i < count <= values.len(),
        !values[i].nan(),
    ensures
        least(values, count).le(values[i]),
        values[i].le(greatest(values, count)),
        least(values, count).le(Binary64 { bits: 0 }),
        (Binary64 { bits: 0 }).le(greatest(values, count)),
    decreases count,
{
    lemma_extremes_bracket_zero(values, count - 1);
    if i < count - 1 {
        law_extremes_bracket(values, count - 1, i);
    }
}

proof fn lemma_extremes_bracket_zero(values: Seq<Binary64>, count: int)
    ensures
        least(values, count).le(Binary64 { bits: 0 }),
        (Binary64 { bits: 0 }).le(greatest(values, count)),
    decreases count,
{
    if count > 0 {
        lemma_extremes_bracket_zero(values, count - 1);
    }
}

/// The greatest of an initial value and the values of the first `count` pairs that contain
/// the particle.
pub open spec fn raised(
    initial: Binary64,
    pairs: Seq<(usize, usize)>,
    values: Seq<Binary64>,
    particle: int,
    count: int,
) -> Binary64
    decreases count,
{
    if count <= 0 {
        initial
    } else {
        let before = raised(initial, pairs, values, particle, count - 1);
        let pair = pairs[count - 1];
        if pair.0 == particle || pair.1 == particle {
            before.greater(values[count - 1])
        } else {
            before
        }
    }
}

/// Raise the value of every particle to the greatest value of a pair that contains it.
pub fn raise_by_pairs(initial: &[Binary64], pairs: &[(usize, usize)], values: &[Binary64]) -> (result:
    Vec<Binary64>)
    requires
        valid_pairs(pairs@, initial@.len() as int),
        values@.len() == pairs@.len(),
    ensures
        result@ == Seq::new(
            initial@.len(),
            |p: int| raised(initial@[p], pairs@, values@, p, pairs@.len() as int),
        ),
{
    let mut result: Vec<Binary64> = Vec::with_capacity(initial.len());
    let mut particle: usize = 0;
    while particle < initial.len()
        invariant
            particle <= initial@.len(),
            result@ == initial@.take(particle as int),
        decreases initial@.len() - particle,
    {
        result.push(initial[particle]);
        particle = particle + 1;
    }
    let mut k: usize = 0;
    while k < pairs.len()
        invariant
            k <= pairs@.len(),
            valid_pairs(pairs@, initial@.len() as int),
            values@.len() == pairs@.len(),
            result@ == Seq::new(
                initial@.len(),
                |p: int| raised(initial@[p], pairs@, values@, p, k as int),
            ),
        decreases pairs@.len() - k,
    {
        let (i, j) = pairs[k];
        assert(pairs@[k as int].0 != pairs@[k as int].1);
        let value: Binary64 = values[k];
        let raised_i: Binary64 = result[i].max(value);
        let raised_j: Binary64 = result[j].max(value);
        result.set(i, raised_i);
        result.set(j, raised_j);
        k = k + 1;
    }
    result
}

/// No pair of a particle exceeds what the particle was raised to, and nothing was lowered.
pub proof fn law_raised_values_dominate(
    initial: Binary64,
    pairs: Seq<(usize, usize)>,
    values: Seq<Binary64>,
    particle: int,
    count: int,
    k: int,
)
    requires
        !initial.nan(),
        0 <= k < count <= pairs.len(),
        values.len() == pairs.len(),
        pairs[k].0 == particle || pairs[k].1 == particle,
        !values[k].nan(),
    ensures
        initial.le(raised(initial, pairs, values, particle, count)),
        values[k].le(raised(initial, pairs, values, particle, count)),
    decreases count,
{
    lemma_raised_keeps(initial, pairs, values, particle, count - 1);
    if k < count - 1 {
        law_raised_values_dominate(initial, pairs, values, particle, count - 1, k);
    }
}

proof fn lemma_raised_keeps(
    initial: Binary64,
    pairs: Seq<(usize, usize)>,
    values: Seq<Binary64>,
    particle: int,
    count: int,
)
    requires
        !initial.nan(),
    ensures
        initial.le(raised(initial, pairs, values, particle, count)),
    decreases count,
{
    if count > 0 {
        lemma_raised_keeps(initial, pairs, values, particle, count - 1);
    }
}

/// The least difference that a particle sees over the first `count` pairs. The first
/// particle of a pair sees the difference itself, the second its opposite.
pub open spec fn lowest_delta(
    pairs: Seq<(usize, usize)>,
    deltas: Seq<Binary64>,
    particle: int,
    count: int,
) -> Binary64
    decreases count,
{
    if count <= 0 {
        Binary64 { bits: 0 }
    } else {
        let before = lowest_delta(pairs, deltas, particle, count - 1);
        if pairs[count - 1].0 == particle {
            before.lesser(deltas[count - 1])
        } else if pairs[count - 1].1 == particle {
            before.lesser(deltas[count - 1].negated())
        } else {
            before
        }
    }
}

/// The greatest difference that a particle sees over the first `count` pairs.
pub open spec fn highest_delta(
    pairs: Seq<(usize, usize)>,
    deltas: Seq<Binary64>,
    particle: int,
    count: int,
) -> Binary64
    decreases count,
{
    if count <= 0 {
        Binary64 { bits: 0 }
    } else {
        let before = highest_delta(pairs, deltas, particle, count - 1);
        if pairs[count - 1].0 == particle {
            before.greater(deltas[count - 1])
        } else if pairs[count - 1].1 == particle {
            before.greater(deltas[count - 1].negated())
        } else {
            before
        }
    }
}

/// The extremes of the differences that every particle sees.
#[derive(Clone, Debug, PartialEq)]
pub struct DeltaExtremes {
    pub minima: Vec<Binary64>,
    pub maxima: Vec<Binary64>,
}

/// Find the extremes of the differences over all pairs.
pub fn delta_extremes(count: usize, pairs: &[(usize, usize)], deltas: &[Binary64]) -> (result:
    DeltaExtremes)
    requires
        valid_pairs(pairs@, count as int),
        deltas@.len() == pairs@.len(),
    ensures
        result.minima@ == Seq::new(
            count as nat,
            |p: int| lowest_delta(pairs@, deltas@, p, pairs@.len() as int),
        ),
        result.maxima@ == Seq::new(
            count as nat,
            |p: int| highest_delta(pairs@, deltas@, p, pairs@.len() as int),
        ),
{
    let zero: Binary64 = Binary64 { bits: 0 };
    let mut minima: Vec<Binary64> = Vec::with_capacity(count);
    let mut maxima: Vec<Binary64> = Vec::with_capacity(count);
    let mut particle: usize = 0;
    while particle < count
        invariant
            particle <= count,
            zero == (Binary64 { bits: 0 }),
            minima@ == Seq::new(particle as nat, |p: int| zero),
            maxima@ == Seq::new(particle as nat, |p: int| zero),
        decreases count - particle,
    {
        minima.push(zero);
        maxima.push(zero);
        particle = particle + 1;
    }
    let mut k: usize = 0;
    while k < pairs.len()
        invariant
            k <= pairs@.len(),
            valid_pairs(pairs@, count as int),
            deltas@.len() == pairs@.len(),
            minima@ == Seq::new(
                count as nat,
                |p: int| lowest_delta(pairs@, deltas@, p, k as int),
            ),
            maxima@ == Seq::new(
                count as nat,
                |p: int| highest_delta(pairs@, deltas@, p, k as int),
            ),
        decreases pairs@.len() - k,
    {
        let (i, j) = pairs[k];
        assert(pairs@[k as int].0 != pairs@[k as int].1);
        let delta: Binary64 = deltas[k];
        let opposite: Binary64 = delta.neg();
        let low_i: Binary64 = minima[i].min(delta);
        let high_i: Binary64 = maxima[i].max(delta);
        let low_j: Binary64 = minima[j].min(opposite);
        let high_j: Binary64 = maxima[j].max(opposite);
        minima.set(i, low_i);
        maxima.set(i, high_i);
        minima.set(j, low_j);
        maxima.set(j, high_j);
        k = k + 1;
    }
    DeltaExtremes { minima, maxima }
}

/// Reversing the orientation of every pair exchanges the extremes of each side with those
/// of the other: what one end sees as a rise the other sees as a fall.
pub proof fn law_reversed_pairs_see_opposite_deltas(
    pairs: Seq<(usize, usize)>,
    deltas: Seq<Binary64>,
    particle: int,
    count: int,
)
    requires
        0 <= count <= pairs.len(),
        deltas.len() == pairs.len(),
        valid_pairs(pairs, usize::MAX as int + 1),
    ensures
        ({
            let reversed = Seq::new(pairs.len(), |k: int| (pairs[k].1, pairs[k].0));
            let opposite = Seq::new(deltas.len(), |k: int| deltas[k].negated());
            &&& lowest_delta(reversed, opposite, particle, count) == lowest_delta(
                pairs,
                deltas,
                particle,
                count,
            )
            &&& highest_delta(reversed, opposite, particle, count) == highest_delta(
                pairs,
                deltas,
                particle,
                count,
            )
        }),
    decreases count,
{
    if count > 0 {
        law_reversed_pairs_see_opposite_deltas(pairs, deltas, particle, count - 1);
        assert(pairs[count - 1].0 != pairs[count - 1].1);
        crate::binary64::law_negation(deltas[count - 1]);
    }
}

/// How far a face value may deviate: the smaller extreme with the tolerated overshoot, but
/// not more than the larger extreme.
pub fn allowed_delta(tolerated: Binary64, larger: Binary64) -> (result: Binary64)
    ensures
        result == tolerated.lesser(larger),
        result == tolerated || result == larger,
        !tolerated.nan() && !larger.nan() ==> result.le(tolerated) && result.le(larger),
{
    tolerated.min(larger)
}

/// The two extremes of a difference by size.
pub fn sorted_sizes(minimum_delta: Binary64, maximum_delta: Binary64) -> (result: (Binary64, Binary64))
    ensures
        ({
            let left = Binary64 { bits: minimum_delta.magnitude() as u64 };
            let right = Binary64 { bits: maximum_delta.magnitude() as u64 };
            result == (left.lesser(right), left.greater(right))
        }),
        !minimum_delta.nan() && !maximum_delta.nan() ==> result.0.le(result.1),
        result.0.bits == minimum_delta.magnitude() || result.0.bits == maximum_delta.magnitude(),
        result.1.bits == minimum_delta.magnitude() || result.1.bits == maximum_delta.magnitude(),
        !minimum_delta.nan() && !maximum_delta.nan() ==> result.0.bits <= minimum_delta.magnitude()
            && result.0.bits <= maximum_delta.magnitude() && minimum_delta.magnitude()
            <= result.1.bits && maximum_delta.magnitude() <= result.1.bits,
{
    let left: Binary64 = minimum_delta.abs();
    let right: Binary64 = maximum_delta.abs();
    (left.min(right), left.max(right))
}

/// The smallest value that a positive quantity may reach at a face: not above the center,
/// not below zero, and not below the larger of a tiny fraction of the center and what the
/// neighbors allow.
pub fn positivity_floor(center: Binary64, tiny: Binary64, halfway: Binary64, lowered: Binary64) -> (result:
    Binary64)
    ensures
        result == center.lesser(
            (Binary64 { bits: 0 }).greater(tiny.greater(halfway.lesser(lowered))),
        ),
        !center.nan() ==> result.le(center),
        center.nonnegative() ==> (Binary64 { bits: 0 }).le(result),
        tiny.le(center) && (Binary64 { bits: 0 }).le(tiny) ==> tiny.le(result),
        halfway.le(center) && halfway.le(lowered) && (Binary64 { bits: 0 }).le(center) ==> halfway.le(
            result,
        ),
        lowered.le(center) && lowered.le(halfway) && (Binary64 { bits: 0 }).le(center) ==> lowered.le(
            result,
        ),
{
    let zero: Binary64 = Binary64 { bits: 0 };
    center.min(zero.max(tiny.max(halfway.min(lowered))))
}

/// The floor of a positive quantity lies between zero and its center.
pub proof fn law_positivity_floor_is_nonnegative(
    center: Binary64,
    tiny: Binary64,
    halfway: Binary64,
    lowered: Binary64,
)
    requires
        center.positive(),
    ensures
        ({
            let floor = center.lesser(
                (Binary64 { bits: 0 }).greater(tiny.greater(halfway.lesser(lowered))),
            );
            &&& (Binary64 { bits: 0 }).le(floor)
            &&& floor.le(center)
        }),
{
}

/// What a limiter does to a slope.
#[derive(Clone, Copy, Debug, PartialEq, Eq, Structural)]
pub enum SlopeLimit {
    Keep,
    Scale(Binary64),
}

/// The factor of a limited slope: the overshoot factor, and the positivity factor where
/// positivity is preserved.
pub open spec fn limiting_factor(overshoot: Binary64, positivity: Option<Binary64>) -> Binary64 {
    match positivity {
        Some(factor) => overshoot.lesser(factor),
        None => overshoot,
    }
}

fn combined_factor(overshoot: Binary64, positivity: Option<Binary64>) -> (result: Binary64)
    ensures
        result == limiting_factor(overshoot, positivity),
{
    match positivity {
        Some(factor) => overshoot.min(factor),
        None => overshoot,
    }
}

/// The treatment of a one-dimensional slope: a vanishing one is kept, one that overshoots is
/// scaled down, and never reversed.
pub open spec fn slope_limit_1d(
    magnitude: Binary64,
    overshoot: Binary64,
    positivity: Option<Binary64>,
) -> SlopeLimit {
    let factor = limiting_factor(overshoot, positivity);
    if magnitude.same(Binary64 { bits: 0 }) || !factor.lt(Binary64 { bits: ONE_BITS }) {
        SlopeLimit::Keep
    } else {
        SlopeLimit::Scale(factor.greater(Binary64 { bits: 0 }))
    }
}

/// Limit a one-dimensional slope.
pub fn limit_gradient_1d(
    magnitude: Binary64,
    overshoot: Binary64,
    positivity: Option<Binary64>,
) -> (result: SlopeLimit)
    ensures
        result == slope_limit_1d(magnitude, overshoot, positivity),
        result matches SlopeLimit::Scale(scale) ==> scale.lt(Binary64 { bits: ONE_BITS })
            && (Binary64 { bits: 0 }).le(scale),
{
    let zero: Binary64 = Binary64 { bits: 0 };
    let one: Binary64 = Binary64 { bits: ONE_BITS };
    let factor: Binary64 = combined_factor(overshoot, positivity);
    if magnitude.equals(zero) || !factor.less(one) {
        SlopeLimit::Keep
    } else {
        SlopeLimit::Scale(factor.max(zero))
    }
}

/// The treatment of a planar slope.
pub open spec fn slope_limit_2d(
    magnitude: Binary64,
    overshoot: Binary64,
    positivity: Option<Binary64>,
) -> SlopeLimit {
    let factor = limiting_factor(overshoot, positivity);
    if magnitude.same(Binary64 { bits: 0 }) || !factor.lt(Binary64 { bits: ONE_BITS }) {
        SlopeLimit::Keep
    } else {
        SlopeLimit::Scale(factor)
    }
}

/// Limit a planar slope.
pub fn local_slope_limiter(
    magnitude: Binary64,
    overshoot: Binary64,
    positivity: Option<Binary64>,
) -> (result: SlopeLimit)
    ensures
        result == slope_limit_2d(magnitude, overshoot, positivity),
        result matches SlopeLimit::Scale(scale) ==> scale.lt(Binary64 { bits: ONE_BITS }),
        positivity matches Some(factor) ==> factor.lt(Binary64 { bits: ONE_BITS })
            && !magnitude.nan() && !magnitude.same(Binary64 { bits: 0 }) && !overshoot.nan()
            ==> (result matches SlopeLimit::Scale(scale) && scale.le(factor) && scale.le(overshoot)),
{
    let zero: Binary64 = Binary64 { bits: 0 };
    let one: Binary64 = Binary64 { bits: ONE_BITS };
    let factor: Binary64 = combined_factor(overshoot, positivity);
    if magnitude.equals(zero) || !factor.less(one) {
        SlopeLimit::Keep
    } else {
        SlopeLimit::Scale(factor)
    }
}

/// A limiter never steepens a slope: every factor it applies lies below one, and in one
/// dimension not below zero.
pub proof fn law_limiters_never_steepen(
    magnitude: Binary64,
    overshoot: Binary64,
    positivity: Option<Binary64>,
)
    ensures
        slope_limit_1d(magnitude, overshoot, positivity) matches SlopeLimit::Scale(factor) ==> {
            &&& (Binary64 { bits: 0 }).le(factor)
            &&& factor.lt(Binary64 { bits: ONE_BITS })
        },
        slope_limit_2d(magnitude, overshoot, positivity) matches SlopeLimit::Scale(factor)
            ==> factor.lt(Binary64 { bits: ONE_BITS }),
{
}

/// The fraction of the support over which a planar slope is limited: a quarter, and up to
/// one half for ill-conditioned moments.
pub fn limiter_fraction(condition_number: Binary64, grown: Binary64) -> (result: Binary64)
    ensures
        result == if (Binary64 { bits: LIMITER_CONDITION_BITS }).lt(condition_number) {
            grown.lesser(Binary64 { bits: HALF_BITS })
        } else {
            Binary64 { bits: LIMITER_FRACTION_BITS }
        },
        condition_number.le(Binary64 { bits: LIMITER_CONDITION_BITS }) ==> result.bits
            == LIMITER_FRACTION_BITS,
        (Binary64 { bits: LIMITER_CONDITION_BITS }).lt(condition_number) && !grown.nan()
            ==> result.le(Binary64 { bits: HALF_BITS }) && result.le(grown),
        (Binary64 { bits: LIMITER_CONDITION_BITS }).lt(condition_number) && grown.lt(
            Binary64 { bits: HALF_BITS },
        ) ==> result == grown,
{
    let danger: Binary64 = Binary64 { bits: LIMITER_CONDITION_BITS };
    if danger.less(condition_number) {
        grown.min(Binary64 { bits: HALF_BITS })
    } else {
        Binary64 { bits: LIMITER_FRACTION_BITS }
    }
}

/// Check a stage of a gradient.
pub fn validate_gradient(index: usize, field: &'static str, value: Binary64) -> (result: Result<
    (),
    HydroError,
>)
    ensures
        result == outcome(
            if value.finite() {
                None
            } else {
                Some(HydroError::NonFiniteGradient { index, field, value })
            },
        ),
        result is Ok <==> value.finite(),
{
    if value.is_finite() {
        Ok(())
    } else {
        Err(HydroError::NonFiniteGradient { index, field, value })
    }
}

/// The extremes of a list are attained: each is zero or one of the values.
pub proof fn law_extremes_are_attained(values: Seq<Binary64>, count: int)
    requires
        0 <= count <= values.len(),
    ensures
        least(values, count) == (Binary64 { bits: 0 }) || exists|i: int|
            0 <= i < count && #[trigger] values[i] == least(values, count),
        greatest(values, count) == (Binary64 { bits: 0 }) || exists|i: int|
            0 <= i < count && #[trigger] values[i] == greatest(values, count),
    decreases count,
{
    if count > 0 {
        law_extremes_are_attained(values, count - 1);
        assert(values[count - 1] == values[count - 1]);
    }
}

/// A raised value is attained: it is the initial one or that of a pair with the particle.
pub proof fn law_raised_values_are_attained(
    initial: Binary64,
    pairs: Seq<(usize, usize)>,
    values: Seq<Binary64>,
    particle: int,
    count: int,
)
    requires
        0 <= count <= pairs.len(),
        values.len() == pairs.len(),
    ensures
        raised(initial, pairs, values, particle, count) == initial || exists|k: int|
            0 <= k < count && (pairs[k].0 == particle || pairs[k].1 == particle)
                && #[trigger] values[k] == raised(initial, pairs, values, particle, count),
    decreases count,
{
    if count > 0 {
        law_raised_values_are_attained(initial, pairs, values, particle, count - 1);
        assert(values[count - 1] == values[count - 1]);
    }
}

/// What pair `k` lets a particle see: the difference from the first particle, and the
/// opposite one from the second.
pub open spec fn seen_delta(
    pairs: Seq<(usize, usize)>,
    deltas: Seq<Binary64>,
    particle: int,
    k: int,
) -> Binary64 {
    if pairs[k].0 == particle {
        deltas[k]
    } else {
        deltas[k].negated()
    }
}

/// The extreme differences of a particle enclose zero and all that its pairs let it see, and
/// each is attained.
pub proof fn law_delta_extremes_enclose(
    pairs: Seq<(usize, usize)>,
    deltas: Seq<Binary64>,
    particle: int,
    count: int,
)
    requires
        0 <= count <= pairs.len(),
        deltas.len() == pairs.len(),
        forall|k: int| 0 <= k < count ==> !(#[trigger] deltas[k]).nan(),
    ensures
        lowest_delta(pairs, deltas, particle, count).le(Binary64 { bits: 0 }),
        (Binary64 { bits: 0 }).le(highest_delta(pairs, deltas, particle, count)),
        forall|k: int|
            0 <= k < count && (pairs[k].0 == particle || pairs[k].1 == particle) ==> lowest_delta(
                pairs,
                deltas,
                particle,
                count,
            ).le(#[trigger] seen_delta(pairs, deltas, particle, k)) && seen_delta(
                pairs,
                deltas,
                particle,
                k,
            ).le(highest_delta(pairs, deltas, particle, count)),
        lowest_delta(pairs, deltas, particle, count) == (Binary64 { bits: 0 }) || exists|k: int|
            0 <= k < count && (pairs[k].0 == particle || pairs[k].1 == particle) && lowest_delta(
                pairs,
                deltas,
                particle,
                count,
            ) == #[trigger] seen_delta(pairs, deltas, particle, k),
        highest_delta(pairs, deltas, particle, count) == (Binary64 { bits: 0 }) || exists|k: int|
            0 <= k < count && (pairs[k].0 == particle || pairs[k].1 == particle) && highest_delta(
                pairs,
                deltas,
                particle,
                count,
            ) == #[trigger] seen_delta(pairs, deltas, particle, k),
    decreases count,
{
    if count > 0 {
        law_delta_extremes_enclose(pairs, deltas, particle, count - 1);
        let last = seen_delta(pairs, deltas, particle, count - 1);
        assert(!deltas[count - 1].nan());
        assert(!last.nan());
    }
}

/// A planar slope is scaled where a factor below one asks for it, by the smaller of the
/// factors; it is kept only where it vanishes or no factor is below one.
pub proof fn law_planar_slopes_obey_both_factors(
    magnitude: Binary64,
    overshoot: Binary64,
    positivity: Option<Binary64>,
)
    requires
        !magnitude.nan(),
        !overshoot.nan(),
        positivity matches Some(factor) ==> !factor.nan(),
    ensures
        slope_limit_2d(magnitude, overshoot, positivity) matches SlopeLimit::Scale(scale) ==> {
            &&& scale.le(overshoot)
            &&& positivity matches Some(factor) ==> scale.le(factor)
            &&& scale == overshoot || positivity == Some(scale)
            &&& scale.lt(Binary64 { bits: ONE_BITS })
            &&& !magnitude.same(Binary64 { bits: 0 })
        },
        slope_limit_2d(magnitude, overshoot, positivity) == SlopeLimit::Keep ==> {
            ||| magnitude.same(Binary64 { bits: 0 })
            ||| (Binary64 { bits: ONE_BITS }).le(overshoot) && (positivity matches Some(factor)
                ==> (Binary64 { bits: ONE_BITS }).le(factor))
        },
        magnitude.same(Binary64 { bits: 0 }) ==> slope_limit_2d(magnitude, overshoot, positivity)
            == SlopeLimit::Keep,
{
}

/// A slope on a line obeys both factors too, but is never turned around: a factor below zero
/// flattens it.
pub proof fn law_slopes_on_a_line_obey_both_factors(
    magnitude: Binary64,
    overshoot: Binary64,
    positivity: Option<Binary64>,
)
    requires
        !magnitude.nan(),
        !overshoot.nan(),
        positivity matches Some(factor) ==> !factor.nan(),
    ensures
        slope_limit_1d(magnitude, overshoot, positivity) matches SlopeLimit::Scale(scale) ==> {
            &&& scale.le(overshoot) || scale.same(Binary64 { bits: 0 })
            &&& positivity matches Some(factor) ==> scale.le(factor) || scale.same(
                Binary64 { bits: 0 },
            )
            &&& scale == overshoot || positivity == Some(scale) || scale.same(Binary64 { bits: 0 })
            &&& (Binary64 { bits: 0 }).lt(overshoot) && (positivity matches Some(factor) ==> (
            Binary64 { bits: 0 }).lt(factor)) ==> (Binary64 { bits: 0 }).lt(scale)
            &&& scale.lt(Binary64 { bits: ONE_BITS })
            &&& !magnitude.same(Binary64 { bits: 0 })
        },
        slope_limit_1d(magnitude, overshoot, positivity) == SlopeLimit::Keep ==> {
            ||| magnitude.same(Binary64 { bits: 0 })
            ||| (Binary64 { bits: ONE_BITS }).le(overshoot) && (positivity matches Some(factor)
                ==> (Binary64 { bits: ONE_BITS }).le(factor))
        },
        magnitude.same(Binary64 { bits: 0 }) ==> slope_limit_1d(magnitude, overshoot, positivity)
            == SlopeLimit::Keep,
{
}

/// Both limiters keep and scale the same slopes, and scale them by the same factor where it
/// is not below zero.
pub proof fn law_limiters_agree(
    magnitude: Binary64,
    overshoot: Binary64,
    positivity: Option<Binary64>,
)
    ensures
        slope_limit_1d(magnitude, overshoot, positivity) == SlopeLimit::Keep <==> slope_limit_2d(
            magnitude,
            overshoot,
            positivity,
        ) == SlopeLimit::Keep,
        slope_limit_2d(magnitude, overshoot, positivity) matches SlopeLimit::Scale(scale) ==> (
        Binary64 { bits: 0 }).le(scale) ==> slope_limit_1d(magnitude, overshoot, positivity)
            == SlopeLimit::Scale(scale),
{
}

/// The limits of the planar limiter: a condition number of one hundred, and a quarter of the
/// support.
pub proof fn law_limiter_constants()
    ensures
        nearest(Binary64 { bits: LIMITER_CONDITION_BITS }, 100, 1),
        nearest(Binary64 { bits: LIMITER_FRACTION_BITS }, 1, 4),
{
    lemma2_to64();
    lemma2_to64_rest();
}

} // verus!
