//! One-dimensional neighbor search over sorted positions.

use vstd::prelude::*;

use crate::binary64::Binary64;
use crate::order::{sort_dedup, sort_keyed, Keyed};

verus! {

use crate::binary64::SIGN_BIT;
use crate::order::{increasing, keyed_le, lemma_same_elements};

/// Topology of a one-dimensional domain.
#[derive(Clone, Copy, Debug, PartialEq, Eq, Structural)]
pub enum BoundaryMode1d {
    Periodic,
    Reflective,
}

impl Default for BoundaryMode1d {
    fn default() -> (result: Self)
        ensures
            result == BoundaryMode1d::Periodic,
    {
        BoundaryMode1d::Periodic
    }
}

impl BoundaryMode1d {
    /// Whether a coordinate lies in the domain: the upper end belongs to a reflective domain
    /// and not to a periodic one.
    pub open spec fn inside(self, position: Binary64, box_size: Binary64) -> bool {
        &&& position.nonnegative()
        &&& match self {
            BoundaryMode1d::Periodic => position.lt(box_size),
            BoundaryMode1d::Reflective => position.le(box_size),
        }
    }

    /// Whether a coordinate lies in the domain.
    pub fn contains(self, position: Binary64, box_size: Binary64) -> (result: bool)
        ensures
            result == self.inside(position, box_size),
    {
        if !position.is_nonnegative() {
            return false;
        }
        match self {
            BoundaryMode1d::Periodic => position.less(box_size),
            BoundaryMode1d::Reflective => position.at_most(box_size),
        }
    }
}

/// The interval around a query position, with its periodic images.
#[derive(Clone, Copy, Debug, PartialEq, Eq, Structural)]
pub struct Reach1d {
    /// The support radius.
    pub support: Binary64,
    /// Half the box size.
    pub half_box: Binary64,
    /// The query position minus the support.
    pub lower: Binary64,
    /// The query position plus the support.
    pub upper: Binary64,
    /// The lower end moved up by one box.
    pub wrapped_lower: Binary64,
    /// The upper end moved down by one box.
    pub wrapped_upper: Binary64,
}

/// Whether a position lies between two bounds, both included.
pub open spec fn in_range(position: Binary64, lower: Binary64, upper: Binary64) -> bool {
    !position.lt(lower) && position.le(upper)
}

impl Reach1d {
    /// Whether the search covers a position: the interval clamped to the walls, the whole
    /// box once the support spans half of it, or the interval continued across the seam.
    pub open spec fn covers(
        self,
        boundary: BoundaryMode1d,
        box_size: Binary64,
        position: Binary64,
    ) -> bool {
        let zero = Binary64 { bits: 0 };
        if boundary == BoundaryMode1d::Reflective {
            in_range(position, self.lower.greater(zero), self.upper.lesser(box_size))
        } else if self.half_box.le(self.support) {
            true
        } else if self.lower.lt(zero) {
            in_range(position, zero, self.upper) || in_range(
                position,
                self.wrapped_lower,
                box_size,
            )
        } else if box_size.le(self.upper) {
            in_range(position, self.lower, box_size) || in_range(
                position,
                zero,
                self.wrapped_upper,
            )
        } else {
            in_range(position, self.lower, self.upper)
        }
    }
}

/// Particle indices sorted by position, ties by index.
pub struct NeighborIndex1d {
    positions: Vec<Binary64>,
    sorted: Vec<usize>,
    box_size: Binary64,
    boundary: BoundaryMode1d,
}

/// A key that orders as the total order of patterns does.
pub open spec fn order_key(position: Binary64) -> int {
    if position.negative() {
        SIGN_BIT - 1 - position.magnitude()
    } else {
        SIGN_BIT + position.magnitude()
    }
}

fn position_key(position: Binary64) -> (result: u64)
    ensures
        result == order_key(position),
        result == position.total_rank() + SIGN_BIT,
{
    if position.bits >= SIGN_BIT {
        SIGN_BIT - 1 - (position.bits - SIGN_BIT)
    } else {
        SIGN_BIT + position.bits
    }
}

impl NeighborIndex1d {
    /// The indexed positions.
    pub closed spec fn positions(self) -> Seq<Binary64> {
        self.positions@
    }

    /// The domain topology.
    pub closed spec fn boundary(self) -> BoundaryMode1d {
        self.boundary
    }

    /// The box size.
    pub closed spec fn box_size(self) -> Binary64 {
        self.box_size
    }

    /// The invariant of the index: its order is a sorted permutation of the particles.
    pub closed spec fn wf(self) -> bool {
        &&& self.sorted@.len() == self.positions@.len()
        &&& forall|k: int|
            0 <= k < self.sorted@.len() ==> (#[trigger] self.sorted@[k]) < self.positions@.len()
        &&& forall|index: usize| index < self.positions@.len() ==> self.sorted@.contains(index)
        &&& forall|k: int|
            0 <= k < self.positions@.len() ==> !(#[trigger] self.positions@[k]).nan()
        &&& forall|i: int, j: int|
            0 <= i < j < self.sorted@.len() ==> self.ordered(
                #[trigger] self.sorted@[i],
                #[trigger] self.sorted@[j],
            )
    }

    spec fn ordered(self, left: usize, right: usize) -> bool {
        let a = self.positions@[left as int].total_rank();
        let b = self.positions@[right as int].total_rank();
        a < b || (a == b && left <= right)
    }

    /// Sort particles by position.
    pub fn new(positions: &[Binary64], box_size: Binary64, boundary: BoundaryMode1d) -> (result:
        Self)
        requires
            forall|k: int| 0 <= k < positions@.len() ==> !(#[trigger] positions@[k]).nan(),
        ensures
            result.wf(),
            result.positions() == positions@,
            result.box_size() == box_size,
            result.boundary() == boundary,
    {
        let mut entries: Vec<Keyed> = Vec::with_capacity(positions.len());
        let mut copied: Vec<Binary64> = Vec::with_capacity(positions.len());
        let mut index: usize = 0;
        while index < positions.len()
            invariant
                index <= positions@.len(),
                entries@.len() == index,
                copied@.len() == index,
                forall|k: int| 0 <= k < index ==> #[trigger] copied@[k] == positions@[k],
                forall|k: int|
                    0 <= k < index ==> (#[trigger] entries@[k]).0 == order_key(positions@[k])
                        && entries@[k].1 == k,
            decreases positions@.len() - index,
        {
            entries.push((position_key(positions[index]), index));
            copied.push(positions[index]);
            index = index + 1;
        }
        let ghost source = entries@;
        let ordered: Vec<Keyed> = sort_keyed(entries);
        proof {
            lemma_same_elements(ordered@, source);
        }
        let mut sorted: Vec<usize> = Vec::with_capacity(ordered.len());
        let mut index: usize = 0;
        while index < ordered.len()
            invariant
                index <= ordered@.len(),
                sorted@.len() == index,
                forall|k: int| 0 <= k < index ==> #[trigger] sorted@[k] == ordered@[k].1,
            decreases ordered@.len() - index,
        {
            sorted.push(ordered[index].1);
            index = index + 1;
        }
        assert(copied@ =~= positions@);
        let result: NeighborIndex1d = NeighborIndex1d { positions: copied, sorted, box_size, boundary };
        proof {
            assert forall|k: int| 0 <= k < ordered@.len() implies (#[trigger] ordered@[k]).1
                < positions@.len() && ordered@[k].0 == order_key(
                positions@[ordered@[k].1 as int],
            ) by {
                assert(ordered@.contains(ordered@[k]));
                let m = choose|m: int| 0 <= m < source.len() && source[m] == ordered@[k];
                assert(source[m].1 == m);
            }
            assert forall|index: usize| index < positions@.len() implies sorted@.contains(index) by {
                assert(source.contains(source[index as int]));
                let k = choose|k: int|
                    0 <= k < ordered@.len() && ordered@[k] == source[index as int];
                assert(sorted@[k] == index);
            }
            assert forall|i: int, j: int| 0 <= i < j < sorted@.len() implies result.ordered(
                #[trigger] sorted@[i],
                #[trigger] sorted@[j],
            ) by {
                assert(keyed_le(ordered@[i], ordered@[j]));
            }
        }
        result
    }

    /// How many of the sorted positions lie below `bound`, or at it where `inclusive`.
    fn partition(&self, bound: Binary64, inclusive: bool) -> (result: usize)
        requires
            self.wf(),
        ensures
            result <= self.sorted@.len(),
            forall|k: int|
                0 <= k < result ==> self.below(#[trigger] self.sorted@[k], bound, inclusive),
            forall|k: int|
                result <= k < self.sorted@.len() ==> !self.below(
                    #[trigger] self.sorted@[k],
                    bound,
                    inclusive,
                ),
    {
        let mut low: usize = 0;
        let mut high: usize = self.sorted.len();
        while low < high
            invariant
                self.wf(),
                low <= high <= self.sorted@.len(),
                forall|k: int|
                    0 <= k < low ==> self.below(#[trigger] self.sorted@[k], bound, inclusive),
                forall|k: int|
                    high <= k < self.sorted@.len() ==> !self.below(
                        #[trigger] self.sorted@[k],
                        bound,
                        inclusive,
                    ),
            decreases high - low,
        {
            let middle: usize = low + (high - low) / 2;
            let position: Binary64 = self.positions[self.sorted[middle]];
            let is_below: bool = if inclusive {
                position.at_most(bound)
            } else {
                position.less(bound)
            };
            proof {
                assert(is_below == self.below(self.sorted@[middle as int], bound, inclusive));
                if is_below {
                    assert forall|k: int| 0 <= k <= middle implies self.below(
                        #[trigger] self.sorted@[k],
                        bound,
                        inclusive,
                    ) by {
                        if k < middle {
                            assert(self.ordered(self.sorted@[k], self.sorted@[middle as int]));
                        }
                    }
                } else {
                    assert forall|k: int| middle <= k < self.sorted@.len() implies !self.below(
                        #[trigger] self.sorted@[k],
                        bound,
                        inclusive,
                    ) by {
                        if k > middle {
                            assert(self.ordered(self.sorted@[middle as int], self.sorted@[k]));
                        }
                    }
                }
            }
            if is_below {
                low = middle + 1;
            } else {
                high = middle;
            }
        }
        low
    }

    spec fn below(self, index: usize, bound: Binary64, inclusive: bool) -> bool {
        if inclusive {
            self.positions@[index as int].le(bound)
        } else {
            self.positions@[index as int].lt(bound)
        }
    }

    /// Append the particles between two bounds, both included.
    fn append_sorted_position_range(
        &self,
        lower: Binary64,
        upper: Binary64,
        output: &mut Vec<usize>,
    )
        requires
            self.wf(),
        ensures
            forall|index: usize|
                #[trigger] final(output)@.contains(index) <==> old(output)@.contains(index) || (
                index < self.positions@.len() && in_range(
                    self.positions@[index as int],
                    lower,
                    upper,
                )),
    {
        let start: usize = self.partition(lower, false);
        let end: usize = self.partition(upper, true);
        let ghost before = output@;
        let mut k: usize = start;
        while k < end
            invariant
                self.wf(),
                start <= k,
                k <= end || end < start,
                end <= self.sorted@.len(),
                forall|at: int|
                    0 <= at < start ==> self.below(#[trigger] self.sorted@[at], lower, false),
                forall|at: int|
                    start <= at < self.sorted@.len() ==> !self.below(
                        #[trigger] self.sorted@[at],
                        lower,
                        false,
                    ),
                forall|at: int|
                    0 <= at < end ==> self.below(#[trigger] self.sorted@[at], upper, true),
                forall|index: usize|
                    #[trigger] output@.contains(index) ==> before.contains(index) || (index
                        < self.positions@.len() && in_range(
                        self.positions@[index as int],
                        lower,
                        upper,
                    )),
                forall|index: usize| before.contains(index) ==> #[trigger] output@.contains(index),
                forall|at: int|
                    start <= at < k ==> output@.contains(#[trigger] self.sorted@[at]),
            decreases end - k,
        {
            let ghost previous = output@;
            output.push(self.sorted[k]);
            proof {
                assert(output@ =~= previous.push(self.sorted@[k as int]));
                assert forall|index: usize| previous.contains(index) implies output@.contains(
                    index,
                ) by {
                    let at = choose|at: int| 0 <= at < previous.len() && previous[at] == index;
                    assert(output@[at] == index);
                }
                assert(output@[previous.len() as int] == self.sorted@[k as int]);
                assert forall|index: usize| before.contains(index) implies output@.contains(
                    index,
                ) by {
                    assert(previous.contains(index));
                }
                assert forall|index: usize| #[trigger] output@.contains(index) implies before.contains(
                    index,
                ) || (index < self.positions@.len() && in_range(
                    self.positions@[index as int],
                    lower,
                    upper,
                )) by {
                    let at = choose|at: int| 0 <= at < output@.len() && output@[at] == index;
                    if at < previous.len() {
                        assert(previous[at] == index);
                        assert(previous.contains(index));
                    } else {
                        assert(!self.below(self.sorted@[k as int], lower, false));
                        assert(self.below(self.sorted@[k as int], upper, true));
                    }
                }
            }
            k = k + 1;
        }
        proof {
            assert forall|index: usize|
                index < self.positions@.len() && in_range(
                    self.positions@[index as int],
                    lower,
                    upper,
                ) implies #[trigger] output@.contains(index) by {
                assert(self.sorted@.contains(index));
                let at = choose|at: int| 0 <= at < self.sorted@.len() && self.sorted@[at] == index;
                if at < start {
                    assert(self.below(self.sorted@[at], lower, false));
                }
                if at >= end {
                    assert(!self.below(self.sorted@[at], upper, true));
                }
                assert(output@.contains(self.sorted@[at]));
            }
        }
    }

    /// The particles that a search covers, in index order.
    pub fn query(&self, reach: Reach1d) -> (result: Vec<usize>)
        requires
            self.wf(),
        ensures
            increasing(result@),
            forall|index: usize|
                #[trigger] result@.contains(index) <==> index < self.positions().len()
                    && reach.covers(
                    self.boundary(),
                    self.box_size(),
                    self.positions()[index as int],
                ),
    {
        let zero: Binary64 = Binary64 { bits: 0 };
        let mut output: Vec<usize> = Vec::new();
        if self.boundary == BoundaryMode1d::Reflective {
            self.append_sorted_position_range(
                reach.lower.max(zero),
                reach.upper.min(self.box_size),
                &mut output,
            );
        } else if reach.half_box.at_most(reach.support) {
            let mut index: usize = 0;
            while index < self.positions.len()
                invariant
                    index <= self.positions@.len(),
                    output@.len() == index,
                    forall|k: int| 0 <= k < index ==> #[trigger] output@[k] == k,
                decreases self.positions@.len() - index,
            {
                output.push(index);
                index = index + 1;
            }
            proof {
                assert forall|index: usize| #[trigger] output@.contains(index) <==> index
                    < self.positions@.len() by {
                    if index < self.positions@.len() {
                        assert(output@[index as int] == index);
                    }
                }
            }
        } else if reach.lower.less(zero) {
            self.append_sorted_position_range(zero, reach.upper, &mut output);
            self.append_sorted_position_range(reach.wrapped_lower, self.box_size, &mut output);
        } else if self.box_size.at_most(reach.upper) {
            self.append_sorted_position_range(reach.lower, self.box_size, &mut output);
            self.append_sorted_position_range(zero, reach.wrapped_upper, &mut output);
        } else {
            self.append_sorted_position_range(reach.lower, reach.upper, &mut output);
        }
        sort_dedup(&output)
    }
}

/// A coordinate below zero lies in no domain and one between the ends in every domain; the
/// upper end itself belongs to a reflective domain and not to a periodic one.
pub proof fn law_domains(position: Binary64, box_size: Binary64)
    requires
        position.finite(),
        box_size.positive(),
    ensures
        position.lt(Binary64 { bits: 0 }) ==> !BoundaryMode1d::Periodic.inside(position, box_size)
            && !BoundaryMode1d::Reflective.inside(position, box_size),
        (Binary64 { bits: 0 }).le(position) && position.lt(box_size)
            ==> BoundaryMode1d::Periodic.inside(position, box_size)
            && BoundaryMode1d::Reflective.inside(position, box_size),
        position.same(box_size) ==> !BoundaryMode1d::Periodic.inside(position, box_size)
            && BoundaryMode1d::Reflective.inside(position, box_size),
        box_size.lt(position) ==> !BoundaryMode1d::Periodic.inside(position, box_size)
            && !BoundaryMode1d::Reflective.inside(position, box_size),
{
}

/// A coordinate is in a range exactly where neither end excludes it; both ends belong to it.
pub proof fn law_ranges(position: Binary64, lower: Binary64, upper: Binary64)
    requires
        !position.nan(),
        !lower.nan(),
        !upper.nan(),
    ensures
        in_range(position, lower, upper) <==> lower.le(position) && position.le(upper),
        lower.le(upper) ==> in_range(lower, lower, upper) && in_range(upper, lower, upper),
{
}

/// Inside a reflective domain a search covers what lies between its ends.
pub proof fn law_reflective_searches(reach: Reach1d, box_size: Binary64, position: Binary64)
    requires
        BoundaryMode1d::Reflective.inside(position, box_size),
        !box_size.nan(),
        !reach.lower.nan(),
        !reach.upper.nan(),
    ensures
        reach.covers(BoundaryMode1d::Reflective, box_size, position) <==> reach.lower.le(position)
            && position.le(reach.upper),
{
}

/// Inside a periodic domain a search covers what lies between its ends, and what lies beyond
/// the wrapped end where one of them leaves the domain; half the domain reaches everything.
pub proof fn law_periodic_searches(reach: Reach1d, box_size: Binary64, position: Binary64)
    requires
        BoundaryMode1d::Periodic.inside(position, box_size),
        reach.half_box.finite(),
        reach.support.finite(),
        reach.lower.finite(),
        reach.upper.finite(),
        reach.wrapped_lower.finite(),
        reach.wrapped_upper.finite(),
        box_size.finite(),
    ensures
        ({
            let zero = Binary64 { bits: 0 };
            let covered = reach.covers(BoundaryMode1d::Periodic, box_size, position);
            &&& reach.half_box.le(reach.support) ==> covered
            &&& reach.lower.le(position) && position.le(reach.upper) ==> covered
            &&& reach.support.lt(reach.half_box) ==> (covered <==> (reach.lower.le(position)
                && position.le(reach.upper)) || (reach.lower.lt(zero)
                && reach.wrapped_lower.le(position)) || (zero.le(reach.lower) && box_size.le(
                reach.upper,
            ) && position.le(reach.wrapped_upper)))
        }),
{
}

/// The key of a position orders positions as the total order of their bit patterns does.
pub proof fn law_position_keys(left: Binary64, right: Binary64)
    ensures
        0 <= order_key(left) <= u64::MAX,
        order_key(left) < order_key(right) <==> left.total_rank() < right.total_rank(),
        order_key(left) == order_key(right) <==> left.bits == right.bits,
        left.lt(right) ==> order_key(left) < order_key(right),
{
}

} // verus!
