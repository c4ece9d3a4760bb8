//! Decisions of the smoothing-length solvers.
//!
//! A solver alternates an estimate of the neighbor number at some length with a decision:
//! accept the length, give up, or narrow the bracket and try another one.

use vstd::prelude::*;

use crate::binary64::Binary64;
use crate::hydro_error::HydroError;
use crate::meshless_2d::GeometryError;

verus! {

use crate::binary64::ONE_BITS;

/// The length to try next.
#[derive(Clone, Copy, Debug, PartialEq, Eq, Structural)]
pub enum NextLength {
    /// The geometric mean of the two bounds.
    GeometricMean { lower: Binary64, upper: Binary64 },
    /// Twice the lower bound.
    Double(Binary64),
    /// Half the upper bound.
    Halve(Binary64),
}

/// What a bisection decides after an estimate.
#[derive(Clone, Copy, Debug, PartialEq, Eq, Structural)]
pub enum BisectionStep {
    /// The length satisfies the constraint.
    Accept,
    /// The estimates are used up.
    GiveUp,
    /// Estimate again at another length.
    Try(NextLength),
}

/// A bracket around the length with the wanted neighbor number.
#[derive(Clone, Copy, Debug, PartialEq, Eq, Structural)]
pub struct Bisection {
    /// The largest length found too short.
    pub lower: Option<Binary64>,
    /// The smallest length found too long.
    pub upper: Option<Binary64>,
    /// How many estimates may still be judged.
    pub remaining: u32,
}

/// How many estimates a bisection judges.
pub const BISECTION_LIMIT: u32 = 128;

/// The larger of a bound and a length.
pub open spec fn raised(bound: Option<Binary64>, length: Binary64) -> Binary64 {
    match bound {
        Some(value) => value.greater(length),
        None => length,
    }
}

/// The smaller of a bound and a length.
pub open spec fn lowered(bound: Option<Binary64>, length: Binary64) -> Binary64 {
    match bound {
        Some(value) => value.lesser(length),
        None => length,
    }
}

impl Bisection {
    /// A bisection without bounds.
    pub fn new() -> (result: Self)
        ensures
            result == (Bisection { lower: None, upper: None, remaining: BISECTION_LIMIT }),
    {
        Bisection { lower: None, upper: None, remaining: BISECTION_LIMIT }
    }

    /// The bracket after a length with too few, or with too many, neighbors.
    pub open spec fn narrowed(self, length: Binary64, too_short: bool) -> Bisection {
        if too_short {
            Bisection {
                lower: Some(raised(self.lower, length)),
                upper: self.upper,
                remaining: (self.remaining - 1) as u32,
            }
        } else {
            Bisection {
                lower: self.lower,
                upper: Some(lowered(self.upper, length)),
                remaining: (self.remaining - 1) as u32,
            }
        }
    }

    /// The length that a bracket with at least one bound asks for.
    pub open spec fn next_length(self) -> NextLength {
        match (self.lower, self.upper) {
            (Some(lower), Some(upper)) => NextLength::GeometricMean { lower, upper },
            (Some(lower), None) => NextLength::Double(lower),
            (None, Some(upper)) => NextLength::Halve(upper),
            (None, None) => NextLength::Double(Binary64 { bits: 0 }),
        }
    }

    /// Judge an estimate: `deviation` is the distance of `neighbors` from `desired`.
    pub fn judge(
        &mut self,
        length: Binary64,
        neighbors: Binary64,
        desired: Binary64,
        deviation: Binary64,
        tolerance: Binary64,
    ) -> (result: BisectionStep)
        ensures
            if old(self).remaining == 0 {
                result == BisectionStep::GiveUp && *final(self) == *old(self)
            } else if deviation.le(tolerance) {
                result == BisectionStep::Accept && *final(self) == (Bisection {
                    remaining: (old(self).remaining - 1) as u32,
                    ..*old(self)
                })
            } else {
                *final(self) == old(self).narrowed(length, neighbors.lt(desired)) && result
                    == BisectionStep::Try(final(self).next_length())
            },
            result == BisectionStep::GiveUp <==> old(self).remaining == 0,
            result == BisectionStep::Accept <==> old(self).remaining > 0 && deviation.le(tolerance),
            result is Try && neighbors.lt(desired) ==> final(self).upper == old(self).upper,
            result is Try && !neighbors.lt(desired) ==> final(self).lower == old(self).lower,
            result is Try && neighbors.lt(desired) && !length.nan() ==> length.le(final(self).lower->0),
            result is Try && !neighbors.lt(desired) && !length.nan() ==> (final(self).upper->0).le(length),
    {
        if self.remaining == 0 {
            return BisectionStep::GiveUp;
        }
        self.remaining = self.remaining - 1;
        if deviation.at_most(tolerance) {
            return BisectionStep::Accept;
        }
        if neighbors.less(desired) {
            let lower: Binary64 = match self.lower {
                Some(bound) => bound.max(length),
                None => length,
            };
            self.lower = Some(lower);
        } else {
            let upper: Binary64 = match self.upper {
                Some(bound) => bound.min(length),
                None => length,
            };
            self.upper = Some(upper);
        }
        let next: NextLength = match (self.lower, self.upper) {
            (Some(lower), Some(upper)) => NextLength::GeometricMean { lower, upper },
            (Some(lower), None) => NextLength::Double(lower),
            (None, Some(upper)) => NextLength::Halve(upper),
            (None, None) => NextLength::Double(Binary64 { bits: 0 }),
        };
        BisectionStep::Try(next)
    }
}

/// A bracket only ever narrows.
pub proof fn law_brackets_narrow(bracket: Bisection, length: Binary64, too_short: bool)
    requires
        bracket.remaining > 0,
        !length.nan(),
        bracket.lower matches Some(lower) ==> !lower.nan(),
        bracket.upper matches Some(upper) ==> !upper.nan(),
    ensures
        bracket.lower matches Some(lower) ==> lower.le(
            bracket.narrowed(length, too_short).lower->0,
        ) && bracket.narrowed(length, too_short).lower is Some,
        bracket.upper matches Some(upper) ==> bracket.narrowed(length, too_short).upper is Some
            && (bracket.narrowed(length, too_short).upper->0).le(upper),
        bracket.narrowed(length, too_short).remaining < bracket.remaining,
{
}

/// A trial strictly inside a bracket leaves a bracket whose bounds are still in order.
pub proof fn law_inner_trials_keep_the_bounds_ordered(
    bracket: Bisection,
    length: Binary64,
    too_short: bool,
)
    requires
        bracket.remaining > 0,
        bracket.lower is Some,
        bracket.upper is Some,
        (bracket.lower->0).lt(length),
        length.lt(bracket.upper->0),
    ensures
        bracket.narrowed(length, too_short).lower is Some,
        bracket.narrowed(length, too_short).upper is Some,
        (bracket.narrowed(length, too_short).lower->0).lt(
            bracket.narrowed(length, too_short).upper->0,
        ),
        too_short ==> bracket.narrowed(length, too_short).lower == Some(length),
        !too_short ==> bracket.narrowed(length, too_short).upper == Some(length),
{
}

/// Whether a trial length can be estimated at all.
pub fn is_usable_length(length: Binary64) -> (result: bool)
    ensures
        result == length.positive(),
        result <==> (Binary64 { bits: 0 }).lt(length) && length.finite(),
{
    length.is_positive()
}

/// What the seeded iteration decides after an estimate.
#[derive(Clone, Copy, Debug, PartialEq, Eq, Structural)]
pub enum SeedStep {
    /// The length is accepted.
    Accept,
    /// The iterations are used up.
    GiveUp,
    /// Jump to another length.
    Jump,
}

/// The last iteration of a seeded solve.
pub const SEED_ITERATION_LIMIT: u32 = 128;

/// A seeded solve: two bounds, zero while unset, and the iteration.
#[derive(Clone, Copy, Debug, PartialEq, Eq, Structural)]
pub struct SeedSolver {
    pub lower: Binary64,
    pub upper: Binary64,
    pub iteration: u32,
}

/// What an estimate at the current length came to.
#[derive(Clone, Copy, Debug, PartialEq, Eq, Structural)]
pub struct SeedEstimate {
    /// The current length.
    pub length: Binary64,
    /// The effective neighbor number.
    pub neighbors: Binary64,
    /// Its distance from the corrected desired number.
    pub deviation: Binary64,
    /// The tolerance of this iteration.
    pub tolerance: Binary64,
    /// The corrected desired number minus the tolerance.
    pub shortfall: Binary64,
    /// The upper bound minus the lower bound.
    pub width: Binary64,
    /// The width below which the bracket counts as converged.
    pub narrow_width: Binary64,
}

impl SeedSolver {
    /// A solve before its first iteration.
    pub fn new() -> (result: Self)
        ensures
            result == (SeedSolver {
                lower: Binary64 { bits: 0 },
                upper: Binary64 { bits: 0 },
                iteration: 0,
            }),
    {
        SeedSolver { lower: Binary64 { bits: 0 }, upper: Binary64 { bits: 0 }, iteration: 0 }
    }

    /// Whether both bounds are set.
    pub open spec fn bracketed(self) -> bool {
        let zero = Binary64 { bits: 0 };
        zero.lt(self.lower) && zero.lt(self.upper)
    }

    /// Whether both bounds are set.
    pub fn is_bracketed(self) -> (result: bool)
        ensures
            result == self.bracketed(),
            result <==> (Binary64 { bits: 0 }).lt(self.lower) && (Binary64 { bits: 0 }).lt(self.upper),
    {
        let zero: Binary64 = Binary64 { bits: 0 };
        zero.less(self.lower) && zero.less(self.upper)
    }

    /// Whether an estimate ends the solve: within the tolerance, or between two bounds that
    /// nearly agree.
    pub open spec fn accepts(self, estimate: SeedEstimate) -> bool {
        ||| estimate.deviation.le(estimate.tolerance)
        ||| self.bracketed() && estimate.width.lt(estimate.narrow_width)
    }

    /// The bounds after an estimate that was not accepted.
    pub open spec fn bounded(self, estimate: SeedEstimate) -> SeedSolver {
        let zero = Binary64 { bits: 0 };
        if estimate.neighbors.lt(estimate.shortfall) {
            SeedSolver {
                lower: self.lower.greater(estimate.length),
                upper: self.upper,
                iteration: (self.iteration + 1) as u32,
            }
        } else if self.upper.same(zero) || estimate.length.lt(self.upper) {
            SeedSolver {
                lower: self.lower,
                upper: estimate.length,
                iteration: (self.iteration + 1) as u32,
            }
        } else {
            SeedSolver { iteration: (self.iteration + 1) as u32, ..self }
        }
    }

    /// Judge an estimate.
    pub fn judge(&mut self, estimate: SeedEstimate) -> (result: SeedStep)
        requires
            old(self).iteration <= SEED_ITERATION_LIMIT,
        ensures
            final(self).iteration <= SEED_ITERATION_LIMIT,
            result == if old(self).accepts(estimate) {
                SeedStep::Accept
            } else if old(self).iteration == SEED_ITERATION_LIMIT {
                SeedStep::GiveUp
            } else {
                SeedStep::Jump
            },
            *final(self) == if result == SeedStep::Jump {
                old(self).bounded(estimate)
            } else {
                *old(self)
            },
            result == SeedStep::Accept ==> estimate.deviation.le(estimate.tolerance) || ((Binary64 {
                bits: 0,
            }).lt(old(self).lower) && (Binary64 { bits: 0 }).lt(old(self).upper)
                && estimate.width.lt(estimate.narrow_width)),
            estimate.deviation.le(estimate.tolerance) ==> result == SeedStep::Accept,
            result == SeedStep::GiveUp ==> old(self).iteration == 128,
            result == SeedStep::Jump ==> final(self).iteration == old(self).iteration + 1,
            result != SeedStep::Jump ==> *final(self) == *old(self),
    {
        let zero: Binary64 = Binary64 { bits: 0 };
        if estimate.deviation.at_most(estimate.tolerance) {
            return SeedStep::Accept;
        }
        if self.is_bracketed() && estimate.width.less(estimate.narrow_width) {
            return SeedStep::Accept;
        }
        if self.iteration == SEED_ITERATION_LIMIT {
            return SeedStep::GiveUp;
        }
        if estimate.neighbors.less(estimate.shortfall) {
            self.lower = self.lower.max(estimate.length);
        } else if self.upper.equals(zero) || estimate.length.less(self.upper) {
            self.upper = estimate.length;
        }
        self.iteration = self.iteration + 1;
        SeedStep::Jump
    }

    /// The bounds as a failed solve reports them: absent while unset.
    pub fn reported_bounds(self) -> (result: (Option<Binary64>, Option<Binary64>))
        ensures
            result.0 == if (Binary64 { bits: 0 }).lt(self.lower) {
                Some(self.lower)
            } else {
                None
            },
            result.1 == if (Binary64 { bits: 0 }).lt(self.upper) {
                Some(self.upper)
            } else {
                None
            },
            result.0 is Some <==> (Binary64 { bits: 0 }).lt(self.lower),
            result.1 is Some <==> (Binary64 { bits: 0 }).lt(self.upper),
    {
        let zero: Binary64 = Binary64 { bits: 0 };
        (
            if zero.less(self.lower) {
                Some(self.lower)
            } else {
                None
            },
            if zero.less(self.upper) {
                Some(self.upper)
            } else {
                None
            },
        )
    }
}

/// The bounds of a seeded solve only ever close in: the lower one never falls, and the
/// upper one, once set, never rises.
pub proof fn law_seed_bounds_close_in(solver: SeedSolver, estimate: SeedEstimate)
    requires
        solver.iteration < SEED_ITERATION_LIMIT,
        solver.lower.nonnegative(),
        solver.upper.nonnegative(),
        estimate.length.positive(),
    ensures
        solver.lower.le(solver.bounded(estimate).lower),
        solver.upper.rank() > 0 ==> solver.bounded(estimate).upper.le(solver.upper),
        solver.bounded(estimate).lower.nonnegative(),
        solver.bounded(estimate).upper.nonnegative(),
        solver.bounded(estimate).iteration == solver.iteration + 1,
{
}

/// Which formula gives the next length of a seeded solve.
#[derive(Clone, Copy, Debug, PartialEq, Eq, Structural)]
pub enum JumpRegime {
    /// Both bounds are set and there are neighbors to scale with.
    Bracketed,
    /// Both bounds are set and there is at most one neighbor: double the length.
    BracketedDoubling,
    /// No upper bound yet; `near` tells that the slope can be trusted.
    Growing { near: bool },
    /// No lower bound yet; `near` tells that the slope can be trusted.
    Shrinking { near: bool },
}

/// The formula for a state of the solve.
pub open spec fn regime(
    solver: SeedSolver,
    neighbors: Binary64,
    twice_desired: Binary64,
    tenth_desired: Binary64,
) -> JumpRegime {
    let near = neighbors.lt(twice_desired) && tenth_desired.lt(neighbors);
    if solver.bracketed() {
        if (Binary64 { bits: ONE_BITS }).lt(neighbors) {
            JumpRegime::Bracketed
        } else {
            JumpRegime::BracketedDoubling
        }
    } else if solver.upper.same(Binary64 { bits: 0 }) {
        JumpRegime::Growing { near }
    } else {
        JumpRegime::Shrinking { near }
    }
}

/// Choose the formula for the next length.
pub fn jump_regime(
    solver: SeedSolver,
    neighbors: Binary64,
    twice_desired: Binary64,
    tenth_desired: Binary64,
) -> (result: JumpRegime)
    ensures
        result == regime(solver, neighbors, twice_desired, tenth_desired),
{
    let zero: Binary64 = Binary64 { bits: 0 };
    let one: Binary64 = Binary64 { bits: ONE_BITS };
    if solver.is_bracketed() {
        if one.less(neighbors) {
            return JumpRegime::Bracketed;
        }
        return JumpRegime::BracketedDoubling;
    }
    let near: bool = neighbors.less(twice_desired) && tenth_desired.less(neighbors);
    if solver.upper.equals(zero) {
        JumpRegime::Growing { near }
    } else {
        JumpRegime::Shrinking { near }
    }
}

/// Whether the logarithm of the neighbor ratio is defined; a fixed jump applies otherwise.
pub fn has_neighbors(neighbors: Binary64) -> (result: bool)
    ensures
        result == (Binary64 { bits: ONE_BITS }).lt(neighbors),
        result ==> !neighbors.le(Binary64 { bits: ONE_BITS }),
        !result && !neighbors.nan() ==> neighbors.le(Binary64 { bits: ONE_BITS }),
{
    let one: Binary64 = Binary64 { bits: ONE_BITS };
    one.less(neighbors)
}

/// Whether a bracketed jump is raised to the minimum jump.
pub fn minimum_jump_applies(iteration: u32, jump: Binary64, minimum: Binary64) -> (result: bool)
    ensures
        result == (iteration > 1 && jump.lt(minimum)),
        iteration <= 1 || minimum.le(jump) ==> !result,
        2 <= iteration && jump.lt(minimum) ==> result,
{
    iteration > 1 && jump.less(minimum)
}

/// How the slope of an unbracketed jump is treated.
#[derive(Clone, Copy, Debug, PartialEq, Eq, Structural)]
pub struct SlopeTreatment {
    /// Average the slope with one.
    pub averaged: bool,
    /// Multiply the jump by ten.
    pub boosted: bool,
}

/// Choose how the slope is treated: averaged after the second iteration where it is below
/// one, boosted from the fourth where it is exactly one.
pub fn slope_treatment(iteration: u32, slope: Binary64) -> (result: SlopeTreatment)
    ensures
        result.averaged == (iteration > 2 && slope.lt(Binary64 { bits: ONE_BITS })),
        result.boosted == (iteration >= 4 && slope.same(Binary64 { bits: ONE_BITS })),
        !(result.averaged && result.boosted),
        result.averaged ==> 3 <= iteration && !(Binary64 { bits: ONE_BITS }).le(slope),
        3 <= iteration && slope.lt(Binary64 { bits: ONE_BITS }) ==> result.averaged,
        result.boosted ==> 4 <= iteration && !slope.lt(Binary64 { bits: ONE_BITS }),
        4 <= iteration && slope.same(Binary64 { bits: ONE_BITS }) ==> result.boosted,
{
    let one: Binary64 = Binary64 { bits: ONE_BITS };
    SlopeTreatment {
        averaged: iteration > 2 && slope.less(one),
        boosted: iteration >= 4 && slope.equals(one),
    }
}

/// Where a bracketed trial fell.
#[derive(Clone, Copy, Debug, PartialEq, Eq, Structural)]
pub enum BracketPlacement {
    /// Strictly between the bounds, and kept.
    Inside,
    /// Strictly between the bounds, and to be kept away from them.
    InsideLimited,
    /// At a bound or beyond.
    Outside,
}

/// Place a bracketed trial.
pub fn place_in_bracket(solver: SeedSolver, iteration: u32, length: Binary64) -> (result:
    BracketPlacement)
    ensures
        result == if length.lt(solver.upper) && solver.lower.lt(length) {
            if iteration > 1 {
                BracketPlacement::InsideLimited
            } else {
                BracketPlacement::Inside
            }
        } else {
            BracketPlacement::Outside
        },
        result == BracketPlacement::Outside <==> !(solver.lower.lt(length) && length.lt(solver.upper)),
        result == BracketPlacement::Inside ==> iteration <= 1,
        result == BracketPlacement::InsideLimited ==> 2 <= iteration,
{
    if length.less(solver.upper) && solver.lower.less(length) {
        if iteration > 1 {
            BracketPlacement::InsideLimited
        } else {
            BracketPlacement::Inside
        }
    } else {
        BracketPlacement::Outside
    }
}

/// Bring a trial below an upper limit, then above a lower limit.
pub open spec fn limited(length: Binary64, upper: Binary64, lower: Binary64) -> Binary64 {
    let below = if upper.lt(length) {
        upper
    } else {
        length
    };
    if below.lt(lower) {
        lower
    } else {
        below
    }
}

/// Bring a trial between two limits.
pub fn limit_length(length: Binary64, upper: Binary64, lower: Binary64) -> (result: Binary64)
    ensures
        result == limited(length, upper, lower),
        !length.nan() && lower.le(upper) ==> lower.le(result) && result.le(upper),
{
    let below: Binary64 = if upper.less(length) {
        upper
    } else {
        length
    };
    if below.less(lower) {
        lower
    } else {
        below
    }
}

/// A limited trial lies between its limits.
pub proof fn law_limited_trials_lie_between(length: Binary64, upper: Binary64, lower: Binary64)
    requires
        !length.nan(),
        lower.le(upper),
    ensures
        lower.le(limited(length, upper, lower)),
        limited(length, upper, lower).le(upper),
{
}

impl Bisection {
    /// The error of a particle whose bisection found no length.
    pub fn failure(self, index: usize, effective_neighbors: Binary64) -> (result: HydroError)
        ensures
            result == (HydroError::SmoothingLengthDidNotConverge {
                index,
                lower: self.lower,
                upper: self.upper,
                effective_neighbors,
            }),
    {
        HydroError::SmoothingLengthDidNotConverge {
            index,
            lower: self.lower,
            upper: self.upper,
            effective_neighbors,
        }
    }
}

impl SeedSolver {
    /// A bound as a failed solve reports it: absent while unset.
    pub open spec fn reported(bound: Binary64) -> Option<Binary64> {
        if (Binary64 { bits: 0 }).lt(bound) {
            Some(bound)
        } else {
            None
        }
    }

    /// The error of a particle whose one-dimensional solve found no length.
    pub fn failure_1d(self, index: usize, effective_neighbors: Binary64) -> (result: HydroError)
        ensures
            result == (HydroError::SmoothingLengthDidNotConverge {
                index,
                lower: Self::reported(self.lower),
                upper: Self::reported(self.upper),
                effective_neighbors,
            }),
    {
        let bounds: (Option<Binary64>, Option<Binary64>) = self.reported_bounds();
        HydroError::SmoothingLengthDidNotConverge {
            index,
            lower: bounds.0,
            upper: bounds.1,
            effective_neighbors,
        }
    }

    /// The error of a particle whose planar solve found no length.
    pub fn failure_2d(self, index: usize, effective_neighbors: Binary64) -> (result: GeometryError)
        ensures
            result == (GeometryError::SmoothingLengthDidNotConverge {
                index,
                lower: Self::reported(self.lower),
                upper: Self::reported(self.upper),
                effective_neighbors,
            }),
    {
        let bounds: (Option<Binary64>, Option<Binary64>) = self.reported_bounds();
        GeometryError::SmoothingLengthDidNotConverge {
            index,
            lower: bounds.0,
            upper: bounds.1,
            effective_neighbors,
        }
    }
}

/// A bracket learns from every trial: too short a trial raises the lower bound to at least
/// its length and leaves the upper bound alone, any other lowers the upper bound to at most
/// its length and leaves the lower bound alone. A new bound is an old one or the trial.
pub proof fn law_trials_move_one_bound(bracket: Bisection, length: Binary64, too_short: bool)
    requires
        bracket.remaining > 0,
        !length.nan(),
    ensures
        too_short ==> {
            let next = bracket.narrowed(length, too_short);
            &&& next.upper == bracket.upper
            &&& next.lower is Some && length.le(next.lower->0)
            &&& next.lower == Some(length) || next.lower == bracket.lower
        },
        !too_short ==> {
            let next = bracket.narrowed(length, too_short);
            &&& next.lower == bracket.lower
            &&& next.upper is Some && (next.upper->0).le(length)
            &&& next.upper == Some(length) || next.upper == bracket.upper
        },
        bracket.narrowed(length, too_short).remaining == bracket.remaining - 1,
{
}

/// The next trial lies between both bounds where both are known, and beyond the one that is
/// known where only one is.
pub proof fn law_next_trials_follow_the_bounds(bracket: Bisection)
    ensures
        bracket.next_length() matches NextLength::GeometricMean { lower, upper } ==> bracket.lower
            == Some(lower) && bracket.upper == Some(upper),
        bracket.lower is Some && bracket.upper is Some ==> bracket.next_length()
            is GeometricMean,
        bracket.lower matches Some(lower) ==> bracket.upper is None ==> bracket.next_length()
            == NextLength::Double(lower),
        bracket.upper matches Some(upper) ==> bracket.lower is None ==> bracket.next_length()
            == NextLength::Halve(upper),
        BISECTION_LIMIT == 128,
{
}

/// A seeded solve ends with a length only where the neighbors are as many as desired, or
/// where the bracket around the length is narrow; with a wide bracket and the wrong number of
/// neighbors it never does.
pub proof fn law_seeds_are_accepted_for_a_reason(solver: SeedSolver, estimate: SeedEstimate)
    ensures
        solver.accepts(estimate) ==> estimate.deviation.le(estimate.tolerance) || ((Binary64 {
            bits: 0,
        }).lt(solver.lower) && (Binary64 { bits: 0 }).lt(solver.upper) && estimate.width.lt(
            estimate.narrow_width,
        )),
        estimate.deviation.le(estimate.tolerance) ==> solver.accepts(estimate),
        estimate.width.lt(estimate.narrow_width) && solver.lower.positive()
            && solver.upper.positive() ==> solver.accepts(estimate),
        !estimate.deviation.le(estimate.tolerance) && estimate.narrow_width.le(estimate.width)
            ==> !solver.accepts(estimate),
        !estimate.deviation.le(estimate.tolerance) && (solver.lower.le(Binary64 { bits: 0 })
            || solver.upper.le(Binary64 { bits: 0 })) ==> !solver.accepts(estimate),
        SEED_ITERATION_LIMIT == 128,
{
}

/// A rejected seed moves one bound: too few neighbors raise the lower bound to at least the
/// length, any other number keeps the lower bound and leaves an upper bound that is not
/// above the length.
pub proof fn law_rejected_seeds_move_one_bound(solver: SeedSolver, estimate: SeedEstimate)
    requires
        solver.iteration < SEED_ITERATION_LIMIT,
        solver.lower.nonnegative(),
        solver.upper.nonnegative(),
        estimate.length.positive(),
    ensures
        estimate.neighbors.lt(estimate.shortfall) ==> {
            let next = solver.bounded(estimate);
            &&& next.upper == solver.upper
            &&& estimate.length.le(next.lower)
            &&& next.lower == estimate.length || next.lower == solver.lower
        },
        !estimate.neighbors.lt(estimate.shortfall) ==> {
            let next = solver.bounded(estimate);
            &&& next.lower == solver.lower
            &&& next.upper.positive() && next.upper.le(estimate.length)
            &&& next.upper == estimate.length || next.upper == solver.upper
        },
{
}

/// The formula of a jump follows from the bounds: a bracketed one where both are set, growth
/// while there is no upper bound, shrinking while there is no lower one. A jump is near where
/// the neighbors are within a tenth and twice of what is desired.
pub proof fn law_jumps_follow_the_bounds(
    solver: SeedSolver,
    neighbors: Binary64,
    twice_desired: Binary64,
    tenth_desired: Binary64,
)
    requires
        solver.lower.nonnegative(),
        solver.upper.nonnegative(),
        !neighbors.nan(),
    ensures
        solver.lower.positive() && solver.upper.positive() <==> {
            ||| regime(solver, neighbors, twice_desired, tenth_desired) == JumpRegime::Bracketed
            ||| regime(solver, neighbors, twice_desired, tenth_desired)
                == JumpRegime::BracketedDoubling
        },
        regime(solver, neighbors, twice_desired, tenth_desired) is Growing <==> !(Binary64 {
            bits: 0,
        }).lt(solver.upper),
        regime(solver, neighbors, twice_desired, tenth_desired) is Shrinking
            <==> solver.upper.positive() && !solver.lower.positive(),
        regime(solver, neighbors, twice_desired, tenth_desired) == JumpRegime::BracketedDoubling
            ==> neighbors.le(Binary64 { bits: ONE_BITS }),
        regime(solver, neighbors, twice_desired, tenth_desired) == JumpRegime::Bracketed ==> (
        Binary64 { bits: ONE_BITS }).lt(neighbors),
        regime(solver, neighbors, twice_desired, tenth_desired) matches JumpRegime::Growing { near }
            ==> near == (tenth_desired.lt(neighbors) && neighbors.lt(twice_desired)),
        regime(solver, neighbors, twice_desired, tenth_desired) matches JumpRegime::Shrinking {
            near,
        } ==> near == (tenth_desired.lt(neighbors) && neighbors.lt(twice_desired)),
{
}

/// A trial that lies between the limits is left alone, any other becomes the limit that it
/// crossed.
pub proof fn law_limits_move_only_what_crosses_them(
    length: Binary64,
    upper: Binary64,
    lower: Binary64,
)
    requires
        !length.nan(),
        lower.le(upper),
    ensures
        lower.le(length) && length.le(upper) ==> limited(length, upper, lower) == length,
        upper.lt(length) ==> limited(length, upper, lower) == upper,
        length.lt(lower) ==> limited(length, upper, lower) == lower,
{
}

/// A failed solve reports the bounds that were set, and no others.
pub proof fn law_reported_bounds_are_the_set_ones(bound: Binary64)
    ensures
        SeedSolver::reported(bound) is Some <==> (Binary64 { bits: 0 }).lt(bound),
        SeedSolver::reported(bound) matches Some(value) ==> value == bound,
{
}

} // verus!
