//! Meshless geometry in the plane: the arithmetic of a caller around the decisions of the
//! library.

use std::f64::consts::PI;
use std::ops::{Add, AddAssign, Div, Neg, Sub, SubAssign};
use gizmo_hydro::{cell_list_2d, estimates, meshless_2d, riemann, smoothing, Binary64};
use gizmo_hydro::columns_1d::{image_shift, ImageShift};
use gizmo_hydro::estimates::{
    DensityGeometry, MomentRegularization, MomentStep, Response, SymmetricMoment,
};
use gizmo_hydro::incidence::{pair_incidence, PairTerm};
use gizmo_hydro::kernel::{
    kernel_piece, validate_kernel_input_2d, validate_kernel_value_2d, KernelPiece,
};
use gizmo_hydro::meshless_2d::{FaceGeometryPath2d, GeometryError};
use gizmo_hydro::pairs::{supported_neighbors, union_pairs};
use gizmo_hydro::smoothing::{BracketPlacement, JumpRegime, SeedEstimate, SeedSolver, SeedStep};

/// A native value with a counterpart made of bit patterns.
trait Pattern: Copy {
    type Bits;

    fn bits(self) -> Self::Bits;

    fn native(bits: Self::Bits) -> Self;
}

impl Pattern for f64 {
    type Bits = Binary64;

    fn bits(self) -> Binary64 {
        b(self)
    }

    fn native(bits: Binary64) -> Self {
        f(bits)
    }
}

fn b(value: f64) -> Binary64 {
    Binary64::from_bits(value.to_bits())
}

fn f(value: Binary64) -> f64 {
    f64::from_bits(value.to_bits())
}

fn bs<T: Pattern>(values: &[T]) -> Vec<T::Bits> {
    values.iter().map(|value| value.bits()).collect()
}

/// Sum what the pairs contribute to every particle.
fn gather<T>(incidence: &[Vec<PairTerm>], zero: T, values: &[T]) -> Vec<T>
where
    T: Copy + Add<Output = T> + Sub<Output = T>,
{
    let enter = |sum: T, term: &PairTerm| {
        let value = values[term.pair];
        if term.added { sum + value } else { sum - value }
    };
    incidence.iter().map(|terms| terms.iter().fold(zero, enter)).collect()
}

#[derive(Clone, Copy, Debug, PartialEq)]
struct KernelValue {
    weight: f64,
    radial_derivative: f64,
}

fn cubic_shape(u: f64) -> (f64, f64) {
    match kernel_piece(b(u)) {
        KernelPiece::Core => (1.0 + 6.0 * (u - 1.0) * u * u, u * (18.0 * u - 12.0)),
        KernelPiece::Tail => {
            let one_minus_u = 1.0 - u;
            let squared = one_minus_u * one_minus_u;
            (2.0 * squared * one_minus_u, -6.0 * squared)
        }
        KernelPiece::Outside => (0.0, 0.0),
    }
}

#[derive(Clone, Copy, Debug, PartialEq)]
struct DensityEstimate {
    density: f64,
    effective_neighbors: f64,
    dhsml_factor: f64,
}

#[derive(Clone, Copy, Debug, PartialEq)]
struct AdaptiveDensityEstimate {
    smoothing_length: f64,
    estimate: DensityEstimate,
}

fn response(treatment: Response, raw: f64) -> f64 {
    match treatment {
        Response::Empty => 0.0,
        Response::Corrected => 1.0 / (1.0 + raw),
        Response::Unit => 1.0,
    }
}

fn solve_from_seed<E>(
    seed: f64,
    desired_neighbors: f64,
    base_tolerance: f64,
    dimensions: f64,
    measure: impl Fn(f64) -> Result<(DensityEstimate, f64), E>,
) -> Result<Result<AdaptiveDensityEstimate, (SeedSolver, f64)>, E> {
    let mut h = seed;
    let mut solver = SeedSolver::new();
    loop {
        let (estimate, face_closure_error) = measure(h)?;
        let neighbors = estimate.effective_neighbors;
        let iteration = solver.iteration;
        let correction = (face_closure_error / 0.35).clamp(1.0, 2.0);
        let desired = desired_neighbors * correction;
        let narrow = base_tolerance * correction;
        let tolerance = if iteration > 1 {
            let growth = (0.1 * (desired / (16.0 * narrow)).ln() * f64::from(iteration)).exp();
            (narrow * growth).min(0.25 * desired)
        } else {
            narrow
        };
        let (lower, upper) = (f(solver.lower), f(solver.upper));
        let step = solver.judge(SeedEstimate {
            length: b(h),
            neighbors: b(neighbors),
            deviation: b((neighbors - desired).abs()),
            tolerance: b(tolerance),
            shortfall: b(desired - tolerance),
            width: b(upper - lower),
            narrow_width: b(1.0e-3 * lower),
        });
        match step {
            SeedStep::Accept => {
                return Ok(Ok(AdaptiveDensityEstimate { smoothing_length: h, estimate }));
            }
            SeedStep::GiveUp => return Ok(Err((solver, neighbors))),
            SeedStep::Jump => {}
        }
        h = hsml_jump(h, estimate, desired, dimensions, iteration, solver);
    }
}

fn hsml_jump(
    h: f64,
    estimate: DensityEstimate,
    desired: f64,
    dimensions: f64,
    iteration: u32,
    solver: SeedSolver,
) -> f64 {
    let neighbors = estimate.effective_neighbors;
    let (lower, upper) = (f(solver.lower), f(solver.upper));
    let needed = (desired / neighbors).ln();
    let regime = smoothing::jump_regime(solver, b(neighbors), b(2.0 * desired), b(0.1 * desired));
    let near = match regime {
        JumpRegime::Bracketed | JumpRegime::BracketedDoubling => {
            let max_jump = if iteration > 1 { 0.2 * (upper / lower).ln() } else { 0.0 };
            let mut length = h * 2.0;
            if regime == JumpRegime::Bracketed {
                let mut jump = estimate.dhsml_factor * needed / dimensions;
                if smoothing::minimum_jump_applies(iteration, b(jump.abs()), b(max_jump)) {
                    jump = max_jump.copysign(jump);
                }
                length = h * jump.exp();
            }
            return match smoothing::place_in_bracket(solver, iteration, b(length)) {
                BracketPlacement::Inside => length,
                BracketPlacement::InsideLimited => {
                    let factor = max_jump.exp();
                    f(smoothing::limit_length(b(length), b(upper / factor), b(lower * factor)))
                }
                BracketPlacement::Outside => {
                    (length.clamp(lower, upper) * lower * upper).powf(1.0 / 3.0)
                }
            };
        }
        JumpRegime::Growing { near } | JumpRegime::Shrinking { near } => near,
    };
    let growing = matches!(regime, JumpRegime::Growing { .. });
    let mut limited =
        if smoothing::has_neighbors(b(neighbors)) { needed / dimensions } else { 1.4 };
    if !growing {
        limited = limited.max(-1.535);
    }
    if !near {
        return h * limited.exp();
    }
    let treatment = smoothing::slope_treatment(iteration, b(estimate.dhsml_factor));
    let slope = if treatment.averaged {
        0.5 * (estimate.dhsml_factor + 1.0)
    } else {
        estimate.dhsml_factor
    };
    let boost = if treatment.boosted { 10.0 } else { 1.0 };
    let jump = limited * slope * boost;
    if growing {
        h * jump.min(limited + 0.231).exp()
    } else {
        h * jump.max(limited - 0.231).exp()
    }
}

fn geometry(estimate: DensityEstimate, face_closure_error: f64) -> DensityGeometry {
    DensityGeometry {
        density: b(estimate.density),
        effective_neighbors: b(estimate.effective_neighbors),
        dhsml_factor: b(estimate.dhsml_factor),
        face_closure_error: b(face_closure_error),
    }
}

fn face_weights(
    (volume_i, volume_j): (f64, f64),
    (kernel_i, kernel_j): (f64, f64),
    volume_jump: f64,
) -> (f64, f64) {
    if riemann::uses_centered_weight(b(volume_jump)) {
        let denominator = volume_i * kernel_i + volume_j * kernel_j;
        let centered = volume_i * volume_j * (kernel_i + kernel_j) / denominator;
        (centered, centered)
    } else {
        (volume_i, volume_j)
    }
}

const CUBIC_2D_NORMALIZATION: f64 = 40.0 / (7.0 * PI);

const MOMENT_CONDITION_LIMIT: f64 = 1.0e4;

#[derive(Clone, Copy, Debug, Default, PartialEq)]
struct Vector2 {
    x: f64,
    y: f64,
}

impl Pattern for Vector2 {
    type Bits = meshless_2d::Vector2;

    fn bits(self) -> Self::Bits {
        meshless_2d::Vector2 {
            x: b(self.x),
            y: b(self.y),
        }
    }

    fn native(bits: Self::Bits) -> Self {
        Self {
            x: f(bits.x),
            y: f(bits.y),
        }
    }
}

impl std::ops::Add for Vector2 {
    type Output = Self;

    fn add(self, rhs: Self) -> Self {
        Self {
            x: self.x + rhs.x,
            y: self.y + rhs.y,
        }
    }
}

impl std::ops::Sub for Vector2 {
    type Output = Self;

    fn sub(self, rhs: Self) -> Self {
        Self {
            x: self.x - rhs.x,
            y: self.y - rhs.y,
        }
    }
}

impl std::ops::Mul<f64> for Vector2 {
    type Output = Self;

    fn mul(self, rhs: f64) -> Self {
        Self {
            x: self.x * rhs,
            y: self.y * rhs,
        }
    }
}

#[derive(Clone, Copy, Debug, Default, PartialEq)]
struct Matrix2 {
    xx: f64,
    xy: f64,
    yx: f64,
    yy: f64,
}

impl Pattern for Matrix2 {
    type Bits = meshless_2d::Matrix2;

    fn bits(self) -> Self::Bits {
        meshless_2d::Matrix2 {
            xx: b(self.xx),
            xy: b(self.xy),
            yx: b(self.yx),
            yy: b(self.yy),
        }
    }

    fn native(bits: Self::Bits) -> Self {
        Self {
            xx: f(bits.xx),
            xy: f(bits.xy),
            yx: f(bits.yx),
            yy: f(bits.yy),
        }
    }
}

impl Vector2 {
    const ZERO: Self = Self::new(0.0, 0.0);

    const fn new(x: f64, y: f64) -> Self {
        Self { x, y }
    }

    fn is_finite(self) -> bool {
        self.bits().is_finite()
    }

    fn dot(self, other: Self) -> f64 {
        self.x.mul_add(other.x, self.y * other.y)
    }

    fn squared_norm(self) -> f64 {
        self.dot(self)
    }

    fn norm(self) -> f64 {
        self.squared_norm().sqrt()
    }
}

impl AddAssign for Vector2 {
    fn add_assign(&mut self, rhs: Self) {
        *self = *self + rhs;
    }
}

impl SubAssign for Vector2 {
    fn sub_assign(&mut self, rhs: Self) {
        *self = *self - rhs;
    }
}

impl Div<f64> for Vector2 {
    type Output = Self;

    fn div(self, rhs: f64) -> Self {
        Self::new(self.x / rhs, self.y / rhs)
    }
}

impl Neg for Vector2 {
    type Output = Self;

    fn neg(self) -> Self {
        Self::new(-self.x, -self.y)
    }
}

impl Matrix2 {
    const ZERO: Self = Self::new(0.0, 0.0, 0.0, 0.0);

    const fn new(xx: f64, xy: f64, yx: f64, yy: f64) -> Self {
        Self { xx, xy, yx, yy }
    }

    fn is_finite(self) -> bool {
        self.bits().is_finite()
    }

    fn mul_vector(self, vector: Vector2) -> Vector2 {
        Vector2::new(
            self.xx.mul_add(vector.x, self.xy * vector.y),
            self.yx.mul_add(vector.x, self.yy * vector.y),
        )
    }
}

#[derive(Clone, Copy, Debug, PartialEq)]
struct Box2d(meshless_2d::Box2d);

impl Box2d {
    fn new(length_x: f64, length_y: f64) -> Result<Self, GeometryError> {
        meshless_2d::Box2d::new(b(length_x), b(length_y)).map(Self)
    }

    fn lengths(self) -> Vector2 {
        Vector2::native(self.0.lengths())
    }

    fn wrap(self, point: Vector2) -> Result<Vector2, GeometryError> {
        let lengths = self.lengths();
        let rest = Vector2::new(point.x.rem_euclid(lengths.x), point.y.rem_euclid(lengths.y));
        self.0.wrap(point.bits(), rest.bits()).map(Vector2::native)
    }

    fn displacement(self, to: Vector2, from: Vector2) -> Result<Vector2, GeometryError> {
        self.0.validate_wrapped(to.bits(), None)?;
        self.0.validate_wrapped(from.bits(), None)?;
        let (lengths, raw) = (self.lengths(), to - from);
        Ok(Vector2::new(minimum_image(raw.x, lengths.x), minimum_image(raw.y, lengths.y)))
    }
}

fn minimum_image(displacement: f64, length: f64) -> f64 {
    match image_shift(b(displacement), b(0.5 * length), b(-0.5 * length)) {
        ImageShift::Down => displacement - length,
        ImageShift::Keep => displacement,
        ImageShift::Up => displacement + length,
    }
}

fn cubic_kernel_2d(radius: f64, h: f64) -> Result<KernelValue, GeometryError> {
    validate_kernel_input_2d(b(radius), b(h))?;
    let u = radius / h;
    if matches!(kernel_piece(b(u)), KernelPiece::Outside) {
        return Ok(KernelValue { weight: 0.0, radial_derivative: 0.0 });
    }
    let (shape, derivative_shape) = cubic_shape(u);
    let inverse_h = h.recip();
    let weight = shape * CUBIC_2D_NORMALIZATION * inverse_h * inverse_h;
    let radial_derivative =
        derivative_shape * CUBIC_2D_NORMALIZATION * inverse_h * inverse_h * inverse_h;
    validate_kernel_value_2d(b(radius), b(h), b(weight), b(radial_derivative))?;
    Ok(KernelValue { weight, radial_derivative })
}

#[derive(Clone)]
struct CellList2d {
    positions: Vec<Vector2>,
    domain: Box2d,
    widths: Vector2,
    cells: cell_list_2d::CellList2d,
}

#[derive(Clone, Copy)]
struct Near2d {
    index: usize,
    displacement: Vector2,
    distance: f64,
}

impl CellList2d {
    fn new(
        positions: &[Vector2],
        domain: Box2d,
        search_scale: f64,
    ) -> Result<Self, GeometryError> {
        cell_list_2d::validate_search_scale(b(search_scale))?;
        meshless_2d::validate_positions(&bs(positions), domain.0)?;
        let cap = positions.len().max(1);
        let lengths = domain.lengths();
        let desired_x = (lengths.x / search_scale).floor().max(1.0).min(cap as f64);
        let desired_y = (lengths.y / search_scale).floor().max(1.0).min(cap as f64);
        let downscale = (cap as f64 / (desired_x * desired_y)).min(1.0).sqrt();
        let counts = cell_list_2d::cell_grid_shape(
            b((desired_x * downscale).floor()),
            b((desired_y * downscale).floor()),
            cap,
        );
        let widths = Vector2::new(lengths.x / counts[0] as f64, lengths.y / counts[1] as f64);
        let quotients: Vec<Vector2> =
            positions.iter().map(|&position| quotient(position, widths)).collect();
        let cells = cell_list_2d::CellList2d::new(counts, &bs(&quotients));
        Ok(Self { positions: positions.to_vec(), domain, widths, cells })
    }

    fn cell_counts(&self) -> [usize; 2] {
        self.cells.cell_counts()
    }

    fn neighbors_within(
        &self,
        target: Vector2,
        radius: f64,
    ) -> Result<Vec<usize>, GeometryError> {
        self.domain.0.validate_wrapped(target.bits(), None)?;
        cell_list_2d::validate_search_radius(b(radius))?;
        if radius == 0.0 || self.positions.is_empty() {
            return Ok(Vec::new());
        }
        let counts = self.cell_counts();
        let [center_x, center_y] =
            cell_list_2d::cell_coordinates(quotient(target, self.widths).bits(), counts);
        let axis = |center: usize, length: f64, width: f64, count: usize| {
            let span = b((radius / width).ceil());
            cell_list_2d::candidate_axis_cells(center, b(radius), b(0.5 * length), span, count)
        };
        let lengths = self.domain.lengths();
        let candidates = self.cells.particles_in(
            &axis(center_x, lengths.x, self.widths.x, counts[0]),
            &axis(center_y, lengths.y, self.widths.y, counts[1]),
        );
        let mut distances = Vec::new();
        for &index in &candidates {
            let displacement = self.domain.displacement(target, self.positions[index])?;
            distances.push(b(displacement.x.hypot(displacement.y)));
        }
        Ok(cell_list_2d::neighbors_within(&candidates, &distances, b(radius)))
    }

    fn near(&self, particle: usize, radius: f64) -> Result<Vec<Near2d>, GeometryError> {
        let target = self.positions[particle];
        let relative = |index: usize| -> Result<_, GeometryError> {
            let displacement = self.domain.displacement(target, self.positions[index])?;
            Ok(Near2d { index, displacement, distance: displacement.norm() })
        };
        self.neighbors_within(target, radius)?.into_iter().map(relative).collect()
    }
}

fn quotient(position: Vector2, widths: Vector2) -> Vector2 {
    Vector2::new((position.x / widths.x).floor(), (position.y / widths.y).floor())
}

fn index_by_support(
    positions: &[Vector2],
    smoothing_lengths: &[f64],
    domain: Box2d,
) -> Result<CellList2d, GeometryError> {
    let maximum_support = smoothing_lengths.iter().copied().fold(0.0_f64, f64::max);
    CellList2d::new(positions, domain, maximum_support)
}

#[derive(Clone, Copy, Debug, PartialEq)]
struct InteractionPair2d {
    i: usize,
    j: usize,
    displacement: Vector2,
    distance: f64,
}

fn check_geometry(positions: &[Vector2], h: &[f64], domain: Box2d) -> Result<(), GeometryError> {
    meshless_2d::validate_geometry_columns(&bs(positions), &bs(h), domain.0)
}

fn check_particles(
    positions: &[Vector2],
    masses: &[f64],
    h: &[f64],
    domain: Box2d,
) -> Result<(), GeometryError> {
    meshless_2d::validate_particle_columns(&bs(positions), &bs(masses), &bs(h), domain.0)
}

fn interacting_pairs_2d(
    positions: &[Vector2],
    smoothing_lengths: &[f64],
    domain: Box2d,
) -> Result<Vec<InteractionPair2d>, GeometryError> {
    interacting_pairs_for_targets_2d(positions, smoothing_lengths, domain, &vec![true; positions.len()])
}

fn particle_divergence_at_hsml_2d(
    positions: &[Vector2],
    velocities: &[Vector2],
    smoothing_lengths: &[f64],
    dhsml_factors: &[f64],
    domain: Box2d,
) -> Result<Vec<f64>, GeometryError> {
    particle_divergence_at_hsml_for_targets_2d(positions, velocities, smoothing_lengths, dhsml_factors, domain, &vec![true; positions.len()])
}

fn interacting_pairs_for_targets_2d(
    positions: &[Vector2],
    smoothing_lengths: &[f64],
    domain: Box2d,
    targets: &[bool],
) -> Result<Vec<InteractionPair2d>, GeometryError> {
    check_geometry(positions, smoothing_lengths, domain)?;
    meshless_2d::validate_count("targets", targets.len(), positions.len())?;
    if positions.is_empty() {
        return Ok(Vec::new());
    }
    let index = index_by_support(positions, smoothing_lengths, domain)?;
    let mut links = Vec::new();
    for (source, &support) in smoothing_lengths.iter().enumerate() {
        if !targets[source] {
            links.push(Vec::new());
            continue;
        }
        let near = index.near(source, support)?;
        let candidates: Vec<usize> = near.iter().map(|entry| entry.index).collect();
        let distances: Vec<f64> = near.iter().map(|entry| entry.distance).collect();
        links.push(supported_neighbors(source, &candidates, &bs(&distances), b(f64::INFINITY)));
    }
    let relative = |(i, j): (usize, usize)| -> Result<_, GeometryError> {
        let displacement = domain.displacement(positions[i], positions[j])?;
        Ok(InteractionPair2d { i, j, distance: displacement.norm(), displacement })
    };
    union_pairs(&links).into_iter().map(relative).collect()
}

fn kernel_sums_2d(near: &[Near2d], h: f64) -> Result<(f64, f64), GeometryError> {
    let (mut kernel_sum, mut derivative_sum) = (0.0, 0.0);
    for entry in near {
        let kernel = cubic_kernel_2d(entry.distance, h)?;
        kernel_sum += kernel.weight;
        derivative_sum +=
            -(2.0 * kernel.weight / h + (entry.distance / h) * kernel.radial_derivative);
    }
    Ok((kernel_sum, derivative_sum))
}

fn density_at_hsml_2d(
    positions: &[Vector2],
    masses: &[f64],
    smoothing_lengths: &[f64],
    domain: Box2d,
) -> Result<Vec<DensityEstimate>, GeometryError> {
    check_particles(positions, masses, smoothing_lengths, domain)?;
    if positions.is_empty() {
        return Ok(Vec::new());
    }
    let index = index_by_support(positions, smoothing_lengths, domain)?;
    let mut out = Vec::new();
    for (particle, &h) in smoothing_lengths.iter().enumerate() {
        let (kernel_sum, derivative_sum) = kernel_sums_2d(&index.near(particle, h)?, h)?;
        let raw = derivative_sum * h / (2.0 * kernel_sum);
        let estimate = DensityEstimate {
            density: masses[particle] * kernel_sum,
            effective_neighbors: PI * h * h * kernel_sum,
            dhsml_factor: response(estimates::response_to(b(kernel_sum), b(raw)), raw),
        };
        estimates::validate_density_estimate_2d(
            particle,
            b(estimate.density),
            b(estimate.effective_neighbors),
            b(estimate.dhsml_factor),
        )?;
        out.push(estimate);
    }
    Ok(out)
}

fn particle_divergence_at_hsml_for_targets_2d(
    positions: &[Vector2],
    velocities: &[Vector2],
    smoothing_lengths: &[f64],
    dhsml_factors: &[f64],
    domain: Box2d,
    targets: &[bool],
) -> Result<Vec<f64>, GeometryError> {
    check_geometry(positions, smoothing_lengths, domain)?;
    estimates::validate_divergence_columns_2d(
        &bs(velocities),
        dhsml_factors.len(),
        positions.len(),
    )?;
    meshless_2d::validate_count("targets", targets.len(), positions.len())?;
    let index = index_by_support(positions, smoothing_lengths, domain)?;
    let mut out = vec![0.0; positions.len()];
    for (particle, &h) in smoothing_lengths.iter().enumerate() {
        if !targets[particle] {
            continue;
        }
        let (mut kernel_sum, mut divergence_sum) = (0.0, 0.0);
        for entry in index.near(particle, h)? {
            let kernel = cubic_kernel_2d(entry.distance, h)?;
            kernel_sum += kernel.weight;
            if entry.distance > 0.0 {
                let difference = velocities[particle] - velocities[entry.index];
                divergence_sum -= kernel.radial_derivative * entry.displacement.dot(difference)
                    / entry.distance;
            }
        }
        if kernel_sum > 0.0 {
            out[particle] = divergence_sum / kernel_sum * dhsml_factors[particle];
        }
        estimates::validate_divergence_2d(particle, b(out[particle]))?;
    }
    Ok(out)
}

fn solve_public_c_smoothing_lengths_from_seeds_2d(
    positions: &[Vector2],
    masses: &[f64],
    seeds: &[f64],
    domain: Box2d,
    desired_neighbors: f64,
    tolerance: f64,
) -> Result<Vec<AdaptiveDensityEstimate>, GeometryError> {
    let targets = vec![true; positions.len()];
    let solved = solve_public_c_smoothing_lengths_from_seeds_for_targets_2d(
        positions,
        masses,
        seeds,
        domain,
        desired_neighbors,
        tolerance,
        &targets,
    )?;
    Ok(solved.into_iter().flatten().collect())
}

fn solve_public_c_smoothing_lengths_from_seeds_for_targets_2d(
    positions: &[Vector2],
    masses: &[f64],
    seeds: &[f64],
    domain: Box2d,
    desired_neighbors: f64,
    tolerance: f64,
    targets: &[bool],
) -> Result<Vec<Option<AdaptiveDensityEstimate>>, GeometryError> {
    check_particles(positions, masses, seeds, domain)?;
    meshless_2d::validate_neighbor_constraint(b(desired_neighbors), b(tolerance))?;
    meshless_2d::validate_count("targets", targets.len(), positions.len())?;
    if positions.is_empty() {
        return Ok(Vec::new());
    }
    let index = index_by_support(positions, seeds, domain)?;
    let mut out = vec![None; positions.len()];
    for (particle, &seed) in seeds.iter().enumerate() {
        if targets[particle] {
            let measure = |h| estimate_geometry_2d(particle, masses[particle], h, &index);
            match solve_from_seed(seed, desired_neighbors, tolerance, 2.0, measure)? {
                Ok(solved) => out[particle] = Some(solved),
                Err((solver, neighbors)) => {
                    return Err(solver.failure_2d(particle, b(neighbors)));
                }
            }
        }
    }
    Ok(out)
}

fn moments(near: &[Near2d], h: f64) -> Result<([f64; 3], Vector2), GeometryError> {
    let ([mut xx, mut xy, mut yy], mut first) = ([0.0; 3], Vector2::ZERO);
    for entry in near {
        if entry.distance != 0.0 {
            let weight = cubic_kernel_2d(entry.distance, h)?.weight;
            let Vector2 { x, y } = entry.displacement;
            xx += weight * x * x;
            xy += weight * x * y;
            yy += weight * y * y;
            first += entry.displacement * weight;
        }
    }
    Ok(([xx, xy, yy], first))
}

fn estimate_geometry_2d(
    particle: usize,
    mass: f64,
    h: f64,
    index: &CellList2d,
) -> Result<(DensityEstimate, f64), GeometryError> {
    let near = index.near(particle, h)?;
    let (kernel_sum, derivative_sum) = kernel_sums_2d(&near, h)?;
    estimates::validate_kernel_sum_2d(particle, b(kernel_sum))?;
    let raw = derivative_sum * h / (2.0 * kernel_sum);
    let estimate = DensityEstimate {
        density: mass * kernel_sum,
        effective_neighbors: PI * h * h * kernel_sum,
        dhsml_factor: response(estimates::bounded_response(b(raw)), raw),
    };
    let ([xx, xy, yy], first) = moments(&near, h)?;
    let inverse = invert_symmetric_moment(particle, xx, xy, yy)?.matrix;
    let error = public_c_face_closure_error_2d(kernel_sum, xx + yy, inverse, first);
    estimates::validate_density_geometry_2d(particle, geometry(estimate, error))?;
    Ok((estimate, error))
}

fn public_c_face_closure_error_2d(kernel_sum: f64, trace: f64, inverse: Matrix2, first: Vector2) -> f64 {
    let volume = kernel_sum.recip();
    let characteristic_length = (volume * trace).sqrt();
    let one_sided = inverse.mul_vector(first) * (2.0 * volume);
    (one_sided.x.abs() + one_sided.y.abs()) / (8.0 * characteristic_length)
}

#[derive(Clone, Copy, Debug, PartialEq)]
struct InverseMoment2d {
    matrix: Matrix2,
    condition_number: f64,
    diagonal_regularization: f64,
}

fn inverse_moments_2d(
    positions: &[Vector2],
    smoothing_lengths: &[f64],
    domain: Box2d,
) -> Result<Vec<InverseMoment2d>, GeometryError> {
    check_geometry(positions, smoothing_lengths, domain)?;
    if positions.is_empty() {
        return Ok(Vec::new());
    }
    let index = index_by_support(positions, smoothing_lengths, domain)?;
    let mut out = Vec::new();
    for (particle, &h) in smoothing_lengths.iter().enumerate() {
        let ([xx, xy, yy], _) = moments(&index.near(particle, h)?, h)?;
        out.push(invert_symmetric_moment(particle, xx, xy, yy)?);
    }
    Ok(out)
}

fn invert_symmetric_moment(
    index: usize,
    mut xx: f64,
    xy: f64,
    mut yy: f64,
) -> Result<InverseMoment2d, GeometryError> {
    let pattern = |xx: f64, yy: f64| SymmetricMoment { xx: b(xx), xy: b(xy), yy: b(yy) };
    let trace = xx + yy;
    let mut regularization = MomentRegularization::begin(index, pattern(xx, yy), b(trace))?;
    let mut increment = 1.05 * (trace / 2.0) / MOMENT_CONDITION_LIMIT;
    let mut total = 0.0;
    loop {
        let condition_number = symmetric_condition_number(xx, xy, yy);
        let determinant = xx.mul_add(yy, -(xy * xy));
        let (diagonal, other) = (yy / determinant, xx / determinant);
        let matrix = Matrix2::new(diagonal, -xy / determinant, -xy / determinant, other);
        match regularization.judge(b(condition_number), matrix.bits()) {
            MomentStep::Accept => {
                return Ok(InverseMoment2d {
                    matrix,
                    condition_number,
                    diagonal_regularization: total,
                });
            }
            MomentStep::Singular => return Err(regularization.failure(index, pattern(xx, yy))),
            MomentStep::Regularize => {
                xx += increment;
                yy += increment;
                total += increment;
                increment *= 1.2;
            }
        }
    }
}

fn symmetric_condition_number(xx: f64, xy: f64, yy: f64) -> f64 {
    let trace = xx + yy;
    let discriminant = (xx - yy).hypot(2.0 * xy);
    let largest = 0.5 * (trace + discriminant);
    let smallest = 0.5 * (trace - discriminant);
    if smallest > 0.0 {
        largest / smallest
    } else {
        f64::INFINITY
    }
}

fn scalar_gradients_at_hsml_2d(
    positions: &[Vector2],
    values: &[f64],
    smoothing_lengths: &[f64],
    domain: Box2d,
) -> Result<Vec<Vector2>, GeometryError> {
    meshless_2d::validate_values(&bs(values), positions.len(), "scalar_values")?;
    let moments = inverse_moments_2d(positions, smoothing_lengths, domain)?;
    let numerators = gradient_numerators(positions, smoothing_lengths, domain, |i, j| {
        Vector2::new(values[j] - values[i], 0.0)
    })?;
    let mut out = Vec::new();
    for (index, (numerator, moment)) in numerators.iter().zip(moments).enumerate() {
        let gradient = moment.matrix.mul_vector(Vector2::new(numerator.xx, numerator.xy));
        estimates::validate_scalar_gradient(index, gradient.bits())?;
        out.push(gradient);
    }
    Ok(out)
}

fn scalar_gradients_batch_with_moments_2d(
    positions: &[Vector2],
    fields: &[&[f64]],
    smoothing_lengths: &[f64],
    domain: Box2d,
    moments: &[InverseMoment2d],
) -> Result<Vec<Vec<Vector2>>, GeometryError> {
    check_geometry(positions, smoothing_lengths, domain)?;
    meshless_2d::validate_count("inverse_moments", moments.len(), positions.len())?;
    for field in fields {
        meshless_2d::validate_values(&bs(field), positions.len(), "scalar_values")?;
    }
    if positions.is_empty() {
        return Ok(vec![Vec::new(); fields.len()]);
    }
    let index = index_by_support(positions, smoothing_lengths, domain)?;
    let mut gradients = vec![vec![Vector2::ZERO; positions.len()]; fields.len()];
    for (center, &h) in smoothing_lengths.iter().enumerate() {
        for entry in index.near(center, h)? {
            if entry.index != center {
                let weight = cubic_kernel_2d(entry.distance, h)?.weight;
                for (numerators, values) in gradients.iter_mut().zip(fields) {
                    let delta = values[entry.index] - values[center];
                    numerators[center].x -= weight * entry.displacement.x * delta;
                    numerators[center].y -= weight * entry.displacement.y * delta;
                }
            }
        }
    }
    for field in &mut gradients {
        for (index, (value, moment)) in field.iter_mut().zip(moments).enumerate() {
            *value = moment.matrix.mul_vector(*value);
            estimates::validate_scalar_gradient(index, value.bits())?;
        }
    }
    Ok(gradients)
}

fn vector_gradients_at_hsml_2d(
    positions: &[Vector2],
    values: &[Vector2],
    smoothing_lengths: &[f64],
    domain: Box2d,
) -> Result<Vec<Matrix2>, GeometryError> {
    estimates::validate_vector_values(&bs(values), positions.len())?;
    let moments = inverse_moments_2d(positions, smoothing_lengths, domain)?;
    let numerators = gradient_numerators(positions, smoothing_lengths, domain, |i, j| {
        values[j] - values[i]
    })?;
    let mut out = Vec::new();
    for (index, (numerator, moment)) in numerators.iter().zip(moments).enumerate() {
        let x = moment.matrix.mul_vector(Vector2::new(numerator.xx, numerator.xy));
        let y = moment.matrix.mul_vector(Vector2::new(numerator.yx, numerator.yy));
        let gradient = Matrix2::new(x.x, x.y, y.x, y.y);
        estimates::validate_components(index, "vector gradient", gradient.bits())?;
        out.push(gradient);
    }
    Ok(out)
}

fn gradient_numerators(
    positions: &[Vector2],
    smoothing_lengths: &[f64],
    domain: Box2d,
    delta: impl Fn(usize, usize) -> Vector2,
) -> Result<Vec<Matrix2>, GeometryError> {
    check_geometry(positions, smoothing_lengths, domain)?;
    if positions.is_empty() {
        return Ok(Vec::new());
    }
    let index = index_by_support(positions, smoothing_lengths, domain)?;
    let mut out = Vec::new();
    for (center, &h) in smoothing_lengths.iter().enumerate() {
        let mut numerator = Matrix2::ZERO;
        for entry in index.near(center, h)? {
            if entry.index != center {
                let weight = cubic_kernel_2d(entry.distance, h)?.weight;
                let (apart, change) = (entry.displacement, delta(center, entry.index));
                numerator.xx -= weight * apart.x * change.x;
                numerator.xy -= weight * apart.y * change.x;
                numerator.yx -= weight * apart.x * change.y;
                numerator.yy -= weight * apart.y * change.y;
            }
        }
        estimates::validate_components(center, "gradient numerator", numerator.bits())?;
        out.push(numerator);
    }
    Ok(out)
}

#[derive(Clone, Copy, Debug, PartialEq)]
struct MeshlessPoint2d {
    position: Vector2,
    mass: f64,
    density: f64,
    smoothing_length: f64,
    inverse_moment: Matrix2,
    condition_number: f64,
}

impl Pattern for MeshlessPoint2d {
    type Bits = meshless_2d::MeshlessPoint2d;

    fn bits(self) -> Self::Bits {
        meshless_2d::MeshlessPoint2d {
            position: self.position.bits(),
            mass: b(self.mass),
            density: b(self.density),
            smoothing_length: b(self.smoothing_length),
            inverse_moment: self.inverse_moment.bits(),
            condition_number: b(self.condition_number),
        }
    }

    fn native(bits: Self::Bits) -> Self {
        Self {
            position: Pattern::native(bits.position),
            mass: f(bits.mass),
            density: f(bits.density),
            smoothing_length: f(bits.smoothing_length),
            inverse_moment: Pattern::native(bits.inverse_moment),
            condition_number: f(bits.condition_number),
        }
    }
}

#[derive(Clone, Copy, Debug, PartialEq)]
struct MeshlessFace2d {
    area_vector: Vector2,
    area: f64,
    unit_normal: Vector2,
    offset_from_i: Vector2,
    offset_from_j: Vector2,
    path: FaceGeometryPath2d,
}

fn meshless_face_geometry_2d(
    i: MeshlessPoint2d,
    j: MeshlessPoint2d,
    domain: Box2d,
) -> Result<MeshlessFace2d, GeometryError> {
    meshless_2d::validate_meshless_point("i", i.bits(), domain.0)?;
    meshless_2d::validate_meshless_point("j", j.bits(), domain.0)?;
    let displacement = domain.displacement(i.position, j.position)?;
    let distance = displacement.norm();
    meshless_2d::validate_face_pair(b(distance), b(i.smoothing_length), b(j.smoothing_length))?;
    let kernel_i = cubic_kernel_2d(distance, i.smoothing_length)?;
    let kernel_j = cubic_kernel_2d(distance, j.smoothing_length)?;
    let volume_i = i.mass / i.density;
    let volume_j = j.mass / j.density;
    let jump = (volume_i - volume_j).abs() / volume_i.min(volume_j) / 2.0;
    let kernels = (kernel_i.weight, kernel_j.weight);
    let (weight_i, weight_j) = face_weights((volume_i, volume_j), kernels, jump);
    let mut area_vector = i.inverse_moment.mul_vector(displacement) * (kernel_i.weight * weight_i)
        + j.inverse_moment.mul_vector(displacement) * (kernel_j.weight * weight_j);
    let condition_sum = i
        .condition_number
        .mul_add(i.condition_number, j.condition_number * j.condition_number);
    let alignment = area_vector.dot(displacement);
    let path = meshless_2d::face_geometry_path(b(condition_sum), b(1.0e12 + 1.0e6), b(alignment));
    if path == FaceGeometryPath2d::RsphFallback {
        let radial_factor = -(weight_i * volume_i * kernel_i.radial_derivative
            + weight_j * volume_j * kernel_j.radial_derivative)
            / distance;
        area_vector = displacement * radial_factor;
    }
    let area = area_vector.norm();
    meshless_2d::validate_face(
        b(volume_i),
        b(volume_j),
        b(weight_i),
        b(weight_j),
        area_vector.bits(),
        b(area),
    )?;
    Ok(MeshlessFace2d {
        area_vector,
        area,
        unit_normal: area_vector / area,
        offset_from_i: displacement * -0.5,
        offset_from_j: displacement * 0.5,
        path,
    })
}

#[derive(Clone, Copy, Debug, Default, PartialEq)]
struct FaceClosure2d {
    net_area_vector: Vector2,
    summed_face_area: f64,
    relative_net_area: f64,
    legacy_dimensionless_leak: f64,
}

fn face_closure_diagnostics_2d(
    positions: &[Vector2],
    masses: &[f64],
    smoothing_lengths: &[f64],
    domain: Box2d,
) -> Result<Vec<FaceClosure2d>, GeometryError> {
    check_particles(positions, masses, smoothing_lengths, domain)?;
    if positions.is_empty() {
        return Ok(Vec::new());
    }
    let density = density_at_hsml_2d(positions, masses, smoothing_lengths, domain)?;
    let inverses = inverse_moments_2d(positions, smoothing_lengths, domain)?;
    let (mut pairs, mut vectors, mut areas) = (vec![], vec![], vec![]);
    for pair in interacting_pairs_2d(positions, smoothing_lengths, domain)? {
        let point = |index: usize| MeshlessPoint2d {
            position: positions[index],
            mass: masses[index],
            density: density[index].density,
            smoothing_length: smoothing_lengths[index],
            inverse_moment: inverses[index].matrix,
            condition_number: inverses[index].condition_number,
        };
        let face = meshless_face_geometry_2d(point(pair.i), point(pair.j), domain)?;
        pairs.push((pair.i, pair.j));
        vectors.push(face.area_vector);
        areas.push(face.area);
    }
    let incidence = pair_incidence(&pairs, positions.len());
    let net_area = gather(&incidence, Vector2::ZERO, &vectors);
    let mut diagnostics = vec![FaceClosure2d::default(); positions.len()];
    let index = index_by_support(positions, smoothing_lengths, domain)?;
    for (particle, &h) in smoothing_lengths.iter().enumerate() {
        let (mut kernel_sum, mut first, mut trace) = (0.0, Vector2::ZERO, 0.0);
        for entry in index.near(particle, h)? {
            let weight = cubic_kernel_2d(entry.distance, h)?.weight;
            kernel_sum += weight;
            if entry.displacement.squared_norm() > 0.0 {
                first += entry.displacement * weight;
                trace += weight * entry.displacement.squared_norm();
            }
        }
        estimates::validate_closure_moments(particle, b(kernel_sum), b(trace))?;
        let entry = &mut diagnostics[particle];
        entry.net_area_vector = net_area[particle];
        for term in &incidence[particle] {
            entry.summed_face_area += areas[term.pair];
        }
        entry.legacy_dimensionless_leak =
            public_c_face_closure_error_2d(kernel_sum, trace, inverses[particle].matrix, first);
        if entry.summed_face_area > 0.0 {
            entry.relative_net_area = entry.net_area_vector.norm() / entry.summed_face_area;
        }
    }
    Ok(diagnostics)
}

fn square_lattice(side: usize, domain: Box2d) -> (Vec<Vector2>, Vec<f64>, Vec<f64>) {
    let lengths = domain.lengths();
    let dx = lengths.x / side as f64;
    let dy = lengths.y / side as f64;
    let mut positions = Vec::with_capacity(side * side);
    for y in 0..side {
        for x in 0..side {
            positions.push(Vector2::new((x as f64 + 0.5) * dx, (y as f64 + 0.5) * dy));
        }
    }
    let masses = vec![dx * dy; positions.len()];
    let smoothing_lengths = vec![2.2 * dx.max(dy); positions.len()];
    (positions, masses, smoothing_lengths)
}

#[test]
fn cubic_kernel_has_exact_2d_normalization() {
    let hsml = 2.7;
    let bins = 200_000;
    let dr = hsml / f64::from(bins);
    let mut integral = 0.0;
    for bin in 0..bins {
        let radius = (f64::from(bin) + 0.5) * dr;
        integral += 2.0 * PI * radius * cubic_kernel_2d(radius, hsml).unwrap().weight * dr;
    }
    assert!((integral - 1.0).abs() < 2.0e-10, "{integral}");
    assert!(cubic_kernel_2d(hsml, hsml).unwrap().weight.abs() < f64::EPSILON);
}

#[test]
fn rectangular_wrap_and_minimum_image_preserve_half_box_sign() {
    let domain = Box2d::new(4.0, 0.25).unwrap();
    assert_eq!(
        domain.wrap(Vector2::new(-0.1, 0.3)).unwrap(),
        Vector2::new(3.9, 0.049_999_999_999_999_99)
    );
    assert_eq!(
        domain
            .displacement(Vector2::new(0.1, 0.24), Vector2::new(3.9, 0.01))
            .unwrap(),
        Vector2::new(0.200_000_000_000_000_18, -0.020_000_000_000_000_018)
    );
    assert!(
        (domain
            .displacement(Vector2::new(2.0, 0.0), Vector2::ZERO)
            .unwrap()
            .x
            - 2.0)
            .abs()
            < f64::EPSILON
    );
}

#[test]
fn cell_list_matches_brute_force_queries_and_union_pairs() {
    let domain = Box2d::new(4.0, 0.25).unwrap();
    let positions = vec![
        Vector2::new(0.01, 0.01),
        Vector2::new(3.99, 0.24),
        Vector2::new(2.0, 0.125),
        Vector2::new(2.08, 0.02),
        Vector2::new(1.0, 0.2),
    ];
    let hsml = vec![0.04, 0.02, 0.07, 0.14, 0.3];
    let index = CellList2d::new(&positions, domain, 0.3).unwrap();
    for (&target, &radius) in positions.iter().zip(&hsml) {
        let mut expected: Vec<_> = positions
            .iter()
            .enumerate()
            .filter_map(|(neighbor, &position)| {
                (domain.displacement(target, position).unwrap().norm() < radius)
                    .then_some(neighbor)
            })
            .collect();
        expected.sort_unstable();
        assert_eq!(index.neighbors_within(target, radius).unwrap(), expected);
    }
    let pairs = interacting_pairs_2d(&positions, &hsml, domain).unwrap();
    let mut expected = Vec::new();
    for i in 0..positions.len() {
        for j in (i + 1)..positions.len() {
            let distance = domain
                .displacement(positions[i], positions[j])
                .unwrap()
                .norm();
            if distance > 0.0 && (distance < hsml[i] || distance < hsml[j]) {
                expected.push((i, j));
            }
        }
    }
    assert_eq!(
        pairs
            .iter()
            .map(|pair| (pair.i, pair.j))
            .collect::<Vec<_>>(),
        expected
    );
}

#[test]
fn tiny_search_scale_does_not_allocate_a_quadratic_grid() {
    let domain = Box2d::new(1.0e6, 1.0e-3).unwrap();
    let positions = vec![
        Vector2::new(0.1, 0.000_1),
        Vector2::new(0.2, 0.000_2),
        Vector2::new(0.3, 0.000_3),
    ];
    let index = CellList2d::new(&positions, domain, 1.0e-30).unwrap();
    let [nx, ny] = index.cell_counts();
    assert!(nx * ny <= positions.len());
    assert_eq!(
        index.neighbors_within(positions[0], 0.5).unwrap().len(),
        positions.len()
    );
}

#[test]
fn unequal_mass_mfm_density_uses_target_mass_times_number_density() {
    let domain = Box2d::new(1.0, 1.0).unwrap();
    let positions = vec![Vector2::new(0.25, 0.5), Vector2::new(0.35, 0.5)];
    let masses = vec![1.0, 3.0];
    let hsml = vec![0.4, 0.4];
    let density = density_at_hsml_2d(&positions, &masses, &hsml, domain).unwrap();
    let self_weight = cubic_kernel_2d(0.0, 0.4).unwrap().weight;
    let neighbor_weight = cubic_kernel_2d(0.1, 0.4).unwrap().weight;
    let number_density = self_weight + neighbor_weight;
    assert!((density[0].density - number_density).abs() < 1.0e-12);
    assert!((density[1].density - 3.0 * number_density).abs() < 1.0e-12);
}

#[test]
fn public_c_solver_hits_2d_neighbor_constraint_and_preserves_mfm_density() {
    let domain = Box2d::new(1.0, 1.0).unwrap();
    let (positions, masses, seeds) = square_lattice(16, domain);
    let initial = density_at_hsml_2d(&positions, &masses, &seeds, domain).unwrap();
    let desired = 20.0;
    let tolerance = 0.05;
    assert!(
        initial
            .iter()
            .any(|estimate| (estimate.effective_neighbors - desired).abs() > tolerance)
    );

    let solved = solve_public_c_smoothing_lengths_from_seeds_2d(
        &positions, &masses, &seeds, domain, desired, tolerance,
    )
    .unwrap();
    for (particle, &mass) in solved.iter().zip(&masses) {
        assert!(
            (particle.estimate.effective_neighbors - desired).abs() <= tolerance,
            "{particle:?}"
        );
        let kernel_sum =
            particle.estimate.effective_neighbors / (PI * particle.smoothing_length.powi(2));
        assert!((particle.estimate.density - mass * kernel_sum).abs() < 1.0e-12);
    }
}

#[test]
fn public_c_solver_rejects_invalid_neighbor_constraint() {
    let domain = Box2d::new(1.0, 1.0).unwrap();
    let error = solve_public_c_smoothing_lengths_from_seeds_2d(
        &[Vector2::new(0.5, 0.5)],
        &[1.0],
        &[0.1],
        domain,
        0.0,
        0.05,
    )
    .unwrap_err();
    assert!(matches!(
        error,
        GeometryError::InvalidNeighborConstraint { .. }
    ));
}

#[test]
fn public_c_face_closure_keeps_both_numdims_divisors() {
    let error = public_c_face_closure_error_2d(
        1.0,
        2.0,
        Matrix2::new(1.0, 0.0, 0.0, 1.0),
        Vector2::new(0.1, -0.2),
    );
    let expected = 0.6 / (8.0 * 2.0_f64.sqrt());
    assert!((error - expected).abs() < 1.0e-15, "{error}");
}

#[test]
fn mls_exactly_recovers_linear_scalar_and_vector_fields() {
    let domain = Box2d::new(10.0, 10.0).unwrap();
    let positions = vec![
        Vector2::new(4.5, 4.5),
        Vector2::new(5.0, 4.5),
        Vector2::new(5.5, 4.5),
        Vector2::new(4.5, 5.0),
        Vector2::new(5.0, 5.0),
        Vector2::new(5.5, 5.0),
        Vector2::new(4.5, 5.5),
        Vector2::new(5.0, 5.5),
        Vector2::new(5.5, 5.5),
    ];
    let hsml = vec![1.1; positions.len()];
    let scalar: Vec<_> = positions
        .iter()
        .map(|p| 3.0 * p.x - 2.0 * p.y + 7.0)
        .collect();
    let vector: Vec<_> = positions
        .iter()
        .map(|p| Vector2::new(3.0 * p.x - 2.0 * p.y, -p.x + 4.0 * p.y))
        .collect();
    let scalar_gradient =
        scalar_gradients_at_hsml_2d(&positions, &scalar, &hsml, domain).unwrap();
    let second_scalar: Vec<_> = positions.iter().map(|p| -p.x + 4.0 * p.y).collect();
    let moments = inverse_moments_2d(&positions, &hsml, domain).unwrap();
    let batch = scalar_gradients_batch_with_moments_2d(
        &positions,
        &[&scalar, &second_scalar],
        &hsml,
        domain,
        &moments,
    )
    .unwrap();
    assert_eq!(batch[0], scalar_gradient);
    let vector_gradient =
        vector_gradients_at_hsml_2d(&positions, &vector, &hsml, domain).unwrap();
    for gradient in scalar_gradient {
        assert!((gradient.x - 3.0).abs() < 2.0e-13, "{gradient:?}");
        assert!((gradient.y + 2.0).abs() < 2.0e-13, "{gradient:?}");
    }
    for gradient in vector_gradient {
        assert!((gradient.xx - 3.0).abs() < 2.0e-13, "{gradient:?}");
        assert!((gradient.xy + 2.0).abs() < 2.0e-13, "{gradient:?}");
        assert!((gradient.yx + 1.0).abs() < 2.0e-13, "{gradient:?}");
        assert!((gradient.yy - 4.0).abs() < 2.0e-13, "{gradient:?}");
    }
    for gradient in &batch[1] {
        assert!((gradient.x + 1.0).abs() < 2.0e-13, "{gradient:?}");
        assert!((gradient.y - 4.0).abs() < 2.0e-13, "{gradient:?}");
    }
}

#[test]
fn collinear_moment_regularization_is_explicit() {
    let domain = Box2d::new(4.0, 1.0).unwrap();
    let positions = vec![
        Vector2::new(1.0, 0.5),
        Vector2::new(1.2, 0.5),
        Vector2::new(0.8, 0.5),
    ];
    let moments = inverse_moments_2d(&positions, &[0.5; 3], domain).unwrap();
    assert!(moments.iter().all(|moment| {
        moment.diagonal_regularization > 0.0
            && moment.condition_number < MOMENT_CONDITION_LIMIT
            && moment.matrix.is_finite()
    }));
}

#[test]
fn particle_divergence_matches_literal_density_loop_sum() {
    let domain = Box2d::new(2.0, 2.0).unwrap();
    let positions = vec![
        Vector2::new(0.8, 0.9),
        Vector2::new(1.1, 0.82),
        Vector2::new(0.93, 1.18),
        Vector2::new(1.24, 1.13),
    ];
    let velocities = vec![
        Vector2::new(-0.2, 0.4),
        Vector2::new(0.7, -0.1),
        Vector2::new(0.15, 0.9),
        Vector2::new(-0.6, 0.2),
    ];
    let hsml = vec![0.72, 0.64, 0.68, 0.75];
    let dhsml = vec![0.83, 1.07, 0.91, 1.14];
    let measured =
        particle_divergence_at_hsml_2d(&positions, &velocities, &hsml, &dhsml, domain).unwrap();
    for i in 0..positions.len() {
        let mut kernel_sum = 0.0;
        let mut numerator = 0.0;
        for j in 0..positions.len() {
            let displacement = domain.displacement(positions[i], positions[j]).unwrap();
            let radius = displacement.norm();
            if radius < hsml[i] {
                let kernel = cubic_kernel_2d(radius, hsml[i]).unwrap();
                kernel_sum += kernel.weight;
                if radius > 0.0 {
                    numerator -= kernel.radial_derivative
                        * displacement.dot(velocities[i] - velocities[j])
                        / radius;
                }
            }
        }
        let expected = numerator / kernel_sum * dhsml[i];
        assert!((measured[i] - expected).abs() < 2.0e-15);
    }
}

#[test]
fn face_is_antisymmetric_under_particle_swap() {
    let domain = Box2d::new(1.0, 1.0).unwrap();
    let inverse = Matrix2::new(2.0, 0.1, 0.1, 3.0);
    let i = MeshlessPoint2d {
        position: Vector2::new(0.95, 0.4),
        mass: 1.0,
        density: 2.0,
        smoothing_length: 0.4,
        inverse_moment: inverse,
        condition_number: 1.5,
    };
    let j = MeshlessPoint2d {
        position: Vector2::new(0.05, 0.46),
        mass: 0.8,
        density: 1.5,
        smoothing_length: 0.3,
        inverse_moment: Matrix2::new(2.5, -0.2, -0.2, 2.2),
        condition_number: 1.5,
    };
    let forward = meshless_face_geometry_2d(i, j, domain).unwrap();
    let reverse = meshless_face_geometry_2d(j, i, domain).unwrap();
    assert!((forward.area_vector.x + reverse.area_vector.x).abs() < 1.0e-14);
    assert!((forward.area_vector.y + reverse.area_vector.y).abs() < 1.0e-14);
    assert!((forward.area - reverse.area).abs() < 1.0e-14);
    assert_eq!(forward.offset_from_i, reverse.offset_from_j);
    assert_eq!(forward.path, FaceGeometryPath2d::Mls);
}

#[test]
fn non_positive_mls_face_uses_public_rsph_fallback() {
    let domain = Box2d::new(1.0, 1.0).unwrap();
    let point = |x, inverse_moment| MeshlessPoint2d {
        position: Vector2::new(x, 0.5),
        mass: 1.0,
        density: 1.0,
        smoothing_length: 0.5,
        inverse_moment,
        condition_number: 1.0,
    };
    let face = meshless_face_geometry_2d(
        point(0.6, Matrix2::new(-1.0, 0.0, 0.0, -1.0)),
        point(0.4, Matrix2::new(-1.0, 0.0, 0.0, -1.0)),
        domain,
    )
    .unwrap();
    assert_eq!(face.path, FaceGeometryPath2d::RsphFallback);
    assert!(face.area_vector.x > 0.0);
    assert!(face.area_vector.y.abs() < f64::EPSILON);
}

#[test]
fn periodic_lattice_has_near_machine_face_closure() {
    let domain = Box2d::new(1.0, 1.0).unwrap();
    let (positions, masses, hsml) = square_lattice(8, domain);
    let diagnostics = face_closure_diagnostics_2d(&positions, &masses, &hsml, domain).unwrap();
    for closure in diagnostics {
        assert!(closure.relative_net_area < 2.0e-15, "{closure:?}");
        assert!(closure.legacy_dimensionless_leak < 2.0e-15, "{closure:?}");
    }
}

#[test]
fn queries_reach_below_the_smallest_squares() {
    let domain = Box2d::new(1.0, 1.0).unwrap();
    let positions = [Vector2::new(0.5, 0.5), Vector2::new(0.75, 0.5)];
    let list = CellList2d::new(&positions, domain, 0.1).unwrap();
    assert_eq!(list.neighbors_within(positions[0], 1.0e-200), Ok(vec![0]));
    assert_eq!(list.neighbors_within(positions[0], 0.25), Ok(vec![0]));
    let positions = [Vector2::ZERO, Vector2::new(2.0e-200, 0.0)];
    let list = CellList2d::new(&positions, domain, 0.1).unwrap();
    assert_eq!(list.neighbors_within(Vector2::ZERO, 1.0e-200), Ok(vec![0]));
    assert_eq!(list.neighbors_within(Vector2::ZERO, 2.0e-200), Ok(vec![0]));
    assert_eq!(list.neighbors_within(Vector2::ZERO, 3.0e-200), Ok(vec![0, 1]));
}

#[test]
fn targets_belong_to_the_points_one_for_one() {
    let domain = Box2d::new(1.0, 1.0).unwrap();
    let positions = [Vector2::new(0.25, 0.5), Vector2::new(0.5, 0.5)];
    let pairs = |targets: &[bool]| {
        interacting_pairs_for_targets_2d(&positions, &[0.3, 0.3], domain, targets)
    };
    assert_eq!(pairs(&[true, false]).unwrap().len(), 1);
    assert_eq!(pairs(&[false, false]).unwrap().len(), 0);
    assert_eq!(
        pairs(&[true]),
        Err(GeometryError::MismatchedLength { field: "targets", expected: 2, actual: 1 })
    );
}

#[test]
fn wrapped_points_lie_in_the_half_open_domain() {
    let domain = Box2d::new(1.0, 2.0).unwrap();
    let wrapped = domain.wrap(Vector2::new(-1.0e-20, 5.5)).unwrap();
    assert_eq!(wrapped, Vector2::new(0.0, 1.5));
    assert!(domain.displacement(wrapped, Vector2::ZERO).is_ok());
    let wrapped = domain.wrap(Vector2::new(-0.25, -1.0e-20)).unwrap();
    assert_eq!(wrapped, Vector2::new(0.75, 0.0));
    assert!(domain.wrap(Vector2::new(f64::NAN, 0.0)).is_err());
}
