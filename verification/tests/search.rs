//! Neighbor searches, pair lists, cell lists and the tree of seeds.

use gizmo_hydro::cell_list_2d::{candidate_axis_cells, cell_grid_shape};
use gizmo_hydro::columns_1d::{image_shift, validate_displacement, ImageShift};
use gizmo_hydro::kernel::{kernel_piece, validate_kernel_input_1d, KernelPiece};
use gizmo_hydro::meshless_2d::{Box2d, GeometryError, Vector2};
use gizmo_hydro::neighbors_1d::Reach1d;
use gizmo_hydro::order::sort_dedup;
use gizmo_hydro::pairs::{supported_neighbors, union_pairs};
use gizmo_hydro::tree_seeds::{
    legacy_tree_coordinate, position_extent, select_depth, tree_levels, tree_path,
    validate_tree_inputs, TREE_BITS,
};
use gizmo_hydro::{Binary64, BoundaryMode1d, HydroError, NeighborIndex1d};

fn b(value: f64) -> Binary64 {
    Binary64::from_bits(value.to_bits())
}

fn bs(values: &[f64]) -> Vec<Binary64> {
    values.iter().map(|&value| b(value)).collect()
}

fn assert_close(actual: f64, expected: f64) {
    assert!(
        (actual - expected).abs() <= f64::EPSILON * expected.abs().max(1.0) * 4.0,
        "{actual} != {expected}"
    );
}

fn displacement_1d(
    a: f64,
    c: f64,
    box_size: f64,
    boundary: BoundaryMode1d,
) -> Result<f64, HydroError> {
    validate_displacement(b(a), b(c), b(box_size), boundary)?;
    let displacement = a - c;
    if boundary == BoundaryMode1d::Reflective {
        return Ok(displacement);
    }
    Ok(match image_shift(b(displacement), b(0.5 * box_size), b(-0.5 * box_size)) {
        ImageShift::Down => displacement - box_size,
        ImageShift::Keep => displacement,
        ImageShift::Up => displacement + box_size,
    })
}

fn reach(position: f64, support: f64, box_size: f64) -> Reach1d {
    Reach1d {
        support: b(support),
        half_box: b(0.5 * box_size),
        lower: b(position - support),
        upper: b(position + support),
        wrapped_lower: b(position - support + box_size),
        wrapped_upper: b(position + support - box_size),
    }
}

fn cubic_kernel_weight_1d(radius: f64, hsml: f64) -> f64 {
    validate_kernel_input_1d(b(radius), b(hsml)).unwrap();
    let u = radius / hsml;
    let shape = match kernel_piece(b(u)) {
        KernelPiece::Outside => return 0.0,
        KernelPiece::Core => 1.0 + 6.0 * (u - 1.0) * u * u,
        KernelPiece::Tail => 2.0 * (1.0 - u) * (1.0 - u) * (1.0 - u),
    };
    shape * (4.0 / 3.0) / hsml
}

fn densities(
    positions: &[f64],
    masses: &[f64],
    supports: &[f64],
    box_size: f64,
    boundary: BoundaryMode1d,
) -> Vec<f64> {
    let index = NeighborIndex1d::new(&bs(positions), b(box_size), boundary);
    (0..positions.len())
        .map(|i| {
            let neighbors = index.query(reach(positions[i], supports[i], box_size));
            let sum: f64 = neighbors
                .iter()
                .map(|&j| {
                    let radius = displacement_1d(positions[i], positions[j], box_size, boundary)
                        .unwrap()
                        .abs();
                    cubic_kernel_weight_1d(radius, supports[i])
                })
                .sum();
            masses[i] * sum
        })
        .collect()
}

fn interacting_pairs_1d(
    positions: &[f64],
    supports: &[f64],
    box_size: f64,
    boundary: BoundaryMode1d,
) -> Vec<(usize, usize, f64)> {
    let index = NeighborIndex1d::new(&bs(positions), b(box_size), boundary);
    let links: Vec<Vec<usize>> = (0..positions.len())
        .map(|i| {
            let candidates = index.query(reach(positions[i], supports[i], box_size));
            let distances: Vec<Binary64> = candidates
                .iter()
                .map(|&j| {
                    let displacement =
                        displacement_1d(positions[i], positions[j], box_size, boundary).unwrap();
                    b(displacement.abs())
                })
                .collect();
            supported_neighbors(i, &candidates, &distances, b(supports[i]))
        })
        .collect();
    union_pairs(&links)
        .into_iter()
        .map(|(i, j)| {
            (i, j, displacement_1d(positions[i], positions[j], box_size, boundary).unwrap())
        })
        .collect()
}

fn brute_force_interacting_pairs(
    positions: &[f64],
    smoothing_lengths: &[f64],
    box_size: f64,
) -> Vec<(usize, usize, f64)> {
    let mut pairs = Vec::new();
    for i in 0..positions.len() {
        for j in (i + 1)..positions.len() {
            let displacement =
                displacement_1d(positions[i], positions[j], box_size, BoundaryMode1d::Periodic)
                    .unwrap();
            let distance = displacement.abs();
            if distance > 0.0
                && (distance < smoothing_lengths[i] || distance < smoothing_lengths[j])
            {
                pairs.push((i, j, displacement));
            }
        }
    }
    pairs
}

#[test]
fn reflective_topology_does_not_interact_across_periodic_seam() {
    let positions = [0.01, 0.99];
    let masses = [1.0, 1.0];
    let smoothing_lengths = [0.05, 0.05];
    let periodic =
        densities(&positions, &masses, &smoothing_lengths, 1.0, BoundaryMode1d::Periodic);
    let reflective =
        densities(&positions, &masses, &smoothing_lengths, 1.0, BoundaryMode1d::Reflective);
    assert!(periodic[0] > reflective[0]);
    assert!(periodic[1] > reflective[1]);
    assert_eq!(
        interacting_pairs_1d(&positions, &smoothing_lengths, 1.0, BoundaryMode1d::Reflective),
        Vec::new()
    );
    assert_close(displacement_1d(0.99, 0.01, 1.0, BoundaryMode1d::Reflective).unwrap(), 0.98);
}

#[test]
fn periodic_displacement_uses_minimum_image() {
    let periodic = |a: f64, c: f64| displacement_1d(a, c, 1.0, BoundaryMode1d::Periodic);
    assert!((periodic(0.99, 0.01).unwrap() + 0.02).abs() < 1e-15);
    assert!((periodic(0.01, 0.99).unwrap() - 0.02).abs() < 1e-15);
    assert_close(periodic(0.5, 0.0).unwrap(), 0.5);
    assert_close(periodic(0.0, 0.5).unwrap(), -0.5);
    assert!(periodic(1.0, 0.5).is_err());
}

#[test]
fn sparse_periodic_pairs_match_brute_force_on_irregular_states() {
    let box_size = 1.0;
    let mut seed = 0x5eed_f00d_cafe_babe_u64;
    let mut random_unit = || {
        seed = seed
            .wrapping_mul(6_364_136_223_846_793_005)
            .wrapping_add(1_442_695_040_888_963_407);
        let bytes = seed.to_le_bytes();
        f64::from(u32::from_le_bytes([bytes[4], bytes[5], bytes[6], bytes[7]]))
            / f64::from(u32::MAX)
    };
    let mut positions = vec![0.0, 1.0e-12, 0.999_999_999_999];
    let mut smoothing_lengths = vec![0.031, 0.077, 0.043];
    for _ in positions.len()..96 {
        positions.push(random_unit());
        smoothing_lengths.push(0.008 + 0.082 * random_unit());
    }

    let sparse =
        interacting_pairs_1d(&positions, &smoothing_lengths, box_size, BoundaryMode1d::Periodic);
    let brute = brute_force_interacting_pairs(&positions, &smoothing_lengths, box_size);
    assert_eq!(sparse, brute);
    assert!(sparse.windows(2).all(|pair| {
        let (left_i, left_j, _) = pair[0];
        let (right_i, right_j, _) = pair[1];
        (left_i, left_j) < (right_i, right_j)
    }));
}

#[test]
fn sorted_periodic_target_queries_match_brute_force_index_order() {
    let box_size = 1.0;
    let mut seed = 0xd1ff_3a71_a15e_5eed_u64;
    let mut random_unit = || {
        seed = seed.wrapping_mul(2_862_933_555_777_941_757).wrapping_add(3_037_000_493);
        let bytes = seed.to_le_bytes();
        f64::from(u32::from_le_bytes([bytes[4], bytes[5], bytes[6], bytes[7]]))
            / f64::from(u32::MAX)
    };
    let mut positions = vec![0.0, 1.0e-13, 0.5, 0.999_999_999_999_9];
    for _ in positions.len()..128 {
        positions.push(random_unit());
    }
    let index = NeighborIndex1d::new(&bs(&positions), b(box_size), BoundaryMode1d::Periodic);
    for source in 0..positions.len() {
        for support in [0.001, 0.017 + 0.08 * random_unit(), 0.5, 0.73] {
            let actual = index.query(reach(positions[source], support, box_size));
            let expected: Vec<usize> = positions
                .iter()
                .enumerate()
                .filter_map(|(neighbor, &position)| {
                    let distance = displacement_1d(
                        positions[source],
                        position,
                        box_size,
                        BoundaryMode1d::Periodic,
                    )
                    .unwrap()
                    .abs();
                    (distance <= support).then_some(neighbor)
                })
                .collect();
            assert_eq!(actual, expected);
        }
    }
}

#[test]
fn sparse_periodic_pairs_handle_seam_duplicates_and_global_support() {
    let positions = [0.92, 0.08, 0.51, 0.49, 0.08, 0.75, 0.25];
    for smoothing_lengths in [
        [0.04, 0.17, 0.03, 0.08, 0.11, 0.02, 0.26],
        [0.5, 0.03, 0.04, 0.02, 0.01, 0.6, 0.05],
    ] {
        let sparse =
            interacting_pairs_1d(&positions, &smoothing_lengths, 1.0, BoundaryMode1d::Periodic);
        let brute = brute_force_interacting_pairs(&positions, &smoothing_lengths, 1.0);
        assert_eq!(sparse, brute);
    }
}

#[test]
fn unions_of_links_are_ordered_and_free_of_repeats() {
    let links = vec![vec![2, 1], vec![0], vec![], vec![0, 1, 2]];
    assert_eq!(union_pairs(&links), vec![(0, 1), (0, 2), (0, 3), (1, 3), (2, 3)]);
    assert_eq!(sort_dedup(&vec![5, 1, 5, 0, 1]), vec![0, 1, 5]);
    assert_eq!(sort_dedup(&vec![0, 5, 1]), vec![0, 1, 5]);
    let distances = [b(0.2), b(0.0), b(0.3), b(0.1)];
    assert_eq!(supported_neighbors(3, &[0, 1, 2, 3], &distances, b(0.3)), vec![0]);
}

#[test]
fn trees_have_one_root_and_follow_the_key_bits() {
    assert_eq!(legacy_tree_coordinate(b(1.5)), 1 << 41);
    assert_eq!(legacy_tree_coordinate(b(1.0)), 0);
    let keys = [0, 1, 1 << 41, (1 << 41) + 5, 1];
    let levels = tree_levels(&keys);
    assert_eq!(levels.len(), TREE_BITS as usize + 1);
    assert_eq!(levels[TREE_BITS as usize].prefixes, vec![0]);
    assert_eq!(levels[0].prefixes, vec![0, 1, 1 << 41, (1 << 41) + 5]);
    for (particle, &key) in keys.iter().enumerate() {
        let path = tree_path(&levels, &keys, particle);
        for (height, &node) in path.iter().enumerate() {
            assert_eq!(levels[height].prefixes[node], key >> height);
        }
    }
    assert_eq!(select_depth(&bs(&[8.0, 5.0, 3.0, 1.0]), b(3.0)), 2);
    assert_eq!(select_depth(&bs(&[8.0, 5.0, 3.0, 1.0]), b(9.0)), 0);
}

#[test]
fn tree_inputs_are_checked_in_order() {
    let check = |positions: &[f64], masses: &[f64], box_size: f64, desired: f64| {
        validate_tree_inputs(
            &bs(positions),
            &bs(masses),
            b(box_size),
            b(desired),
            BoundaryMode1d::Periodic,
        )
    };
    assert_eq!(
        check(&[0.5], &[], -1.0, 0.0),
        Err(HydroError::MismatchedLength { field: "masses", expected: 1, actual: 0 })
    );
    assert_eq!(check(&[0.5], &[1.0], -1.0, 0.0), Err(HydroError::InvalidBoxSize(b(-1.0))));
    assert_eq!(
        check(&[0.5], &[1.0], 1.0, 0.0),
        Err(HydroError::InvalidNeighborConstraint { desired: b(0.0), tolerance: b(0.0) })
    );
    assert_eq!(
        check(&[0.5, 1.0], &[0.0, 1.0], 1.0, 2.0),
        Err(HydroError::InvalidParticle { index: 0, field: "mass", value: b(0.0) })
    );
    assert_eq!(
        check(&[0.5, 1.0], &[1.0, 1.0], 1.0, 2.0),
        Err(HydroError::InvalidParticle { index: 1, field: "position", value: b(1.0) })
    );
    assert!(matches!(position_extent(&[]), Err(HydroError::DegenerateTreeDomain { .. })));
}

#[test]
fn axis_cells_wrap_around_the_seam() {
    let axis_cells = |center: usize, radius: f64, span: Binary64, count: usize| {
        candidate_axis_cells(center, b(radius), b(0.5), span, count)
    };
    assert_eq!(axis_cells(0, 0.1, b(1.0), 8), vec![0, 1, 7]);
    assert_eq!(axis_cells(7, 0.1, b(2.0), 8), vec![0, 1, 5, 6, 7]);
    assert_eq!(axis_cells(3, 0.1, b(4.0), 8), (0..8).collect::<Vec<_>>());
    assert_eq!(axis_cells(3, 0.5, b(0.0), 5), (0..5).collect::<Vec<_>>());
    assert_eq!(cell_grid_shape(b(10.0), b(3.0), 12), [4, 3]);
    assert_eq!(cell_grid_shape(b(0.0), b(f64::NAN), 12), [1, 1]);
}

#[test]
fn boxes_are_half_open_and_positive() {
    let domain = Box2d::new(b(4.0), b(0.25)).unwrap();
    assert!(domain.contains(Vector2::new(b(0.0), b(0.0))));
    assert!(!domain.contains(Vector2::new(b(4.0), b(0.0))));
    assert_eq!(
        domain.validate_wrapped(Vector2::new(b(1.0), b(0.3)), Some(3)),
        Err(GeometryError::InvalidPoint {
            index: Some(3),
            field: "position.y",
            value: b(0.3),
        })
    );
    assert_eq!(
        Box2d::new(b(1.0), b(0.0)),
        Err(GeometryError::InvalidBoxLength { axis: "y", value: b(0.0) })
    );
}

#[test]
fn kernel_pieces_meet_at_the_half_and_at_the_support() {
    assert_eq!(kernel_piece(b(0.0)), KernelPiece::Core);
    assert_eq!(kernel_piece(b(0.5)), KernelPiece::Tail);
    assert_eq!(kernel_piece(b(1.0)), KernelPiece::Outside);
    assert_close(cubic_kernel_weight_1d(0.0, 2.0), 2.0 / 3.0);
    assert_close(cubic_kernel_weight_1d(1.0, 2.0), 1.0 / 6.0);
    assert_close(cubic_kernel_weight_1d(2.0, 2.0), 0.0);
    assert_eq!(
        validate_kernel_input_1d(b(-1.0), b(1.0)),
        Err(HydroError::InvalidKernelInput { radius: b(-1.0), hsml: b(1.0) })
    );
}
