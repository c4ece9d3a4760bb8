//! The dyadic tree that seeds smoothing lengths.
//!
//! Positions scaled to one domain become integer keys. The tree holds, for every depth,
//! the distinct key prefixes in order; masses are summed from the leaves upward, and a
//! particle is seeded from the deepest node on its path that is heavy enough.

use vstd::prelude::*;
use vstd::arithmetic::power2::{
    lemma2_to64, lemma2_to64_rest, lemma_pow2_pos, lemma_pow2_unfold, pow2,
};

use crate::binary64::Binary64;
use crate::columns_1d::check_length;
use crate::hydro_error::HydroError;
use crate::neighbors_1d::BoundaryMode1d;
use crate::order::{sort_keyed, Keyed};

verus! {

use crate::binary64::{
    law_total_order_refines_the_numeric_order, NAN_BITS, SIGNIFICAND_UNIT,
};
use crate::columns_1d::{box_fault, length_fault, particle_fault};
use crate::fault::{
    first, first_fault, law_first_fault_is_the_earliest, lemma_first_fault_stays, outcome,
};
use crate::order::{keyed_le, keyed_sorted, lemma_same_elements};

/// The depth of the leaves.
pub const TREE_BITS: u32 = 42;

/// The number of keys.
pub const TREE_KEYS: u64 = 0x0400_0000_0000;

/// The leading bits of the fraction of a value.
pub open spec fn leading_fraction(value: Binary64) -> u64 {
    (value.bits % SIGNIFICAND_UNIT) / 1024
}

/// The key of a coordinate scaled to the interval from one to two: the leading bits of the
/// fraction.
pub fn legacy_tree_coordinate(normalized: Binary64) -> (result: u64)
    ensures
        result == leading_fraction(normalized),
        result < TREE_KEYS,
{
    (normalized.bits % SIGNIFICAND_UNIT) / 1024
}

/// The faults of the particles of a tree: position, then mass.
pub open spec fn tree_faults(
    positions: Seq<Binary64>,
    masses: Seq<Binary64>,
    box_size: Binary64,
    boundary: BoundaryMode1d,
) -> spec_fn(int) -> Option<HydroError> {
    |i: int|
        first(
            particle_fault(i, "position", positions[i], boundary.inside(positions[i], box_size)),
            particle_fault(i, "mass", masses[i], masses[i].positive()),
        )
}

/// The fault of the inputs of a tree.
pub open spec fn tree_inputs_fault(
    positions: Seq<Binary64>,
    masses: Seq<Binary64>,
    box_size: Binary64,
    desired_neighbors: Binary64,
    boundary: BoundaryMode1d,
) -> Option<HydroError> {
    first(
        length_fault("masses", positions.len() as int, masses.len() as int),
        first(
            box_fault(box_size),
            first(
                if desired_neighbors.positive() {
                    None
                } else {
                    Some(
                        HydroError::InvalidNeighborConstraint {
                            desired: desired_neighbors,
                            tolerance: Binary64 { bits: 0 },
                        },
                    )
                },
                first_fault(
                    tree_faults(positions, masses, box_size, boundary),
                    positions.len() as int,
                ),
            ),
        ),
    )
}

/// Check the inputs of a tree.
pub fn validate_tree_inputs(
    positions: &[Binary64],
    masses: &[Binary64],
    box_size: Binary64,
    desired_neighbors: Binary64,
    boundary: BoundaryMode1d,
) -> (result: Result<(), HydroError>)
    ensures
        result == outcome(
            tree_inputs_fault(positions@, masses@, box_size, desired_neighbors, boundary),
        ),
{
    if let Err(error) = check_length("masses", positions.len(), masses.len()) {
        return Err(error);
    }
    if !box_size.is_positive() {
        return Err(HydroError::InvalidBoxSize(box_size));
    }
    if !desired_neighbors.is_positive() {
        return Err(
            HydroError::InvalidNeighborConstraint {
                desired: desired_neighbors,
                tolerance: Binary64 { bits: 0 },
            },
        );
    }
    let ghost faults = tree_faults(positions@, masses@, box_size, boundary);
    let mut index: usize = 0;
    while index < positions.len()
        invariant
            index <= positions@.len(),
            masses@.len() == positions@.len(),
            faults == tree_faults(positions@, masses@, box_size, boundary),
            first_fault(faults, index as int) is None,
            box_size.positive(),
            desired_neighbors.positive(),
        decreases positions@.len() - index,
    {
        let mut fault: Option<HydroError> = None;
        if !boundary.contains(positions[index], box_size) {
            fault =
            Some(
                HydroError::InvalidParticle { index, field: "position", value: positions[index] },
            );
        } else if !masses[index].is_positive() {
            fault = Some(HydroError::InvalidParticle { index, field: "mass", value: masses[index] });
        }
        assert(fault == faults(index as int));
        if let Some(error) = fault {
            proof {
                lemma_first_fault_stays(faults, index + 1, positions@.len() as int);
            }
            return Err(error);
        }
        index = index + 1;
    }
    Ok(())
}

/// Whether two values are the first and the last of the positions in the total order.
pub open spec fn spans(positions: Seq<Binary64>, minimum: Binary64, maximum: Binary64) -> bool {
    &&& positions.contains(minimum)
    &&& positions.contains(maximum)
    &&& forall|k: int|
        0 <= k < positions.len() ==> minimum.total_rank() <= (
        #[trigger] positions[k]).total_rank() <= maximum.total_rank()
}

/// The first and the last position in the total order.
pub fn position_extent(positions: &[Binary64]) -> (result: Result<(Binary64, Binary64), HydroError>)
    ensures
        match result {
            Ok((minimum, maximum)) => spans(positions@, minimum, maximum),
            Err(error) => positions@.len() == 0 && error == (HydroError::DegenerateTreeDomain {
                minimum: Binary64 { bits: NAN_BITS },
                maximum: Binary64 { bits: NAN_BITS },
            }),
        },
        result is Ok <==> positions@.len() > 0,
        result matches Ok((minimum, maximum)) ==> forall|k: int|
            0 <= k < positions@.len() ==> !(#[trigger] positions@[k]).lt(minimum) && !maximum.lt(
                positions@[k],
            ),
{
    let nan: Binary64 = Binary64 { bits: NAN_BITS };
    if positions.len() == 0 {
        return Err(HydroError::DegenerateTreeDomain { minimum: nan, maximum: nan });
    }
    let mut minimum: Binary64 = positions[0];
    let mut maximum: Binary64 = positions[0];
    let mut index: usize = 1;
    while index < positions.len()
        invariant
            1 <= index <= positions@.len(),
            positions@.contains(minimum),
            positions@.contains(maximum),
            forall|k: int|
                0 <= k < index ==> minimum.total_rank() <= (#[trigger] positions@[k]).total_rank()
                    <= maximum.total_rank(),
        decreases positions@.len() - index,
    {
        let position: Binary64 = positions[index];
        assert(positions@[index as int] == position);
        if position.totally_before(minimum) {
            minimum = position;
        }
        if maximum.totally_before(position) {
            maximum = position;
        }
        index = index + 1;
    }
    Ok((minimum, maximum))
}

/// Check the length of the domain of a tree.
pub fn validate_domain_length(
    domain_length: Binary64,
    minimum: Binary64,
    maximum: Binary64,
) -> (result: Result<(), HydroError>)
    ensures
        result == outcome(
            if domain_length.positive() {
                None
            } else {
                Some(HydroError::DegenerateTreeDomain { minimum, maximum })
            },
        ),
        result is Ok <==> domain_length.finite() && (Binary64 { bits: 0 }).lt(domain_length),
{
    if domain_length.is_positive() {
        Ok(())
    } else {
        Err(HydroError::DegenerateTreeDomain { minimum, maximum })
    }
}

/// Whether a sequence of prefixes is strictly increasing.
pub open spec fn prefixes_increasing(prefixes: Seq<u64>) -> bool {
    forall|i: int, j: int|
        0 <= i < j < prefixes.len() ==> #[trigger] prefixes[i] < #[trigger] prefixes[j]
}

/// The node level above another: its distinct prefixes, and the parent of every child.
pub struct TreeLevel {
    pub prefixes: Vec<u64>,
    pub parents: Vec<usize>,
}

/// Collect the parents of a level of nodes.
pub fn parent_level(children: &[u64]) -> (result: TreeLevel)
    requires
        prefixes_increasing(children@),
    ensures
        prefixes_increasing(result.prefixes@),
        result.parents@.len() == children@.len(),
        forall|k: int|
            0 <= k < children@.len() ==> (#[trigger] result.parents@[k]) < result.prefixes@.len()
                && result.prefixes@[result.parents@[k] as int] == children@[k] / 2,
        forall|prefix: u64|
            #[trigger] result.prefixes@.contains(prefix) <==> exists|k: int|
                0 <= k < children@.len() && (#[trigger] children@[k]) / 2 == prefix,
        forall|a: int, b: int|
            0 <= a < b < children@.len() ==> #[trigger] result.parents@[a]
                <= #[trigger] result.parents@[b],
{
    let mut prefixes: Vec<u64> = Vec::new();
    let mut parents: Vec<usize> = Vec::with_capacity(children.len());
    let mut k: usize = 0;
    while k < children.len()
        invariant
            k <= children@.len(),
            prefixes_increasing(children@),
            prefixes_increasing(prefixes@),
            prefixes@.len() <= k,
            parents@.len() == k,
            k == 0 ==> prefixes@.len() == 0,
            k > 0 ==> prefixes@.len() > 0 && prefixes@.last() == children@[k - 1] / 2,
            forall|a: int|
                0 <= a < k ==> (#[trigger] parents@[a]) < prefixes@.len()
                    && prefixes@[parents@[a] as int] == children@[a] / 2,
            k > 0 ==> parents@[k - 1] == prefixes@.len() - 1,
            forall|a: int, b: int|
                0 <= a < b < k ==> #[trigger] parents@[a] <= #[trigger] parents@[b],
            forall|m: int|
                0 <= m < prefixes@.len() ==> exists|a: int|
                    0 <= a < k && (#[trigger] children@[a]) / 2 == #[trigger] prefixes@[m],
        decreases children@.len() - k,
    {
        let prefix: u64 = children[k] / 2;
        let fresh: bool = k == 0 || children[k - 1] / 2 != prefix;
        let ghost before = prefixes@;
        if fresh {
            prefixes.push(prefix);
            proof {
                if k > 0 {
                    assert(children@[k - 1] < children@[k as int]);
                }
                assert forall|i: int, j: int| 0 <= i < j < prefixes@.len() implies #[trigger]
                    prefixes@[i] < #[trigger] prefixes@[j] by {
                    if j == before.len() {
                        if i < before.len() - 1 {
                            assert(before[i] < before[before.len() - 1]);
                        }
                    }
                }
                assert forall|m: int| 0 <= m < prefixes@.len() implies exists|a: int|
                    0 <= a < k + 1 && (#[trigger] children@[a]) / 2 == #[trigger] prefixes@[m] by {
                    if m < before.len() {
                        assert(before[m] == prefixes@[m]);
                        let a = choose|a: int|
                            0 <= a < k && (#[trigger] children@[a]) / 2 == before[m];
                        assert(children@[a] / 2 == prefixes@[m]);
                    } else {
                        assert(children@[k as int] / 2 == prefixes@[m]);
                    }
                }
            }
        } else {
            proof {
                assert forall|m: int| 0 <= m < prefixes@.len() implies exists|a: int|
                    0 <= a < k + 1 && (#[trigger] children@[a]) / 2 == #[trigger] prefixes@[m] by {
                    let a = choose|a: int|
                        0 <= a < k && (#[trigger] children@[a]) / 2 == before[m];
                    assert(children@[a] / 2 == prefixes@[m]);
                }
            }
        }
        parents.push(prefixes.len() - 1);
        k = k + 1;
    }
    proof {
        assert forall|prefix: u64| #[trigger] prefixes@.contains(prefix) <==> exists|a: int|
            0 <= a < children@.len() && (#[trigger] children@[a]) / 2 == prefix by {
            if prefixes@.contains(prefix) {
                let m = choose|m: int| 0 <= m < prefixes@.len() && prefixes@[m] == prefix;
                let a = choose|a: int|
                    0 <= a < k && (#[trigger] children@[a]) / 2 == prefixes@[m];
                assert(children@[a] / 2 == prefix);
            }
            if exists|a: int| 0 <= a < children@.len() && (#[trigger] children@[a]) / 2 == prefix {
                let a = choose|a: int|
                    0 <= a < children@.len() && (#[trigger] children@[a]) / 2 == prefix;
                assert(prefixes@[parents@[a] as int] == prefix);
            }
        }
    }
    TreeLevel { prefixes, parents }
}

/// The leaves of a tree: the distinct keys, and the leaf of every particle.
pub fn leaf_level(keys: &[u64]) -> (result: TreeLevel)
    ensures
        prefixes_increasing(result.prefixes@),
        result.parents@.len() == keys@.len(),
        forall|k: int|
            0 <= k < keys@.len() ==> (#[trigger] result.parents@[k]) < result.prefixes@.len()
                && result.prefixes@[result.parents@[k] as int] == keys@[k],
        forall|prefix: u64| #[trigger] result.prefixes@.contains(prefix) <==> keys@.contains(prefix),
{
    let mut entries: Vec<Keyed> = Vec::with_capacity(keys.len());
    let mut index: usize = 0;
    while index < keys.len()
        invariant
            index <= keys@.len(),
            entries@.len() == index,
            forall|k: int|
                0 <= k < index ==> (#[trigger] entries@[k]).0 == keys@[k] && entries@[k].1 == k,
        decreases keys@.len() - index,
    {
        entries.push((keys[index], index));
        index = index + 1;
    }
    let ghost source = entries@;
    let sorted: Vec<Keyed> = sort_keyed(entries);
    proof {
        lemma_same_elements(sorted@, source);
        assert forall|k: int| 0 <= k < sorted@.len() implies (#[trigger] sorted@[k]).1
            < keys@.len() && sorted@[k].0 == keys@[sorted@[k].1 as int] by {
            assert(sorted@.contains(sorted@[k]));
            let m = choose|m: int| 0 <= m < source.len() && source[m] == sorted@[k];
            assert(source[m].1 == m);
        }
    }
    let mut prefixes: Vec<u64> = Vec::new();
    let mut parents: Vec<usize> = Vec::with_capacity(keys.len());
    let mut index: usize = 0;
    while index < keys.len()
        invariant
            index <= keys@.len(),
            parents@.len() == index,
        decreases keys@.len() - index,
    {
        parents.push(0);
        index = index + 1;
    }
    let mut at: usize = 0;
    while at < sorted.len()
        invariant
            at <= sorted@.len(),
            keyed_sorted(sorted@),
            sorted@.len() == keys@.len(),
            parents@.len() == keys@.len(),
            forall|k: int|
                0 <= k < sorted@.len() ==> (#[trigger] sorted@[k]).1 < keys@.len() && sorted@[k].0
                    == keys@[sorted@[k].1 as int],
            prefixes_increasing(prefixes@),
            prefixes@.len() <= at,
            at == 0 ==> prefixes@.len() == 0,
            at > 0 ==> prefixes@.len() > 0 && prefixes@.last() == sorted@[at - 1].0,
            forall|k: int|
                0 <= k < at ==> parents@[(#[trigger] sorted@[k]).1 as int] < prefixes@.len()
                    && prefixes@[parents@[sorted@[k].1 as int] as int] == sorted@[k].0,
            forall|m: int|
                0 <= m < prefixes@.len() ==> keys@.contains(#[trigger] prefixes@[m]),
        decreases sorted@.len() - at,
    {
        let entry: Keyed = sorted[at];
        assert(sorted@[at as int].1 < keys@.len());
        let fresh: bool = at == 0 || sorted[at - 1].0 != entry.0;
        let ghost before = prefixes@;
        let ghost earlier = parents@;
        if fresh {
            prefixes.push(entry.0);
            proof {
                if at > 0 {
                    assert(keyed_le(sorted@[at - 1], sorted@[at as int]));
                }
                assert forall|i: int, j: int| 0 <= i < j < prefixes@.len() implies #[trigger]
                    prefixes@[i] < #[trigger] prefixes@[j] by {
                    if j == before.len() {
                        if i < before.len() - 1 {
                            assert(before[i] < before[before.len() - 1]);
                        }
                    }
                }
                assert(keys@[entry.1 as int] == entry.0);
            }
        }
        parents.set(entry.1, prefixes.len() - 1);
        proof {
            assert forall|k: int| 0 <= k < at + 1 implies parents@[(
            #[trigger] sorted@[k]).1 as int] < prefixes@.len()
                && prefixes@[parents@[sorted@[k].1 as int] as int] == sorted@[k].0 by {
                if sorted@[k].1 == entry.1 {
                    assert(sorted@[k].0 == keys@[entry.1 as int]);
                } else {
                    assert(parents@[sorted@[k].1 as int] == earlier[sorted@[k].1 as int]);
                    if k < at {
                        assert(before[earlier[sorted@[k].1 as int] as int] == sorted@[k].0);
                    }
                }
            }
        }
        at = at + 1;
    }
    proof {
        assert forall|k: int| 0 <= k < keys@.len() implies (#[trigger] parents@[k])
            < prefixes@.len() && prefixes@[parents@[k] as int] == keys@[k] by {
            assert(source.contains(source[k]));
            assert(sorted@.contains(source[k]));
            let m = choose|m: int| 0 <= m < sorted@.len() && sorted@[m] == source[k];
            assert(sorted@[m].1 == k);
        }
        assert forall|prefix: u64| #[trigger] prefixes@.contains(prefix) <==> keys@.contains(
            prefix,
        ) by {
            if prefixes@.contains(prefix) {
                let m = choose|m: int| 0 <= m < prefixes@.len() && prefixes@[m] == prefix;
                assert(keys@.contains(prefixes@[m]));
            }
            if keys@.contains(prefix) {
                let k = choose|k: int| 0 <= k < keys@.len() && keys@[k] == prefix;
                assert(prefixes@[parents@[k] as int] == prefix);
            }
        }
    }
    TreeLevel { prefixes, parents }
}

/// Whether a level lists exactly the prefixes of the keys at a height above the leaves.
pub open spec fn level_holds(prefixes: Seq<u64>, keys: Seq<u64>, height: nat) -> bool {
    &&& prefixes_increasing(prefixes)
    &&& forall|prefix: u64|
        #[trigger] prefixes.contains(prefix) <==> exists|k: int|
            0 <= k < keys.len() && (#[trigger] keys[k] as int) / (pow2(height) as int) == prefix
}

/// Whether every entry of a level points to its parent in the level above.
pub open spec fn parents_hold(children: Seq<u64>, level: TreeLevel) -> bool {
    &&& level.parents@.len() == children.len()
    &&& forall|k: int|
        0 <= k < children.len() ==> (#[trigger] level.parents@[k]) < level.prefixes@.len()
            && level.prefixes@[level.parents@[k] as int] == children[k] / 2
}

/// Whether levels form the tree over a set of keys, leaves first.
pub open spec fn tree_holds(levels: Seq<TreeLevel>, keys: Seq<u64>) -> bool {
    &&& levels.len() > 0
    &&& levels[0].parents@.len() == keys.len()
    &&& forall|k: int|
        0 <= k < keys.len() ==> (#[trigger] levels[0].parents@[k]) < levels[0].prefixes@.len()
            && levels[0].prefixes@[levels[0].parents@[k] as int] == keys[k]
    &&& forall|h: int|
        0 <= h < levels.len() ==> level_holds(
            (#[trigger] levels[h]).prefixes@,
            keys,
            h as nat,
        )
    &&& forall|h: int|
        0 < h < levels.len() ==> parents_hold(levels[h - 1].prefixes@, #[trigger] levels[h])
}

proof fn lemma_halved_prefix(key: u64, height: nat)
    ensures
        ((key as int) / (pow2(height) as int)) / 2 == (key as int) / (pow2(height + 1) as int),
{
    lemma_pow2_pos(height);
    lemma_pow2_unfold(height + 1);
    vstd::arithmetic::div_mod::lemma_div_denominator(key as int, pow2(height) as int, 2);
    assert(pow2(height) * 2 == pow2(height + 1)) by (nonlinear_arith)
        requires
            pow2(height + 1) == 2 * pow2(height),
    ;
}

proof fn lemma_parent_level_holds(
    children: Seq<u64>,
    parents: Seq<u64>,
    keys: Seq<u64>,
    height: nat,
)
    requires
        level_holds(children, keys, height),
        prefixes_increasing(parents),
        forall|prefix: u64|
            #[trigger] parents.contains(prefix) <==> exists|k: int|
                0 <= k < children.len() && (#[trigger] children[k]) / 2 == prefix,
    ensures
        level_holds(parents, keys, height + 1),
{
    assert forall|prefix: u64| #[trigger] parents.contains(prefix) <==> exists|k: int|
        0 <= k < keys.len() && (#[trigger] keys[k] as int) / (pow2(height + 1) as int) == prefix by {
        if parents.contains(prefix) {
            let c = choose|c: int| 0 <= c < children.len() && (#[trigger] children[c]) / 2 == prefix;
            assert(children.contains(children[c]));
            let k = choose|k: int|
                0 <= k < keys.len() && (#[trigger] keys[k] as int) / (pow2(height) as int)
                    == children[c];
            lemma_halved_prefix(keys[k], height);
        }
        if exists|k: int|
            0 <= k < keys.len() && (#[trigger] keys[k] as int) / (pow2(height + 1) as int)
                == prefix {
            let k = choose|k: int|
                0 <= k < keys.len() && (#[trigger] keys[k] as int) / (pow2(height + 1) as int)
                    == prefix;
            lemma_halved_prefix(keys[k], height);
            lemma_pow2_pos(height);
            let child = ((keys[k] as int) / (pow2(height) as int)) as u64;
            vstd::arithmetic::div_mod::lemma_div_is_ordered_by_denominator(
                keys[k] as int,
                1,
                pow2(height) as int,
            );
            vstd::arithmetic::div_mod::lemma_div_pos_is_pos(keys[k] as int, pow2(height) as int);
            assert(child == (keys[k] as int) / (pow2(height) as int));
            assert(children.contains(child));
            let c = choose|c: int| 0 <= c < children.len() && children[c] == child;
            assert(children[c] / 2 == prefix);
        }
    }
}

/// Build the tree over a set of keys, from the leaves to the root.
pub fn tree_levels(keys: &[u64]) -> (result: Vec<TreeLevel>)
    ensures
        result@.len() == TREE_BITS + 1,
        tree_holds(result@, keys@),
{
    let mut levels: Vec<TreeLevel> = Vec::with_capacity(43);
    let leaves: TreeLevel = leaf_level(keys);
    proof {
        lemma2_to64();
        assert forall|prefix: u64| #[trigger] leaves.prefixes@.contains(prefix) <==> exists|k: int|
            0 <= k < keys@.len() && (#[trigger] keys@[k] as int) / (pow2(0) as int) == prefix by {
            if leaves.prefixes@.contains(prefix) {
                assert(keys@.contains(prefix));
                let k = choose|k: int| 0 <= k < keys@.len() && keys@[k] == prefix;
                assert((keys@[k] as int) / (pow2(0) as int) == prefix);
            }
            if exists|k: int|
                0 <= k < keys@.len() && (#[trigger] keys@[k] as int) / (pow2(0) as int) == prefix {
                let k = choose|k: int|
                    0 <= k < keys@.len() && (#[trigger] keys@[k] as int) / (pow2(0) as int)
                        == prefix;
                assert(keys@[k] == prefix);
            }
        }
    }
    levels.push(leaves);
    let mut height: u32 = 0;
    while height < TREE_BITS
        invariant
            height <= TREE_BITS,
            levels@.len() == height + 1,
            tree_holds(levels@, keys@),
        decreases TREE_BITS - height,
    {
        assert(level_holds(levels@[height as int].prefixes@, keys@, height as nat));
        let level: TreeLevel = parent_level(levels[levels.len() - 1].prefixes.as_slice());
        proof {
            lemma_parent_level_holds(
                levels@[height as int].prefixes@,
                level.prefixes@,
                keys@,
                height as nat,
            );
        }
        let ghost before = levels@;
        levels.push(level);
        proof {
            assert forall|h: int| 0 <= h < levels@.len() implies level_holds(
                (#[trigger] levels@[h]).prefixes@,
                keys@,
                h as nat,
            ) by {
                if h < before.len() {
                    assert(levels@[h] == before[h]);
                }
            }
            assert forall|h: int| 0 < h < levels@.len() implies parents_hold(
                levels@[h - 1].prefixes@,
                #[trigger] levels@[h],
            ) by {
                assert(levels@[h - 1] == before[h - 1]);
                if h < before.len() {
                    assert(levels@[h] == before[h]);
                }
            }
            assert(levels@[0] == before[0]);
        }
        height = height + 1;
    }
    levels
}

/// Whether a path holds the node of a key on every level.
pub open spec fn path_holds(levels: Seq<TreeLevel>, key: u64, path: Seq<usize>) -> bool {
    &&& path.len() == levels.len()
    &&& forall|h: int|
        0 <= h < levels.len() ==> (#[trigger] path[h]) < levels[h].prefixes@.len()
            && levels[h].prefixes@[path[h] as int] == (key as int) / (pow2(h as nat) as int)
}

/// The node of a particle on every level, from the leaf to the root.
pub fn tree_path(levels: &Vec<TreeLevel>, keys: &[u64], particle: usize) -> (result: Vec<usize>)
    requires
        tree_holds(levels@, keys@),
        particle < keys@.len(),
    ensures
        path_holds(levels@, keys@[particle as int], result@),
{
    let mut path: Vec<usize> = Vec::with_capacity(levels.len());
    path.push(levels[0].parents[particle]);
    proof {
        lemma2_to64();
        assert(levels@[0].prefixes@[levels@[0].parents@[particle as int] as int]
            == keys@[particle as int]);
        assert forall|h: int| 0 <= h < 1 implies (#[trigger] path@[h]) < levels@[h].prefixes@.len()
            && levels@[h].prefixes@[path@[h] as int] == (keys@[particle as int] as int) / (pow2(
            h as nat,
        ) as int) by {
            assert(pow2(h as nat) == 1);
        }
    }
    let mut height: usize = 1;
    while height < levels.len()
        invariant
            1 <= height <= levels@.len(),
            tree_holds(levels@, keys@),
            particle < keys@.len(),
            path@.len() == height,
            forall|h: int|
                0 <= h < height ==> (#[trigger] path@[h]) < levels@[h].prefixes@.len()
                    && levels@[h].prefixes@[path@[h] as int] == (keys@[particle as int] as int) / (
                pow2(h as nat) as int),
        decreases levels@.len() - height,
    {
        let child: usize = path[height - 1];
        proof {
            assert(parents_hold(levels@[height - 1].prefixes@, levels@[height as int]));
            lemma_halved_prefix(keys@[particle as int], (height - 1) as nat);
        }
        path.push(levels[height].parents[child]);
        height = height + 1;
    }
    path
}

/// A tree over keys in range has a single root, and all its particles under it.
pub proof fn law_one_root(levels: Seq<TreeLevel>, keys: Seq<u64>)
    requires
        levels.len() == TREE_BITS + 1,
        tree_holds(levels, keys),
        keys.len() > 0,
        forall|k: int| 0 <= k < keys.len() ==> (#[trigger] keys[k]) < TREE_KEYS,
    ensures
        levels[TREE_BITS as int].prefixes@ == seq![0u64],
{
    let top = levels[TREE_BITS as int].prefixes@;
    lemma2_to64_rest();
    assert(level_holds(top, keys, TREE_BITS as nat));
    assert((keys[0] as int) / (pow2(42) as int) == 0);
    assert(top.contains(0u64));
    assert forall|prefix: u64| top.contains(prefix) implies prefix == 0 by {
        let k = choose|k: int|
            0 <= k < keys.len() && (#[trigger] keys[k] as int) / (pow2(TREE_BITS as nat) as int)
                == prefix;
        assert(keys[k] < TREE_KEYS);
    }
    let at = choose|at: int| 0 <= at < top.len() && top[at] == 0;
    if top.len() > 1 {
        assert(top.contains(top[0]));
        assert(top.contains(top[1]));
        assert(top[0] < top[1]);
    }
    assert(top =~= seq![0u64]);
}

/// The nodes of a tree do not depend on the order of the particles: keys that are
/// rearranged give the same prefixes on every level.
pub proof fn law_tree_is_order_invariant(
    left: Seq<TreeLevel>,
    right: Seq<TreeLevel>,
    keys: Seq<u64>,
    rearranged: Seq<u64>,
    height: int,
)
    requires
        tree_holds(left, keys),
        tree_holds(right, rearranged),
        forall|key: u64| keys.contains(key) <==> rearranged.contains(key),
        0 <= height < left.len(),
        height < right.len(),
    ensures
        left[height].prefixes@ == right[height].prefixes@,
{
    let a = left[height].prefixes@;
    let b = right[height].prefixes@;
    assert(level_holds(a, keys, height as nat));
    assert(level_holds(b, rearranged, height as nat));
    assert forall|prefix: u64| a.contains(prefix) <==> b.contains(prefix) by {
        if a.contains(prefix) {
            let k = choose|k: int|
                0 <= k < keys.len() && (#[trigger] keys[k] as int) / (pow2(height as nat) as int)
                    == prefix;
            assert(keys.contains(keys[k]));
            let m = choose|m: int| 0 <= m < rearranged.len() && rearranged[m] == keys[k];
            assert((rearranged[m] as int) / (pow2(height as nat) as int) == prefix);
        }
        if b.contains(prefix) {
            let k = choose|k: int|
                0 <= k < rearranged.len() && (#[trigger] rearranged[k] as int) / (pow2(
                    height as nat,
                ) as int) == prefix;
            assert(rearranged.contains(rearranged[k]));
            let m = choose|m: int| 0 <= m < keys.len() && keys[m] == rearranged[k];
            assert((keys[m] as int) / (pow2(height as nat) as int) == prefix);
        }
    }
    lemma_increasing_prefixes_unique(a, b);
}

/// The values of the children of one node, among the first `count` entries of a level, put
/// together in order.
pub open spec fn gathered<R>(
    parents: Seq<usize>,
    values: Seq<R>,
    combine: spec_fn(R, R) -> R,
    zero: R,
    node: int,
    count: int,
) -> R
    decreases count,
{
    if count <= 0 {
        zero
    } else {
        let earlier = gathered(parents, values, combine, zero, node, count - 1);
        if parents[count - 1] == node {
            combine(earlier, values[count - 1])
        } else {
            earlier
        }
    }
}

/// The values of the nodes on a level: those of the particles put together upwards, child by
/// child, by any way to combine two of them.
pub open spec fn node_values<R>(
    levels: Seq<TreeLevel>,
    particles: Seq<R>,
    combine: spec_fn(R, R) -> R,
    zero: R,
    height: int,
) -> Seq<R>
    decreases height,
{
    let below = if height <= 0 {
        particles
    } else {
        node_values(levels, particles, combine, zero, height - 1)
    };
    let parents = levels[height].parents@;
    Seq::new(
        levels[height].prefixes@.len(),
        |node: int| gathered(parents, below, combine, zero, node, parents.len() as int),
    )
}

proof fn lemma_gathered_single<R>(
    parents: Seq<usize>,
    values: Seq<R>,
    combine: spec_fn(R, R) -> R,
    zero: R,
    node: int,
    count: int,
    child: int,
)
    requires
        0 <= count <= parents.len(),
        0 <= child < parents.len(),
        forall|k: int| 0 <= k < parents.len() ==> (#[trigger] parents[k] == node <==> k == child),
    ensures
        gathered(parents, values, combine, zero, node, count) == if child < count {
            combine(zero, values[child])
        } else {
            zero
        },
    decreases count,
{
    if count > 0 {
        lemma_gathered_single(parents, values, combine, zero, node, count - 1, child);
        assert(parents[count - 1] == node <==> count - 1 == child);
    }
}

proof fn lemma_prefix_position(prefixes: Seq<u64>, a: int, b: int)
    requires
        prefixes_increasing(prefixes),
        0 <= a < prefixes.len(),
        0 <= b < prefixes.len(),
        prefixes[a] == prefixes[b],
    ensures
        a == b,
{
    if a < b {
        assert(prefixes[a] < prefixes[b]);
    } else if b < a {
        assert(prefixes[b] < prefixes[a]);
    }
}

/// The particle of a leaf, where no two particles share a key.
proof fn lemma_leaf_particle(levels: Seq<TreeLevel>, keys: Seq<u64>, node: int) -> (particle: int)
    requires
        tree_holds(levels, keys),
        0 <= node < levels[0].prefixes@.len(),
        forall|i: int, j: int| 0 <= i < j < keys.len() ==> #[trigger] keys[i] != #[trigger] keys[j],
    ensures
        0 <= particle < keys.len(),
        keys[particle] == levels[0].prefixes@[node],
        forall|k: int|
            0 <= k < keys.len() ==> (#[trigger] levels[0].parents@[k] == node <==> k == particle),
{
    let prefixes = levels[0].prefixes@;
    assert(level_holds(prefixes, keys, 0));
    assert(prefixes.contains(prefixes[node]));
    lemma2_to64();
    let particle = choose|k: int|
        0 <= k < keys.len() && (#[trigger] keys[k] as int) / (pow2(0) as int) == prefixes[node];
    assert(keys[particle] == prefixes[node]);
    assert forall|k: int| 0 <= k < keys.len() implies (#[trigger] levels[0].parents@[k] == node
        <==> k == particle) by {
        assert(prefixes[levels[0].parents@[k] as int] == keys[k]);
        if k == particle {
            lemma_prefix_position(prefixes, levels[0].parents@[k] as int, node);
        }
    }
    particle
}

/// What is put together up the tree does not depend on the order of the particles: where no
/// two particles share a key, particles that are rearranged with their values give every
/// node the same value, whatever rounding the additions do.
pub proof fn law_node_values_are_order_invariant<R>(
    left: Seq<TreeLevel>,
    right: Seq<TreeLevel>,
    keys: Seq<u64>,
    rearranged: Seq<u64>,
    particles: Seq<R>,
    others: Seq<R>,
    combine: spec_fn(R, R) -> R,
    zero: R,
    height: int,
)
    requires
        tree_holds(left, keys),
        tree_holds(right, rearranged),
        forall|key: u64| keys.contains(key) <==> rearranged.contains(key),
        forall|i: int, j: int| 0 <= i < j < keys.len() ==> #[trigger] keys[i] != #[trigger] keys[j],
        forall|i: int, j: int|
            0 <= i < j < rearranged.len() ==> #[trigger] rearranged[i] != #[trigger] rearranged[j],
        particles.len() == keys.len(),
        others.len() == rearranged.len(),
        forall|i: int, j: int|
            0 <= i < keys.len() && 0 <= j < rearranged.len() && #[trigger] keys[i]
                == #[trigger] rearranged[j] ==> particles[i] == others[j],
        0 <= height < left.len(),
        height < right.len(),
    ensures
        node_values(left, particles, combine, zero, height) == node_values(
            right,
            others,
            combine,
            zero,
            height,
        ),
    decreases height,
{
    law_tree_is_order_invariant(left, right, keys, rearranged, height);
    let prefixes = left[height].prefixes@;
    let a = node_values(left, particles, combine, zero, height);
    let b = node_values(right, others, combine, zero, height);
    if height == 0 {
        assert forall|node: int| 0 <= node < prefixes.len() implies a[node] == b[node] by {
            let i = lemma_leaf_particle(left, keys, node);
            let j = lemma_leaf_particle(right, rearranged, node);
            let parents = left[0].parents@;
            let count = parents.len() as int;
            lemma_gathered_single(parents, particles, combine, zero, node, count, i);
            let parents = right[0].parents@;
            let count = parents.len() as int;
            lemma_gathered_single(parents, others, combine, zero, node, count, j);
            assert(keys[i] == rearranged[j]);
        }
    } else {
        law_node_values_are_order_invariant(
            left,
            right,
            keys,
            rearranged,
            particles,
            others,
            combine,
            zero,
            height - 1,
        );
        law_tree_is_order_invariant(left, right, keys, rearranged, height - 1);
        let children = left[height - 1].prefixes@;
        assert(parents_hold(children, left[height]));
        assert(parents_hold(right[height - 1].prefixes@, right[height]));
        assert(level_holds(prefixes, keys, height as nat));
        assert forall|k: int| 0 <= k < children.len() implies left[height].parents@[k]
            == right[height].parents@[k] by {
            let x = left[height].parents@[k] as int;
            let y = right[height].parents@[k] as int;
            assert(prefixes[x] == children[k] / 2);
            assert(right[height].prefixes@[y] == children[k] / 2);
            lemma_prefix_position(prefixes, x, y);
        }
        assert(left[height].parents@ =~= right[height].parents@);
    }
    assert(a =~= b);
}

/// The path of a particle does not depend on the order of the particles: the same key leads
/// through the same nodes.
pub proof fn law_paths_are_order_invariant(
    left: Seq<TreeLevel>,
    right: Seq<TreeLevel>,
    keys: Seq<u64>,
    rearranged: Seq<u64>,
    key: u64,
    path: Seq<usize>,
    other: Seq<usize>,
)
    requires
        tree_holds(left, keys),
        tree_holds(right, rearranged),
        left.len() == right.len(),
        forall|key: u64| keys.contains(key) <==> rearranged.contains(key),
        path_holds(left, key, path),
        path_holds(right, key, other),
    ensures
        path == other,
{
    assert forall|h: int| 0 <= h < path.len() implies path[h] == other[h] by {
        law_tree_is_order_invariant(left, right, keys, rearranged, h);
        assert(level_holds(left[h].prefixes@, keys, h as nat));
        assert(path[h] < left[h].prefixes@.len());
        assert(other[h] < right[h].prefixes@.len());
        lemma_prefix_position(left[h].prefixes@, path[h] as int, other[h] as int);
    }
    assert(path =~= other);
}

proof fn lemma_increasing_prefixes_unique(left: Seq<u64>, right: Seq<u64>)
    requires
        prefixes_increasing(left),
        prefixes_increasing(right),
        forall|prefix: u64| left.contains(prefix) <==> right.contains(prefix),
    ensures
        left == right,
    decreases left.len(),
{
    if left.len() == 0 {
        if right.len() > 0 {
            assert(right.contains(right[0]));
        }
        assert(left =~= right);
    } else {
        assert(left.contains(left.last()));
        assert(right.len() > 0);
        assert(right.contains(right.last()));
        let a = choose|a: int| 0 <= a < left.len() && left[a] == right.last();
        let b = choose|b: int| 0 <= b < right.len() && right[b] == left.last();
        assert(left.last() == right.last());
        let l = left.drop_last();
        let r = right.drop_last();
        assert forall|prefix: u64| l.contains(prefix) <==> r.contains(prefix) by {
            if l.contains(prefix) {
                let k = choose|k: int| 0 <= k < l.len() && l[k] == prefix;
                assert(left[k] == prefix);
                assert(left.contains(prefix));
                let m = choose|m: int| 0 <= m < right.len() && right[m] == prefix;
                assert(m < right.len() - 1);
                assert(r[m] == prefix);
            }
            if r.contains(prefix) {
                let k = choose|k: int| 0 <= k < r.len() && r[k] == prefix;
                assert(right[k] == prefix);
                assert(right.contains(prefix));
                let m = choose|m: int| 0 <= m < left.len() && left[m] == prefix;
                assert(m < left.len() - 1);
                assert(l[m] == prefix);
            }
        }
        lemma_increasing_prefixes_unique(l, r);
        assert(left =~= l.push(left.last()));
        assert(right =~= r.push(right.last()));
    }
}

/// Whether a depth is the deepest on a path whose mass reaches the threshold, or the root
/// where none does.
pub open spec fn selected_depth(masses: Seq<Binary64>, threshold: Binary64, depth: int) -> bool {
    &&& 0 <= depth < masses.len()
    &&& depth > 0 ==> threshold.le(masses[depth])
    &&& forall|deeper: int|
        depth < deeper < masses.len() ==> !threshold.le(#[trigger] masses[deeper])
}

/// Choose the node that seeds a particle: the deepest on its path whose mass reaches the
/// threshold, or the root. `masses` runs from the root to the leaf.
pub fn select_depth(masses: &[Binary64], threshold: Binary64) -> (result: usize)
    requires
        masses@.len() > 0,
    ensures
        selected_depth(masses@, threshold, result as int),
{
    let mut depth: usize = masses.len() - 1;
    while depth > 0 && !threshold.at_most(masses[depth])
        invariant
            depth < masses@.len(),
            forall|deeper: int|
                depth < deeper < masses@.len() ==> !threshold.le(#[trigger] masses@[deeper]),
        decreases depth,
    {
        depth = depth - 1;
    }
    depth
}

/// At most one depth can be selected.
pub proof fn law_selected_depth_is_unique(
    masses: Seq<Binary64>,
    threshold: Binary64,
    left: int,
    right: int,
)
    requires
        selected_depth(masses, threshold, left),
        selected_depth(masses, threshold, right),
    ensures
        left == right,
{
}

/// The values of the nodes on a path, from the root to the leaf.
pub open spec fn values_along<R>(
    levels: Seq<TreeLevel>,
    particles: Seq<R>,
    combine: spec_fn(R, R) -> R,
    zero: R,
    path: Seq<usize>,
) -> Seq<R> {
    Seq::new(
        levels.len(),
        |depth: int|
            {
                let height = levels.len() - 1 - depth;
                node_values(levels, particles, combine, zero, height)[path[height] as int]
            },
    )
}

/// The arithmetic that a caller does around the tree, whatever rounding it does.
pub struct SeedArithmetic {
    /// A position between the first and the last one, scaled to the interval from one to two.
    pub normalize: spec_fn(Binary64, Binary64, Binary64) -> Binary64,
    /// The sum of two masses.
    pub combine: spec_fn(Binary64, Binary64) -> Binary64,
    /// The mass that a node needs to seed a particle of some mass.
    pub threshold: spec_fn(Binary64) -> Binary64,
    /// The seed of a particle from its mass, the mass and the depth of its node, and the
    /// first and the last position.
    pub seed: spec_fn(Binary64, Binary64, int, Binary64, Binary64) -> Binary64,
}

/// A tree over particles: the first and the last position, and the levels.
pub struct SeedTree {
    pub minimum: Binary64,
    pub maximum: Binary64,
    pub levels: Seq<TreeLevel>,
}

impl SeedArithmetic {
    /// The keys of particles.
    pub open spec fn keys(
        self,
        positions: Seq<Binary64>,
        minimum: Binary64,
        maximum: Binary64,
    ) -> Seq<u64> {
        Seq::new(
            positions.len(),
            |i: int| leading_fraction((self.normalize)(positions[i], minimum, maximum)),
        )
    }

    /// Whether a value is the seed of particle `i`, taken at a depth of its path.
    pub open spec fn seeds_at(
        self,
        tree: SeedTree,
        positions: Seq<Binary64>,
        masses: Seq<Binary64>,
        i: int,
        value: Binary64,
        path: Seq<usize>,
        depth: int,
    ) -> bool {
        let key = self.keys(positions, tree.minimum, tree.maximum)[i];
        let along = values_along(tree.levels, masses, self.combine, Binary64 { bits: 0 }, path);
        &&& path_holds(tree.levels, key, path)
        &&& selected_depth(along, (self.threshold)(masses[i]), depth)
        &&& value == (self.seed)(masses[i], along[depth], depth, tree.minimum, tree.maximum)
    }

    /// Whether values are the seeds of all particles, taken from a tree over them.
    pub open spec fn seeds_all(
        self,
        tree: SeedTree,
        positions: Seq<Binary64>,
        masses: Seq<Binary64>,
        seeds: Seq<Binary64>,
    ) -> bool {
        &&& spans(positions, tree.minimum, tree.maximum)
        &&& tree.levels.len() == TREE_BITS + 1
        &&& tree_holds(tree.levels, self.keys(positions, tree.minimum, tree.maximum))
        &&& masses.len() == positions.len()
        &&& seeds.len() == positions.len()
        &&& forall|i: int|
            0 <= i < seeds.len() ==> exists|path: Seq<usize>, depth: int| #[trigger]
                self.seeds_at(tree, positions, masses, i, #[trigger] seeds[i], path, depth)
    }
}

/// Whether a sequence lists every index below its length once.
pub open spec fn is_permutation(order: Seq<int>) -> bool {
    &&& forall|k: int| 0 <= k < order.len() ==> 0 <= #[trigger] order[k] < order.len()
    &&& forall|k: int, m: int|
        0 <= k < m < order.len() ==> #[trigger] order[k] != #[trigger] order[m]
    &&& forall|i: int| 0 <= i < order.len() ==> order.contains(i)
}

/// Values in another order.
pub open spec fn rearranged<R>(values: Seq<R>, order: Seq<int>) -> Seq<R> {
    Seq::new(order.len(), |k: int| values[order[k]])
}

proof fn lemma_spans_are_order_invariant(
    positions: Seq<Binary64>,
    order: Seq<int>,
    left: (Binary64, Binary64),
    right: (Binary64, Binary64),
)
    requires
        is_permutation(order),
        order.len() == positions.len(),
        spans(positions, left.0, left.1),
        spans(rearranged(positions, order), right.0, right.1),
    ensures
        left == right,
{
    let others = rearranged(positions, order);
    let a = choose|a: int| 0 <= a < positions.len() && positions[a] == left.0;
    let b = choose|b: int| 0 <= b < positions.len() && positions[b] == left.1;
    let k = choose|k: int| 0 <= k < order.len() && order[k] == a;
    let m = choose|m: int| 0 <= m < order.len() && order[m] == b;
    assert(order.contains(a) && order.contains(b));
    assert(others[k] == left.0 && others[m] == left.1);
    let c = choose|c: int| 0 <= c < others.len() && others[c] == right.0;
    let d = choose|d: int| 0 <= d < others.len() && others[d] == right.1;
    assert(positions[order[c]] == right.0 && positions[order[d]] == right.1);
    law_total_order_refines_the_numeric_order(left.0, right.0);
    law_total_order_refines_the_numeric_order(left.1, right.1);
}

/// Seeds do not depend on the order of the particles: where no two particles share a key,
/// rearranging the particles rearranges their seeds, bit for bit, whatever rounding the
/// arithmetic does.
pub proof fn law_seeds_are_order_invariant(
    arithmetic: SeedArithmetic,
    positions: Seq<Binary64>,
    masses: Seq<Binary64>,
    order: Seq<int>,
    tree: SeedTree,
    seeds: Seq<Binary64>,
    other_tree: SeedTree,
    other_seeds: Seq<Binary64>,
)
    requires
        is_permutation(order),
        order.len() == positions.len(),
        arithmetic.seeds_all(tree, positions, masses, seeds),
        arithmetic.seeds_all(
            other_tree,
            rearranged(positions, order),
            rearranged(masses, order),
            other_seeds,
        ),
        forall|i: int, j: int|
            0 <= i < j < positions.len() ==> #[trigger] arithmetic.keys(
                positions,
                tree.minimum,
                tree.maximum,
            )[i] != #[trigger] arithmetic.keys(positions, tree.minimum, tree.maximum)[j],
    ensures
        other_seeds == rearranged(seeds, order),
{
    lemma_spans_are_order_invariant(
        positions,
        order,
        (tree.minimum, tree.maximum),
        (other_tree.minimum, other_tree.maximum),
    );
    let zero = Binary64 { bits: 0 };
    let left = tree.levels;
    let right = other_tree.levels;
    let other_positions = rearranged(positions, order);
    let other_masses = rearranged(masses, order);
    let keys = arithmetic.keys(positions, tree.minimum, tree.maximum);
    let other_keys = arithmetic.keys(other_positions, tree.minimum, tree.maximum);
    assert forall|k: int| 0 <= k < order.len() implies #[trigger] other_keys[k] == keys[order[k]] by {
        assert(0 <= order[k] < positions.len());
    }
    assert forall|key: u64| keys.contains(key) <==> other_keys.contains(key) by {
        if keys.contains(key) {
            let i = choose|i: int| 0 <= i < keys.len() && keys[i] == key;
            assert(order.contains(i));
            let k = choose|k: int| 0 <= k < order.len() && order[k] == i;
            assert(other_keys[k] == key);
        }
        if other_keys.contains(key) {
            let k = choose|k: int| 0 <= k < other_keys.len() && other_keys[k] == key;
            assert(keys[order[k]] == key);
        }
    }
    assert forall|k: int, m: int| 0 <= k < m < other_keys.len() implies #[trigger] other_keys[k]
        != #[trigger] other_keys[m] by {
        assert(order[k] != order[m]);
        assert(keys[order[k]] != keys[order[m]]);
    }
    assert forall|i: int, k: int|
        0 <= i < keys.len() && 0 <= k < other_keys.len() && #[trigger] keys[i]
            == #[trigger] other_keys[k] implies masses[i] == other_masses[k] by {
        assert(keys[order[k]] == keys[i]);
        assert(order[k] == i);
    }
    assert forall|k: int| 0 <= k < other_seeds.len() implies other_seeds[k] == seeds[order[k]] by {
        let i = order[k];
        assert(0 <= i < seeds.len());
        let (path, depth) = choose|path: Seq<usize>, depth: int| #[trigger]
            arithmetic.seeds_at(tree, positions, masses, i, seeds[i], path, depth);
        let (other, other_depth) = choose|path: Seq<usize>, depth: int| #[trigger]
            arithmetic.seeds_at(
                other_tree,
                other_positions,
                other_masses,
                k,
                other_seeds[k],
                path,
                depth,
            );
        assert(arithmetic.seeds_at(tree, positions, masses, i, seeds[i], path, depth));
        assert(other_keys[k] == keys[i]);
        law_paths_are_order_invariant(left, right, keys, other_keys, keys[i], path, other);
        let along = values_along(left, masses, arithmetic.combine, zero, path);
        let other_along = values_along(right, other_masses, arithmetic.combine, zero, other);
        assert forall|d: int| 0 <= d < along.len() implies along[d] == other_along[d] by {
            law_node_values_are_order_invariant(
                left,
                right,
                keys,
                other_keys,
                masses,
                other_masses,
                arithmetic.combine,
                zero,
                left.len() - 1 - d,
            );
        }
        assert(along =~= other_along);
        law_selected_depth_is_unique(
            along,
            (arithmetic.threshold)(masses[i]),
            depth,
            other_depth,
        );
    }
    assert(other_seeds =~= rearranged(seeds, order));
}

/// Inputs stay fit for a tree in every order of the particles.
pub proof fn law_tree_inputs_are_order_invariant(
    positions: Seq<Binary64>,
    masses: Seq<Binary64>,
    box_size: Binary64,
    desired_neighbors: Binary64,
    boundary: BoundaryMode1d,
    order: Seq<int>,
)
    requires
        is_permutation(order),
        order.len() == positions.len(),
        tree_inputs_fault(positions, masses, box_size, desired_neighbors, boundary) is None,
    ensures
        tree_inputs_fault(
            rearranged(positions, order),
            rearranged(masses, order),
            box_size,
            desired_neighbors,
            boundary,
        ) is None,
{
    let faults = tree_faults(positions, masses, box_size, boundary);
    let others = tree_faults(
        rearranged(positions, order),
        rearranged(masses, order),
        box_size,
        boundary,
    );
    law_first_fault_is_the_earliest(faults, positions.len() as int);
    law_first_fault_is_the_earliest(others, order.len() as int);
    assert forall|k: int| 0 <= k < order.len() implies (#[trigger] others(k)) is None by {
        assert(faults(order[k]) is None);
    }
}

/// Check a seed.
pub fn validate_seed(index: usize, seed: Binary64) -> (result: Result<(), HydroError>)
    ensures
        result == outcome(
            if seed.positive() {
                None
            } else {
                Some(
                    HydroError::NonFiniteDensityEstimate {
                        index,
                        field: "tree_smoothing_length_seed",
                        value: seed,
                    },
                )
            },
        ),
        result is Ok <==> seed.finite() && (Binary64 { bits: 0 }).lt(seed),
{
    if seed.is_positive() {
        Ok(())
    } else {
        Err(
            HydroError::NonFiniteDensityEstimate {
                index,
                field: "tree_smoothing_length_seed",
                value: seed,
            },
        )
    }
}

/// The keys are the numbers below two to the forty-second, one for each leaf of a tree of that
/// depth.
pub proof fn law_tree_sizes()
    ensures
        TREE_BITS == 42,
        TREE_KEYS == pow2(TREE_BITS as nat),
{
    lemma2_to64_rest();
}

/// A key is the fraction of its coordinate in units of two to the minus forty-second, rounded
/// down, so keys are ordered as the coordinates of one binade are.
pub proof fn law_keys_order_coordinates(value: Binary64, other: Binary64)
    ensures
        leading_fraction(value) < TREE_KEYS,
        leading_fraction(value) * 1024 <= value.bits % 0x10_0000_0000_0000 < (leading_fraction(
            value,
        ) + 1) * 1024,
        value.bits / 0x10_0000_0000_0000 == other.bits / 0x10_0000_0000_0000 && value.bits
            <= other.bits ==> leading_fraction(value) <= leading_fraction(other),
{
}

/// Inputs are refused for the first thing wrong with them: their lengths, the box, the number of
/// neighbors, and then the first particle outside the domain or without a mass.
pub proof fn law_tree_inputs(
    positions: Seq<Binary64>,
    masses: Seq<Binary64>,
    box_size: Binary64,
    desired_neighbors: Binary64,
    boundary: BoundaryMode1d,
)
    requires
        positions.len() <= usize::MAX,
        masses.len() <= usize::MAX,
    ensures
        ({
            let fault = tree_inputs_fault(
                positions,
                masses,
                box_size,
                desired_neighbors,
                boundary,
            );
            &&& fault is None <==> masses.len() == positions.len() && box_size.positive()
                && desired_neighbors.positive() && forall|i: int|
                0 <= i < positions.len() ==> boundary.inside(#[trigger] positions[i], box_size)
                    && masses[i].positive()
            &&& masses.len() != positions.len() ==> fault == Some(
                HydroError::MismatchedLength {
                    field: "masses",
                    expected: positions.len() as usize,
                    actual: masses.len() as usize,
                },
            )
            &&& masses.len() == positions.len() && !box_size.positive() ==> fault == Some(
                HydroError::InvalidBoxSize(box_size),
            )
            &&& masses.len() == positions.len() && box_size.positive()
                && !desired_neighbors.positive() ==> fault == Some(
                HydroError::InvalidNeighborConstraint {
                    desired: desired_neighbors,
                    tolerance: Binary64 { bits: 0 },
                },
            )
            &&& forall|i: int|
                0 <= i < positions.len() && masses.len() == positions.len() && box_size.positive()
                    && desired_neighbors.positive() && !(boundary.inside(
                    #[trigger] positions[i],
                    box_size,
                ) && masses[i].positive()) && (forall|j: int|
                    0 <= j < i ==> boundary.inside(#[trigger] positions[j], box_size)
                        && masses[j].positive()) ==> fault == Some(
                    if boundary.inside(positions[i], box_size) {
                        HydroError::InvalidParticle {
                            index: i as usize,
                            field: "mass",
                            value: masses[i],
                        }
                    } else {
                        HydroError::InvalidParticle {
                            index: i as usize,
                            field: "position",
                            value: positions[i],
                        }
                    },
                )
        }),
{
    let faults = tree_faults(positions, masses, box_size, boundary);
    law_first_fault_is_the_earliest(faults, positions.len() as int);
    assert forall|i: int| 0 <= i < positions.len() implies (faults(i) is None <==> boundary.inside(
        #[trigger] positions[i],
        box_size,
    ) && masses[i].positive()) by {}
    assert forall|i: int|
        0 <= i < positions.len() && !(boundary.inside(#[trigger] positions[i], box_size)
            && masses[i].positive()) && (forall|j: int|
            0 <= j < i ==> boundary.inside(#[trigger] positions[j], box_size)
                && masses[j].positive()) implies first_fault(faults, positions.len() as int)
        == faults(i) by {
        assert forall|j: int| 0 <= j < i implies (#[trigger] faults(j)) is None by {
            assert(boundary.inside(positions[j], box_size));
        }
        assert(faults(i) is Some);
    }
    if first_fault(faults, positions.len() as int) is Some {
        let k = choose|k: int|
            0 <= k < positions.len() && (#[trigger] faults(k)) is Some;
        assert(0 <= k < positions.len() && faults(k) is Some);
        assert(!(boundary.inside(positions[k], box_size) && masses[k].positive()));
    } else {
        assert forall|i: int| 0 <= i < positions.len() implies boundary.inside(
            #[trigger] positions[i],
            box_size,
        ) && masses[i].positive() by {
            assert(faults(i) is None);
        }
    }
}

/// The extent of a set of positions is its first and its last in the total order, and there is
/// only one.
pub proof fn law_extents(
    positions: Seq<Binary64>,
    minimum: Binary64,
    maximum: Binary64,
    first: Binary64,
    last: Binary64,
    k: int,
)
    requires
        spans(positions, minimum, maximum),
        0 <= k < positions.len(),
    ensures
        positions.contains(minimum),
        positions.contains(maximum),
        !positions[k].lt(minimum),
        !maximum.lt(positions[k]),
        spans(positions, first, last) ==> first == minimum && last == maximum,
{
    if spans(positions, first, last) {
        let a = choose|a: int| 0 <= a < positions.len() && positions[a] == minimum;
        let b = choose|b: int| 0 <= b < positions.len() && positions[b] == maximum;
        let c = choose|c: int| 0 <= c < positions.len() && positions[c] == first;
        let d = choose|d: int| 0 <= d < positions.len() && positions[d] == last;
        assert(positions[a].total_rank() == positions[c].total_rank());
        assert(positions[b].total_rank() == positions[d].total_rank());
    }
    assert(minimum.total_rank() <= positions[k].total_rank() <= maximum.total_rank());
}

/// The node that seeds a particle is the deepest one that reaches the threshold, and the root
/// where none does.
pub proof fn law_deepest_heavy_nodes_seed(
    masses: Seq<Binary64>,
    threshold: Binary64,
    depth: int,
    other: int,
)
    requires
        selected_depth(masses, threshold, depth),
        0 <= other < masses.len(),
    ensures
        threshold.le(masses[other]) ==> other <= depth && threshold.le(masses[depth]),
        depth > 0 ==> threshold.le(masses[depth]),
        (forall|k: int| 0 <= k < masses.len() ==> masses[k].lt(threshold)) ==> depth == 0,
{
}

/// A path starts at the leaf of its key and climbs to the parent of each node.
pub proof fn law_paths_climb(
    levels: Seq<TreeLevel>,
    keys: Seq<u64>,
    key: u64,
    path: Seq<usize>,
    height: int,
)
    requires
        tree_holds(levels, keys),
        path_holds(levels, key, path),
        0 <= height < levels.len(),
    ensures
        levels[0].prefixes@[path[0] as int] == key,
        height > 0 ==> levels[height].prefixes@[path[height] as int] == levels[height
            - 1].prefixes@[path[height - 1] as int] / 2,
        height > 0 ==> levels[height].parents@[path[height - 1] as int] == path[height],
{
    lemma2_to64();
    assert(path[0] < levels[0].prefixes@.len());
    assert(pow2(0) == 1);
    assert((key as int) / 1 == key);
    assert(path[height] < levels[height].prefixes@.len());
    if height > 0 {
        let below = (height - 1) as nat;
        assert(path[height - 1] < levels[height - 1].prefixes@.len());
        lemma_pow2_unfold(height as nat);
        lemma_pow2_pos(below);
        vstd::arithmetic::div_mod::lemma_div_denominator(key as int, pow2(below) as int, 2);
        assert(pow2(height as nat) as int == pow2(below) as int * 2);
        let parent = levels[height].parents@[path[height - 1] as int];
        assert(parents_hold(levels[height - 1].prefixes@, levels[height]));
        assert(parent < levels[height].prefixes@.len());
        assert(levels[height].prefixes@[parent as int] == levels[height].prefixes@[path[height]
            as int]);
        assert(level_holds(levels[height].prefixes@, keys, height as nat));
    }
}

/// A node without children keeps the value of an empty node, and one with a single child has
/// that child's value combined into it.
pub proof fn law_gathered_children<R>(
    parents: Seq<usize>,
    values: Seq<R>,
    combine: spec_fn(R, R) -> R,
    zero: R,
    node: int,
    count: int,
    child: int,
)
    requires
        0 <= count <= parents.len(),
        parents.len() == values.len(),
        forall|k: int| 0 <= k < count && k != child ==> #[trigger] parents[k] != node,
        0 <= child < count ==> parents[child] == node,
    ensures
        0 <= child < count ==> gathered(parents, values, combine, zero, node, count) == combine(
            zero,
            values[child],
        ),
        !(0 <= child < count) ==> gathered(parents, values, combine, zero, node, count) == zero,
    decreases count,
{
    if count > 0 {
        law_gathered_children(parents, values, combine, zero, node, count - 1, child);
    }
}

} // verus!
