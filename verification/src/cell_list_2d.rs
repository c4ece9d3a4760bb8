//! Cell list for periodic radial queries in a rectangle.
//!
//! The grid is an acceleration structure: a query gathers the particles of every cell
//! that its radius may reach, and keeps those whose measured distance is below it.

use vstd::prelude::*;

use crate::binary64::Binary64;
use crate::meshless_2d::{GeometryError, Vector2};
use crate::order::sort_dedup;

verus! {

use crate::order::increasing;

/// A truncated number as an index, saturating at the largest.
pub open spec fn index_of(value: Binary64) -> int {
    if value.truncated() > usize::MAX {
        usize::MAX as int
    } else {
        value.truncated()
    }
}

/// Truncate a number to an index.
pub fn to_index(value: Binary64) -> (result: usize)
    ensures
        result == index_of(value),
{
    let whole: u64 = value.to_u64();
    if whole > usize::MAX as u64 {
        usize::MAX
    } else {
        whole as usize
    }
}

/// Shrink a grid, its longer side first, until it holds at most `cap` cells.
pub open spec fn shrunk(nx: int, ny: int, cap: int) -> (int, int)
    decreases nx + ny,
{
    if nx * ny <= cap || nx < 1 || ny < 1 {
        (nx, ny)
    } else if nx >= ny && nx > 1 {
        shrunk(nx - 1, ny, cap)
    } else if ny > 1 {
        shrunk(nx, ny - 1, cap)
    } else {
        (nx, ny)
    }
}

/// The number of cells that a side asks for: at least one.
pub open spec fn side_request(value: Binary64) -> int {
    if index_of(value) < 1 {
        1
    } else {
        index_of(value)
    }
}

/// Size the grid from the number of cells that each side asks for.
pub fn cell_grid_shape(desired_x: Binary64, desired_y: Binary64, allocation_cap: usize) -> (result: [usize;
    2])
    ensures
        (result@[0] as int, result@[1] as int) == shrunk(
            side_request(desired_x),
            side_request(desired_y),
            allocation_cap as int,
        ),
        result@[0] >= 1,
        result@[1] >= 1,
        allocation_cap >= 1 ==> result@[0] * result@[1] <= allocation_cap,
{
    let raw_x: usize = to_index(desired_x);
    let raw_y: usize = to_index(desired_y);
    let mut nx: usize = if raw_x < 1 {
        1
    } else {
        raw_x
    };
    let mut ny: usize = if raw_y < 1 {
        1
    } else {
        raw_y
    };
    let ghost start = (nx as int, ny as int);
    while exceeds(nx, ny, allocation_cap) && (nx > 1 || ny > 1)
        invariant
            nx >= 1,
            ny >= 1,
            shrunk(start.0, start.1, allocation_cap as int) == shrunk(
                nx as int,
                ny as int,
                allocation_cap as int,
            ),
        decreases nx + ny,
    {
        if nx >= ny && nx > 1 {
            nx = nx - 1;
        } else {
            ny = ny - 1;
        }
    }
    proof {
        if nx == 1 && ny == 1 {
            assert(nx * ny == 1) by (nonlinear_arith)
                requires
                    nx == 1,
                    ny == 1,
            ;
        }
    }
    [nx, ny]
}

/// Whether a product is above a cap.
fn exceeds(nx: usize, ny: usize, cap: usize) -> (result: bool)
    ensures
        result == (nx * ny > cap),
{
    match nx.checked_mul(ny) {
        Some(product) => product > cap,
        None => true,
    }
}

/// The cell of a coordinate: its quotient by the cell width, rounded down and kept on the
/// grid.
pub open spec fn axis_cell(quotient: Binary64, count: int) -> int {
    if index_of(quotient) < count {
        index_of(quotient)
    } else {
        count - 1
    }
}

/// The cell of a point.
pub fn cell_coordinates(quotients: Vector2, counts: [usize; 2]) -> (result: [usize; 2])
    requires
        counts@[0] >= 1,
        counts@[1] >= 1,
    ensures
        result@[0] == axis_cell(quotients.x, counts@[0] as int),
        result@[1] == axis_cell(quotients.y, counts@[1] as int),
{
    let x: usize = to_index(quotients.x);
    let y: usize = to_index(quotients.y);
    [
        if x < counts[0] {
            x
        } else {
            counts[0] - 1
        },
        if y < counts[1] {
            y
        } else {
            counts[1] - 1
        },
    ]
}

/// The number of cells between two cells of a periodic axis, the shorter way round.
pub open spec fn axis_distance(left: int, right: int, count: int) -> int {
    let gap = if left < right {
        right - left
    } else {
        left - right
    };
    if gap <= count - gap {
        gap
    } else {
        count - gap
    }
}

/// Whether a query must look into a cell of an axis.
pub open spec fn axis_candidate(
    center: int,
    whole_axis: bool,
    span: int,
    count: int,
    cell: int,
) -> bool {
    &&& 0 <= cell < count
    &&& count == 1 || whole_axis || 2 * span + 1 >= count || axis_distance(center, cell, count)
        <= span
}

/// The cells of one axis that a query must look into, in order.
///
/// A radius of at least `half_length`, half the domain, reaches everything; `span` is the
/// radius in cell widths, rounded up.
pub fn candidate_axis_cells(
    center: usize,
    radius: Binary64,
    half_length: Binary64,
    span: Binary64,
    count: usize,
) -> (result: Vec<usize>)
    requires
        center < count,
    ensures
        increasing(result@),
        forall|cell: usize|
            #[trigger] result@.contains(cell) <==> axis_candidate(
                center as int,
                half_length.le(radius),
                index_of(span),
                count as int,
                cell as int,
            ),
{
    let whole_axis: bool = half_length.at_most(radius);
    let reach: usize = to_index(span);
    let everything: bool = count == 1 || whole_axis || reach >= count || reach >= count - reach - 1;
    let mut result: Vec<usize> = Vec::new();
    let mut cell: usize = 0;
    while cell < count
        invariant
            cell <= count,
            center < count,
            reach == index_of(span),
            everything == (count == 1 || whole_axis || 2 * reach + 1 >= count),
            increasing(result@),
            forall|k: int| 0 <= k < result@.len() ==> #[trigger] result@[k] < cell,
            forall|other: usize|
                #[trigger] result@.contains(other) <==> other < cell && axis_candidate(
                    center as int,
                    whole_axis,
                    reach as int,
                    count as int,
                    other as int,
                ),
        decreases count - cell,
    {
        let gap: usize = if center < cell {
            cell - center
        } else {
            center - cell
        };
        let shorter: usize = if gap <= count - gap {
            gap
        } else {
            count - gap
        };
        let ghost before = result@;
        if everything || shorter <= reach {
            result.push(cell);
        }
        proof {
            assert forall|other: usize| #[trigger] result@.contains(other) <==> other < cell + 1
                && axis_candidate(
                center as int,
                whole_axis,
                reach as int,
                count as int,
                other as int,
            ) by {
                if result@.contains(other) {
                    let k = choose|k: int| 0 <= k < result@.len() && result@[k] == other;
                    if k < before.len() {
                        assert(before[k] == other);
                        assert(before.contains(other));
                    }
                }
                if before.contains(other) {
                    let k = choose|k: int| 0 <= k < before.len() && before[k] == other;
                    assert(result@[k] == other);
                }
                if other == cell && result@.len() > before.len() {
                    assert(result@[before.len() as int] == cell);
                }
            }
        }
        cell = cell + 1;
    }
    result
}

/// The grid with the particles of every cell.
pub struct CellList2d {
    cell_counts: [usize; 2],
    cells: Vec<Vec<usize>>,
    locations: Ghost<Seq<Vector2>>,
}

impl Clone for CellList2d {
    fn clone(&self) -> (result: Self)
        ensures
            result.counts() == self.counts(),
            result.quotients() == self.quotients(),
            self.wf() ==> result.wf(),
    {
        let cells: Vec<Vec<usize>> = self.cells.clone();
        assert forall|k: int| 0 <= k < cells@.len() implies (#[trigger] cells@[k])@
            == self.cells@[k]@ by {
            assert(cloned::<Vec<usize>>(self.cells@[k], cells@[k]));
        }
        proof {
            if self.wf() {
                let nx = self.cell_counts@[0] as int;
                let ny = self.cell_counts@[1] as int;
                assert forall|x: int, y: int| 0 <= x < nx && 0 <= y < ny implies lists_cell(
                    #[trigger] cells@[y * nx + x]@,
                    self.locations@,
                    nx,
                    ny,
                    x,
                    y,
                    self.locations@.len() as int,
                ) by {
                    assert(0 <= y * nx + x < nx * ny) by (nonlinear_arith)
                        requires
                            0 <= x < nx,
                            0 <= y < ny,
                    ;
                    assert(cells@[y * nx + x]@ == self.cells@[y * nx + x]@);
                }
            }
        }
        CellList2d { cell_counts: self.cell_counts, cells, locations: self.locations }
    }
}

impl CellList2d {
    /// The number of cells along each axis.
    pub closed spec fn counts(self) -> (int, int) {
        (self.cell_counts@[0] as int, self.cell_counts@[1] as int)
    }

    /// The position of every particle in cell widths.
    pub closed spec fn quotients(self) -> Seq<Vector2> {
        self.locations@
    }

    /// The cell of a particle.
    pub open spec fn cell_of(self, index: int) -> (int, int) {
        (
            axis_cell(self.quotients()[index].x, self.counts().0),
            axis_cell(self.quotients()[index].y, self.counts().1),
        )
    }

    /// The invariant: every cell lists exactly its particles, in index order.
    pub closed spec fn wf(self) -> bool {
        &&& self.cell_counts@[0] >= 1
        &&& self.cell_counts@[1] >= 1
        &&& self.cells@.len() == self.cell_counts@[0] * self.cell_counts@[1]
        &&& self.cells@.len() <= usize::MAX
        &&& self.locations@.len() <= usize::MAX
        &&& forall|x: int, y: int|
            0 <= x < self.cell_counts@[0] && 0 <= y < self.cell_counts@[1] ==> lists_cell(
                #[trigger] self.cells@[y * self.cell_counts@[0] + x]@,
                self.locations@,
                self.cell_counts@[0] as int,
                self.cell_counts@[1] as int,
                x,
                y,
                self.locations@.len() as int,
            )
    }

    /// Sort particles into the cells of a grid.
    ///
    /// `quotients` holds the position of every particle divided by the cell widths, rounded
    /// down.
    pub fn new(cell_counts: [usize; 2], quotients: &[Vector2]) -> (result: Self)
        requires
            cell_counts@[0] >= 1,
            cell_counts@[1] >= 1,
            cell_counts@[0] * cell_counts@[1] <= usize::MAX,
        ensures
            result.wf(),
            result.counts() == (cell_counts@[0] as int, cell_counts@[1] as int),
            result.quotients() == quotients@,
    {
        let nx: usize = cell_counts[0];
        let ny: usize = cell_counts[1];
        let total: usize = nx * ny;
        let mut cells: Vec<Vec<usize>> = Vec::with_capacity(total);
        let mut cell: usize = 0;
        while cell < total
            invariant
                cell <= total,
                cells@.len() == cell,
                forall|k: int| 0 <= k < cell ==> (#[trigger] cells@[k])@ == Seq::<usize>::empty(),
            decreases total - cell,
        {
            cells.push(Vec::new());
            cell = cell + 1;
        }
        proof {
            assert forall|x: int, y: int| 0 <= x < nx && 0 <= y < ny implies lists_cell(
                #[trigger] cells@[y * nx + x]@,
                quotients@,
                nx as int,
                ny as int,
                x,
                y,
                0,
            ) by {
                lemma_cell_in_grid(x, y, nx as int, ny as int);
            }
        }
        let mut index: usize = 0;
        while index < quotients.len()
            invariant
                index <= quotients@.len(),
                nx >= 1,
                ny >= 1,
                cell_counts@[0] == nx,
                cell_counts@[1] == ny,
                total == nx * ny,
                cells@.len() == total,
                forall|x: int, y: int|
                    0 <= x < nx && 0 <= y < ny ==> lists_cell(
                        #[trigger] cells@[y * nx + x]@,
                        quotients@,
                        nx as int,
                        ny as int,
                        x,
                        y,
                        index as int,
                    ),
            decreases quotients@.len() - index,
        {
            let at: [usize; 2] = cell_coordinates(quotients[index], cell_counts);
            let ax: usize = at[0];
            let ay: usize = at[1];
            proof {
                lemma_cell_in_grid(ax as int, ay as int, nx as int, ny as int);
                assert(ay * nx <= ay * nx + ax);
            }
            let slot: usize = ay * nx + ax;
            let ghost before = cells@;
            cells[slot].push(index);
            proof {
                assert forall|x: int, y: int| 0 <= x < nx && 0 <= y < ny implies lists_cell(
                    #[trigger] cells@[y * nx + x]@,
                    quotients@,
                    nx as int,
                    ny as int,
                    x,
                    y,
                    index + 1,
                ) by {
                    lemma_cell_in_grid(x, y, nx as int, ny as int);
                    let old_list = before[y * nx + x]@;
                    assert(lists_cell(
                        old_list,
                        quotients@,
                        nx as int,
                        ny as int,
                        x,
                        y,
                        index as int,
                    ));
                    if x == ax && y == ay {
                        assert(cells@[y * nx + x]@ == old_list.push(index));
                        lemma_list_extended(
                            old_list,
                            quotients@,
                            nx as int,
                            ny as int,
                            x,
                            y,
                            index as int,
                        );
                    } else {
                        lemma_cells_differ(x, y, ax as int, ay as int, nx as int);
                        assert(cells@[y * nx + x] == before[y * nx + x]);
                        lemma_list_kept(
                            old_list,
                            quotients@,
                            nx as int,
                            ny as int,
                            x,
                            y,
                            index as int,
                        );
                    }
                }
            }
            index = index + 1;
        }
        CellList2d { cell_counts, cells, locations: Ghost(quotients@) }
    }

    /// The number of cells along each axis.
    pub fn cell_counts(&self) -> (result: [usize; 2])
        requires
            self.wf(),
        ensures
            (result@[0] as int, result@[1] as int) == self.counts(),
            result@[0] >= 1,
            result@[1] >= 1,
    {
        self.cell_counts
    }

    /// The particles of the cells in the given columns and rows.
    pub fn particles_in(&self, x_cells: &[usize], y_cells: &[usize]) -> (result: Vec<usize>)
        requires
            self.wf(),
            forall|k: int| 0 <= k < x_cells@.len() ==> (#[trigger] x_cells@[k]) < self.counts().0,
            forall|k: int| 0 <= k < y_cells@.len() ==> (#[trigger] y_cells@[k]) < self.counts().1,
        ensures
            increasing(result@),
            forall|index: usize|
                #[trigger] result@.contains(index) <==> index < self.quotients().len()
                    && in_axis(x_cells@, self.cell_of(index as int).0) && in_axis(
                    y_cells@,
                    self.cell_of(index as int).1,
                ),
    {
        let nx: usize = self.cell_counts[0];
        let mut output: Vec<usize> = Vec::new();
        let mut row: usize = 0;
        proof {
            assert forall|index: usize| #[trigger] output@.contains(index) <==> index
                < self.quotients().len() && in_axis(x_cells@, self.cell_of(index as int).0)
                && in_axis(y_cells@.take(0), self.cell_of(index as int).1) by {}
        }
        while row < y_cells.len()
            invariant
                row <= y_cells@.len(),
                self.wf(),
                nx == self.cell_counts@[0],
                forall|k: int|
                    0 <= k < x_cells@.len() ==> (#[trigger] x_cells@[k]) < self.counts().0,
                forall|k: int|
                    0 <= k < y_cells@.len() ==> (#[trigger] y_cells@[k]) < self.counts().1,
                forall|index: usize|
                    #[trigger] output@.contains(index) <==> index < self.quotients().len()
                        && in_axis(x_cells@, self.cell_of(index as int).0) && in_axis(
                        y_cells@.take(row as int),
                        self.cell_of(index as int).1,
                    ),
            decreases y_cells@.len() - row,
        {
            let y: usize = y_cells[row];
            let ghost start = output@;
            let mut column: usize = 0;
            while column < x_cells.len()
                invariant
                    column <= x_cells@.len(),
                    row < y_cells@.len(),
                    y == y_cells@[row as int],
                    self.wf(),
                    nx == self.cell_counts@[0],
                    forall|k: int|
                        0 <= k < x_cells@.len() ==> (#[trigger] x_cells@[k]) < self.counts().0,
                    y < self.counts().1,
                    forall|index: usize|
                        #[trigger] output@.contains(index) <==> start.contains(index) || (index
                            < self.quotients().len() && in_axis(
                            x_cells@.take(column as int),
                            self.cell_of(index as int).0,
                        ) && self.cell_of(index as int).1 == y),
                decreases x_cells@.len() - column,
            {
                let x: usize = x_cells[column];
                proof {
                    lemma_cell_in_grid(
                        x as int,
                        y as int,
                        nx as int,
                        self.cell_counts@[1] as int,
                    );
                }
                let slot: usize = y * nx + x;
                let members: &Vec<usize> = &self.cells[slot];
                let ghost before = output@;
                let mut k: usize = 0;
                while k < members.len()
                    invariant
                        k <= members@.len(),
                        output@ == before + members@.take(k as int),
                    decreases members@.len() - k,
                {
                    output.push(members[k]);
                    k = k + 1;
                }
                proof {
                    assert(members@.take(members@.len() as int) =~= members@);
                    assert(lists_cell(
                        members@,
                        self.locations@,
                        self.cell_counts@[0] as int,
                        self.cell_counts@[1] as int,
                        x as int,
                        y as int,
                        self.locations@.len() as int,
                    ));
                    assert forall|index: usize| #[trigger] output@.contains(index)
                        <==> start.contains(index) || (index < self.quotients().len() && in_axis(
                        x_cells@.take(column + 1),
                        self.cell_of(index as int).0,
                    ) && self.cell_of(index as int).1 == y) by {
                        lemma_append_contains(before, members@, index);
                        lemma_in_axis_step(
                            x_cells@,
                            column as int,
                            self.cell_of(index as int).0,
                        );
                    }
                }
                column = column + 1;
            }
            proof {
                assert(x_cells@.take(x_cells@.len() as int) =~= x_cells@);
                assert forall|index: usize| #[trigger] output@.contains(index) <==> index
                    < self.quotients().len() && in_axis(x_cells@, self.cell_of(index as int).0)
                    && in_axis(y_cells@.take(row + 1), self.cell_of(index as int).1) by {
                    lemma_in_axis_step(y_cells@, row as int, self.cell_of(index as int).1);
                }
            }
            row = row + 1;
        }
        assert(y_cells@.take(y_cells@.len() as int) =~= y_cells@);
        sort_dedup(&output)
    }
}

/// Whether an axis selection holds a cell.
pub open spec fn in_axis(cells: Seq<usize>, cell: int) -> bool {
    exists|k: int| 0 <= k < cells.len() && #[trigger] cells[k] == cell
}

spec fn lists_cell(
    list: Seq<usize>,
    quotients: Seq<Vector2>,
    nx: int,
    ny: int,
    x: int,
    y: int,
    upto: int,
) -> bool {
    &&& increasing(list)
    &&& forall|index: usize|
        #[trigger] list.contains(index) <==> index < upto && axis_cell(
            quotients[index as int].x,
            nx,
        ) == x && axis_cell(quotients[index as int].y, ny) == y
}

proof fn lemma_cell_in_grid(x: int, y: int, nx: int, ny: int)
    requires
        0 <= x < nx,
        0 <= y < ny,
    ensures
        0 <= y * nx,
        0 <= y * nx + x < nx * ny,
{
    assert(0 <= y * nx && y * nx + x < nx * ny) by (nonlinear_arith)
        requires
            0 <= x < nx,
            0 <= y < ny,
    ;
}

proof fn lemma_cells_differ(x: int, y: int, ax: int, ay: int, nx: int)
    requires
        0 <= x < nx,
        0 <= ax < nx,
        x != ax || y != ay,
    ensures
        y * nx + x != ay * nx + ax,
{
    if y * nx + x == ay * nx + ax {
        assert(y == ay) by (nonlinear_arith)
            requires
                y * nx + x == ay * nx + ax,
                0 <= x < nx,
                0 <= ax < nx,
        ;
    }
}

proof fn lemma_list_extended(
    list: Seq<usize>,
    quotients: Seq<Vector2>,
    nx: int,
    ny: int,
    x: int,
    y: int,
    index: int,
)
    requires
        lists_cell(list, quotients, nx, ny, x, y, index),
        0 <= index <= usize::MAX,
        axis_cell(quotients[index].x, nx) == x,
        axis_cell(quotients[index].y, ny) == y,
    ensures
        lists_cell(list.push(index as usize), quotients, nx, ny, x, y, index + 1),
{
    let longer = list.push(index as usize);
    assert forall|other: usize| #[trigger] longer.contains(other) <==> other < index + 1
        && axis_cell(quotients[other as int].x, nx) == x && axis_cell(
        quotients[other as int].y,
        ny,
    ) == y by {
        lemma_push_contains(list, index as usize, other);
    }
    assert forall|i: int, j: int| 0 <= i < j < longer.len() implies #[trigger] longer[i]
        < #[trigger] longer[j] by {
        if j == list.len() {
            assert(list.contains(list[i]));
        }
    }
}

proof fn lemma_list_kept(
    list: Seq<usize>,
    quotients: Seq<Vector2>,
    nx: int,
    ny: int,
    x: int,
    y: int,
    index: int,
)
    requires
        lists_cell(list, quotients, nx, ny, x, y, index),
        axis_cell(quotients[index].x, nx) != x || axis_cell(quotients[index].y, ny) != y,
    ensures
        lists_cell(list, quotients, nx, ny, x, y, index + 1),
{
    assert forall|other: usize| #[trigger] list.contains(other) <==> other < index + 1
        && axis_cell(quotients[other as int].x, nx) == x && axis_cell(
        quotients[other as int].y,
        ny,
    ) == y by {}
}

proof fn lemma_push_contains(list: Seq<usize>, added: usize, index: usize)
    ensures
        list.push(added).contains(index) <==> list.contains(index) || index == added,
{
    let longer = list.push(added);
    if longer.contains(index) {
        let k = choose|k: int| 0 <= k < longer.len() && longer[k] == index;
        if k < list.len() {
            assert(list[k] == index);
        }
    }
    if list.contains(index) {
        let k = choose|k: int| 0 <= k < list.len() && list[k] == index;
        assert(longer[k] == index);
    }
    if index == added {
        assert(longer[list.len() as int] == index);
    }
}

proof fn lemma_append_contains(left: Seq<usize>, right: Seq<usize>, index: usize)
    ensures
        (left + right).contains(index) <==> left.contains(index) || right.contains(index),
{
    let all = left + right;
    if all.contains(index) {
        let k = choose|k: int| 0 <= k < all.len() && all[k] == index;
        if k < left.len() {
            assert(left[k] == index);
        } else {
            assert(right[k - left.len()] == index);
        }
    }
    if left.contains(index) {
        let k = choose|k: int| 0 <= k < left.len() && left[k] == index;
        assert(all[k] == index);
    }
    if right.contains(index) {
        let k = choose|k: int| 0 <= k < right.len() && right[k] == index;
        assert(all[left.len() + k] == index);
    }
}

proof fn lemma_in_axis_step(cells: Seq<usize>, at: int, cell: int)
    requires
        0 <= at < cells.len(),
    ensures
        in_axis(cells.take(at + 1), cell) <==> in_axis(cells.take(at), cell) || cells[at] == cell,
{
    let longer = cells.take(at + 1);
    let shorter = cells.take(at);
    if in_axis(longer, cell) {
        let k = choose|k: int| 0 <= k < longer.len() && #[trigger] longer[k] == cell;
        if k < at {
            assert(shorter[k] == cell);
        }
    }
    if in_axis(shorter, cell) {
        let k = choose|k: int| 0 <= k < shorter.len() && #[trigger] shorter[k] == cell;
        assert(longer[k] == cell);
    }
    if cells[at] == cell {
        assert(longer[at] == cell);
    }
}

/// Check the radius of a query.
pub fn validate_search_radius(radius: Binary64) -> (result: Result<(), GeometryError>)
    ensures
        result is Ok <==> radius.nonnegative(),
        result matches Err(error) ==> error == GeometryError::InvalidSearchRadius(radius),
{
    if radius.is_nonnegative() {
        Ok(())
    } else {
        Err(GeometryError::InvalidSearchRadius(radius))
    }
}

/// Check the scale that sizes a grid.
pub fn validate_search_scale(scale: Binary64) -> (result: Result<(), GeometryError>)
    ensures
        result is Ok <==> scale.positive(),
        result matches Err(error) ==> error == GeometryError::InvalidSearchRadius(scale),
{
    if scale.is_positive() {
        Ok(())
    } else {
        Err(GeometryError::InvalidSearchRadius(scale))
    }
}

/// Keep the candidates whose distance is below the radius.
pub fn neighbors_within(
    candidates: &[usize],
    distances: &[Binary64],
    radius: Binary64,
) -> (result: Vec<usize>)
    requires
        candidates@.len() == distances@.len(),
        increasing(candidates@),
    ensures
        increasing(result@),
        forall|index: usize|
            #[trigger] result@.contains(index) <==> exists|k: int|
                0 <= k < candidates@.len() && #[trigger] candidates@[k] == index
                    && distances@[k].lt(radius),
{
    let mut result: Vec<usize> = Vec::new();
    let mut k: usize = 0;
    while k < candidates.len()
        invariant
            k <= candidates@.len(),
            candidates@.len() == distances@.len(),
            increasing(candidates@),
            increasing(result@),
            forall|a: int, b: int|
                0 <= a < result@.len() && k <= b < candidates@.len() ==> #[trigger] result@[a]
                    < #[trigger] candidates@[b],
            forall|index: usize|
                #[trigger] result@.contains(index) <==> exists|at: int|
                    0 <= at < k && #[trigger] candidates@[at] == index && distances@[at].lt(
                        radius,
                    ),
        decreases candidates@.len() - k,
    {
        let ghost before = result@;
        if distances[k].less(radius) {
            result.push(candidates[k]);
        }
        proof {
            assert forall|index: usize| #[trigger] result@.contains(index) <==> exists|at: int|
                0 <= at < k + 1 && #[trigger] candidates@[at] == index && distances@[at].lt(
                    radius,
                ) by {
                lemma_push_contains(before, candidates@[k as int], index);
                if before.contains(index) {
                    let at = choose|at: int|
                        0 <= at < k && #[trigger] candidates@[at] == index
                            && distances@[at].lt(radius);
                    assert(candidates@[at] == index);
                }
                if exists|at: int|
                    0 <= at < k + 1 && #[trigger] candidates@[at] == index
                        && distances@[at].lt(radius) {
                    let at = choose|at: int|
                        0 <= at < k + 1 && #[trigger] candidates@[at] == index
                            && distances@[at].lt(radius);
                    if at < k {
                        assert(before.contains(index));
                    }
                }
            }
        }
        k = k + 1;
    }
    result
}

/// A query is exact wherever its candidates hold every particle closer than the radius: it
/// then returns exactly those, whatever the grid.
pub proof fn law_queries_are_exact(
    candidates: Seq<usize>,
    distance: spec_fn(usize) -> Binary64,
    radius: Binary64,
    count: int,
    result: Seq<usize>,
    index: usize,
)
    requires
        forall|k: int| 0 <= k < candidates.len() ==> (#[trigger] candidates[k]) < count,
        forall|other: usize|
            other < count && (#[trigger] distance(other)).lt(radius)
                ==> candidates.contains(other),
        forall|other: usize|
            #[trigger] result.contains(other) <==> exists|k: int|
                0 <= k < candidates.len() && #[trigger] candidates[k] == other && distance(
                    candidates[k],
                ).lt(radius),
    ensures
        result.contains(index) <==> index < count && distance(index).lt(radius),
{
    if index < count && distance(index).lt(radius) {
        assert(candidates.contains(index));
        let k = choose|k: int| 0 <= k < candidates.len() && candidates[k] == index;
        assert(candidates[k] == index);
    }
}

/// An index is the number without its fraction: a number below one gives zero, and one that is
/// too large the largest index.
pub proof fn law_indices(value: Binary64)
    ensures
        0 <= index_of(value) <= usize::MAX,
        index_of(value) <= value.truncated(),
        index_of(value) < usize::MAX ==> index_of(value) == value.truncated(),
        value.truncated() >= usize::MAX ==> index_of(value) == usize::MAX,
{
    crate::binary64::law_truncation_saturates(value);
}

/// A grid side asks for its whole cells, and for at least one.
pub proof fn law_side_requests(value: Binary64)
    ensures
        side_request(value) >= 1,
        side_request(value) >= index_of(value),
        side_request(value) > 1 ==> side_request(value) == index_of(value),
{
}

/// Shrinking leaves a grid alone that fits, never lengthens a side or removes it, and stops as
/// soon as the grid fits.
pub proof fn law_grids_shrink_no_more_than_needed(nx: int, ny: int, cap: int)
    requires
        nx >= 1,
        ny >= 1,
    ensures
        ({
            let (x, y) = shrunk(nx, ny, cap);
            &&& 1 <= x <= nx
            &&& 1 <= y <= ny
            &&& nx * ny <= cap ==> x == nx && y == ny
            &&& cap >= 1 ==> x * y <= cap
            &&& x < nx || y < ny ==> (x + 1) * y > cap || x * (y + 1) > cap
        }),
    decreases nx + ny,
{
    if nx * ny <= cap {
    } else if nx >= ny && nx > 1 {
        law_grids_shrink_no_more_than_needed(nx - 1, ny, cap);
    } else if ny > 1 {
        law_grids_shrink_no_more_than_needed(nx, ny - 1, cap);
    } else {
        assert(nx * ny == 1) by (nonlinear_arith)
            requires
                nx == 1,
                ny == 1,
        ;
    }
}

/// The longer side shrinks first: a side that was shortened ends at most one below the other,
/// unless it is the other one that was too long.
pub proof fn law_longer_sides_shrink_first(nx: int, ny: int, cap: int)
    requires
        nx >= 1,
        ny >= 1,
    ensures
        ({
            let (x, y) = shrunk(nx, ny, cap);
            &&& x < nx ==> x + 1 >= y
            &&& y < ny && x > 1 ==> y >= x
        }),
    decreases nx + ny,
{
    if nx * ny <= cap {
    } else if nx >= ny && nx > 1 {
        law_longer_sides_shrink_first(nx - 1, ny, cap);
        law_grids_shrink_no_more_than_needed(nx - 1, ny, cap);
    } else if ny > 1 {
        law_longer_sides_shrink_first(nx, ny - 1, cap);
        law_grids_shrink_no_more_than_needed(nx, ny - 1, cap);
    }
}

/// Every coordinate falls into one of the cells, and one past the last cell into the last.
pub proof fn law_axis_cells(quotient: Binary64, count: int)
    requires
        count >= 1,
    ensures
        0 <= axis_cell(quotient, count) < count,
        axis_cell(quotient, count) <= index_of(quotient),
        axis_cell(quotient, count) == index_of(quotient) || axis_cell(quotient, count) == count - 1,
        index_of(quotient) < count ==> axis_cell(quotient, count) == index_of(quotient),
{
    law_indices(quotient);
}

/// Two cells of a periodic axis are as far apart as the shorter way round: the distance is
/// symmetric, at most half the axis, and leads from one cell to the other.
pub proof fn law_axis_distances(left: int, right: int, count: int)
    requires
        0 <= left < count,
        0 <= right < count,
    ensures
        ({
            let distance = axis_distance(left, right, count);
            &&& distance == axis_distance(right, left, count)
            &&& 0 <= 2 * distance <= count
            &&& distance == 0 <==> left == right
            &&& left + distance == right || right + distance == left || left + distance == right
                + count || right + distance == left + count
        }),
{
}

/// A cell is looked into exactly where it exists and the query reaches the whole axis or the
/// cell is within the span on one side or the other.
pub proof fn law_candidate_cells(center: int, whole_axis: bool, span: int, count: int, cell: int)
    requires
        0 <= center < count,
        0 <= span,
    ensures
        axis_candidate(center, whole_axis, span, count, center),
        whole_axis && 0 <= cell < count ==> axis_candidate(center, whole_axis, span, count, cell),
        !(0 <= cell < count) ==> !axis_candidate(center, whole_axis, span, count, cell),
        !whole_axis && 0 <= cell < count ==> (axis_candidate(
            center,
            whole_axis,
            span,
            count,
            cell,
        ) <==> exists|shift: int|
            -span <= shift <= span && #[trigger] wrapped_cell(center, shift, count, cell)),
{
    if !whole_axis && 0 <= cell < count {
        let gap = cell - center;
        if axis_candidate(center, whole_axis, span, count, cell) {
            if -span <= gap <= span {
                assert(wrapped_cell(center, gap, count, cell));
            } else if gap < 0 {
                assert(wrapped_cell(center, gap + count, count, cell));
            } else {
                assert(wrapped_cell(center, gap - count, count, cell));
            }
        }
        if exists|shift: int|
            -span <= shift <= span && #[trigger] wrapped_cell(center, shift, count, cell) {
            let shift = choose|shift: int|
                -span <= shift <= span && #[trigger] wrapped_cell(center, shift, count, cell);
            assert(shift == gap || shift == gap + count || shift == gap - count);
        }
    }
}

/// Whether a shift leads from one cell of a periodic axis to another, at most once round.
pub open spec fn wrapped_cell(center: int, shift: int, count: int, cell: int) -> bool {
    cell == center + shift || cell == center + shift - count || cell == center + shift + count
}

/// A list of cells holds exactly the cells in it.
pub proof fn law_listed_cells(cells: Seq<usize>, cell: usize)
    ensures
        in_axis(cells, cell as int) <==> cells.contains(cell),
{
    if cells.contains(cell) {
        let k = choose|k: int| 0 <= k < cells.len() && cells[k] == cell;
        assert(cells[k] == cell);
    }
}

/// A particle is in the cell that its two quotients name along the two axes, which is a cell of
/// the grid.
pub proof fn law_particles_have_cells(list: CellList2d, index: int)
    requires
        list.counts().0 >= 1,
        list.counts().1 >= 1,
    ensures
        0 <= list.cell_of(index).0 < list.counts().0,
        0 <= list.cell_of(index).1 < list.counts().1,
        index_of(list.quotients()[index].x) < list.counts().0 ==> list.cell_of(index).0 == index_of(
            list.quotients()[index].x,
        ),
        index_of(list.quotients()[index].y) < list.counts().1 ==> list.cell_of(index).1 == index_of(
            list.quotients()[index].y,
        ),
        index_of(list.quotients()[index].x) >= list.counts().0 ==> list.cell_of(index).0
            == list.counts().0 - 1,
        index_of(list.quotients()[index].y) >= list.counts().1 ==> list.cell_of(index).1
            == list.counts().1 - 1,
{
    law_indices(list.quotients()[index].x);
    law_indices(list.quotients()[index].y);
}

} // verus!
