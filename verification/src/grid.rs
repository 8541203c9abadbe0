//! The static world grid and its per-frame visibility scan. The world is a
//! fixed rectangle of cube cells centered on the origin; each frame, every
//! cell's center is tested against the camera position and only cells within
//! the render distance are handed to the renderer. The scan is exact integer
//! arithmetic on squared distances, so the boundary case — distance equal to
//! the threshold — is included, and the returned positions and their count
//! are proved to match the visibility predicate.

use vstd::prelude::*;
use crate::space::{dist_sq, dist_sq_spec, point_in_range, Vec3Milli};

verus! {

/// Cells along the grid's x axis.
pub const LAND_SIZE_X: i64 = 100;

/// Cells along the grid's z axis.
pub const LAND_SIZE_Z: i64 = 50;

/// Edge length of one cube cell, in milli-units.
pub const CUBE_SIZE_MILLI: i64 = 2000;

/// Half the cube edge, in milli-units.
pub const CUBE_HALF_MILLI: i64 = 1000;

/// Only cells within this distance of the camera are rendered, in milli-units.
pub const RENDER_DISTANCE_MILLI: i64 = 50000;

/// Offset that centers the grid on the origin along x, in milli-units.
pub const GRID_OFFSET_X_MILLI: i64 = 100000;

/// Offset that centers the grid on the origin along z, in milli-units.
pub const GRID_OFFSET_Z_MILLI: i64 = 50000;

/// The cell coordinates lie on the grid.
pub open spec fn in_grid(x: int, z: int) -> bool {
    0 <= x < LAND_SIZE_X && 0 <= z < LAND_SIZE_Z
}

/// World x coordinate of the cell at grid column `x`, in milli-units.
pub open spec fn cell_pos_x(x: int) -> int {
    x * CUBE_SIZE_MILLI - GRID_OFFSET_X_MILLI
}

/// World z coordinate of the cell at grid row `z`, in milli-units.
pub open spec fn cell_pos_z(z: int) -> int {
    z * CUBE_SIZE_MILLI - GRID_OFFSET_Z_MILLI
}

/// World position of a grid cell's center; the grid sits at height zero.
pub open spec fn cell_center_spec(x: int, z: int) -> Vec3Milli {
    Vec3Milli { x: cell_pos_x(x) as i64, y: 0, z: cell_pos_z(z) as i64 }
}

/// The cell at `(x, z)` lies within the render distance of the camera:
/// squared distance at most the squared threshold, so a cell exactly on the
/// boundary is included.
pub open spec fn cell_visible(cam: Vec3Milli, x: int, z: int) -> bool {
    dist_sq_spec(cell_center_spec(x, z), cam) <= RENDER_DISTANCE_MILLI * RENDER_DISTANCE_MILLI
}

/// How many cells of row `x` with grid row index below `z_end` are visible.
pub open spec fn row_visible_count(cam: Vec3Milli, x: int, z_end: int) -> int
    decreases z_end,
{
    if z_end <= 0 {
        0
    } else {
        row_visible_count(cam, x, z_end - 1) + if cell_visible(cam, x, z_end - 1) {
            1int
        } else {
            0int
        }
    }
}

/// How many cells of the rows with column index below `x_end` are visible.
pub open spec fn visible_count_rows(cam: Vec3Milli, x_end: int) -> int
    decreases x_end,
{
    if x_end <= 0 {
        0
    } else {
        visible_count_rows(cam, x_end - 1) + row_visible_count(
            cam,
            x_end - 1,
            LAND_SIZE_Z as int,
        )
    }
}

/// How many of the grid's cells are visible from the camera.
pub open spec fn visible_count(cam: Vec3Milli) -> int {
    visible_count_rows(cam, LAND_SIZE_X as int)
}

/// The centers of the visible cells of row `x` with grid row index below
/// `z_end`, in increasing row order.
pub open spec fn row_visible_seq(cam: Vec3Milli, x: int, z_end: int) -> Seq<Vec3Milli>
    decreases z_end,
{
    if z_end <= 0 {
        Seq::empty()
    } else {
        row_visible_seq(cam, x, z_end - 1) + if cell_visible(cam, x, z_end - 1) {
            seq![cell_center_spec(x, z_end - 1)]
        } else {
            Seq::empty()
        }
    }
}

/// The centers of the visible cells of the rows with column index below
/// `x_end`, row by row.
pub open spec fn visible_seq_rows(cam: Vec3Milli, x_end: int) -> Seq<Vec3Milli>
    decreases x_end,
{
    if x_end <= 0 {
        Seq::empty()
    } else {
        visible_seq_rows(cam, x_end - 1) + row_visible_seq(cam, x_end - 1, LAND_SIZE_Z as int)
    }
}

/// The centers of all visible grid cells, in row-major scan order.
pub open spec fn visible_positions(cam: Vec3Milli) -> Seq<Vec3Milli> {
    visible_seq_rows(cam, LAND_SIZE_X as int)
}

/// A partial row's visible centers are as many as its visible count.
proof fn lemma_row_seq_len(cam: Vec3Milli, x: int, z_end: int)
    ensures
        row_visible_seq(cam, x, z_end).len() == row_visible_count(cam, x, z_end),
    decreases z_end,
{
    if z_end > 0 {
        lemma_row_seq_len(cam, x, z_end - 1);
    }
}

/// The first rows' visible centers are as many as their visible count.
proof fn lemma_rows_seq_len(cam: Vec3Milli, x_end: int)
    ensures
        visible_seq_rows(cam, x_end).len() == visible_count_rows(cam, x_end),
    decreases x_end,
{
    if x_end > 0 {
        lemma_rows_seq_len(cam, x_end - 1);
        lemma_row_seq_len(cam, x_end - 1, LAND_SIZE_Z as int);
    }
}

/// Scan the whole grid and return the centers of the cells within render
/// distance of `cam`, in row-major scan order.
pub fn visible_cells(cam: Vec3Milli) -> (cells: Vec<Vec3Milli>)
    requires
        point_in_range(cam),
    ensures
        cells@ == visible_positions(cam),
        cells@.len() == visible_count(cam),
        forall|i: int| 0 <= i < cells@.len() ==> point_in_range(#[trigger] cells@[i]),
{
    let mut cells: Vec<Vec3Milli> = Vec::new();
    let mut x: i64 = 0;
    while x < LAND_SIZE_X
        invariant
            0 <= x <= LAND_SIZE_X,
            point_in_range(cam),
            cells@ == visible_seq_rows(cam, x as int),
        decreases LAND_SIZE_X - x,
    {
        let mut z: i64 = 0;
        while z < LAND_SIZE_Z
            invariant
                0 <= x < LAND_SIZE_X,
                0 <= z <= LAND_SIZE_Z,
                point_in_range(cam),
                cells@ == visible_seq_rows(cam, x as int) + row_visible_seq(
                    cam,
                    x as int,
                    z as int,
                ),
            decreases LAND_SIZE_Z - z,
        {
            let px: i64 = x * CUBE_SIZE_MILLI - GRID_OFFSET_X_MILLI;
            let pz: i64 = z * CUBE_SIZE_MILLI - GRID_OFFSET_Z_MILLI;
            let center: Vec3Milli = Vec3Milli { x: px, y: 0, z: pz };
            assert(center == cell_center_spec(x as int, z as int));
            let d: i64 = dist_sq(center, cam);
            if d <= RENDER_DISTANCE_MILLI * RENDER_DISTANCE_MILLI {
                cells.push(center);
            }
            assert(cells@ =~= visible_seq_rows(cam, x as int) + row_visible_seq(
                cam,
                x as int,
                z as int + 1,
            ));
            z = z + 1;
        }
        assert(cells@ =~= visible_seq_rows(cam, x as int + 1));
        x = x + 1;
    }
    proof {
        lemma_rows_seq_len(cam, LAND_SIZE_X as int);
        assert forall|i: int| 0 <= i < cells@.len() implies point_in_range(
            #[trigger] cells@[i],
        ) by {
            lemma_visible_positions_sound(cam, i);
            let (x, z) = choose|x: int, z: int|
                in_grid(x, z) && #[trigger] cell_visible(cam, x, z) && visible_positions(cam)[i]
                    == cell_center_spec(x, z);
            assert(-100000 <= cell_pos_x(x) <= 98000);
            assert(-50000 <= cell_pos_z(z) <= 48000);
        }
    }
    cells
}

/// Scan the whole grid and return how many cells are within render distance
/// of `cam`.
pub fn count_visible(cam: Vec3Milli) -> (n: usize)
    requires
        point_in_range(cam),
    ensures
        n == visible_count(cam),
{
    let cells: Vec<Vec3Milli> = visible_cells(cam);
    cells.len()
}

/// A partial row's visible count is between zero and the cells considered.
proof fn lemma_row_count_bounds(cam: Vec3Milli, x: int, z_end: int)
    requires
        z_end >= 0,
    ensures
        0 <= row_visible_count(cam, x, z_end) <= z_end,
    decreases z_end,
{
    if z_end > 0 {
        lemma_row_count_bounds(cam, x, z_end - 1);
    }
}

/// The first rows' visible count is between zero and the cells considered.
proof fn lemma_rows_count_bounds(cam: Vec3Milli, x_end: int)
    requires
        x_end >= 0,
    ensures
        0 <= visible_count_rows(cam, x_end) <= x_end * LAND_SIZE_Z,
    decreases x_end,
{
    if x_end > 0 {
        lemma_rows_count_bounds(cam, x_end - 1);
        lemma_row_count_bounds(cam, x_end - 1, LAND_SIZE_Z as int);
        assert((x_end - 1) * LAND_SIZE_Z + LAND_SIZE_Z == x_end * LAND_SIZE_Z) by (nonlinear_arith);
    }
}

/// The rendered count never exceeds the grid's total cell count, whatever
/// the camera position.
pub proof fn lemma_visible_count_le_total(cam: Vec3Milli)
    ensures
        0 <= visible_count(cam) <= LAND_SIZE_X * LAND_SIZE_Z,
{
    lemma_rows_count_bounds(cam, LAND_SIZE_X as int);
}

/// The grid cells visible from the camera, as a set of cell coordinates.
pub open spec fn visible_cell_set(cam: Vec3Milli) -> Set<(int, int)> {
    Set::new(|p: (int, int)| in_grid(p.0, p.1) && cell_visible(cam, p.0, p.1))
}

/// The visible cells of row `x` with grid row index below `z_end`.
spec fn row_cell_set(cam: Vec3Milli, x: int, z_end: int) -> Set<(int, int)> {
    Set::new(|p: (int, int)| p.0 == x && 0 <= p.1 < z_end && cell_visible(cam, x, p.1))
}

/// The visible cells of the rows with column index below `x_end`.
spec fn rows_cell_set(cam: Vec3Milli, x_end: int) -> Set<(int, int)> {
    Set::new(
        |p: (int, int)| 0 <= p.0 < x_end && 0 <= p.1 < LAND_SIZE_Z && cell_visible(cam, p.0, p.1),
    )
}

/// Joining a partial row's visible cells onto a finite set that holds no
/// cell of that row grows its cardinality by the row's visible count.
proof fn lemma_union_row_card(cam: Vec3Milli, s: Set<(int, int)>, x: int, z_end: int)
    requires
        s.finite(),
        z_end >= 0,
        forall|p: (int, int)| s.contains(p) ==> p.0 != x,
    ensures
        (s + row_cell_set(cam, x, z_end)).finite(),
        (s + row_cell_set(cam, x, z_end)).len() == s.len() + row_visible_count(cam, x, z_end),
    decreases z_end,
{
    if z_end == 0 {
        assert(s + row_cell_set(cam, x, 0) =~= s);
    } else {
        lemma_union_row_card(cam, s, x, z_end - 1);
        let prev = s + row_cell_set(cam, x, z_end - 1);
        if cell_visible(cam, x, z_end - 1) {
            assert(s + row_cell_set(cam, x, z_end) =~= prev.insert((x, z_end - 1)));
            assert(!prev.contains((x, z_end - 1)));
            vstd::set::axiom_set_insert_finite(prev, (x, z_end - 1));
            vstd::set::axiom_set_insert_len(prev, (x, z_end - 1));
        } else {
            assert(s + row_cell_set(cam, x, z_end) =~= prev);
        }
    }
}

/// The first rows' visible cells number exactly their visible count.
proof fn lemma_rows_card(cam: Vec3Milli, x_end: int)
    requires
        x_end >= 0,
    ensures
        rows_cell_set(cam, x_end).finite(),
        rows_cell_set(cam, x_end).len() == visible_count_rows(cam, x_end),
    decreases x_end,
{
    if x_end == 0 {
        assert(rows_cell_set(cam, 0) =~= Set::<(int, int)>::empty());
    } else {
        lemma_rows_card(cam, x_end - 1);
        lemma_union_row_card(cam, rows_cell_set(cam, x_end - 1), x_end - 1, LAND_SIZE_Z as int);
        assert(rows_cell_set(cam, x_end) =~= rows_cell_set(cam, x_end - 1) + row_cell_set(
            cam,
            x_end - 1,
            LAND_SIZE_Z as int,
        ));
    }
}

/// The rendered count is exactly the number of grid cells whose center lies
/// within the render distance of the camera.
pub proof fn lemma_visible_count_is_cell_count(cam: Vec3Milli)
    ensures
        visible_cell_set(cam).finite(),
        visible_count(cam) == visible_cell_set(cam).len(),
{
    lemma_rows_card(cam, LAND_SIZE_X as int);
    assert(visible_cell_set(cam) =~= rows_cell_set(cam, LAND_SIZE_X as int));
}

/// Every element of a partial row's center sequence is the center of one of
/// that partial row's visible cells.
proof fn lemma_row_seq_sound(cam: Vec3Milli, x: int, z_end: int, i: int)
    requires
        0 <= i < row_visible_seq(cam, x, z_end).len(),
    ensures
        exists|z: int|
            0 <= z < z_end && #[trigger] cell_visible(cam, x, z) && row_visible_seq(
                cam,
                x,
                z_end,
            )[i] == cell_center_spec(x, z),
    decreases z_end,
{
    let prefix = row_visible_seq(cam, x, z_end - 1);
    if i < prefix.len() {
        lemma_row_seq_sound(cam, x, z_end - 1, i);
        let z = choose|z: int|
            0 <= z < z_end - 1 && #[trigger] cell_visible(cam, x, z) && prefix[i]
                == cell_center_spec(x, z);
        assert(row_visible_seq(cam, x, z_end)[i] == cell_center_spec(x, z));
    } else {
        assert(cell_visible(cam, x, z_end - 1));
        assert(row_visible_seq(cam, x, z_end)[i] == cell_center_spec(x, z_end - 1));
    }
}

/// Every element of the first rows' center sequence is the center of a
/// visible cell of those rows.
proof fn lemma_rows_seq_sound(cam: Vec3Milli, x_end: int, i: int)
    requires
        0 <= i < visible_seq_rows(cam, x_end).len(),
    ensures
        exists|x: int, z: int|
            0 <= x < x_end && 0 <= z < LAND_SIZE_Z && #[trigger] cell_visible(cam, x, z)
                && visible_seq_rows(cam, x_end)[i] == cell_center_spec(x, z),
    decreases x_end,
{
    let prefix = visible_seq_rows(cam, x_end - 1);
    if i < prefix.len() {
        lemma_rows_seq_sound(cam, x_end - 1, i);
        let (x, z) = choose|x: int, z: int|
            0 <= x < x_end - 1 && 0 <= z < LAND_SIZE_Z && #[trigger] cell_visible(cam, x, z)
                && prefix[i] == cell_center_spec(x, z);
        assert(visible_seq_rows(cam, x_end)[i] == cell_center_spec(x, z));
    } else {
        lemma_row_seq_sound(cam, x_end - 1, LAND_SIZE_Z as int, i - prefix.len());
        let z = choose|z: int|
            0 <= z < LAND_SIZE_Z && #[trigger] cell_visible(cam, x_end - 1, z) && row_visible_seq(
                cam,
                x_end - 1,
                LAND_SIZE_Z as int,
            )[i - prefix.len()] == cell_center_spec(x_end - 1, z);
        assert(visible_seq_rows(cam, x_end)[i] == cell_center_spec(x_end - 1, z));
    }
}

/// Every returned position is the center of a visible grid cell.
pub proof fn lemma_visible_positions_sound(cam: Vec3Milli, i: int)
    requires
        0 <= i < visible_positions(cam).len(),
    ensures
        exists|x: int, z: int|
            in_grid(x, z) && #[trigger] cell_visible(cam, x, z) && visible_positions(cam)[i]
                == cell_center_spec(x, z),
{
    lemma_rows_seq_sound(cam, LAND_SIZE_X as int, i);
}

/// A visible cell of a partial row has its center in that partial row's
/// center sequence.
proof fn lemma_row_seq_complete(cam: Vec3Milli, x: int, z_end: int, z: int)
    requires
        0 <= z < z_end,
        cell_visible(cam, x, z),
    ensures
        row_visible_seq(cam, x, z_end).contains(cell_center_spec(x, z)),
    decreases z_end,
{
    let prefix = row_visible_seq(cam, x, z_end - 1);
    if z == z_end - 1 {
        assert(row_visible_seq(cam, x, z_end)[prefix.len() as int] == cell_center_spec(x, z));
    } else {
        lemma_row_seq_complete(cam, x, z_end - 1, z);
        let i = choose|i: int|
            0 <= i < prefix.len() && prefix[i] == cell_center_spec(x, z);
        assert(row_visible_seq(cam, x, z_end)[i] == cell_center_spec(x, z));
    }
}

/// A visible cell of the first rows has its center in their center sequence.
proof fn lemma_rows_seq_complete(cam: Vec3Milli, x_end: int, x: int, z: int)
    requires
        0 <= x < x_end,
        0 <= z < LAND_SIZE_Z,
        cell_visible(cam, x, z),
    ensures
        visible_seq_rows(cam, x_end).contains(cell_center_spec(x, z)),
    decreases x_end,
{
    let prefix = visible_seq_rows(cam, x_end - 1);
    if x == x_end - 1 {
        lemma_row_seq_complete(cam, x, LAND_SIZE_Z as int, z);
        let row = row_visible_seq(cam, x, LAND_SIZE_Z as int);
        let i = choose|i: int| 0 <= i < row.len() && row[i] == cell_center_spec(x, z);
        assert(visible_seq_rows(cam, x_end)[prefix.len() + i] == cell_center_spec(x, z));
    } else {
        lemma_rows_seq_complete(cam, x_end - 1, x, z);
        let i = choose|i: int|
            0 <= i < prefix.len() && prefix[i] == cell_center_spec(x, z);
        assert(visible_seq_rows(cam, x_end)[i] == cell_center_spec(x, z));
    }
}

/// Every visible grid cell's center is among the returned positions.
pub proof fn lemma_visible_positions_complete(cam: Vec3Milli, x: int, z: int)
    requires
        in_grid(x, z),
        cell_visible(cam, x, z),
    ensures
        visible_positions(cam).contains(cell_center_spec(x, z)),
{
    lemma_rows_seq_complete(cam, LAND_SIZE_X as int, x, z);
}

} // verus!
