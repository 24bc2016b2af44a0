//! Which cubes the terrain holds.
//!
//! The terrain is defined as a list, built column by column. The lemmas
//! here say the same thing cell by cell: the list holds one cube for every
//! level of every column on which a cube is placed, it holds nothing else,
//! and it holds them in the order of rows, then columns, then levels.
//! Together the three determine the list.

use crate::scene::{
    canopy_cell, canopy_cubes, canopy_keeps, column_cubes, cube_at, row_cubes, terrain_cubes, Cube,
};
use crate::terrain::{column_height, cube_material, cube_placed, lemma_column_height_bounds};
use vstd::prelude::*;

verus! {

/// The cube is the one that the terrain rules put at its own position, on
/// a grid of the given size.
pub open spec fn follows_rules(cube: Cube, grid_size: int) -> bool {
    let x = cube.position.x as int;
    let y = cube.position.y as int;
    let z = cube.position.z as int;
    let top = column_height(x, z, grid_size);
    &&& x < grid_size
    &&& z < grid_size
    &&& y <= top
    &&& cube_placed(x, z, y, grid_size)
    &&& cube.material == cube_material(x, z, y, top)
}

/// The first cube comes before the second in the order of the terrain:
/// an earlier row, or the same row and an earlier column, or the same
/// column and a lower level.
pub open spec fn laid_before(a: Cube, b: Cube) -> bool {
    ||| a.position.z < b.position.z
    ||| a.position.z == b.position.z && a.position.x < b.position.x
    ||| a.position.z == b.position.z && a.position.x == b.position.x && a.position.y
        < b.position.y
}

proof fn lemma_column_member(x: int, z: int, top: int, grid_size: int, levels: int, i: int)
    requires
        0 <= x <= usize::MAX,
        0 <= z <= usize::MAX,
        0 <= levels <= usize::MAX,
        0 <= i < column_cubes(x, z, top, grid_size, levels).len(),
    ensures
        ({
            let cube = column_cubes(x, z, top, grid_size, levels)[i];
            &&& cube.position.x == x
            &&& cube.position.z == z
            &&& i <= cube.position.y < levels
            &&& cube_placed(x, z, cube.position.y as int, grid_size)
            &&& cube.material == cube_material(x, z, cube.position.y as int, top)
        }),
    decreases levels,
{
    if levels > 0 {
        let below = column_cubes(x, z, top, grid_size, levels - 1);
        lemma_column_length(x, z, top, grid_size, levels - 1);
        if i < below.len() {
            lemma_column_member(x, z, top, grid_size, levels - 1, i);
        }
    }
}

proof fn lemma_column_length(x: int, z: int, top: int, grid_size: int, levels: int)
    requires
        0 <= levels,
    ensures
        column_cubes(x, z, top, grid_size, levels).len() <= levels,
    decreases levels,
{
    if levels > 0 {
        lemma_column_length(x, z, top, grid_size, levels - 1);
    }
}

proof fn lemma_column_holds(x: int, z: int, top: int, grid_size: int, levels: int, y: int) -> (i:
    int)
    requires
        0 <= x <= usize::MAX,
        0 <= z <= usize::MAX,
        0 <= y < levels <= usize::MAX,
        cube_placed(x, z, y, grid_size),
    ensures
        0 <= i < column_cubes(x, z, top, grid_size, levels).len(),
        column_cubes(x, z, top, grid_size, levels)[i] == cube_at(
            x,
            y,
            z,
            cube_material(x, z, y, top),
        ),
    decreases levels,
{
    let below = column_cubes(x, z, top, grid_size, levels - 1);
    if y == levels - 1 {
        below.len() as int
    } else {
        lemma_column_holds(x, z, top, grid_size, levels - 1, y)
    }
}

proof fn lemma_column_order(x: int, z: int, top: int, grid_size: int, levels: int, i: int, j: int)
    requires
        0 <= x <= usize::MAX,
        0 <= z <= usize::MAX,
        0 <= levels <= usize::MAX,
        0 <= i < j < column_cubes(x, z, top, grid_size, levels).len(),
    ensures
        column_cubes(x, z, top, grid_size, levels)[i].position.y < column_cubes(
            x,
            z,
            top,
            grid_size,
            levels,
        )[j].position.y,
    decreases levels,
{
    if levels > 0 {
        let below = column_cubes(x, z, top, grid_size, levels - 1);
        if j < below.len() {
            lemma_column_order(x, z, top, grid_size, levels - 1, i, j);
        } else {
            lemma_column_member(x, z, top, grid_size, levels - 1, i);
        }
    }
}

proof fn lemma_row_member(z: int, grid_size: int, columns: int, i: int)
    requires
        0 <= z <= usize::MAX,
        0 <= columns <= grid_size <= usize::MAX,
        0 <= i < row_cubes(z, grid_size, columns).len(),
    ensures
        ({
            let cube = row_cubes(z, grid_size, columns)[i];
            let x = cube.position.x as int;
            let y = cube.position.y as int;
            let top = column_height(x, z, grid_size);
            &&& x < columns
            &&& cube.position.z == z
            &&& y <= top
            &&& cube_placed(x, z, y, grid_size)
            &&& cube.material == cube_material(x, z, y, top)
        }),
    decreases columns,
{
    if columns > 0 {
        let x = columns - 1;
        let before = row_cubes(z, grid_size, x);
        let top = column_height(x, z, grid_size);
        lemma_column_height_bounds(x, z, grid_size);
        if i < before.len() {
            lemma_row_member(z, grid_size, x, i);
        } else {
            lemma_column_member(x, z, top, grid_size, top + 1, i - before.len());
        }
    }
}

proof fn lemma_row_holds(z: int, grid_size: int, columns: int, x: int, y: int) -> (i: int)
    requires
        0 <= z <= usize::MAX,
        0 <= x < columns <= grid_size <= usize::MAX,
        0 <= y <= column_height(x, z, grid_size),
        cube_placed(x, z, y, grid_size),
    ensures
        0 <= i < row_cubes(z, grid_size, columns).len(),
        row_cubes(z, grid_size, columns)[i] == cube_at(
            x,
            y,
            z,
            cube_material(x, z, y, column_height(x, z, grid_size)),
        ),
    decreases columns,
{
    let last = columns - 1;
    let before = row_cubes(z, grid_size, last);
    if x == last {
        let top = column_height(x, z, grid_size);
        lemma_column_height_bounds(x, z, grid_size);
        let k = lemma_column_holds(x, z, top, grid_size, top + 1, y);
        before.len() + k
    } else {
        lemma_row_holds(z, grid_size, last, x, y)
    }
}

proof fn lemma_row_order(z: int, grid_size: int, columns: int, i: int, j: int)
    requires
        0 <= z <= usize::MAX,
        0 <= columns <= grid_size <= usize::MAX,
        0 <= i < j < row_cubes(z, grid_size, columns).len(),
    ensures
        laid_before(row_cubes(z, grid_size, columns)[i], row_cubes(z, grid_size, columns)[j]),
    decreases columns,
{
    if columns > 0 {
        let x = columns - 1;
        let before = row_cubes(z, grid_size, x);
        let top = column_height(x, z, grid_size);
        lemma_column_height_bounds(x, z, grid_size);
        if j < before.len() {
            lemma_row_order(z, grid_size, x, i, j);
        } else if i < before.len() {
            lemma_row_member(z, grid_size, x, i);
            lemma_column_member(x, z, top, grid_size, top + 1, j - before.len());
        } else {
            lemma_column_member(x, z, top, grid_size, top + 1, i - before.len());
            lemma_column_member(x, z, top, grid_size, top + 1, j - before.len());
            lemma_column_order(
                x,
                z,
                top,
                grid_size,
                top + 1,
                i - before.len(),
                j - before.len(),
            );
        }
    }
}

proof fn lemma_rows_member(grid_size: int, rows: int, i: int)
    requires
        0 <= rows <= grid_size <= usize::MAX,
        0 <= i < terrain_cubes(grid_size, rows).len(),
    ensures
        follows_rules(terrain_cubes(grid_size, rows)[i], grid_size),
        terrain_cubes(grid_size, rows)[i].position.z < rows,
    decreases rows,
{
    if rows > 0 {
        let before = terrain_cubes(grid_size, rows - 1);
        if i < before.len() {
            lemma_rows_member(grid_size, rows - 1, i);
        } else {
            lemma_row_member(rows - 1, grid_size, grid_size, i - before.len());
        }
    }
}

proof fn lemma_rows_hold(grid_size: int, rows: int, x: int, y: int, z: int) -> (i: int)
    requires
        0 <= z < rows <= grid_size <= usize::MAX,
        0 <= x < grid_size,
        0 <= y <= column_height(x, z, grid_size),
        cube_placed(x, z, y, grid_size),
    ensures
        0 <= i < terrain_cubes(grid_size, rows).len(),
        terrain_cubes(grid_size, rows)[i] == cube_at(
            x,
            y,
            z,
            cube_material(x, z, y, column_height(x, z, grid_size)),
        ),
    decreases rows,
{
    let last = rows - 1;
    let before = terrain_cubes(grid_size, last);
    if z == last {
        let k = lemma_row_holds(z, grid_size, grid_size, x, y);
        before.len() + k
    } else {
        lemma_rows_hold(grid_size, last, x, y, z)
    }
}

proof fn lemma_rows_order(grid_size: int, rows: int, i: int, j: int)
    requires
        0 <= rows <= grid_size <= usize::MAX,
        0 <= i < j < terrain_cubes(grid_size, rows).len(),
    ensures
        laid_before(terrain_cubes(grid_size, rows)[i], terrain_cubes(grid_size, rows)[j]),
    decreases rows,
{
    if rows > 0 {
        let before = terrain_cubes(grid_size, rows - 1);
        if j < before.len() {
            lemma_rows_order(grid_size, rows - 1, i, j);
        } else if i < before.len() {
            lemma_rows_member(grid_size, rows - 1, i);
            lemma_row_member(rows - 1, grid_size, grid_size, j - before.len());
        } else {
            lemma_row_member(rows - 1, grid_size, grid_size, i - before.len());
            lemma_row_member(rows - 1, grid_size, grid_size, j - before.len());
            lemma_row_order(rows - 1, grid_size, grid_size, i - before.len(), j - before.len());
        }
    }
}

/// Every cell of the canopy block that is kept is among the leaves. The
/// result is its index.
pub proof fn lemma_canopy_holds(n: int, cell: int) -> (i: int)
    requires
        0 <= cell < n,
        canopy_keeps(cell),
    ensures
        0 <= i < canopy_cubes(n).len(),
        canopy_cubes(n)[i] == canopy_cell(cell),
    decreases n,
{
    if cell == n - 1 {
        canopy_cubes(n - 1).len() as int
    } else {
        lemma_canopy_holds(n - 1, cell)
    }
}

/// Every cube of the terrain is one that the rules place: it stands on a
/// column of the grid, no higher than the column's top, where the
/// placement rule lays a cube, and it has the material that the material
/// rule gives.
pub proof fn lemma_terrain_follows_rules(grid_size: int, i: int)
    requires
        0 <= grid_size <= usize::MAX,
        0 <= i < terrain_cubes(grid_size, grid_size).len(),
    ensures
        follows_rules(terrain_cubes(grid_size, grid_size)[i], grid_size),
{
    lemma_rows_member(grid_size, grid_size, i);
}

/// Every cube that the rules place is in the terrain: for each level of
/// each column on which the placement rule lays a cube, the terrain holds
/// that cube with the material of the material rule. The result is its
/// index.
pub proof fn lemma_terrain_holds_placed(grid_size: int, x: int, y: int, z: int) -> (i: int)
    requires
        0 <= grid_size <= usize::MAX,
        0 <= x < grid_size,
        0 <= z < grid_size,
        0 <= y <= column_height(x, z, grid_size),
        cube_placed(x, z, y, grid_size),
    ensures
        0 <= i < terrain_cubes(grid_size, grid_size).len(),
        terrain_cubes(grid_size, grid_size)[i] == cube_at(
            x,
            y,
            z,
            cube_material(x, z, y, column_height(x, z, grid_size)),
        ),
{
    lemma_rows_hold(grid_size, grid_size, x, y, z)
}

/// The terrain is laid in order, so no position occurs twice.
pub proof fn lemma_terrain_is_ordered(grid_size: int, i: int, j: int)
    requires
        0 <= grid_size <= usize::MAX,
        0 <= i < j < terrain_cubes(grid_size, grid_size).len(),
    ensures
        laid_before(
            terrain_cubes(grid_size, grid_size)[i],
            terrain_cubes(grid_size, grid_size)[j],
        ),
        terrain_cubes(grid_size, grid_size)[i].position != terrain_cubes(
            grid_size,
            grid_size,
        )[j].position,
{
    lemma_rows_order(grid_size, grid_size, i, j);
}

} // verus!
